use vstd::prelude::*;

verus! {

/// How urgent a task is, from least to most pressing.
#[derive(Debug, Clone, Copy, PartialEq, Eq, Structural)]
pub enum Priority {
    Low,
    Medium,
    High,
    Critical,
}

impl Priority {
    /// Every priority, from lowest to highest.
    pub fn all() -> (v: Vec<Priority>)
        ensures
            v@ == seq![Priority::Low, Priority::Medium, Priority::High, Priority::Critical],
    {
        let mut v = Vec::new();
        v.push(Priority::Low);
        v.push(Priority::Medium);
        v.push(Priority::High);
        v.push(Priority::Critical);
        v
    }

    /// The long, descriptive name of a priority.
    pub open spec fn spec_label(self) -> Seq<char> {
        match self {
            Priority::Low => "Low priority"@,
            Priority::Medium => "Medium priority"@,
            Priority::High => "High priority"@,
            Priority::Critical => "Critical priority"@,
        }
    }

    /// The one-word name of a priority.
    pub open spec fn spec_short_label(self) -> Seq<char> {
        match self {
            Priority::Low => "Low"@,
            Priority::Medium => "Medium"@,
            Priority::High => "High"@,
            Priority::Critical => "Critical"@,
        }
    }

    /// The numeric rank of a priority: `Low` is 0 and each step up adds one.
    pub open spec fn spec_rank(self) -> u8 {
        match self {
            Priority::Low => 0,
            Priority::Medium => 1,
            Priority::High => 2,
            Priority::Critical => 3,
        }
    }

    pub fn label(self) -> (s: &'static str)
        ensures
            s@ == self.spec_label(),
    {
        match self {
            Priority::Low => "Low priority",
            Priority::Medium => "Medium priority",
            Priority::High => "High priority",
            Priority::Critical => "Critical priority",
        }
    }

    pub fn short_label(self) -> (s: &'static str)
        ensures
            s@ == self.spec_short_label(),
    {
        match self {
            Priority::Low => "Low",
            Priority::Medium => "Medium",
            Priority::High => "High",
            Priority::Critical => "Critical",
        }
    }

    pub fn rank(self) -> (r: u8)
        ensures
            r == self.spec_rank(),
    {
        match self {
            Priority::Low => 0,
            Priority::Medium => 1,
            Priority::High => 2,
            Priority::Critical => 3,
        }
    }

    /// The text a priority is displayed as: its long label.
    pub fn to_text(self) -> (s: String)
        ensures
            s@ == self.spec_label(),
    {
        self.label().to_owned()
    }
}

impl Default for Priority {
    fn default() -> (p: Self)
        ensures
            p == Priority::Medium,
    {
        Priority::Medium
    }
}

/// Ranks are distinct and follow the order `Low < Medium < High < Critical`;
/// so two priorities are equal exactly when their ranks are.
pub proof fn law_rank_orders_priorities(a: Priority, b: Priority)
    ensures
        a.spec_rank() <= 3,
        a.spec_rank() == b.spec_rank() <==> a == b,
        Priority::Low.spec_rank() < Priority::Medium.spec_rank(),
        Priority::Medium.spec_rank() < Priority::High.spec_rank(),
        Priority::High.spec_rank() < Priority::Critical.spec_rank(),
{
}

} // verus!
