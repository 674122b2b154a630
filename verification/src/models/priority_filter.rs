use vstd::prelude::*;
use crate::models::priority::Priority;

verus! {

/// Which tasks to show by priority.
#[derive(Debug, Clone, Copy, PartialEq, Eq, Structural)]
pub enum PriorityFilter {
    All,
    Low,
    Medium,
    High,
    Critical,
}

impl PriorityFilter {
    /// Every priority filter, in display order.
    pub fn all() -> (v: Vec<PriorityFilter>)
        ensures
            v@ == seq![
                PriorityFilter::All,
                PriorityFilter::Low,
                PriorityFilter::Medium,
                PriorityFilter::High,
                PriorityFilter::Critical,
            ],
    {
        let mut v = Vec::new();
        v.push(PriorityFilter::All);
        v.push(PriorityFilter::Low);
        v.push(PriorityFilter::Medium);
        v.push(PriorityFilter::High);
        v.push(PriorityFilter::Critical);
        v
    }

    pub open spec fn spec_label(self) -> Seq<char> {
        match self {
            PriorityFilter::All => "All"@,
            PriorityFilter::Low => "Low"@,
            PriorityFilter::Medium => "Medium"@,
            PriorityFilter::High => "High"@,
            PriorityFilter::Critical => "Critical"@,
        }
    }

    /// The single priority a filter selects, or `None` for `All`.
    pub open spec fn selected(self) -> Option<Priority> {
        match self {
            PriorityFilter::All => None,
            PriorityFilter::Low => Some(Priority::Low),
            PriorityFilter::Medium => Some(Priority::Medium),
            PriorityFilter::High => Some(Priority::High),
            PriorityFilter::Critical => Some(Priority::Critical),
        }
    }

    pub open spec fn spec_matches(self, priority: Priority) -> bool {
        match self.selected() {
            None => true,
            Some(p) => p == priority,
        }
    }

    pub fn label(self) -> (s: &'static str)
        ensures
            s@ == self.spec_label(),
    {
        match self {
            PriorityFilter::All => "All",
            PriorityFilter::Low => "Low",
            PriorityFilter::Medium => "Medium",
            PriorityFilter::High => "High",
            PriorityFilter::Critical => "Critical",
        }
    }

    pub fn matches(self, priority: Priority) -> (b: bool)
        ensures
            b == self.spec_matches(priority),
    {
        match self {
            PriorityFilter::All => true,
            PriorityFilter::Low => priority == Priority::Low,
            PriorityFilter::Medium => priority == Priority::Medium,
            PriorityFilter::High => priority == Priority::High,
            PriorityFilter::Critical => priority == Priority::Critical,
        }
    }
}

/// A specific priority filter lets through exactly one priority, and its
/// label is that priority's short label.
pub proof fn law_priority_filter_selects_one(f: PriorityFilter, p: Priority, q: Priority)
    requires
        f != PriorityFilter::All,
        f.spec_matches(p),
        f.spec_matches(q),
    ensures
        p == q,
        f.spec_label() == p.spec_short_label(),
{
}

} // verus!
