use vstd::prelude::*;

verus! {

/// The order in which the task list is shown.
#[derive(Debug, Clone, Copy, PartialEq, Eq, Structural)]
pub enum SortMode {
    Manual,
    Newest,
    Oldest,
    DueDate,
    Priority,
    Alphabetical,
}

impl SortMode {
    /// Every sort mode, in display order.
    pub fn all() -> (v: Vec<SortMode>)
        ensures
            v@ == seq![
                SortMode::Manual,
                SortMode::Newest,
                SortMode::Oldest,
                SortMode::DueDate,
                SortMode::Priority,
                SortMode::Alphabetical,
            ],
    {
        let mut v = Vec::new();
        v.push(SortMode::Manual);
        v.push(SortMode::Newest);
        v.push(SortMode::Oldest);
        v.push(SortMode::DueDate);
        v.push(SortMode::Priority);
        v.push(SortMode::Alphabetical);
        v
    }

    pub open spec fn spec_label(self) -> Seq<char> {
        match self {
            SortMode::Manual => "Manual"@,
            SortMode::Newest => "Newest"@,
            SortMode::Oldest => "Oldest"@,
            SortMode::DueDate => "Due date"@,
            SortMode::Priority => "Priority"@,
            SortMode::Alphabetical => "A-Z"@,
        }
    }

    pub fn label(self) -> (s: &'static str)
        ensures
            s@ == self.spec_label(),
    {
        match self {
            SortMode::Manual => "Manual",
            SortMode::Newest => "Newest",
            SortMode::Oldest => "Oldest",
            SortMode::DueDate => "Due date",
            SortMode::Priority => "Priority",
            SortMode::Alphabetical => "A-Z",
        }
    }
}

} // verus!
