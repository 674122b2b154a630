use vstd::prelude::*;
use crate::models::task::TaskStatus;

verus! {

/// Which tasks to show by workflow status.
#[derive(Debug, Clone, Copy, PartialEq, Eq, Structural)]
pub enum StatusFilter {
    All,
    Todo,
    Doing,
    Done,
    Blocked,
}

impl StatusFilter {
    /// Every status filter, in display order.
    pub fn all() -> (v: Vec<StatusFilter>)
        ensures
            v@ == seq![
                StatusFilter::All,
                StatusFilter::Todo,
                StatusFilter::Doing,
                StatusFilter::Done,
                StatusFilter::Blocked,
            ],
    {
        let mut v = Vec::new();
        v.push(StatusFilter::All);
        v.push(StatusFilter::Todo);
        v.push(StatusFilter::Doing);
        v.push(StatusFilter::Done);
        v.push(StatusFilter::Blocked);
        v
    }

    pub open spec fn spec_label(self) -> Seq<char> {
        match self {
            StatusFilter::All => "All"@,
            StatusFilter::Todo => "Todo"@,
            StatusFilter::Doing => "Doing"@,
            StatusFilter::Done => "Done"@,
            StatusFilter::Blocked => "Blocked"@,
        }
    }

    /// The single status a filter selects, or `None` for `All`.
    pub open spec fn selected(self) -> Option<TaskStatus> {
        match self {
            StatusFilter::All => None,
            StatusFilter::Todo => Some(TaskStatus::Todo),
            StatusFilter::Doing => Some(TaskStatus::Doing),
            StatusFilter::Done => Some(TaskStatus::Done),
            StatusFilter::Blocked => Some(TaskStatus::Blocked),
        }
    }

    pub open spec fn spec_matches(self, status: TaskStatus) -> bool {
        match self.selected() {
            None => true,
            Some(s) => s == status,
        }
    }

    pub fn label(self) -> (s: &'static str)
        ensures
            s@ == self.spec_label(),
    {
        match self {
            StatusFilter::All => "All",
            StatusFilter::Todo => "Todo",
            StatusFilter::Doing => "Doing",
            StatusFilter::Done => "Done",
            StatusFilter::Blocked => "Blocked",
        }
    }

    pub fn matches(self, status: TaskStatus) -> (b: bool)
        ensures
            b == self.spec_matches(status),
    {
        match self {
            StatusFilter::All => true,
            StatusFilter::Todo => status == TaskStatus::Todo,
            StatusFilter::Doing => status == TaskStatus::Doing,
            StatusFilter::Done => status == TaskStatus::Done,
            StatusFilter::Blocked => status == TaskStatus::Blocked,
        }
    }
}

/// Every status is matched by `All` and by exactly one specific filter.
pub proof fn law_status_filter_partition(s: TaskStatus, f: StatusFilter, g: StatusFilter)
    requires
        f != StatusFilter::All,
        g != StatusFilter::All,
        f.spec_matches(s),
        g.spec_matches(s),
    ensures
        f == g,
        StatusFilter::All.spec_matches(s),
{
}

} // verus!
