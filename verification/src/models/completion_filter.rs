use vstd::prelude::*;
use crate::models::task::{Task, TaskStatus, TaskView};

verus! {

/// Which tasks to show by their completion and archive state.
#[derive(Debug, Clone, Copy, PartialEq, Eq, Structural)]
pub enum CompletionFilter {
    Active,
    Completed,
    Pending,
    Archived,
    All,
}

impl CompletionFilter {
    /// Every completion filter, in display order.
    pub fn all() -> (v: Vec<CompletionFilter>)
        ensures
            v@ == seq![
                CompletionFilter::Active,
                CompletionFilter::Completed,
                CompletionFilter::Pending,
                CompletionFilter::Archived,
                CompletionFilter::All,
            ],
    {
        let mut v = Vec::new();
        v.push(CompletionFilter::Active);
        v.push(CompletionFilter::Completed);
        v.push(CompletionFilter::Pending);
        v.push(CompletionFilter::Archived);
        v.push(CompletionFilter::All);
        v
    }

    pub open spec fn spec_label(self) -> Seq<char> {
        match self {
            CompletionFilter::Active => "Active"@,
            CompletionFilter::Completed => "Completed"@,
            CompletionFilter::Pending => "Pending"@,
            CompletionFilter::Archived => "Archived"@,
            CompletionFilter::All => "All"@,
        }
    }

    /// Whether a task passes this filter: active tasks are neither archived
    /// nor completed, pending ones are unarchived and still to do or in
    /// progress, and `All` lets everything through.
    pub open spec fn spec_matches(self, task: TaskView) -> bool {
        match self {
            CompletionFilter::Active => !task.archived && !task.completed,
            CompletionFilter::Completed => task.completed,
            CompletionFilter::Pending => !task.archived && (task.status == TaskStatus::Todo
                || task.status == TaskStatus::Doing),
            CompletionFilter::Archived => task.archived,
            CompletionFilter::All => true,
        }
    }

    pub fn label(self) -> (s: &'static str)
        ensures
            s@ == self.spec_label(),
    {
        match self {
            CompletionFilter::Active => "Active",
            CompletionFilter::Completed => "Completed",
            CompletionFilter::Pending => "Pending",
            CompletionFilter::Archived => "Archived",
            CompletionFilter::All => "All",
        }
    }

    pub fn matches(self, task: &Task) -> (b: bool)
        ensures
            b == self.spec_matches(task@),
    {
        match self {
            CompletionFilter::Active => !task.archived && !task.is_completed(),
            CompletionFilter::Completed => task.is_completed(),
            CompletionFilter::Pending => !task.archived && (task.status == TaskStatus::Todo
                || task.status == TaskStatus::Doing),
            CompletionFilter::Archived => task.archived,
            CompletionFilter::All => true,
        }
    }
}

/// `All` lets every task through, and no task is both active and completed.
pub proof fn law_completion_filters(task: TaskView)
    ensures
        CompletionFilter::All.spec_matches(task),
        !(CompletionFilter::Active.spec_matches(task) && CompletionFilter::Completed.spec_matches(
            task,
        )),
        CompletionFilter::Active.spec_matches(task) ==> CompletionFilter::Pending.spec_matches(task)
            || task.status == TaskStatus::Done || task.status == TaskStatus::Blocked,
{
}

} // verus!
