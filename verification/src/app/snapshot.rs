use vstd::prelude::*;
use crate::models::task::{Task, TaskView};

verus! {

/// The task list as it was before a change, kept for undo and redo.
#[derive(Debug)]
pub struct AppSnapshot {
    pub tasks: Vec<Task>,
}

impl DeepView for AppSnapshot {
    type V = Seq<TaskView>;

    open spec fn deep_view(&self) -> Seq<TaskView> {
        self.tasks.deep_view()
    }
}

} // verus!
