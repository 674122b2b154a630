use vstd::prelude::*;
use crate::models::priority::Priority;

verus! {

/// Where a task stands in its workflow.
#[derive(Debug, Clone, Copy, PartialEq, Eq, Structural)]
pub enum TaskStatus {
    Todo,
    Doing,
    Done,
    Blocked,
}

/// One entry of the task list.
#[derive(Debug)]
pub struct Task {
    pub title: String,
    pub priority: Priority,
    pub due_date: Option<String>,
    pub completed: bool,
    pub status: TaskStatus,
    pub archived: bool,
}

/// The content of a task, with its texts as character sequences.
pub struct TaskView {
    pub title: Seq<char>,
    pub priority: Priority,
    pub due_date: Option<Seq<char>>,
    pub completed: bool,
    pub status: TaskStatus,
    pub archived: bool,
}

/// A fresh task with the given title: medium priority, no due date, open,
/// in the `Todo` state and not archived.
pub open spec fn new_task_view(title: Seq<char>) -> TaskView {
    TaskView {
        title,
        priority: Priority::Medium,
        due_date: None,
        completed: false,
        status: TaskStatus::Todo,
        archived: false,
    }
}

pub open spec fn option_text_view(o: Option<String>) -> Option<Seq<char>> {
    match o {
        Some(s) => Some(s@),
        None => None,
    }
}

impl View for Task {
    type V = TaskView;

    open spec fn view(&self) -> TaskView {
        TaskView {
            title: self.title@,
            priority: self.priority,
            due_date: option_text_view(self.due_date),
            completed: self.completed,
            status: self.status,
            archived: self.archived,
        }
    }
}

impl DeepView for Task {
    type V = TaskView;

    open spec fn deep_view(&self) -> TaskView {
        self@
    }
}

impl Task {
    /// Creates an open task with the given title and default attributes.
    pub fn new(title: String) -> (t: Task)
        ensures
            t@ == new_task_view(title@),
    {
        Task {
            title,
            priority: Priority::Medium,
            due_date: None,
            completed: false,
            status: TaskStatus::Todo,
            archived: false,
        }
    }

    pub fn is_completed(&self) -> (b: bool)
        ensures
            b == self.completed,
    {
        self.completed
    }

    /// A new task with the same content as this one.
    pub fn duplicate(&self) -> (t: Task)
        ensures
            t@ == self@,
    {
        let due_date = match &self.due_date {
            Some(d) => Some(d.clone()),
            None => None,
        };
        Task {
            title: self.title.clone(),
            priority: self.priority,
            due_date,
            completed: self.completed,
            status: self.status,
            archived: self.archived,
        }
    }
}

/// A new list holding tasks with the same content, in the same order.
pub fn copy_tasks(tasks: &Vec<Task>) -> (out: Vec<Task>)
    ensures
        out.deep_view() == tasks.deep_view(),
{
    let mut out: Vec<Task> = Vec::new();
    let n = tasks.len();
    for i in 0..n
        invariant
            n == tasks.len(),
            out.deep_view() =~= tasks.deep_view().take(i as int),
    {
        out.push(tasks[i].duplicate());
        assert(tasks.deep_view().take(i + 1) =~= tasks.deep_view().take(i as int).push(
            tasks@[i as int].deep_view(),
        ));
    }
    assert(tasks.deep_view().take(n as int) =~= tasks.deep_view());
    out
}

} // verus!
