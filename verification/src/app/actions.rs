//! Changes to the task list, each recorded for undo.
use vstd::prelude::*;
use crate::app::snapshot::AppSnapshot;
use crate::app::state::{Taskscape, TaskscapeView, is_done, is_open};
use crate::models::task::{Task, TaskView, copy_tasks};
use crate::text::{trim_text, trimmed};

verus! {

proof fn lemma_filter_step(s: Seq<TaskView>, i: int, keep: spec_fn(TaskView) -> bool)
    requires
        0 <= i < s.len(),
    ensures
        s.take(i + 1).filter(keep) == if keep(s[i]) {
            s.take(i).filter(keep).push(s[i])
        } else {
            s.take(i).filter(keep)
        },
{
    reveal(Seq::filter);
    assert(s.take(i + 1).drop_last() =~= s.take(i));
    assert(s.take(i + 1).last() == s[i]);
}

/// Every task is either open or done, so the two counts add up to the total.
proof fn lemma_counts_add_up(s: Seq<TaskView>)
    ensures
        s.filter(|t: TaskView| is_open(t)).len() + s.filter(|t: TaskView| is_done(t)).len()
            == s.len(),
    decreases s.len(),
{
    reveal(Seq::filter);
    if s.len() > 0 {
        lemma_counts_add_up(s.drop_last());
    }
}

impl Taskscape {
    /// The current task list, saved for later.
    pub fn snapshot(&self) -> (snap: AppSnapshot)
        ensures
            snap.deep_view() == self@.tasks,
    {
        AppSnapshot { tasks: copy_tasks(&self.tasks) }
    }

    /// Replaces the task list with a saved one.
    pub fn restore_snapshot(&mut self, snapshot: AppSnapshot)
        ensures
            final(self)@ == (TaskscapeView { tasks: snapshot.deep_view(), ..old(self)@ }),
    {
        self.tasks = snapshot.tasks;
    }

    /// Saves the current list for undo and forgets what could be redone.
    pub fn push_history(&mut self)
        ensures
            final(self)@ == old(self)@.pushed_history(),
    {
        let snap = self.snapshot();
        self.undo_stack.push(snap);
        self.redo_stack.clear();
        assert(self@.undo_stack =~= old(self)@.undo_stack.push(old(self)@.tasks));
        assert(self@.redo_stack =~= Seq::<Seq<TaskView>>::empty());
        assert(self@ =~= old(self)@.pushed_history());
    }

    /// Adds the task typed in the composer. Returns the added title, or
    /// `None` when the input holds nothing but white space (nothing is added).
    pub fn add_task(&mut self) -> (r: Option<String>)
        ensures
            final(self)@ == old(self)@.after_add_task(),
            match r {
                Some(title) => title@ == trimmed(old(self)@.title_input) && title@.len() > 0,
                None => trimmed(old(self)@.title_input).len() == 0,
            },
    {
        let title = trim_text(self.title_input.as_str());
        if title.unicode_len() == 0 {
            return None;
        }
        self.push_history();
        let ghost pushed = self@;
        self.tasks.push(Task::new(title.clone()));
        self.title_input = String::new();
        self.due_date_input = String::new();
        self.status_message = String::from_str("Task added.");
        assert(self@.tasks =~= pushed.tasks.push(crate::models::task::new_task_view(title@)));
        assert(self@ =~= old(self)@.after_add_task());
        Some(title)
    }

    /// Adds a task with the given title as is (a change that came from the
    /// peer); a title of only white space is ignored.
    pub fn add_task_with_title(&mut self, title: String)
        ensures
            final(self)@ == old(self)@.after_add_task_with_title(title@),
    {
        let trimmed_title = trim_text(title.as_str());
        if trimmed_title.unicode_len() == 0 {
            return;
        }
        self.push_history();
        let ghost pushed = self@;
        let ghost t = title@;
        self.tasks.push(Task::new(title));
        self.status_message = String::from_str("Task added.");
        assert(self@.tasks =~= pushed.tasks.push(crate::models::task::new_task_view(t)));
        assert(self@ =~= old(self)@.after_add_task_with_title(t));
    }

    /// Removes the task at `index`; an index past the end changes nothing.
    pub fn remove_task(&mut self, index: usize)
        ensures
            final(self)@ == old(self)@.after_remove_task(index),
    {
        if index >= self.tasks.len() {
            return;
        }
        self.push_history();
        let ghost pushed = self@;
        self.tasks.remove(index);
        self.status_message = String::from_str("Task removed.");
        assert(self@.tasks =~= pushed.tasks.remove(index as int));
        assert(self@ =~= old(self)@.after_remove_task(index));
    }

    /// Marks the task at `index` complete or open; an index past the end
    /// changes nothing.
    pub fn toggle_task_completed(&mut self, index: usize, completed: bool)
        ensures
            final(self)@ == old(self)@.after_toggle_task(index, completed),
    {
        if index >= self.tasks.len() {
            return;
        }
        self.push_history();
        let ghost pushed = self@;
        let mut task = self.tasks[index].duplicate();
        task.completed = completed;
        self.tasks.set(index, task);
        self.status_message = if completed {
            String::from_str("Task marked complete.")
        } else {
            String::from_str("Task marked open.")
        };
        assert(self@.tasks =~= pushed.tasks.update(
            index as int,
            TaskView { completed, ..pushed.tasks[index as int] },
        ));
        assert(self@ =~= old(self)@.after_toggle_task(index, completed));
    }

    /// Removes the completed tasks, keeping the open ones in order.
    pub fn clear_completed(&mut self)
        ensures
            final(self)@ == old(self)@.after_clear_completed(),
    {
        self.push_history();
        let ghost pushed = self@;
        let ghost keep = |t: TaskView| is_open(t);
        let old_tasks = &self.tasks;
        let mut kept: Vec<Task> = Vec::new();
        let n = old_tasks.len();
        for i in 0..n
            invariant
                n == old_tasks.len(),
                old_tasks.deep_view() == pushed.tasks,
                forall|t: TaskView| #[trigger] keep(t) == is_open(t),
                kept.deep_view() == pushed.tasks.take(i as int).filter(keep),
        {
            proof {
                lemma_filter_step(pushed.tasks, i as int, keep);
                assert(pushed.tasks[i as int] == old_tasks@[i as int].deep_view());
                assert(keep(pushed.tasks[i as int]) == !old_tasks@[i as int].completed);
            }
            if !old_tasks[i].is_completed() {
                let ghost before = kept.deep_view();
                kept.push(old_tasks[i].duplicate());
                assert(kept.deep_view() =~= before.push(pushed.tasks[i as int]));
            }
        }
        assert(pushed.tasks.take(n as int) =~= pushed.tasks);
        self.tasks = kept;
        self.status_message = String::from_str("Completed tasks removed.");
        assert(self@ =~= old(self)@.after_clear_completed());
    }

    /// Removes every task.
    pub fn clear_all(&mut self)
        ensures
            final(self)@ == old(self)@.after_clear_all(),
    {
        self.push_history();
        self.tasks.clear();
        self.status_message = String::from_str("All tasks removed.");
        assert(self@ =~= old(self)@.after_clear_all());
    }

    /// Steps back to the list before the last change, if any.
    pub fn undo(&mut self)
        ensures
            final(self)@ == old(self)@.after_undo(),
    {
        if let Some(previous) = self.undo_stack.pop() {
            let snap = self.snapshot();
            self.redo_stack.push(snap);
            self.restore_snapshot(previous);
            self.status_message = String::from_str("Undid the last change.");
            assert(self@.undo_stack =~= old(self)@.undo_stack.drop_last());
            assert(self@.redo_stack =~= old(self)@.redo_stack.push(old(self)@.tasks));
            assert(self@ =~= old(self)@.after_undo());
        }
    }

    /// Steps forward to the list before the last undo, if any.
    pub fn redo(&mut self)
        ensures
            final(self)@ == old(self)@.after_redo(),
    {
        if let Some(next) = self.redo_stack.pop() {
            let snap = self.snapshot();
            self.undo_stack.push(snap);
            self.restore_snapshot(next);
            self.status_message = String::from_str("Restored the undone change.");
            assert(self@.redo_stack =~= old(self)@.redo_stack.drop_last());
            assert(self@.undo_stack =~= old(self)@.undo_stack.push(old(self)@.tasks));
            assert(self@ =~= old(self)@.after_redo());
        }
    }

    /// Starts an empty list with no history and shows `status`.
    pub fn new_list(&mut self, status: &str)
        ensures
            final(self)@ == old(self)@.after_new_list(status@),
    {
        self.undo_stack.clear();
        self.redo_stack.clear();
        self.tasks.clear();
        self.status_message = status.to_owned();
        assert(self@ =~= old(self)@.after_new_list(status@));
    }

    /// The tasks with their positions in the list.
    pub fn visible_tasks(&self) -> (v: Vec<(usize, &Task)>)
        ensures
            v@.len() == self.tasks@.len(),
            forall|i: int|
                0 <= i < v@.len() ==> (#[trigger] v@[i]).0 == i && v@[i].1 == self.tasks@[i],
    {
        let mut v: Vec<(usize, &Task)> = Vec::new();
        let n = self.tasks.len();
        for i in 0..n
            invariant
                n == self.tasks.len(),
                v@.len() == i,
                forall|k: int| 0 <= k < i ==> (#[trigger] v@[k]).0 == k && v@[k].1 == self.tasks@[k],
        {
            v.push((i, &self.tasks[i]));
        }
        v
    }

    /// The number of open tasks.
    pub fn open_count(&self) -> (n: usize)
        ensures
            n == self@.open_count(),
    {
        let ghost keep = |t: TaskView| is_open(t);
        let ghost tasks = self@.tasks;
        let mut count: usize = 0;
        let len = self.tasks.len();
        for i in 0..len
            invariant
                len == self.tasks.len(),
                tasks == self@.tasks,
                forall|t: TaskView| #[trigger] keep(t) == is_open(t),
                count == tasks.take(i as int).filter(keep).len(),
                count <= i,
        {
            proof {
                lemma_filter_step(tasks, i as int, keep);
                assert(tasks[i as int] == self.tasks@[i as int].deep_view());
            }
            if !self.tasks[i].is_completed() {
                count = count + 1;
            }
        }
        assert(tasks.take(len as int) =~= tasks);
        count
    }

    /// The number of completed tasks.
    pub fn completed_count(&self) -> (n: usize)
        ensures
            n == self@.completed_count(),
    {
        let ghost keep = |t: TaskView| is_done(t);
        let ghost tasks = self@.tasks;
        let mut count: usize = 0;
        let len = self.tasks.len();
        for i in 0..len
            invariant
                len == self.tasks.len(),
                tasks == self@.tasks,
                forall|t: TaskView| #[trigger] keep(t) == is_done(t),
                count == tasks.take(i as int).filter(keep).len(),
                count <= i,
        {
            proof {
                lemma_filter_step(tasks, i as int, keep);
                assert(tasks[i as int] == self.tasks@[i as int].deep_view());
            }
            if self.tasks[i].is_completed() {
                count = count + 1;
            }
        }
        assert(tasks.take(len as int) =~= tasks);
        count
    }

    /// The number of tasks.
    pub fn total_count(&self) -> (n: usize)
        ensures
            n == self@.tasks.len(),
    {
        self.tasks.len()
    }
}

/// The open and the completed tasks together are all the tasks.
pub proof fn law_counts_add_up(s: TaskscapeView)
    ensures
        s.open_count() + s.completed_count() == s.tasks.len(),
{
    lemma_counts_add_up(s.tasks);
}

} // verus!
