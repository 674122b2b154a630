//! Task changes of the main window; each is recorded for undo and saved to
//! the open list.
use vstd::prelude::*;
use crate::app::state::is_open;
use crate::main_window::link::IpcMessage;
use crate::main_window::message::{Effect, EffectView};
use crate::main_window::state::{MainView, Taskscape};
use crate::models::task::{Task, TaskView, copy_tasks, new_task_view};
use crate::text::{trim_text, trimmed};

verus! {

/// Appends `more` to `effects`.
pub fn append_effects(effects: &mut Vec<Effect>, more: Vec<Effect>)
    ensures
        final(effects).deep_view() == old(effects).deep_view() + more.deep_view(),
{
    let mut more = more;
    let ghost m = more.deep_view();
    effects.append(&mut more);
    assert(effects.deep_view() =~= old(effects).deep_view() + m);
}

impl Taskscape {
    /// Saving the open list, when one is open.
    pub fn persist_current(&self) -> (e: Vec<Effect>)
        ensures
            e.deep_view() == self@.persist_effects(),
    {
        let mut e = Vec::new();
        if let Some(name) = &self.current_list {
            e.push(Effect::SaveList { name: name.clone() });
        }
        assert(e.deep_view() =~= self@.persist_effects());
        e
    }

    /// Sending the open list to the tray service, when it is linked.
    pub fn resync_tray(&self) -> (e: Vec<Effect>)
        ensures
            e.deep_view() == self@.resync_effects(),
    {
        let mut e = Vec::new();
        if self.ipc_connected {
            let list_name = match &self.current_list {
                Some(n) => Some(n.clone()),
                None => None,
            };
            e.push(Effect::Send(IpcMessage::Hello { list_name, tasks: copy_tasks(&self.tasks) }));
        }
        assert(e.deep_view() =~= self@.resync_effects());
        e
    }

    /// Mirroring a change to the tray service.
    pub fn broadcast(&self, message: IpcMessage) -> (e: Vec<Effect>)
        ensures
            e.deep_view() == self@.broadcast_effects(message.deep_view()),
    {
        let mut e = Vec::new();
        let ghost m = message.deep_view();
        if !self.applying_remote && self.ipc_connected {
            e.push(Effect::Send(message));
        }
        assert(e.deep_view() =~= self@.broadcast_effects(m));
        e
    }

    /// Telling the tray service about the shortcut, when it is linked.
    pub fn send_hotkey_config(&self) -> (e: Vec<Effect>)
        ensures
            e.deep_view() == self@.hotkey_effects(),
    {
        let mut e = Vec::new();
        if self.ipc_connected {
            e.push(
                Effect::Send(
                    IpcMessage::SetHotkey {
                        hotkey: Some(self.hotkey.duplicate()),
                        enabled: self.hotkey_enabled,
                    },
                ),
            );
        }
        assert(e.deep_view() =~= self@.hotkey_effects());
        e
    }

    /// Writing the settings to the configuration.
    pub fn persist_settings(&self) -> (e: Vec<Effect>)
        ensures
            e.deep_view() == seq![EffectView::PersistSettings(self@.settings())],
    {
        let mut e = Vec::new();
        e.push(Effect::PersistSettings(self.settings()));
        assert(e.deep_view() =~= seq![EffectView::PersistSettings(self@.settings())]);
        e
    }

    pub fn push_history(&mut self)
        ensures
            final(self)@ == old(self)@.pushed_history(),
    {
        let snap = crate::app::snapshot::AppSnapshot { tasks: copy_tasks(&self.tasks) };
        self.undo_stack.push(snap);
        self.redo_stack.clear();
        assert(self@ =~= old(self)@.pushed_history());
    }

    /// Adds the task typed in the composer; returns its title, or `None` when
    /// the input is blank.
    pub fn add_task(&mut self) -> (r: (Option<String>, Vec<Effect>))
        ensures
            (final(self)@, r.1.deep_view()) == old(self)@.after_add_task(),
            match r.0 {
                Some(title) => title@ == trimmed(old(self)@.title_input) && title@.len() > 0,
                None => trimmed(old(self)@.title_input).len() == 0,
            },
    {
        let title = trim_text(self.title_input.as_str());
        if title.unicode_len() == 0 {
            return (None, Vec::new());
        }
        self.push_history();
        let ghost pushed = self@;
        self.tasks.push(Task::new(title.clone()));
        self.title_input = String::new();
        self.status_message = String::from_str("Task added.");
        assert(self@.tasks =~= pushed.tasks.push(new_task_view(title@)));
        assert(self@ =~= old(self)@.after_add_task().0);
        let e = self.persist_current();
        (Some(title), e)
    }

    /// Adds a task with the given title as is (a change from the tray).
    pub fn add_task_with_title(&mut self, title: String) -> (e: Vec<Effect>)
        ensures
            (final(self)@, e.deep_view()) == old(self)@.after_add_task_with_title(title@),
    {
        let t = trim_text(title.as_str());
        if t.unicode_len() == 0 {
            return Vec::new();
        }
        self.push_history();
        let ghost pushed = self@;
        let ghost tv = title@;
        self.tasks.push(Task::new(title));
        self.status_message = String::from_str("Task added.");
        assert(self@.tasks =~= pushed.tasks.push(new_task_view(tv)));
        assert(self@ =~= old(self)@.after_add_task_with_title(tv).0);
        self.persist_current()
    }

    pub fn remove_task(&mut self, index: usize) -> (e: Vec<Effect>)
        ensures
            (final(self)@, e.deep_view()) == old(self)@.after_remove_task(index),
    {
        if index < self.tasks.len() {
            assert(self@.tasks.len() == self.tasks@.len());
            self.push_history();
            assert(self@.tasks.len() == self.tasks@.len());
            let ghost pushed = self@;
            self.tasks.remove(index);
            self.status_message = String::from_str("Task removed.");
            assert(self@.tasks =~= pushed.tasks.remove(index as int));
            assert(self@ =~= old(self)@.after_remove_task(index).0);
            self.persist_current()
        } else {
            Vec::new()
        }
    }

    pub fn toggle_task_completed(&mut self, index: usize, completed: bool) -> (e: Vec<Effect>)
        ensures
            (final(self)@, e.deep_view()) == old(self)@.after_toggle_task(index, completed),
    {
        if index < self.tasks.len() {
            assert(self@.tasks.len() == self.tasks@.len());
            self.push_history();
            assert(self@.tasks.len() == self.tasks@.len());
            let ghost pushed = self@;
            let mut task = self.tasks[index].duplicate();
            task.completed = completed;
            self.tasks.set(index, task);
            self.status_message = if completed {
                String::from_str("Task marked complete.")
            } else {
                String::from_str("Task marked open.")
            };
            assert(self@.tasks =~= pushed.tasks.update(
                index as int,
                TaskView { completed, ..pushed.tasks[index as int] },
            ));
            assert(self@ =~= old(self)@.after_toggle_task(index, completed).0);
            self.persist_current()
        } else {
            Vec::new()
        }
    }

    pub fn clear_completed(&mut self) -> (e: Vec<Effect>)
        ensures
            (final(self)@, e.deep_view()) == old(self)@.after_clear_completed(),
    {
        self.push_history();
        let ghost pushed = self@;
        let ghost keep = |t: TaskView| is_open(t);
        let mut kept: Vec<Task> = Vec::new();
        let n = self.tasks.len();
        for i in 0..n
            invariant
                n == self.tasks.len(),
                self.tasks.deep_view() == pushed.tasks,
                forall|t: TaskView| #[trigger] keep(t) == is_open(t),
                kept.deep_view() == pushed.tasks.take(i as int).filter(keep),
        {
            proof {
                reveal(Seq::filter);
                assert(pushed.tasks.take(i + 1).drop_last() =~= pushed.tasks.take(i as int));
                assert(pushed.tasks[i as int] == self.tasks@[i as int].deep_view());
            }
            if !self.tasks[i].is_completed() {
                let ghost before = kept.deep_view();
                kept.push(self.tasks[i].duplicate());
                assert(kept.deep_view() =~= before.push(pushed.tasks[i as int]));
            }
        }
        assert(pushed.tasks.take(n as int) =~= pushed.tasks);
        self.tasks = kept;
        self.status_message = String::from_str("Completed tasks removed.");
        assert(self@ =~= old(self)@.after_clear_completed().0);
        self.persist_current()
    }

    pub fn clear_all(&mut self) -> (e: Vec<Effect>)
        ensures
            (final(self)@, e.deep_view()) == old(self)@.after_clear_all(),
    {
        self.push_history();
        self.tasks.clear();
        self.status_message = String::from_str("All tasks removed.");
        assert(self@ =~= old(self)@.after_clear_all().0);
        self.persist_current()
    }

    pub fn undo(&mut self) -> (e: Vec<Effect>)
        ensures
            (final(self)@, e.deep_view()) == old(self)@.after_undo(),
    {
        if let Some(previous) = self.undo_stack.pop() {
            let snap = crate::app::snapshot::AppSnapshot { tasks: copy_tasks(&self.tasks) };
            self.redo_stack.push(snap);
            self.tasks = previous.tasks;
            self.status_message = String::from_str("Undid the last change.");
            assert(self@.undo_stack =~= old(self)@.undo_stack.drop_last());
            assert(self@.redo_stack =~= old(self)@.redo_stack.push(old(self)@.tasks));
            assert(self@ =~= old(self)@.after_undo().0);
            self.persist_current()
        } else {
            Vec::new()
        }
    }

    pub fn redo(&mut self) -> (e: Vec<Effect>)
        ensures
            (final(self)@, e.deep_view()) == old(self)@.after_redo(),
    {
        if let Some(next) = self.redo_stack.pop() {
            let snap = crate::app::snapshot::AppSnapshot { tasks: copy_tasks(&self.tasks) };
            self.undo_stack.push(snap);
            self.tasks = next.tasks;
            self.status_message = String::from_str("Restored the undone change.");
            assert(self@.redo_stack =~= old(self)@.redo_stack.drop_last());
            assert(self@.undo_stack =~= old(self)@.undo_stack.push(old(self)@.tasks));
            assert(self@ =~= old(self)@.after_redo().0);
            self.persist_current()
        } else {
            Vec::new()
        }
    }

    /// Leaves the settings page and stops recording a shortcut.
    pub fn leave_settings(&mut self)
        ensures
            final(self)@ == old(self)@.after_leave_settings(),
    {
        self.show_settings = false;
        self.recording_hotkey = false;
        assert(self@ =~= old(self)@.after_leave_settings());
    }

    /// The number of open tasks.
    pub fn open_count(&self) -> (n: usize)
        ensures
            n == self@.tasks.filter(|t: TaskView| is_open(t)).len(),
    {
        let ghost keep = |t: TaskView| is_open(t);
        let ghost tasks = self@.tasks;
        let mut count: usize = 0;
        let len = self.tasks.len();
        for i in 0..len
            invariant
                len == self.tasks.len(),
                tasks == self@.tasks,
                forall|t: TaskView| #[trigger] keep(t) == is_open(t),
                count == tasks.take(i as int).filter(keep).len(),
                count <= i,
        {
            proof {
                reveal(Seq::filter);
                assert(tasks.take(i + 1).drop_last() =~= tasks.take(i as int));
                assert(tasks[i as int] == self.tasks@[i as int].deep_view());
            }
            if !self.tasks[i].is_completed() {
                count = count + 1;
            }
        }
        assert(tasks.take(len as int) =~= tasks);
        count
    }

    /// The number of completed tasks: all tasks but the open ones.
    pub fn completed_count(&self) -> (n: usize)
        ensures
            n == self@.tasks.filter(|t: TaskView| crate::app::state::is_done(t)).len(),
    {
        let open = self.open_count();
        proof {
            crate::app::actions::law_counts_add_up(
                crate::app::state::TaskscapeView {
                    tasks: self@.tasks,
                    ..crate::app::state::initial_view(crate::app::state::AppRole::Main)
                },
            );
        }
        self.tasks.len() - open
    }

    pub fn total_count(&self) -> (n: usize)
        ensures
            n == self@.tasks.len(),
    {
        self.tasks.len()
    }
}

} // verus!
