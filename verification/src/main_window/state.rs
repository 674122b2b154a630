//! The state of the main-window app and its model.
use vstd::prelude::*;
use crate::app::snapshot::AppSnapshot;
use crate::main_window::link::IpcMessageView;
use crate::main_window::message::EffectView;
use crate::main_window::settings::{HotkeySpec, HotkeySpecView, ListEntry, ListEntryView, SettingsView};
use crate::models::task::{Task, TaskView, new_task_view};
use crate::text::trimmed;
use crate::theme::ThemeMode;

verus! {

/// The state of the main-window app. Windows are identified by number.
#[derive(Debug)]
pub struct Taskscape {
    pub window_id: Option<u64>,
    pub theme_mode: ThemeMode,
    pub title_input: String,
    pub status_message: String,
    pub undo_stack: Vec<AppSnapshot>,
    pub redo_stack: Vec<AppSnapshot>,
    pub tasks: Vec<Task>,
    /// The name of the open list, or `None` when no list is open.
    pub current_list: Option<String>,
    /// The saved lists, as the browser shows them.
    pub lists: Vec<ListEntry>,
    /// The name typed for a new list.
    pub new_list_name: String,
    /// While a list is being renamed: its old name and the edited name.
    pub renaming: Option<(String, String)>,
    pub show_list_panel: bool,
    pub show_settings: bool,
    /// Whether the next key combination becomes the global shortcut.
    pub recording_hotkey: bool,
    /// Whether the "Clear all" confirmation is showing.
    pub confirming_clear_all: bool,
    pub reopen_last_list: bool,
    pub confirm_clear_all: bool,
    pub hotkey_enabled: bool,
    pub hotkey: HotkeySpec,
    pub ipc_connected: bool,
    pub applying_remote: bool,
}

/// The model of the main window's state.
#[verifier::ext_equal]
pub struct MainView {
    pub window_id: Option<u64>,
    pub theme_mode: ThemeMode,
    pub title_input: Seq<char>,
    pub status_message: Seq<char>,
    pub undo_stack: Seq<Seq<TaskView>>,
    pub redo_stack: Seq<Seq<TaskView>>,
    pub tasks: Seq<TaskView>,
    pub current_list: Option<Seq<char>>,
    pub lists: Seq<ListEntryView>,
    pub new_list_name: Seq<char>,
    pub renaming: Option<(Seq<char>, Seq<char>)>,
    pub show_list_panel: bool,
    pub show_settings: bool,
    pub recording_hotkey: bool,
    pub confirming_clear_all: bool,
    pub reopen_last_list: bool,
    pub confirm_clear_all: bool,
    pub hotkey_enabled: bool,
    pub hotkey: HotkeySpecView,
    pub ipc_connected: bool,
    pub applying_remote: bool,
}

pub open spec fn renaming_view(r: Option<(String, String)>) -> Option<(Seq<char>, Seq<char>)> {
    match r {
        Some((a, b)) => Some((a@, b@)),
        None => None,
    }
}

impl View for Taskscape {
    type V = MainView;

    open spec fn view(&self) -> MainView {
        MainView {
            window_id: self.window_id,
            theme_mode: self.theme_mode,
            title_input: self.title_input@,
            status_message: self.status_message@,
            undo_stack: self.undo_stack.deep_view(),
            redo_stack: self.redo_stack.deep_view(),
            tasks: self.tasks.deep_view(),
            current_list: crate::app::message::option_text(self.current_list),
            lists: self.lists.deep_view(),
            new_list_name: self.new_list_name@,
            renaming: renaming_view(self.renaming),
            show_list_panel: self.show_list_panel,
            show_settings: self.show_settings,
            recording_hotkey: self.recording_hotkey,
            confirming_clear_all: self.confirming_clear_all,
            reopen_last_list: self.reopen_last_list,
            confirm_clear_all: self.confirm_clear_all,
            hotkey_enabled: self.hotkey_enabled,
            hotkey: self.hotkey@,
            ipc_connected: self.ipc_connected,
            applying_remote: self.applying_remote,
        }
    }
}

/// `text` in double quotes.
pub open spec fn quoted(text: Seq<char>) -> Seq<char> {
    "\""@ + text + "\""@
}

/// The position of the first list named `name`, or the number of lists when
/// there is none.
pub open spec fn first_named(lists: Seq<ListEntryView>, name: Seq<char>) -> int
    decreases lists.len(),
{
    if lists.len() == 0 {
        0
    } else if lists[0].name == name {
        0
    } else {
        1 + first_named(lists.drop_first(), name)
    }
}

impl MainView {
    pub open spec fn with_status(self, text: Seq<char>) -> MainView {
        MainView { status_message: text, ..self }
    }

    /// The settings as they are written to the configuration.
    pub open spec fn settings(self) -> SettingsView {
        SettingsView {
            theme: self.theme_mode,
            reopen_last_list: self.reopen_last_list,
            confirm_clear_all: self.confirm_clear_all,
            hotkey_enabled: self.hotkey_enabled,
            hotkey: self.hotkey,
        }
    }

    /// Saving the open list after a change, when a list is open.
    pub open spec fn persist_effects(self) -> Seq<EffectView> {
        match self.current_list {
            Some(name) => seq![EffectView::SaveList { name }],
            None => Seq::empty(),
        }
    }

    /// Sending the open list to the tray service, when it is linked.
    pub open spec fn resync_effects(self) -> Seq<EffectView> {
        if self.ipc_connected {
            seq![
                EffectView::Send(
                    IpcMessageView::Hello { list_name: self.current_list, tasks: self.tasks },
                ),
            ]
        } else {
            Seq::empty()
        }
    }

    /// Mirroring a change to the tray service, unless it came from there or
    /// the service is not linked.
    pub open spec fn broadcast_effects(self, m: IpcMessageView) -> Seq<EffectView> {
        if !self.applying_remote && self.ipc_connected {
            seq![EffectView::Send(m)]
        } else {
            Seq::empty()
        }
    }

    /// Telling the tray service about the shortcut, when it is linked.
    pub open spec fn hotkey_effects(self) -> Seq<EffectView> {
        if self.ipc_connected {
            seq![
                EffectView::Send(
                    IpcMessageView::SetHotkey { hotkey: Some(self.hotkey), enabled: self.hotkey_enabled },
                ),
            ]
        } else {
            Seq::empty()
        }
    }

    pub open spec fn pushed_history(self) -> MainView {
        MainView { undo_stack: self.undo_stack.push(self.tasks), redo_stack: Seq::empty(), ..self }
    }

    /// Adds the trimmed composer title (unless blank) and saves the list.
    pub open spec fn after_add_task(self) -> (MainView, Seq<EffectView>) {
        let title = trimmed(self.title_input);
        if title.len() == 0 {
            (self, Seq::empty())
        } else {
            let s = self.pushed_history();
            let t = MainView {
                tasks: s.tasks.push(new_task_view(title)),
                title_input: Seq::empty(),
                status_message: "Task added."@,
                ..s
            };
            (t, t.persist_effects())
        }
    }

    /// Adds a task with the given title as is (unless blank) and saves.
    pub open spec fn after_add_task_with_title(self, title: Seq<char>) -> (MainView, Seq<EffectView>) {
        if trimmed(title).len() == 0 {
            (self, Seq::empty())
        } else {
            let s = self.pushed_history();
            let t = MainView {
                tasks: s.tasks.push(new_task_view(title)),
                status_message: "Task added."@,
                ..s
            };
            (t, t.persist_effects())
        }
    }

    /// Removes the task at `index` and saves; when there is none, nothing
    /// changes.
    pub open spec fn after_remove_task(self, index: usize) -> (MainView, Seq<EffectView>) {
        if index >= self.tasks.len() {
            (self, Seq::empty())
        } else {
            let s = self.pushed_history();
            let t = MainView {
                tasks: s.tasks.remove(index as int),
                status_message: "Task removed."@,
                ..s
            };
            (t, t.persist_effects())
        }
    }

    /// Marks the task at `index` complete or open and saves; when there is
    /// none, nothing changes.
    pub open spec fn after_toggle_task(self, index: usize, completed: bool) -> (
        MainView,
        Seq<EffectView>,
    ) {
        if index >= self.tasks.len() {
            (self, Seq::empty())
        } else {
            let s = self.pushed_history();
            let t = MainView {
                tasks: s.tasks.update(
                    index as int,
                    TaskView { completed, ..s.tasks[index as int] },
                ),
                status_message: if completed {
                    "Task marked complete."@
                } else {
                    "Task marked open."@
                },
                ..s
            };
            (t, t.persist_effects())
        }
    }

    pub open spec fn after_clear_completed(self) -> (MainView, Seq<EffectView>) {
        let s = self.pushed_history();
        let t = MainView {
            tasks: s.tasks.filter(|t: TaskView| crate::app::state::is_open(t)),
            status_message: "Completed tasks removed."@,
            ..s
        };
        (t, t.persist_effects())
    }

    pub open spec fn after_clear_all(self) -> (MainView, Seq<EffectView>) {
        let s = self.pushed_history();
        let t = MainView { tasks: Seq::empty(), status_message: "All tasks removed."@, ..s };
        (t, t.persist_effects())
    }

    pub open spec fn after_undo(self) -> (MainView, Seq<EffectView>) {
        if self.undo_stack.len() == 0 {
            (self, Seq::empty())
        } else {
            let t = MainView {
                tasks: self.undo_stack.last(),
                undo_stack: self.undo_stack.drop_last(),
                redo_stack: self.redo_stack.push(self.tasks),
                status_message: "Undid the last change."@,
                ..self
            };
            (t, t.persist_effects())
        }
    }

    pub open spec fn after_redo(self) -> (MainView, Seq<EffectView>) {
        if self.redo_stack.len() == 0 {
            (self, Seq::empty())
        } else {
            let t = MainView {
                tasks: self.redo_stack.last(),
                redo_stack: self.redo_stack.drop_last(),
                undo_stack: self.undo_stack.push(self.tasks),
                status_message: "Restored the undone change."@,
                ..self
            };
            (t, t.persist_effects())
        }
    }

    pub open spec fn after_leave_settings(self) -> MainView {
        MainView { show_settings: false, recording_hotkey: false, ..self }
    }
}

impl Taskscape {
    /// The current settings, for writing to the configuration.
    pub fn settings(&self) -> (s: crate::main_window::settings::Settings)
        ensures
            s@ == self@.settings(),
    {
        crate::main_window::settings::Settings {
            theme: self.theme_mode,
            reopen_last_list: self.reopen_last_list,
            confirm_clear_all: self.confirm_clear_all,
            hotkey_enabled: self.hotkey_enabled,
            hotkey: self.hotkey.duplicate(),
        }
    }

    /// The window title: the open list's name after the app's.
    pub fn title(&self) -> (s: String)
        ensures
            s@ == match self@.current_list {
                Some(name) => "Taskscape — "@ + name,
                None => "Taskscape"@,
            },
    {
        match &self.current_list {
            Some(name) => String::from_str("Taskscape — ").concat(name.as_str()),
            None => String::from_str("Taskscape"),
        }
    }

    /// Whether a list is being renamed.
    pub fn is_renaming(&self) -> (b: bool)
        ensures
            b == self.renaming.is_some(),
    {
        self.renaming.is_some()
    }
}

/// Finds the first list named `name`.
pub fn find_list(lists: &Vec<ListEntry>, name: &str) -> (i: usize)
    ensures
        i == first_named(lists.deep_view(), name@),
        i <= lists.len(),
        i < lists.len() ==> lists@[i as int]@.name == name@,
{
    let n = lists.len();
    let mut i: usize = 0;
    let ghost all = lists.deep_view();
    proof {
        assert(all.skip(0) =~= all);
    }
    while i < n && crate::text::text_order(lists[i].name.as_str(), name) != 0
        invariant
            n == lists.len(),
            all == lists.deep_view(),
            i <= n,
            first_named(all, name@) == i + first_named(all.skip(i as int), name@),
        decreases n - i,
    {
        proof {
            let rest = all.skip(i as int);
            assert(rest[0] == lists@[i as int]@);
            assert(rest.drop_first() =~= all.skip(i + 1));
        }
        i = i + 1;
    }
    proof {
        if i < n {
            assert(all.skip(i as int)[0] == lists@[i as int]@);
        } else {
            assert(all.skip(i as int).len() == 0);
        }
    }
    i
}

} // verus!
