//! Managing the saved lists: open, create, delete, rename, import, export,
//! and restoring the last list at start-up. Storage itself is the host's
//! work; these functions decide what to ask for and take in the outcome.
use vstd::prelude::*;
use crate::app::message::option_text;
use crate::main_window::keys::default_hotkey;
use crate::main_window::message::{Effect, EffectView, LoadPurpose};
use crate::main_window::actions::append_effects;
use crate::main_window::settings::{HotkeySpec, HotkeySpecView, ListEntry, ListEntryView};
use crate::main_window::state::{MainView, Taskscape, find_list, first_named, quoted};
use crate::models::task::{Task, TaskView};
use crate::text::{trim_text, trimmed};
use crate::theme::ThemeMode;

verus! {

/// The saved configuration the app starts from.
#[derive(Debug)]
pub struct Config {
    pub theme: Option<ThemeMode>,
    pub reopen_last_list: bool,
    pub confirm_clear_all: bool,
    pub hotkey_enabled: bool,
    pub hotkey: Option<HotkeySpec>,
    /// The list that was open when the app last ran.
    pub last_open: Option<String>,
}

pub open spec fn start_prompt_text() -> Seq<char> {
    "Create a new list or load one to begin."@
}

/// The state the main window starts in, before any list is read: the
/// default settings overridden by the saved ones, with the saved lists.
pub open spec fn booted_view(
    lists: Seq<ListEntryView>,
    theme: Option<ThemeMode>,
    reopen: bool,
    confirm: bool,
    hotkey_enabled: bool,
    hotkey: HotkeySpecView,
) -> MainView {
    MainView {
        window_id: None,
        theme_mode: match theme {
            Some(t) => t,
            None => ThemeMode::Dark,
        },
        title_input: Seq::empty(),
        status_message: "Ready."@,
        undo_stack: Seq::empty(),
        redo_stack: Seq::empty(),
        tasks: Seq::empty(),
        current_list: None,
        lists,
        new_list_name: Seq::empty(),
        renaming: None,
        show_list_panel: false,
        show_settings: false,
        recording_hotkey: false,
        confirming_clear_all: false,
        reopen_last_list: reopen,
        confirm_clear_all: confirm,
        hotkey_enabled,
        hotkey,
        ipc_connected: false,
        applying_remote: false,
    }
}

impl MainView {
    /// After reading a list: it becomes the open list (named as stored) with
    /// no history. Opening announces it and records it as last open; an
    /// import announces the import whether or not the read worked; a quiet
    /// reopen at start-up says nothing, and asks the user to begin when it
    /// failed. Except for the quiet case the tray service is resynced.
    pub open spec fn after_load(
        self,
        requested: Seq<char>,
        purpose: LoadPurpose,
        result: Result<(Seq<char>, Seq<TaskView>), Seq<char>>,
    ) -> (MainView, Seq<EffectView>) {
        match result {
            Ok((name, tasks)) => {
                let s = MainView {
                    tasks,
                    current_list: Some(name),
                    undo_stack: Seq::empty(),
                    redo_stack: Seq::empty(),
                    ..self
                };
                match purpose {
                    LoadPurpose::Open => {
                        let t = s.with_status("Opened "@ + quoted(name) + "."@);
                        (
                            t,
                            seq![EffectView::RememberOpen { current: Some(name) }]
                                + t.resync_effects(),
                        )
                    },
                    LoadPurpose::Import => {
                        let t = s.with_status("Imported "@ + quoted(requested) + "."@);
                        (
                            t,
                            seq![EffectView::RememberOpen { current: Some(name) }]
                                + t.resync_effects(),
                        )
                    },
                    LoadPurpose::Quiet => (s, Seq::empty()),
                }
            },
            Err(e) => match purpose {
                LoadPurpose::Open => {
                    let t = self.with_status(e);
                    (t, t.resync_effects())
                },
                LoadPurpose::Import => {
                    let t = self.with_status("Imported "@ + quoted(requested) + "."@);
                    (t, t.resync_effects())
                },
                LoadPurpose::Quiet => if self.current_list is None {
                    (self.with_status(start_prompt_text()), Seq::empty())
                } else {
                    (self, Seq::empty())
                },
            },
        }
    }

    /// "Create list" pressed: the trimmed name must be non-blank and new.
    pub open spec fn after_create_request(self) -> (MainView, Seq<EffectView>) {
        let name = trimmed(self.new_list_name);
        if name.len() == 0 {
            let t = self.with_status("Enter a name for the new list."@);
            (t, t.resync_effects())
        } else if first_named(self.lists, name) < self.lists.len() {
            let t = self.with_status("A list named "@ + quoted(name) + " already exists."@);
            (t, t.resync_effects())
        } else {
            (self, seq![EffectView::CreateListFile { name }])
        }
    }

    /// After creating the empty list `name`: it becomes the open list.
    pub open spec fn after_create(self, name: Seq<char>, result: Result<(), Seq<char>>) -> (
        MainView,
        Seq<EffectView>,
    ) {
        match result {
            Ok(()) => {
                let t = MainView {
                    tasks: Seq::empty(),
                    current_list: Some(name),
                    new_list_name: Seq::empty(),
                    undo_stack: Seq::empty(),
                    redo_stack: Seq::empty(),
                    status_message: "Created "@ + quoted(name) + "."@,
                    ..self
                };
                (
                    t,
                    seq![EffectView::RefreshLists, EffectView::RememberOpen { current: Some(name) }]
                        + t.resync_effects(),
                )
            },
            Err(e) => {
                let t = self.with_status(e);
                (t, t.resync_effects())
            },
        }
    }

    /// "Delete list" pressed: deleting a list that is not in the browser
    /// does nothing.
    pub open spec fn after_delete_request(self, name: Seq<char>) -> (MainView, Seq<EffectView>) {
        let i = first_named(self.lists, name);
        if i < self.lists.len() {
            (self, seq![EffectView::DeleteListFile { name, path: self.lists[i].path }])
        } else {
            (self, self.resync_effects())
        }
    }

    /// After deleting list `name`: if it was open the view goes back to the
    /// start prompt; a rename of it is abandoned.
    pub open spec fn after_delete(self, name: Seq<char>, result: Result<(), Seq<char>>) -> (
        MainView,
        Seq<EffectView>,
    ) {
        match result {
            Ok(()) => {
                let was_open = self.current_list == Some(name);
                let s = if was_open {
                    MainView {
                        current_list: None,
                        tasks: Seq::empty(),
                        undo_stack: Seq::empty(),
                        redo_stack: Seq::empty(),
                        ..self
                    }
                } else {
                    self
                };
                let s2 = match s.renaming {
                    Some((from, _)) => if from == name {
                        MainView { renaming: None, ..s }
                    } else {
                        s
                    },
                    None => s,
                };
                let t = s2.with_status("Deleted "@ + quoted(name) + "."@);
                (
                    t,
                    (if was_open {
                        seq![EffectView::RememberOpen { current: None }]
                    } else {
                        Seq::empty()
                    }) + seq![EffectView::RefreshLists] + t.resync_effects(),
                )
            },
            Err(e) => {
                let t = self.with_status(e);
                (t, t.resync_effects())
            },
        }
    }

    /// "Rename" committed: the rename is handed to storage.
    pub open spec fn after_commit_rename(self) -> (MainView, Seq<EffectView>) {
        match self.renaming {
            Some((from, to)) => (
                MainView { renaming: None, ..self },
                seq![EffectView::RenameListFile { from, to }],
            ),
            None => (self, Seq::empty()),
        }
    }

    /// After renaming `from`: the open list follows the new name; on failure
    /// the rename stays open for correction.
    pub open spec fn after_rename(
        self,
        from: Seq<char>,
        to: Seq<char>,
        result: Result<Seq<char>, Seq<char>>,
    ) -> (MainView, Seq<EffectView>) {
        match result {
            Ok(name) => if self.current_list == Some(from) {
                (
                    MainView {
                        current_list: Some(name),
                        status_message: "Renamed to "@ + quoted(name) + "."@,
                        ..self
                    },
                    seq![EffectView::RememberOpen { current: Some(name) }, EffectView::RefreshLists],
                )
            } else {
                (
                    self.with_status("Renamed to "@ + quoted(name) + "."@),
                    seq![EffectView::RefreshLists],
                )
            },
            Err(e) => (
                MainView { renaming: Some((from, to)), status_message: e, ..self },
                Seq::empty(),
            ),
        }
    }

    /// After importing a list (stored under `Ok` name): it is read and opened.
    pub open spec fn after_import(self, result: Result<Seq<char>, Seq<char>>) -> (
        MainView,
        Seq<EffectView>,
    ) {
        match result {
            Ok(name) => (
                self,
                seq![
                    EffectView::RefreshLists,
                    EffectView::LoadList { name, purpose: LoadPurpose::Import },
                ],
            ),
            Err(e) => {
                let t = self.with_status(e);
                (t, t.resync_effects())
            },
        }
    }

    /// The export dialog, suggesting the open list's name (or `list`) with a
    /// `.json` extension.
    pub open spec fn export_dialog(self) -> EffectView {
        EffectView::OpenExportDialog {
            suggested: match self.current_list {
                Some(n) => n + ".json"@,
                None => "list.json"@,
            },
        }
    }

    /// An export destination was chosen.
    pub open spec fn after_export_request(self, path: Seq<char>) -> (MainView, Seq<EffectView>) {
        match self.current_list {
            Some(name) => (self, seq![EffectView::ExportTo { name, path }]),
            None => (self.with_status("No list open to export."@), Seq::empty()),
        }
    }

    pub open spec fn after_export(self, result: Result<(), Seq<char>>, shown: Seq<char>) -> MainView {
        match result {
            Ok(()) => self.with_status("Exported to "@ + shown + "."@),
            Err(e) => self.with_status(e),
        }
    }

    /// After the open list was written: its entry in the browser shows the
    /// new number of tasks; a failure is shown instead.
    pub open spec fn after_list_saved(self, result: Result<(), Seq<char>>) -> MainView {
        match result {
            Ok(()) => match self.current_list {
                Some(name) => {
                    let i = first_named(self.lists, name);
                    if i < self.lists.len() {
                        MainView {
                            lists: self.lists.update(
                                i,
                                ListEntryView { task_count: self.tasks.len() as usize, ..self.lists[i] },
                            ),
                            ..self
                        }
                    } else {
                        self
                    }
                },
                None => self,
            },
            Err(e) => self.with_status(e),
        }
    }
}

pub open spec fn load_result_view(r: Result<(String, Vec<Task>), String>) -> Result<
    (Seq<char>, Seq<TaskView>),
    Seq<char>,
> {
    match r {
        Ok((n, t)) => Ok((n@, t.deep_view())),
        Err(e) => Err(e@),
    }
}

pub open spec fn unit_result_view(r: Result<(), String>) -> Result<(), Seq<char>> {
    crate::app::message::result_text(r)
}

pub open spec fn text_result_view(r: Result<String, String>) -> Result<Seq<char>, Seq<char>> {
    match r {
        Ok(n) => Ok(n@),
        Err(e) => Err(e@),
    }
}

fn quote(text: &str) -> (s: String)
    ensures
        s@ == quoted(text@),
{
    String::from_str("\"").concat(text).concat("\"")
}

impl Default for Taskscape {
    /// The state before any configuration is read: dark theme, every
    /// setting on, the built-in shortcut, no lists and no open list.
    fn default() -> (s: Taskscape)
        ensures
            s@ == booted_view(
                Seq::empty(),
                None,
                true,
                true,
                true,
                default_hotkey(),
            ),
    {
        let s = Taskscape {
            window_id: None,
            theme_mode: ThemeMode::Dark,
            title_input: String::new(),
            status_message: String::from_str("Ready."),
            undo_stack: Vec::new(),
            redo_stack: Vec::new(),
            tasks: Vec::new(),
            current_list: None,
            lists: Vec::new(),
            new_list_name: String::new(),
            renaming: None,
            show_list_panel: false,
            show_settings: false,
            recording_hotkey: false,
            confirming_clear_all: false,
            reopen_last_list: true,
            confirm_clear_all: true,
            hotkey_enabled: true,
            hotkey: HotkeySpec::default_mini_toggle(),
            ipc_connected: false,
            applying_remote: false,
        };
        assert(s@.undo_stack =~= Seq::<Seq<TaskView>>::empty());
        assert(s@.redo_stack =~= Seq::<Seq<TaskView>>::empty());
        assert(s@.tasks =~= Seq::<TaskView>::empty());
        assert(s@.lists =~= Seq::<ListEntryView>::empty());
        s
    }
}

impl Taskscape {
    /// The main window's start: default settings overridden by the saved
    /// configuration, the saved lists, and a request to reopen the last list
    /// when that is enabled and the list still exists.
    pub fn boot(lists: Vec<ListEntry>, config: Config, default_hotkey: HotkeySpec) -> (r: (
        Taskscape,
        Vec<Effect>,
    ))
        ensures
            ({
                let hk = match config.hotkey {
                    Some(h) => h@,
                    None => default_hotkey@,
                };
                let b = booted_view(
                    lists.deep_view(),
                    config.theme,
                    config.reopen_last_list,
                    config.confirm_clear_all,
                    config.hotkey_enabled,
                    hk,
                );
                match config.last_open {
                    Some(last) => if config.reopen_last_list && first_named(lists.deep_view(), last@)
                        < lists.len() {
                        r.0@ == b && r.1.deep_view() == seq![
                            EffectView::LoadList { name: last@, purpose: LoadPurpose::Quiet },
                        ]
                    } else {
                        r.0@ == b.with_status(start_prompt_text()) && r.1.deep_view().len() == 0
                    },
                    None => r.0@ == b.with_status(start_prompt_text()) && r.1.deep_view().len()
                        == 0,
                }
            }),
    {
        let ghost lv = lists.deep_view();
        let ghost cfg_hotkey = match &config.hotkey {
            Some(h) => h@,
            None => default_hotkey@,
        };
        let theme_mode = match config.theme {
            Some(t) => t,
            None => ThemeMode::Dark,
        };
        let hotkey = match config.hotkey {
            Some(h) => h,
            None => default_hotkey,
        };
        let mut state = Taskscape {
            window_id: None,
            theme_mode,
            title_input: String::new(),
            status_message: String::from_str("Ready."),
            undo_stack: Vec::new(),
            redo_stack: Vec::new(),
            tasks: Vec::new(),
            current_list: None,
            lists,
            new_list_name: String::new(),
            renaming: None,
            show_list_panel: false,
            show_settings: false,
            recording_hotkey: false,
            confirming_clear_all: false,
            reopen_last_list: config.reopen_last_list,
            confirm_clear_all: config.confirm_clear_all,
            hotkey_enabled: config.hotkey_enabled,
            hotkey,
            ipc_connected: false,
            applying_remote: false,
        };
        let ghost b = booted_view(
            lv,
            config.theme,
            config.reopen_last_list,
            config.confirm_clear_all,
            config.hotkey_enabled,
            cfg_hotkey,
        );
        assert(state@ =~= b);
        let mut effects = Vec::new();
        if let Some(last) = config.last_open {
            if state.reopen_last_list {
                let i = find_list(&state.lists, last.as_str());
                if i < state.lists.len() {
                    effects.push(Effect::LoadList { name: last, purpose: LoadPurpose::Quiet });
                    return (state, effects);
                }
            }
        }
        state.status_message = String::from_str("Create a new list or load one to begin.");
        (state, effects)
    }

    /// Replaces the browser's entries with a fresh scan.
    pub fn set_lists(&mut self, lists: Vec<ListEntry>)
        ensures
            final(self)@ == (MainView { lists: lists.deep_view(), ..old(self)@ }),
    {
        self.lists = lists;
    }

    /// Takes in the outcome of reading the list `requested`.
    pub fn complete_load(
        &mut self,
        requested: &str,
        purpose: LoadPurpose,
        result: Result<(String, Vec<Task>), String>,
    ) -> (effects: Vec<Effect>)
        ensures
            (final(self)@, effects.deep_view()) == old(self)@.after_load(
                requested@,
                purpose,
                load_result_view(result),
            ),
    {
        let ghost rv = load_result_view(result);
        let mut effects = Vec::new();
        match result {
            Ok((name, tasks)) => {
                self.tasks = tasks;
                self.current_list = Some(name.clone());
                self.undo_stack.clear();
                self.redo_stack.clear();
                match purpose {
                    LoadPurpose::Open => {
                        self.status_message = String::from_str("Opened ").concat(
                            quote(name.as_str()).as_str(),
                        ).concat(".");
                        effects.push(Effect::RememberOpen { current: Some(name) });
                        append_effects(&mut effects, self.resync_tray());
                    },
                    LoadPurpose::Import => {
                        self.status_message = String::from_str("Imported ").concat(
                            quote(requested).as_str(),
                        ).concat(".");
                        effects.push(Effect::RememberOpen { current: Some(name) });
                        append_effects(&mut effects, self.resync_tray());
                    },
                    LoadPurpose::Quiet => {},
                }
            },
            Err(e) => match purpose {
                LoadPurpose::Open => {
                    self.status_message = e;
                    append_effects(&mut effects, self.resync_tray());
                },
                LoadPurpose::Import => {
                    self.status_message = String::from_str("Imported ").concat(
                        quote(requested).as_str(),
                    ).concat(".");
                    append_effects(&mut effects, self.resync_tray());
                },
                LoadPurpose::Quiet => {
                    if self.current_list.is_none() {
                        self.status_message = String::from_str(
                            "Create a new list or load one to begin.",
                        );
                    }
                },
            },
        }
        assert(self@ =~= old(self)@.after_load(requested@, purpose, rv).0);
        assert(effects.deep_view() =~= old(self)@.after_load(requested@, purpose, rv).1);
        effects
    }

    /// Validates the new list's name and asks for the list to be created.
    pub fn create_list(&mut self) -> (effects: Vec<Effect>)
        ensures
            (final(self)@, effects.deep_view()) == old(self)@.after_create_request(),
    {
        let name = trim_text(self.new_list_name.as_str());
        if name.unicode_len() == 0 {
            self.status_message = String::from_str("Enter a name for the new list.");
            let e = self.resync_tray();
            assert(self@ =~= old(self)@.after_create_request().0);
            return e;
        }
        let i = find_list(&self.lists, name.as_str());
        if i < self.lists.len() {
            self.status_message = String::from_str("A list named ").concat(
                quote(name.as_str()).as_str(),
            ).concat(" already exists.");
            let e = self.resync_tray();
            assert(self@ =~= old(self)@.after_create_request().0);
            return e;
        }
        let mut effects = Vec::new();
        effects.push(Effect::CreateListFile { name });
        assert(effects.deep_view() =~= old(self)@.after_create_request().1);
        effects
    }

    /// Takes in the outcome of creating the empty list `name`.
    pub fn complete_create(&mut self, name: &str, result: Result<(), String>) -> (effects: Vec<
        Effect,
    >)
        ensures
            (final(self)@, effects.deep_view()) == old(self)@.after_create(
                name@,
                unit_result_view(result),
            ),
    {
        let ghost rv = unit_result_view(result);
        let mut effects = Vec::new();
        match result {
            Ok(()) => {
                self.tasks = Vec::new();
                self.current_list = Some(name.to_owned());
                self.new_list_name = String::new();
                self.undo_stack.clear();
                self.redo_stack.clear();
                self.status_message = String::from_str("Created ").concat(
                    quote(name).as_str(),
                ).concat(".");
                effects.push(Effect::RefreshLists);
                effects.push(Effect::RememberOpen { current: Some(name.to_owned()) });
            },
            Err(e) => {
                self.status_message = e;
            },
        }
        append_effects(&mut effects, self.resync_tray());
        assert(self@ =~= old(self)@.after_create(name@, rv).0);
        assert(effects.deep_view() =~= old(self)@.after_create(name@, rv).1);
        effects
    }

    /// Asks for the list `name` to be deleted, if the browser has it.
    pub fn delete_list(&mut self, name: &str) -> (effects: Vec<Effect>)
        ensures
            (final(self)@, effects.deep_view()) == old(self)@.after_delete_request(name@),
    {
        let i = find_list(&self.lists, name);
        if i < self.lists.len() {
            let mut effects = Vec::new();
            effects.push(
                Effect::DeleteListFile { name: name.to_owned(), path: self.lists[i].path.clone() },
            );
            assert(effects.deep_view() =~= old(self)@.after_delete_request(name@).1);
            effects
        } else {
            self.resync_tray()
        }
    }

    /// Takes in the outcome of deleting the list `name`.
    pub fn complete_delete(&mut self, name: &str, result: Result<(), String>) -> (effects: Vec<
        Effect,
    >)
        ensures
            (final(self)@, effects.deep_view()) == old(self)@.after_delete(
                name@,
                unit_result_view(result),
            ),
    {
        let ghost rv = unit_result_view(result);
        let mut effects = Vec::new();
        match result {
            Ok(()) => {
                let was_open = match &self.current_list {
                    Some(c) => crate::text::text_order(c.as_str(), name) == 0,
                    None => false,
                };
                if was_open {
                    self.current_list = None;
                    self.tasks = Vec::new();
                    self.undo_stack.clear();
                    self.redo_stack.clear();
                    effects.push(Effect::RememberOpen { current: None });
                }
                let drop_rename = match &self.renaming {
                    Some((from, _)) => crate::text::text_order(from.as_str(), name) == 0,
                    None => false,
                };
                if drop_rename {
                    self.renaming = None;
                }
                effects.push(Effect::RefreshLists);
                self.status_message = String::from_str("Deleted ").concat(
                    quote(name).as_str(),
                ).concat(".");
            },
            Err(e) => {
                self.status_message = e;
            },
        }
        append_effects(&mut effects, self.resync_tray());
        assert(self@ =~= old(self)@.after_delete(name@, rv).0);
        assert(effects.deep_view() =~= old(self)@.after_delete(name@, rv).1);
        effects
    }

    /// Hands the rename in progress to storage.
    pub fn commit_rename(&mut self) -> (effects: Vec<Effect>)
        ensures
            (final(self)@, effects.deep_view()) == old(self)@.after_commit_rename(),
    {
        let mut effects = Vec::new();
        let taken = self.renaming.take();
        if let Some((from, to)) = taken {
            effects.push(Effect::RenameListFile { from, to });
        }
        assert(self@ =~= old(self)@.after_commit_rename().0);
        assert(effects.deep_view() =~= old(self)@.after_commit_rename().1);
        effects
    }

    /// Takes in the outcome of renaming `from` to `to`; `Ok` holds the name
    /// the list is stored under now.
    pub fn complete_rename(&mut self, from: String, to: String, result: Result<String, String>) -> (effects: Vec<Effect>)
        ensures
            (final(self)@, effects.deep_view()) == old(self)@.after_rename(
                from@,
                to@,
                text_result_view(result),
            ),
    {
        let ghost rv = text_result_view(result);
        let ghost ov = from@;
        let ghost nv = to@;
        let mut effects = Vec::new();
        match result {
            Ok(name) => {
                let was_open = match &self.current_list {
                    Some(c) => crate::text::text_order(c.as_str(), from.as_str()) == 0,
                    None => false,
                };
                self.status_message = String::from_str("Renamed to ").concat(
                    quote(name.as_str()).as_str(),
                ).concat(".");
                if was_open {
                    self.current_list = Some(name.clone());
                    effects.push(Effect::RememberOpen { current: Some(name) });
                }
                effects.push(Effect::RefreshLists);
            },
            Err(e) => {
                self.renaming = Some((from, to));
                self.status_message = e;
            },
        }
        assert(self@ =~= old(self)@.after_rename(ov, nv, rv).0);
        assert(effects.deep_view() =~= old(self)@.after_rename(ov, nv, rv).1);
        effects
    }

    /// Takes in the outcome of importing a list.
    pub fn complete_import(&mut self, result: Result<String, String>) -> (effects: Vec<Effect>)
        ensures
            (final(self)@, effects.deep_view()) == old(self)@.after_import(text_result_view(result)),
    {
        let ghost rv = text_result_view(result);
        match result {
            Ok(name) => {
                let mut effects = Vec::new();
                effects.push(Effect::RefreshLists);
                effects.push(Effect::LoadList { name, purpose: LoadPurpose::Import });
                assert(effects.deep_view() =~= old(self)@.after_import(rv).1);
                effects
            },
            Err(e) => {
                self.status_message = e;
                assert(self@ =~= old(self)@.after_import(rv).0);
                self.resync_tray()
            },
        }
    }

    /// The export dialog for the open list.
    pub fn export_dialog(&self) -> (e: Effect)
        ensures
            e.deep_view() == self@.export_dialog(),
    {
        let suggested = match &self.current_list {
            Some(n) => n.clone().concat(".json"),
            None => String::from_str("list.json"),
        };
        Effect::OpenExportDialog { suggested }
    }

    /// An export destination was chosen: asks for the open list to be
    /// written there.
    pub fn request_export(&mut self, path: String) -> (effects: Vec<Effect>)
        ensures
            (final(self)@, effects.deep_view()) == old(self)@.after_export_request(path@),
    {
        let ghost pv = path@;
        let mut effects = Vec::new();
        match &self.current_list {
            Some(name) => {
                effects.push(Effect::ExportTo { name: name.clone(), path });
            },
            None => {
                self.status_message = String::from_str("No list open to export.");
            },
        }
        assert(self@ =~= old(self)@.after_export_request(pv).0);
        assert(effects.deep_view() =~= old(self)@.after_export_request(pv).1);
        effects
    }

    /// Takes in the outcome of an export to the path shown as `shown`.
    pub fn complete_export(&mut self, result: Result<(), String>, shown: &str)
        ensures
            final(self)@ == old(self)@.after_export(unit_result_view(result), shown@),
    {
        let ghost rv = unit_result_view(result);
        match result {
            Ok(()) => {
                self.status_message = String::from_str("Exported to ").concat(shown).concat(".");
            },
            Err(e) => self.status_message = e,
        }
        assert(self@ =~= old(self)@.after_export(rv, shown@));
    }

    /// Takes in the outcome of writing the open list.
    pub fn complete_list_save(&mut self, result: Result<(), String>)
        ensures
            final(self)@ == old(self)@.after_list_saved(unit_result_view(result)),
    {
        let ghost rv = unit_result_view(result);
        match result {
            Ok(()) => {
                if let Some(name) = &self.current_list {
                    let i = find_list(&self.lists, name.as_str());
                    if i < self.lists.len() {
                        let count = self.tasks.len();
                        let entry = ListEntry {
                            name: self.lists[i].name.clone(),
                            path: self.lists[i].path.clone(),
                            task_count: count,
                        };
                        self.lists.set(i, entry);
                        assert(self@.lists =~= old(self)@.lists.update(
                            i as int,
                            ListEntryView { task_count: count, ..old(self)@.lists[i as int] },
                        ));
                    }
                }
            },
            Err(e) => self.status_message = e,
        }
        assert(self@ =~= old(self)@.after_list_saved(rv));
    }
}

} // verus!
