//! How the state reacts to each message: the next state, and the effects the
//! host must carry out.
use vstd::prelude::*;
use crate::app::commands::{HotkeyCommand, NativeMenuCommand, TrayCommand};
use crate::app::ipc::IpcMessageView;
use crate::app::ipc::IpcMessage;
use crate::app::message::{Effect, EffectView, Key, KeyPress, Message, MessageView, Platform};
use crate::app::state::{AppRole, Taskscape, TaskscapeView};
use crate::models::task::Task;

verus! {

/// The status text after a failed installation: `prefix` and the error.
pub open spec fn failure_text(prefix: Seq<char>, error: Seq<char>) -> Seq<char> {
    prefix + error
}

/// The window shortcut a key press triggers, if any. Shortcuts need a main
/// window; on macOS they use the command key (⌘F maximise, ⌘M and ⌘W
/// minimise, ⌘Q close), on Windows and Linux the logo key (F maximise,
/// M minimise, W close) and Alt+F4 closes.
pub open spec fn platform_shortcut(
    window: Option<u64>,
    key: KeyPress,
    platform: Platform,
) -> Option<EffectView> {
    match window {
        None => None,
        Some(id) => match platform {
            Platform::MacOs => if !key.command {
                None
            } else {
                match key.key {
                    Key::Character('f') => Some(EffectView::ToggleMaximize(id)),
                    Key::Character('m') => Some(EffectView::MinimizeWindow(id)),
                    Key::Character('q') => Some(EffectView::CloseWindow(id)),
                    Key::Character('w') => Some(EffectView::MinimizeWindow(id)),
                    _ => None,
                }
            },
            Platform::Windows | Platform::Linux => if key.logo && key.key == Key::Character('f') {
                Some(EffectView::ToggleMaximize(id))
            } else if key.logo && key.key == Key::Character('m') {
                Some(EffectView::MinimizeWindow(id))
            } else if key.logo && key.key == Key::Character('w') {
                Some(EffectView::CloseWindow(id))
            } else if key.alt && key.key == Key::F4 {
                Some(EffectView::CloseWindow(id))
            } else {
                None
            },
            Platform::Other => None,
        },
    }
}

impl TaskscapeView {
    /// The other theme, announced in the status line.
    pub open spec fn after_toggle_theme(self) -> TaskscapeView {
        let mode = self.theme_mode.spec_toggled();
        TaskscapeView {
            theme_mode: mode,
            status_message: "Switched to "@ + mode.spec_label() + "."@,
            ..self
        }
    }

    /// Leaves title editing without keeping the edit.
    pub open spec fn after_cancel_title_edit(self) -> TaskscapeView {
        TaskscapeView { file_name_editing: self.file_name, editing_title: false, ..self }
    }

    /// Enters title editing (starting from the current name, cursor at the
    /// end), or leaves it keeping the edited name.
    pub open spec fn after_toggle_title_edit(self) -> (TaskscapeView, Seq<EffectView>) {
        if self.editing_title {
            (
                TaskscapeView { file_name: self.file_name_editing, editing_title: false, ..self },
                Seq::empty(),
            )
        } else {
            (
                TaskscapeView { file_name_editing: self.file_name, editing_title: true, ..self },
                seq![EffectView::MoveCursorToTitleEnd],
            )
        }
    }

    /// The save dialog, suggesting the list's name with a `.csv` extension.
    pub open spec fn save_dialog(self) -> EffectView {
        EffectView::OpenSaveDialog { file_name: self.file_name + ".csv"@ }
    }

    /// Shows an installation failure, if there was one.
    pub open spec fn after_install(self, prefix: Seq<char>, result: Result<(), Seq<char>>) -> TaskscapeView {
        match result {
            Ok(()) => self,
            Err(e) => self.with_status(failure_text(prefix, e)),
        }
    }

    /// A window opened. The compact window needs nothing; the main app's
    /// window gets the native menu; the service's hidden start-up window is
    /// used to install the menu bar icon and the hotkey, then closed.
    pub open spec fn after_window_opened(self, id: u64) -> (TaskscapeView, Seq<EffectView>) {
        if self.mini_window_id == Some(id) {
            (self, Seq::empty())
        } else {
            let s = TaskscapeView { window_id: Some(id), ..self };
            match self.role {
                AppRole::Main => (s, seq![EffectView::InstallNativeMenu(id)]),
                AppRole::Tray => (
                    s,
                    seq![
                        EffectView::InstallTray(id),
                        EffectView::InstallHotkey(id),
                        EffectView::CloseWindow(id),
                    ],
                ),
            }
        }
    }

    /// A window closed: its id is forgotten.
    pub open spec fn after_window_closed(self, id: u64) -> TaskscapeView {
        if self.mini_window_id == Some(id) {
            TaskscapeView { mini_window_id: None, ..self }
        } else if self.window_id == Some(id) {
            TaskscapeView { window_id: None, ..self }
        } else {
            self
        }
    }

    /// A window asked to close: the compact window closes; on macOS the main
    /// window is minimised to the Dock instead, elsewhere it closes.
    pub open spec fn after_close_requested(self, id: u64, platform: Platform) -> (
        TaskscapeView,
        Seq<EffectView>,
    ) {
        if self.mini_window_id == Some(id) {
            (TaskscapeView { mini_window_id: None, ..self }, seq![EffectView::CloseWindow(id)])
        } else if platform == Platform::MacOs {
            (
                self.with_status("Minimized to the Dock."@),
                seq![EffectView::MinimizeWindow(id)],
            )
        } else {
            (self, seq![EffectView::CloseWindow(id)])
        }
    }

    /// Closes the compact window if it is open, or asks for it to be opened.
    pub open spec fn after_toggle_mini(self, anchored: bool) -> (TaskscapeView, Seq<EffectView>) {
        match self.mini_window_id {
            Some(id) => (
                TaskscapeView {
                    mini_window_id: None,
                    status_message: "Mini window closed."@,
                    ..self
                },
                seq![EffectView::CloseWindow(id)],
            ),
            None => (self, seq![EffectView::OpenMiniWindow { anchored }]),
        }
    }

    /// The compact window was opened under `id`.
    pub open spec fn after_mini_opened(self, id: u64) -> TaskscapeView {
        TaskscapeView { mini_window_id: Some(id), status_message: "Mini window opened."@, ..self }
    }

    /// A key press: window shortcuts first, then ⌘⇧Z redo, ⌘Z undo, ⌘S save,
    /// ⌘O load, ⌘N new list, ⌘T theme, and Esc leaves title editing.
    pub open spec fn after_key(self, key: KeyPress, platform: Platform) -> (
        TaskscapeView,
        Seq<EffectView>,
    ) {
        match platform_shortcut(self.window_id, key, platform) {
            Some(e) => (self, seq![e]),
            None => if key.command && key.key == Key::Character('z') && key.shift {
                (self.after_redo(), Seq::empty())
            } else if key.command && key.key == Key::Character('z') {
                (self.after_undo(), Seq::empty())
            } else if key.command && key.key == Key::Character('s') {
                (self, seq![self.save_dialog()])
            } else if key.command && key.key == Key::Character('o') {
                (self, seq![EffectView::OpenLoadDialog])
            } else if key.command && key.key == Key::Character('n') {
                (self.after_new_list("Started a new list."@), Seq::empty())
            } else if key.command && key.key == Key::Character('t') {
                (self.after_toggle_theme(), Seq::empty())
            } else if key.key == Key::Escape && self.editing_title {
                (self.after_cancel_title_edit(), Seq::empty())
            } else {
                (self, Seq::empty())
            },
        }
    }

    /// A command of the native menu.
    pub open spec fn after_menu(self, command: NativeMenuCommand) -> (
        TaskscapeView,
        Seq<EffectView>,
    ) {
        match command {
            NativeMenuCommand::FileNew => (
                self.after_new_list("Started a new list."@),
                Seq::empty(),
            ),
            NativeMenuCommand::FileSave => (self, seq![self.save_dialog()]),
            NativeMenuCommand::FileLoad => (self, seq![EffectView::OpenLoadDialog]),
            NativeMenuCommand::EditUndo => (self.after_undo(), Seq::empty()),
            NativeMenuCommand::EditRedo => (self.after_redo(), Seq::empty()),
            NativeMenuCommand::ToggleTheme => (self.after_toggle_theme(), Seq::empty()),
        }
    }

    /// The next state and the effects for a message.
    pub open spec fn after_message(self, message: MessageView, platform: Platform) -> (
        TaskscapeView,
        Seq<EffectView>,
    ) {
        match message {
            MessageView::FontLoaded => (self, Seq::empty()),
            MessageView::ToggleTheme => (self.after_toggle_theme(), Seq::empty()),
            MessageView::TitleChanged(v) => (TaskscapeView { title_input: v, ..self }, Seq::empty()),
            MessageView::FileNameChanged(v) => (
                TaskscapeView { file_name_editing: v, ..self },
                Seq::empty(),
            ),
            MessageView::ToggleTitleEdit => self.after_toggle_title_edit(),
            MessageView::ToggleTitleEditCancel => (self.after_cancel_title_edit(), Seq::empty()),
            MessageView::CancelAllEditing => if self.editing_title {
                (self.after_cancel_title_edit(), Seq::empty())
            } else {
                (self, Seq::empty())
            },
            MessageView::DueDateChanged(v) => (
                TaskscapeView { due_date_input: v, ..self },
                Seq::empty(),
            ),
            MessageView::ToggleTaskCompleted(index, completed) => {
                let s = self.after_toggle_task(index, completed);
                (
                    s,
                    s.broadcast_effects(IpcMessageView::ToggleTaskCompleted { index, completed }),
                )
            },
            MessageView::AddTask => {
                let s = self.after_add_task();
                let title = crate::text::trimmed(self.title_input);
                if title.len() == 0 {
                    (s, Seq::empty())
                } else {
                    (s, s.broadcast_effects(IpcMessageView::AddTask { title }))
                }
            },
            MessageView::RemoveTask(index) => {
                let s = self.after_remove_task(index);
                (s, s.broadcast_effects(IpcMessageView::RemoveTask { index }))
            },
            MessageView::ClearCompleted => (self.after_clear_completed(), Seq::empty()),
            MessageView::ClearAll => (self.after_clear_all(), Seq::empty()),
            MessageView::FileNew => (self.after_new_list("Started a new list."@), Seq::empty()),
            MessageView::FileSave => (self, seq![self.save_dialog()]),
            MessageView::FileLoad => (self, seq![EffectView::OpenLoadDialog]),
            MessageView::FileSaveResult(p) => match p {
                Some(path) => (self, seq![EffectView::SaveTasks { path }]),
                None => (self.with_status("Save cancelled."@), Seq::empty()),
            },
            MessageView::FileLoadResult(p) => match p {
                Some(path) => (self, seq![EffectView::LoadTasks { path }]),
                None => (self.with_status("Load cancelled."@), Seq::empty()),
            },
            MessageView::EditUndo => (self.after_undo(), Seq::empty()),
            MessageView::EditRedo => (self.after_redo(), Seq::empty()),
            MessageView::WindowOpened(id) => self.after_window_opened(id),
            MessageView::WindowClosed(id) => (self.after_window_closed(id), Seq::empty()),
            MessageView::WindowCloseRequested(id) => self.after_close_requested(id, platform),
            MessageView::NativeMenuEvent(c) => self.after_menu(c),
            MessageView::NativeMenuInstalled(r) => (
                self.after_install("Native menu: "@, r),
                Seq::empty(),
            ),
            MessageView::TrayEvent(TrayCommand::ShowWindow) => self.after_toggle_mini(true),
            MessageView::TrayInstalled(r) => (
                self.after_install("Menu bar icon: "@, r),
                Seq::empty(),
            ),
            MessageView::HotkeyEvent(HotkeyCommand::ToggleMini) => self.after_toggle_mini(false),
            MessageView::HotkeyInstalled(r) => (
                self.after_install("Global hotkey: "@, r),
                Seq::empty(),
            ),
            MessageView::KeyboardEvent(k) => self.after_key(k, platform),
            MessageView::IpcEvent(e) => self.after_ipc(e),
        }
    }
}

impl Taskscape {
    /// Switches to the other theme and announces it.
    pub fn toggle_theme(&mut self)
        ensures
            final(self)@ == old(self)@.after_toggle_theme(),
    {
        self.theme_mode = self.theme_mode.toggled();
        let text = String::from_str("Switched to ").concat(self.theme_mode.label()).concat(".");
        self.status_message = text;
        assert(self@ =~= old(self)@.after_toggle_theme());
    }

    /// Leaves title editing without keeping the edit.
    pub fn cancel_title_edit(&mut self)
        ensures
            final(self)@ == old(self)@.after_cancel_title_edit(),
    {
        self.file_name_editing = self.file_name.clone();
        self.editing_title = false;
        assert(self@ =~= old(self)@.after_cancel_title_edit());
    }

    fn toggle_title_edit(&mut self, effects: &mut Vec<Effect>)
        requires
            old(effects)@.len() == 0,
        ensures
            (final(self)@, final(effects).deep_view()) == old(self)@.after_toggle_title_edit(),
    {
        if self.editing_title {
            self.file_name = self.file_name_editing.clone();
        }
        self.editing_title = !self.editing_title;
        if self.editing_title {
            self.file_name_editing = self.file_name.clone();
            effects.push(Effect::MoveCursorToTitleEnd);
        }
        assert(self@ =~= old(self)@.after_toggle_title_edit().0);
        assert(effects.deep_view() =~= old(self)@.after_toggle_title_edit().1);
    }

    fn save_dialog(&self) -> (e: Effect)
        ensures
            e.deep_view() == self@.save_dialog(),
    {
        Effect::OpenSaveDialog { file_name: self.file_name.clone().concat(".csv") }
    }

    fn show_install_result(&mut self, prefix: &str, result: Result<(), String>)
        ensures
            final(self)@ == old(self)@.after_install(prefix@, crate::app::message::result_text(result)),
    {
        if let Err(error) = result {
            self.status_message = prefix.to_owned().concat(error.as_str());
        }
        assert(self@ =~= old(self)@.after_install(prefix@, crate::app::message::result_text(result)));
    }

    fn window_opened(&mut self, id: u64, effects: &mut Vec<Effect>)
        requires
            old(effects)@.len() == 0,
        ensures
            (final(self)@, final(effects).deep_view()) == old(self)@.after_window_opened(id),
    {
        if self.mini_window_id == Some(id) {
            return;
        }
        self.window_id = Some(id);
        match self.role {
            AppRole::Main => {
                effects.push(Effect::InstallNativeMenu(id));
            },
            AppRole::Tray => {
                effects.push(Effect::InstallTray(id));
                effects.push(Effect::InstallHotkey(id));
                effects.push(Effect::CloseWindow(id));
            },
        }
        assert(self@ =~= old(self)@.after_window_opened(id).0);
        assert(effects.deep_view() =~= old(self)@.after_window_opened(id).1);
    }

    fn window_closed(&mut self, id: u64)
        ensures
            final(self)@ == old(self)@.after_window_closed(id),
    {
        if self.mini_window_id == Some(id) {
            self.mini_window_id = None;
        } else if self.window_id == Some(id) {
            self.window_id = None;
        }
        assert(self@ =~= old(self)@.after_window_closed(id));
    }

    fn close_requested(&mut self, id: u64, platform: Platform, effects: &mut Vec<Effect>)
        requires
            old(effects)@.len() == 0,
        ensures
            (final(self)@, final(effects).deep_view()) == old(self)@.after_close_requested(
                id,
                platform,
            ),
    {
        if self.mini_window_id == Some(id) {
            self.mini_window_id = None;
            effects.push(Effect::CloseWindow(id));
        } else if platform == Platform::MacOs {
            self.status_message = String::from_str("Minimized to the Dock.");
            effects.push(Effect::MinimizeWindow(id));
        } else {
            effects.push(Effect::CloseWindow(id));
        }
        assert(self@ =~= old(self)@.after_close_requested(id, platform).0);
        assert(effects.deep_view() =~= old(self)@.after_close_requested(id, platform).1);
    }

    /// Closes the compact window if it is open, or asks for it to be opened
    /// (`anchored`: under the menu bar icon).
    pub fn toggle_mini_window(&mut self, anchored: bool) -> (effects: Vec<Effect>)
        ensures
            (final(self)@, effects.deep_view()) == old(self)@.after_toggle_mini(anchored),
    {
        let mut effects: Vec<Effect> = Vec::new();
        match self.mini_window_id {
            Some(id) => {
                self.mini_window_id = None;
                self.status_message = String::from_str("Mini window closed.");
                effects.push(Effect::CloseWindow(id));
            },
            None => {
                effects.push(Effect::OpenMiniWindow { anchored });
            },
        }
        assert(self@ =~= old(self)@.after_toggle_mini(anchored).0);
        assert(effects.deep_view() =~= old(self)@.after_toggle_mini(anchored).1);
        effects
    }

    /// Records the compact window that was opened on request.
    pub fn mini_window_opened(&mut self, id: u64)
        ensures
            final(self)@ == old(self)@.after_mini_opened(id),
    {
        self.mini_window_id = Some(id);
        self.status_message = String::from_str("Mini window opened.");
        assert(self@ =~= old(self)@.after_mini_opened(id));
    }

    /// The window shortcut a key press triggers on `platform`, if any.
    pub fn platform_window_shortcuts(&self, key: KeyPress, platform: Platform) -> (r: Option<
        Effect,
    >)
        ensures
            match r {
                Some(e) => platform_shortcut(self.window_id, key, platform) == Some(
                    e.deep_view(),
                ),
                None => platform_shortcut(self.window_id, key, platform).is_none(),
            },
    {
        let id = match self.window_id {
            Some(id) => id,
            None => return None,
        };
        match platform {
            Platform::MacOs => {
                if !key.command {
                    return None;
                }
                match key.key {
                    Key::Character('f') => Some(Effect::ToggleMaximize(id)),
                    Key::Character('m') => Some(Effect::MinimizeWindow(id)),
                    Key::Character('q') => Some(Effect::CloseWindow(id)),
                    Key::Character('w') => Some(Effect::MinimizeWindow(id)),
                    _ => None,
                }
            },
            Platform::Windows | Platform::Linux => {
                if key.logo && key.key == Key::Character('f') {
                    Some(Effect::ToggleMaximize(id))
                } else if key.logo && key.key == Key::Character('m') {
                    Some(Effect::MinimizeWindow(id))
                } else if key.logo && key.key == Key::Character('w') {
                    Some(Effect::CloseWindow(id))
                } else if key.alt && key.key == Key::F4 {
                    Some(Effect::CloseWindow(id))
                } else {
                    None
                }
            },
            Platform::Other => None,
        }
    }

    fn key_pressed(&mut self, key: KeyPress, platform: Platform, effects: &mut Vec<Effect>)
        requires
            old(effects)@.len() == 0,
        ensures
            (final(self)@, final(effects).deep_view()) == old(self)@.after_key(key, platform),
    {
        if let Some(e) = self.platform_window_shortcuts(key, platform) {
            effects.push(e);
            assert(effects.deep_view() =~= old(self)@.after_key(key, platform).1);
            return;
        }
        let command = key.command;
        if command && key.key == Key::Character('z') && key.shift {
            self.redo();
        } else if command && key.key == Key::Character('z') {
            self.undo();
        } else if command && key.key == Key::Character('s') {
            let e = self.save_dialog();
            effects.push(e);
        } else if command && key.key == Key::Character('o') {
            effects.push(Effect::OpenLoadDialog);
        } else if command && key.key == Key::Character('n') {
            self.new_list("Started a new list.");
        } else if command && key.key == Key::Character('t') {
            self.toggle_theme();
        } else if key.key == Key::Escape && self.editing_title {
            self.cancel_title_edit();
        }
        assert(effects.deep_view() =~= old(self)@.after_key(key, platform).1);
    }

    fn menu_command(&mut self, command: NativeMenuCommand, effects: &mut Vec<Effect>)
        requires
            old(effects)@.len() == 0,
        ensures
            (final(self)@, final(effects).deep_view()) == old(self)@.after_menu(command),
    {
        match command {
            NativeMenuCommand::FileNew => self.new_list("Started a new list."),
            NativeMenuCommand::FileSave => {
                let e = self.save_dialog();
                effects.push(e);
            },
            NativeMenuCommand::FileLoad => effects.push(Effect::OpenLoadDialog),
            NativeMenuCommand::EditUndo => self.undo(),
            NativeMenuCommand::EditRedo => self.redo(),
            NativeMenuCommand::ToggleTheme => self.toggle_theme(),
        }
        assert(effects.deep_view() =~= old(self)@.after_menu(command).1);
    }

    /// Reacts to a message: updates the state and returns the effects the
    /// host must carry out, in order.
    #[verifier::spinoff_prover]
    #[verifier::rlimit(60)]
    pub fn update(&mut self, message: Message, platform: Platform) -> (effects: Vec<Effect>)
        ensures
            (final(self)@, effects.deep_view()) == old(self)@.after_message(
                message.deep_view(),
                platform,
            ),
    {
        let ghost m = message.deep_view();
        let mut effects: Vec<Effect> = Vec::new();
        match message {
            Message::FontLoaded => {},
            Message::ToggleTheme => self.toggle_theme(),
            Message::TitleChanged(value) => self.title_input = value,
            Message::FileNameChanged(value) => self.file_name_editing = value,
            Message::ToggleTitleEdit => self.toggle_title_edit(&mut effects),
            Message::ToggleTitleEditCancel => self.cancel_title_edit(),
            Message::CancelAllEditing => {
                if self.editing_title {
                    self.cancel_title_edit();
                }
            },
            Message::DueDateChanged(value) => self.due_date_input = value,
            Message::ToggleTaskCompleted(index, completed) => {
                self.toggle_task_completed(index, completed);
                self.broadcast(IpcMessage::ToggleTaskCompleted { index, completed }, &mut effects);
            },
            Message::AddTask => {
                if let Some(title) = self.add_task() {
                    self.broadcast(IpcMessage::AddTask { title }, &mut effects);
                }
            },
            Message::RemoveTask(index) => {
                self.remove_task(index);
                self.broadcast(IpcMessage::RemoveTask { index }, &mut effects);
            },
            Message::ClearCompleted => self.clear_completed(),
            Message::ClearAll => self.clear_all(),
            Message::FileNew => self.new_list("Started a new list."),
            Message::FileSave => {
                let e = self.save_dialog();
                effects.push(e);
            },
            Message::FileLoad => effects.push(Effect::OpenLoadDialog),
            Message::FileSaveResult(Some(path)) => effects.push(Effect::SaveTasks { path }),
            Message::FileSaveResult(None) => {
                self.status_message = String::from_str("Save cancelled.");
            },
            Message::FileLoadResult(Some(path)) => effects.push(Effect::LoadTasks { path }),
            Message::FileLoadResult(None) => {
                self.status_message = String::from_str("Load cancelled.");
            },
            Message::EditUndo => self.undo(),
            Message::EditRedo => self.redo(),
            Message::WindowOpened(id) => self.window_opened(id, &mut effects),
            Message::WindowClosed(id) => self.window_closed(id),
            Message::WindowCloseRequested(id) => self.close_requested(id, platform, &mut effects),
            Message::NativeMenuEvent(command) => self.menu_command(command, &mut effects),
            Message::NativeMenuInstalled(result) => self.show_install_result("Native menu: ", result),
            Message::TrayEvent(TrayCommand::ShowWindow) => {
                effects = self.toggle_mini_window(true);
            },
            Message::TrayInstalled(result) => self.show_install_result("Menu bar icon: ", result),
            Message::HotkeyEvent(HotkeyCommand::ToggleMini) => {
                effects = self.toggle_mini_window(false);
            },
            Message::HotkeyInstalled(result) => self.show_install_result("Global hotkey: ", result),
            Message::KeyboardEvent(key) => self.key_pressed(key, platform, &mut effects),
            Message::IpcEvent(event) => {
                effects = self.handle_ipc(event);
            },
        }
        assert(self@ =~= old(self)@.after_message(m, platform).0);
        assert(effects.deep_view() =~= old(self)@.after_message(m, platform).1);
        effects
    }
}

} // verus!
