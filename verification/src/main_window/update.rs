//! How the main window reacts to each message.
use vstd::prelude::*;
use crate::app::commands::NativeMenuCommand;
use crate::app::message::{Key, KeyPress, Platform};
use crate::main_window::actions::append_effects;
use crate::main_window::keys::{code_label, default_hotkey, is_modifier, is_modifier_code, key_code_label, shortcut_label};
use crate::main_window::link::{IpcMessage, IpcMessageView};
use crate::main_window::message::{Effect, EffectView, KeyEvent, KeyEventView, KeyInputView, LoadPurpose, Message, MessageView};
use crate::main_window::settings::{HotkeySpec, HotkeySpecView};
use crate::main_window::state::{MainView, Taskscape};
use crate::text::trimmed;
use crate::theme::ThemeMode;

verus! {

/// The window shortcut of the main window for a key press, if any: on macOS
/// ⌘F maximises, ⌘M minimises, ⌘Q and ⌘W quit; on Windows and Linux the
/// logo key with F maximises, with M minimises, with W quits, and Alt+F4
/// quits. Shortcuts need the window to be open.
pub open spec fn main_shortcut(window: Option<u64>, key: KeyPress, platform: Platform) -> Option<
    EffectView,
> {
    match window {
        None => None,
        Some(id) => match platform {
            Platform::MacOs => if !key.command {
                None
            } else {
                match key.key {
                    Key::Character('f') => Some(EffectView::ToggleMaximize(id)),
                    Key::Character('m') => Some(EffectView::MinimizeWindow(id)),
                    Key::Character('q') => Some(EffectView::Exit),
                    Key::Character('w') => Some(EffectView::Exit),
                    _ => None,
                }
            },
            Platform::Windows | Platform::Linux => if key.logo && key.key == Key::Character('f') {
                Some(EffectView::ToggleMaximize(id))
            } else if key.logo && key.key == Key::Character('m') {
                Some(EffectView::MinimizeWindow(id))
            } else if key.logo && key.key == Key::Character('w') {
                Some(EffectView::Exit)
            } else if key.alt && key.key == Key::F4 {
                Some(EffectView::Exit)
            } else {
                None
            },
            Platform::Other => None,
        },
    }
}

impl MainView {
    /// The theme set to `mode` and announced.
    pub open spec fn with_theme(self, mode: ThemeMode) -> MainView {
        MainView {
            theme_mode: mode,
            status_message: "Switched to "@ + mode.spec_label() + "."@,
            ..self
        }
    }

    /// A change followed by a resync of the tray service.
    pub open spec fn then_resync(r: (MainView, Seq<EffectView>)) -> (MainView, Seq<EffectView>) {
        (r.0, r.1 + r.0.resync_effects())
    }

    /// A settings change, written to the configuration.
    pub open spec fn persisted(self) -> (MainView, Seq<EffectView>) {
        (self, seq![EffectView::PersistSettings(self.settings())])
    }

    /// A new shortcut or its enabling: written to the configuration and
    /// sent to the tray service.
    pub open spec fn hotkey_changed(self) -> (MainView, Seq<EffectView>) {
        (self, seq![EffectView::PersistSettings(self.settings())] + self.hotkey_effects())
    }

    /// A key press while a new shortcut is being recorded. Esc alone cancels;
    /// keys that are unidentified or only modifiers are waited past; a key
    /// that cannot be bound, or a combination without ⌘, ⌥ or ⌃, is refused
    /// with a hint; otherwise the combination becomes the shortcut.
    pub open spec fn after_capture(self, event: KeyEventView) -> (MainView, Seq<EffectView>) {
        match event {
            KeyEventView::Other => (self, Seq::empty()),
            KeyEventView::Pressed(k) => if k.press.key == Key::Escape && !k.press.alt && !k.ctrl
                && !k.press.logo {
                (
                    MainView {
                        recording_hotkey: false,
                        status_message: "Shortcut unchanged."@,
                        ..self
                    },
                    Seq::empty(),
                )
            } else {
                match k.code {
                    None => (self, Seq::empty()),
                    Some(code) => if is_modifier(code) {
                        (self, Seq::empty())
                    } else {
                        let spec = HotkeySpecView {
                            alt: k.press.alt,
                            ctrl: k.ctrl,
                            shift: k.press.shift,
                            meta: k.press.logo,
                            code,
                        };
                        if code_label(code) is None {
                            (
                                self.with_status("That key can't be used — try another."@),
                                Seq::empty(),
                            )
                        } else if !spec.strong() {
                            (self.with_status("Hold ⌘, ⌥, or ⌃ with the key."@), Seq::empty())
                        } else {
                            MainView {
                                hotkey: spec,
                                recording_hotkey: false,
                                status_message: "Shortcut set to "@ + shortcut_label(spec) + "."@,
                                ..self
                            }.hotkey_changed()
                        }
                    },
                }
            },
        }
    }

    /// A key press when no shortcut is being recorded.
    pub open spec fn after_key(self, key: KeyPress, platform: Platform) -> (
        MainView,
        Seq<EffectView>,
    ) {
        match main_shortcut(self.window_id, key, platform) {
            Some(e) => (self, seq![e]),
            None => if key.command && key.key == Key::Character('z') && key.shift {
                MainView::then_resync(self.after_redo())
            } else if key.command && key.key == Key::Character('z') {
                MainView::then_resync(self.after_undo())
            } else if key.command && key.key == Key::Character('e') {
                (self, seq![self.export_dialog()])
            } else if key.command && key.key == Key::Character('o') {
                (self, seq![EffectView::OpenImportDialog])
            } else if key.command && key.key == Key::Character('n') {
                (MainView { show_list_panel: true, ..self }, Seq::empty())
            } else if key.command && key.key == Key::Character('l') {
                (MainView { show_list_panel: !self.show_list_panel, ..self }, Seq::empty())
            } else if key.command && key.key == Key::Character('t') {
                self.with_theme(self.theme_mode.spec_toggled()).persisted()
            } else if key.key == Key::Escape && self.renaming is Some {
                (MainView { renaming: None, ..self }, Seq::empty())
            } else if key.key == Key::Escape && self.confirming_clear_all {
                (MainView { confirming_clear_all: false, ..self }, Seq::empty())
            } else if key.key == Key::Escape && self.show_settings {
                (self.after_leave_settings(), Seq::empty())
            } else {
                (self, Seq::empty())
            },
        }
    }

    pub open spec fn after_keyboard(self, event: KeyEventView, platform: Platform) -> (
        MainView,
        Seq<EffectView>,
    ) {
        if self.recording_hotkey {
            self.after_capture(event)
        } else {
            match event {
                KeyEventView::Pressed(k) => self.after_key(k.press, platform),
                KeyEventView::Other => (self, Seq::empty()),
            }
        }
    }

    pub open spec fn after_menu(self, command: NativeMenuCommand) -> (MainView, Seq<EffectView>) {
        match command {
            NativeMenuCommand::FileNew => (MainView { show_list_panel: true, ..self }, Seq::empty()),
            NativeMenuCommand::FileSave => (self, seq![self.export_dialog()]),
            NativeMenuCommand::FileLoad => (self, seq![EffectView::OpenImportDialog]),
            NativeMenuCommand::EditUndo => MainView::then_resync(self.after_undo()),
            NativeMenuCommand::EditRedo => MainView::then_resync(self.after_redo()),
            NativeMenuCommand::ToggleTheme => (
                self.with_theme(self.theme_mode.spec_toggled()),
                Seq::empty(),
            ),
        }
    }

    /// Messages that change tasks.
    pub open spec fn after_task_message(self, message: MessageView) -> (
        MainView,
        Seq<EffectView>,
    ) {
        match message {
            MessageView::ToggleTaskCompleted(index, completed) => {
                let r = self.after_toggle_task(index, completed);
                (
                    r.0,
                    r.1 + r.0.broadcast_effects(
                        IpcMessageView::ToggleTaskCompleted { index, completed },
                    ),
                )
            },
            MessageView::AddTask => {
                let r = self.after_add_task();
                let title = trimmed(self.title_input);
                if title.len() == 0 {
                    r
                } else {
                    (r.0, r.1 + r.0.broadcast_effects(IpcMessageView::AddTask { title }))
                }
            },
            MessageView::RemoveTask(index) => {
                let r = self.after_remove_task(index);
                (r.0, r.1 + r.0.broadcast_effects(IpcMessageView::RemoveTask { index }))
            },
            MessageView::ClearCompleted => MainView::then_resync(self.after_clear_completed()),
            MessageView::RequestClearAll => if self.confirm_clear_all {
                (MainView { confirming_clear_all: true, ..self }, Seq::empty())
            } else {
                MainView::then_resync(self.after_clear_all())
            },
            MessageView::ClearAll => MainView::then_resync(
                MainView { confirming_clear_all: false, ..self }.after_clear_all(),
            ),
            MessageView::CancelClearAll => (
                MainView { confirming_clear_all: false, ..self },
                Seq::empty(),
            ),
            MessageView::EditUndo => MainView::then_resync(self.after_undo()),
            MessageView::EditRedo => MainView::then_resync(self.after_redo()),
            _ => (self, Seq::empty()),
        }
    }

    /// Messages of the settings page.
    pub open spec fn after_settings_message(self, message: MessageView) -> (
        MainView,
        Seq<EffectView>,
    ) {
        match message {
            MessageView::ToggleTheme => self.with_theme(self.theme_mode.spec_toggled()).persisted(),
            MessageView::ToggleSettings => (
                MainView {
                    show_settings: !self.show_settings,
                    recording_hotkey: if self.show_settings {
                        false
                    } else {
                        self.recording_hotkey
                    },
                    ..self
                },
                Seq::empty(),
            ),
            MessageView::CloseSettings => (self.after_leave_settings(), Seq::empty()),
            MessageView::SetTheme(mode) => self.with_theme(mode).persisted(),
            MessageView::SetReopenLastList(on) => MainView {
                reopen_last_list: on,
                ..self
            }.persisted(),
            MessageView::SetConfirmClearAll(on) => MainView {
                confirm_clear_all: on,
                ..self
            }.persisted(),
            MessageView::SetHotkeyEnabled(on) => MainView {
                hotkey_enabled: on,
                status_message: if on {
                    "Mini-window hotkey enabled."@
                } else {
                    "Mini-window hotkey disabled."@
                },
                ..self
            }.hotkey_changed(),
            MessageView::StartRecordHotkey => (
                MainView {
                    recording_hotkey: true,
                    status_message: "Press the new shortcut… (Esc to cancel)"@,
                    ..self
                },
                Seq::empty(),
            ),
            MessageView::CancelRecordHotkey => (
                MainView {
                    recording_hotkey: false,
                    status_message: "Shortcut unchanged."@,
                    ..self
                },
                Seq::empty(),
            ),
            MessageView::ResetHotkey => MainView {
                recording_hotkey: false,
                hotkey: default_hotkey(),
                status_message: "Shortcut reset to "@ + shortcut_label(default_hotkey()) + "."@,
                ..self
            }.hotkey_changed(),
            _ => (self, Seq::empty()),
        }
    }

    /// Messages of the list browser.
    pub open spec fn after_list_message(self, message: MessageView) -> (
        MainView,
        Seq<EffectView>,
    ) {
        match message {
            MessageView::ToggleListPanel => (
                MainView { show_list_panel: !self.show_list_panel, ..self },
                Seq::empty(),
            ),
            MessageView::OpenList(name) => (
                self.after_leave_settings(),
                seq![EffectView::LoadList { name, purpose: LoadPurpose::Open }],
            ),
            MessageView::NewListNameChanged(v) => (
                MainView { new_list_name: v, ..self },
                Seq::empty(),
            ),
            MessageView::CreateList => self.after_leave_settings().after_create_request(),
            MessageView::DeleteList(name) => self.after_delete_request(name),
            MessageView::StartRenameList(name) => (
                MainView { renaming: Some((name, name)), ..self },
                seq![EffectView::FocusRenameInput],
            ),
            MessageView::RenameInputChanged(v) => match self.renaming {
                Some((from, _)) => (MainView { renaming: Some((from, v)), ..self }, Seq::empty()),
                None => (self, Seq::empty()),
            },
            MessageView::CommitRenameList => self.after_commit_rename(),
            MessageView::CancelRenameList => (MainView { renaming: None, ..self }, Seq::empty()),
            MessageView::ImportList => (self, seq![EffectView::OpenImportDialog]),
            MessageView::ImportListResult(p) => match p {
                Some(path) => (self, seq![EffectView::ImportFrom { path }]),
                None => (self.with_status("Import cancelled."@), Seq::empty()),
            },
            MessageView::ExportList => (self, seq![self.export_dialog()]),
            MessageView::ExportListResult(p) => match p {
                Some(path) => self.after_export_request(path),
                None => (self.with_status("Export cancelled."@), Seq::empty()),
            },
            _ => (self, Seq::empty()),
        }
    }

    /// Messages of the window, the native menu, the keyboard and the link.
    pub open spec fn after_window_message(self, message: MessageView, platform: Platform) -> (
        MainView,
        Seq<EffectView>,
    ) {
        match message {
            MessageView::TitleChanged(v) => (MainView { title_input: v, ..self }, Seq::empty()),
            MessageView::WindowOpened(id) => (
                MainView { window_id: Some(id), ..self },
                seq![EffectView::InstallNativeMenu(id)],
            ),
            MessageView::WindowClosed(id) => if self.window_id == Some(id) {
                (MainView { window_id: None, ..self }, Seq::empty())
            } else {
                (self, Seq::empty())
            },
            MessageView::WindowCloseRequested(_) => (self, seq![EffectView::Exit]),
            MessageView::NativeMenuEvent(c) => self.after_menu(c),
            MessageView::NativeMenuInstalled(r) => match r {
                Ok(()) => (self, Seq::empty()),
                Err(e) => (self.with_status("Native menu: "@ + e), Seq::empty()),
            },
            MessageView::KeyboardEvent(e) => self.after_keyboard(e, platform),
            MessageView::IpcEvent(e) => self.after_ipc(e),
            _ => (self, Seq::empty()),
        }
    }

    /// The next state and the effects for a message.
    pub open spec fn after_message(self, message: MessageView, platform: Platform) -> (
        MainView,
        Seq<EffectView>,
    ) {
        match message {
            MessageView::ToggleTaskCompleted(..) | MessageView::AddTask | MessageView::RemoveTask(..)
            | MessageView::ClearCompleted | MessageView::RequestClearAll | MessageView::ClearAll
            | MessageView::CancelClearAll | MessageView::EditUndo | MessageView::EditRedo =>
                self.after_task_message(message),
            MessageView::ToggleTheme | MessageView::ToggleSettings | MessageView::CloseSettings
            | MessageView::SetTheme(..) | MessageView::SetReopenLastList(..)
            | MessageView::SetConfirmClearAll(..) | MessageView::SetHotkeyEnabled(..)
            | MessageView::StartRecordHotkey | MessageView::CancelRecordHotkey
            | MessageView::ResetHotkey => self.after_settings_message(message),
            MessageView::ToggleListPanel | MessageView::OpenList(..)
            | MessageView::NewListNameChanged(..) | MessageView::CreateList
            | MessageView::DeleteList(..) | MessageView::StartRenameList(..)
            | MessageView::RenameInputChanged(..) | MessageView::CommitRenameList
            | MessageView::CancelRenameList | MessageView::ImportList
            | MessageView::ImportListResult(..) | MessageView::ExportList
            | MessageView::ExportListResult(..) => self.after_list_message(message),
            _ => self.after_window_message(message, platform),
        }
    }
}

impl Taskscape {
    fn set_theme(&mut self, mode: ThemeMode)
        ensures
            final(self)@ == old(self)@.with_theme(mode),
    {
        self.theme_mode = mode;
        self.status_message = String::from_str("Switched to ").concat(mode.label()).concat(".");
        assert(self@ =~= old(self)@.with_theme(mode));
    }

    fn resynced(&self, effects: Vec<Effect>) -> (r: Vec<Effect>)
        ensures
            r.deep_view() == effects.deep_view() + self@.resync_effects(),
    {
        let mut effects = effects;
        append_effects(&mut effects, self.resync_tray());
        effects
    }

    fn hotkey_changed(&self) -> (r: Vec<Effect>)
        ensures
            r.deep_view() == self@.hotkey_changed().1,
    {
        let mut e = self.persist_settings();
        append_effects(&mut e, self.send_hotkey_config());
        e
    }

    /// The window shortcut a key press triggers on `platform`, if any.
    pub fn platform_window_shortcuts(&self, key: KeyPress, platform: Platform) -> (r: Option<
        Effect,
    >)
        ensures
            match r {
                Some(e) => main_shortcut(self.window_id, key, platform) == Some(e.deep_view()),
                None => main_shortcut(self.window_id, key, platform).is_none(),
            },
    {
        let id = match self.window_id {
            Some(id) => id,
            None => return None,
        };
        match platform {
            Platform::MacOs => {
                if !key.command {
                    return None;
                }
                match key.key {
                    Key::Character('f') => Some(Effect::ToggleMaximize(id)),
                    Key::Character('m') => Some(Effect::MinimizeWindow(id)),
                    Key::Character('q') => Some(Effect::Exit),
                    Key::Character('w') => Some(Effect::Exit),
                    _ => None,
                }
            },
            Platform::Windows | Platform::Linux => {
                if key.logo && key.key == Key::Character('f') {
                    Some(Effect::ToggleMaximize(id))
                } else if key.logo && key.key == Key::Character('m') {
                    Some(Effect::MinimizeWindow(id))
                } else if key.logo && key.key == Key::Character('w') {
                    Some(Effect::Exit)
                } else if key.alt && key.key == Key::F4 {
                    Some(Effect::Exit)
                } else {
                    None
                }
            },
            Platform::Other => None,
        }
    }

    /// Records a new shortcut from a key press.
    #[verifier::rlimit(100)]
    pub fn capture_hotkey(&mut self, event: KeyEvent) -> (effects: Vec<Effect>)
        ensures
            (final(self)@, effects.deep_view()) == old(self)@.after_capture(event.deep_view()),
    {
        let ghost ev = event.deep_view();
        let k = match event {
            KeyEvent::Pressed(k) => k,
            KeyEvent::Other => return Vec::new(),
        };
        if k.press.key == Key::Escape && !k.press.alt && !k.ctrl && !k.press.logo {
            self.recording_hotkey = false;
            self.status_message = String::from_str("Shortcut unchanged.");
            assert(self@ =~= old(self)@.after_capture(ev).0);
            return Vec::new();
        }
        let code = match k.code {
            Some(c) => c,
            None => return Vec::new(),
        };
        if is_modifier_code(code.as_str()) {
            return Vec::new();
        }
        let spec = HotkeySpec {
            alt: k.press.alt,
            ctrl: k.ctrl,
            shift: k.press.shift,
            meta: k.press.logo,
            code,
        };
        if key_code_label(spec.code.as_str()).is_none() {
            self.status_message = String::from_str("That key can't be used — try another.");
            assert(self@ =~= old(self)@.after_capture(ev).0);
            return Vec::new();
        }
        if !spec.has_strong_modifier() {
            self.status_message = String::from_str("Hold ⌘, ⌥, or ⌃ with the key.");
            assert(self@ =~= old(self)@.after_capture(ev).0);
            return Vec::new();
        }
        let label = spec.label();
        self.hotkey = spec;
        self.recording_hotkey = false;
        self.status_message = String::from_str("Shortcut set to ").concat(label.as_str()).concat(
            ".",
        );
        assert(self@ =~= old(self)@.after_capture(ev).0);
        self.hotkey_changed()
    }

    fn key_pressed(&mut self, key: KeyPress, platform: Platform) -> (effects: Vec<Effect>)
        ensures
            (final(self)@, effects.deep_view()) == old(self)@.after_key(key, platform),
    {
        if let Some(e) = self.platform_window_shortcuts(key, platform) {
            let mut v = Vec::new();
            v.push(e);
            assert(v.deep_view() =~= old(self)@.after_key(key, platform).1);
            return v;
        }
        let command = key.command;
        let mut effects = Vec::new();
        if command && key.key == Key::Character('z') && key.shift {
            let e = self.redo();
            effects = self.resynced(e);
        } else if command && key.key == Key::Character('z') {
            let e = self.undo();
            effects = self.resynced(e);
        } else if command && key.key == Key::Character('e') {
            effects.push(self.export_dialog());
        } else if command && key.key == Key::Character('o') {
            effects.push(Effect::OpenImportDialog);
        } else if command && key.key == Key::Character('n') {
            self.show_list_panel = true;
        } else if command && key.key == Key::Character('l') {
            self.show_list_panel = !self.show_list_panel;
        } else if command && key.key == Key::Character('t') {
            self.set_theme(self.theme_mode.toggled());
            effects = self.persist_settings();
        } else if key.key == Key::Escape && self.renaming.is_some() {
            self.renaming = None;
        } else if key.key == Key::Escape && self.confirming_clear_all {
            self.confirming_clear_all = false;
        } else if key.key == Key::Escape && self.show_settings {
            self.leave_settings();
        }
        assert(self@ =~= old(self)@.after_key(key, platform).0);
        assert(effects.deep_view() =~= old(self)@.after_key(key, platform).1);
        effects
    }

    fn keyboard(&mut self, event: KeyEvent, platform: Platform) -> (effects: Vec<Effect>)
        ensures
            (final(self)@, effects.deep_view()) == old(self)@.after_keyboard(
                event.deep_view(),
                platform,
            ),
    {
        if self.recording_hotkey {
            return self.capture_hotkey(event);
        }
        match event {
            KeyEvent::Pressed(k) => self.key_pressed(k.press, platform),
            KeyEvent::Other => Vec::new(),
        }
    }

    fn menu_command(&mut self, command: NativeMenuCommand) -> (effects: Vec<Effect>)
        ensures
            (final(self)@, effects.deep_view()) == old(self)@.after_menu(command),
    {
        let mut effects = Vec::new();
        match command {
            NativeMenuCommand::FileNew => self.show_list_panel = true,
            NativeMenuCommand::FileSave => effects.push(self.export_dialog()),
            NativeMenuCommand::FileLoad => effects.push(Effect::OpenImportDialog),
            NativeMenuCommand::EditUndo => {
                let e = self.undo();
                effects = self.resynced(e);
            },
            NativeMenuCommand::EditRedo => {
                let e = self.redo();
                effects = self.resynced(e);
            },
            NativeMenuCommand::ToggleTheme => self.set_theme(self.theme_mode.toggled()),
        }
        assert(self@ =~= old(self)@.after_menu(command).0);
        assert(effects.deep_view() =~= old(self)@.after_menu(command).1);
        effects
    }

    fn set_theme_and_persist(&mut self, mode: ThemeMode) -> (effects: Vec<Effect>)
        ensures
            (final(self)@, effects.deep_view()) == old(self)@.with_theme(mode).persisted(),
    {
        self.set_theme(mode);
        self.persist_settings()
    }

    fn set_reopen_last_list(&mut self, on: bool) -> (effects: Vec<Effect>)
        ensures
            (final(self)@, effects.deep_view()) == (MainView {
                reopen_last_list: on,
                ..old(self)@
            }).persisted(),
    {
        self.reopen_last_list = on;
        assert(self@ =~= (MainView { reopen_last_list: on, ..old(self)@ }));
        self.persist_settings()
    }

    fn set_confirm_clear_all(&mut self, on: bool) -> (effects: Vec<Effect>)
        ensures
            (final(self)@, effects.deep_view()) == (MainView {
                confirm_clear_all: on,
                ..old(self)@
            }).persisted(),
    {
        self.confirm_clear_all = on;
        assert(self@ =~= (MainView { confirm_clear_all: on, ..old(self)@ }));
        self.persist_settings()
    }

    fn set_hotkey_enabled(&mut self, on: bool) -> (effects: Vec<Effect>)
        ensures
            (final(self)@, effects.deep_view()) == (MainView {
                hotkey_enabled: on,
                status_message: if on {
                    "Mini-window hotkey enabled."@
                } else {
                    "Mini-window hotkey disabled."@
                },
                ..old(self)@
            }).hotkey_changed(),
    {
        self.hotkey_enabled = on;
        self.status_message = if on {
            String::from_str("Mini-window hotkey enabled.")
        } else {
            String::from_str("Mini-window hotkey disabled.")
        };
        assert(self@ =~= (MainView {
            hotkey_enabled: on,
            status_message: if on {
                "Mini-window hotkey enabled."@
            } else {
                "Mini-window hotkey disabled."@
            },
            ..old(self)@
        }));
        self.hotkey_changed()
    }

    fn reset_hotkey(&mut self) -> (effects: Vec<Effect>)
        ensures
            (final(self)@, effects.deep_view()) == (MainView {
                recording_hotkey: false,
                hotkey: default_hotkey(),
                status_message: "Shortcut reset to "@ + shortcut_label(default_hotkey()) + "."@,
                ..old(self)@
            }).hotkey_changed(),
    {
        let default = HotkeySpec::default_mini_toggle();
        let label = default.label();
        self.recording_hotkey = false;
        self.hotkey = default;
        self.status_message = String::from_str("Shortcut reset to ").concat(label.as_str()).concat(
            ".",
        );
        assert(self@ =~= (MainView {
            recording_hotkey: false,
            hotkey: default_hotkey(),
            status_message: "Shortcut reset to "@ + shortcut_label(default_hotkey()) + "."@,
            ..old(self)@
        }));
        self.hotkey_changed()
    }

    fn set_recording(&mut self, on: bool)
        ensures
            final(self)@ == (MainView {
                recording_hotkey: on,
                status_message: if on {
                    "Press the new shortcut… (Esc to cancel)"@
                } else {
                    "Shortcut unchanged."@
                },
                ..old(self)@
            }),
    {
        self.recording_hotkey = on;
        self.status_message = if on {
            String::from_str("Press the new shortcut… (Esc to cancel)")
        } else {
            String::from_str("Shortcut unchanged.")
        };
        assert(self@ =~= (MainView {
            recording_hotkey: on,
            status_message: if on {
                "Press the new shortcut… (Esc to cancel)"@
            } else {
                "Shortcut unchanged."@
            },
            ..old(self)@
        }));
    }

    fn toggle_settings(&mut self)
        ensures
            final(self)@ == (MainView {
                show_settings: !old(self)@.show_settings,
                recording_hotkey: if old(self)@.show_settings {
                    false
                } else {
                    old(self)@.recording_hotkey
                },
                ..old(self)@
            }),
    {
        self.show_settings = !self.show_settings;
        if !self.show_settings {
            self.recording_hotkey = false;
        }
        assert(self@ =~= (MainView {
            show_settings: !old(self)@.show_settings,
            recording_hotkey: if old(self)@.show_settings {
                false
            } else {
                old(self)@.recording_hotkey
            },
            ..old(self)@
        }));
    }

    fn toggle_task_msg(&mut self, index: usize, completed: bool) -> (effects: Vec<Effect>)
        ensures
            (final(self)@, effects.deep_view()) == old(self)@.after_task_message(
                MessageView::ToggleTaskCompleted(index, completed),
            ),
    {
        let mut effects = self.toggle_task_completed(index, completed);
        append_effects(&mut effects, self.broadcast(IpcMessage::ToggleTaskCompleted { index, completed }));
        effects
    }

    fn add_task_msg(&mut self) -> (effects: Vec<Effect>)
        ensures
            (final(self)@, effects.deep_view()) == old(self)@.after_task_message(MessageView::AddTask),
    {
        let (title, e) = self.add_task();
        let mut effects = e;
        if let Some(title) = title {
            append_effects(&mut effects, self.broadcast(IpcMessage::AddTask { title }));
        }
        effects
    }

    fn remove_task_msg(&mut self, index: usize) -> (effects: Vec<Effect>)
        ensures
            (final(self)@, effects.deep_view()) == old(self)@.after_task_message(
                MessageView::RemoveTask(index),
            ),
    {
        let mut effects = self.remove_task(index);
        append_effects(&mut effects, self.broadcast(IpcMessage::RemoveTask { index }));
        effects
    }

    fn request_clear_all(&mut self) -> (effects: Vec<Effect>)
        ensures
            (final(self)@, effects.deep_view()) == old(self)@.after_task_message(
                MessageView::RequestClearAll,
            ),
    {
        if self.confirm_clear_all {
            self.confirming_clear_all = true;
            assert(self@ =~= (MainView { confirming_clear_all: true, ..old(self)@ }));
            Vec::new()
        } else {
            let e = self.clear_all();
            self.resynced(e)
        }
    }

    fn confirm_clear_all_msg(&mut self) -> (effects: Vec<Effect>)
        ensures
            (final(self)@, effects.deep_view()) == old(self)@.after_task_message(MessageView::ClearAll),
    {
        self.confirming_clear_all = false;
        assert(self@ =~= (MainView { confirming_clear_all: false, ..old(self)@ }));
        let e = self.clear_all();
        self.resynced(e)
    }

    fn set_list_panel(&mut self, show: bool)
        ensures
            final(self)@ == (MainView { show_list_panel: show, ..old(self)@ }),
    {
        self.show_list_panel = show;
        assert(self@ =~= (MainView { show_list_panel: show, ..old(self)@ }));
    }

    fn open_list_msg(&mut self, name: String) -> (effects: Vec<Effect>)
        ensures
            (final(self)@, effects.deep_view()) == old(self)@.after_list_message(
                MessageView::OpenList(name@),
            ),
    {
        let ghost n = name@;
        self.leave_settings();
        let mut effects = Vec::new();
        effects.push(Effect::LoadList { name, purpose: LoadPurpose::Open });
        assert(effects.deep_view() =~= seq![EffectView::LoadList { name: n, purpose: LoadPurpose::Open }]);
        effects
    }

    fn create_list_msg(&mut self) -> (effects: Vec<Effect>)
        ensures
            (final(self)@, effects.deep_view()) == old(self)@.after_list_message(MessageView::CreateList),
    {
        self.leave_settings();
        self.create_list()
    }

    fn start_rename(&mut self, name: String) -> (effects: Vec<Effect>)
        ensures
            (final(self)@, effects.deep_view()) == old(self)@.after_list_message(
                MessageView::StartRenameList(name@),
            ),
    {
        let ghost n = name@;
        self.renaming = Some((name.clone(), name));
        let mut effects = Vec::new();
        effects.push(Effect::FocusRenameInput);
        assert(self@ =~= (MainView { renaming: Some((n, n)), ..old(self)@ }));
        assert(effects.deep_view() =~= seq![EffectView::FocusRenameInput]);
        effects
    }

    fn rename_input(&mut self, value: String)
        ensures
            final(self)@ == old(self)@.after_list_message(MessageView::RenameInputChanged(value@)).0,
    {
        let ghost v = value@;
        let current = self.renaming.take();
        self.renaming = match current {
            Some((from, _)) => Some((from, value)),
            None => None,
        };
        assert(self@ =~= old(self)@.after_list_message(MessageView::RenameInputChanged(v)).0);
    }

    fn import_result(&mut self, path: Option<String>) -> (effects: Vec<Effect>)
        ensures
            (final(self)@, effects.deep_view()) == old(self)@.after_list_message(
                MessageView::ImportListResult(crate::app::message::option_text(path)),
            ),
    {
        let mut effects = Vec::new();
        match path {
            Some(path) => {
                let ghost p = path@;
                effects.push(Effect::ImportFrom { path });
                assert(effects.deep_view() =~= seq![EffectView::ImportFrom { path: p }]);
            },
            None => {
                self.status_message = String::from_str("Import cancelled.");
                assert(self@ =~= old(self)@.with_status("Import cancelled."@));
            },
        }
        effects
    }

    fn export_result(&mut self, path: Option<String>) -> (effects: Vec<Effect>)
        ensures
            (final(self)@, effects.deep_view()) == old(self)@.after_list_message(
                MessageView::ExportListResult(crate::app::message::option_text(path)),
            ),
    {
        match path {
            Some(path) => self.request_export(path),
            None => {
                self.status_message = String::from_str("Export cancelled.");
                assert(self@ =~= old(self)@.with_status("Export cancelled."@));
                Vec::new()
            },
        }
    }

    fn single(e: Effect) -> (v: Vec<Effect>)
        ensures
            v.deep_view() == seq![e.deep_view()],
    {
        let ghost ev = e.deep_view();
        let mut v = Vec::new();
        v.push(e);
        assert(v.deep_view() =~= seq![ev]);
        v
    }

    fn window_opened(&mut self, id: u64) -> (effects: Vec<Effect>)
        ensures
            final(self)@ == (MainView { window_id: Some(id), ..old(self)@ }),
            effects.deep_view() == seq![EffectView::InstallNativeMenu(id)],
    {
        self.window_id = Some(id);
        assert(self@ =~= (MainView { window_id: Some(id), ..old(self)@ }));
        Self::single(Effect::InstallNativeMenu(id))
    }

    fn window_closed(&mut self, id: u64)
        ensures
            final(self)@ == old(self)@.after_window_message(MessageView::WindowClosed(id), Platform::Other).0,
    {
        if self.window_id == Some(id) {
            self.window_id = None;
        }
        assert(self@ =~= old(self)@.after_window_message(MessageView::WindowClosed(id), Platform::Other).0);
    }

    fn menu_installed(&mut self, result: Result<(), String>)
        ensures
            final(self)@ == old(self)@.after_window_message(
                MessageView::NativeMenuInstalled(crate::app::message::result_text(result)),
                Platform::Other,
            ).0,
    {
        let ghost r = crate::app::message::result_text(result);
        if let Err(error) = result {
            self.status_message = String::from_str("Native menu: ").concat(error.as_str());
        }
        assert(self@ =~= old(self)@.after_window_message(MessageView::NativeMenuInstalled(r), Platform::Other).0);
    }

    fn set_text_field(&mut self, which: bool, value: String)
        ensures
            final(self)@ == if which {
                MainView { title_input: value@, ..old(self)@ }
            } else {
                MainView { new_list_name: value@, ..old(self)@ }
            },
    {
        let ghost v = value@;
        if which {
            self.title_input = value;
            assert(self@ =~= (MainView { title_input: v, ..old(self)@ }));
        } else {
            self.new_list_name = value;
            assert(self@ =~= (MainView { new_list_name: v, ..old(self)@ }));
        }
    }

    fn clear_rename(&mut self)
        ensures
            final(self)@ == (MainView { renaming: None, ..old(self)@ }),
    {
        self.renaming = None;
        assert(self@ =~= (MainView { renaming: None, ..old(self)@ }));
    }

    fn set_confirming(&mut self, on: bool)
        ensures
            final(self)@ == (MainView { confirming_clear_all: on, ..old(self)@ }),
    {
        self.confirming_clear_all = on;
        assert(self@ =~= (MainView { confirming_clear_all: on, ..old(self)@ }));
    }

    fn update_tasks(&mut self, message: Message) -> (effects: Vec<Effect>)
        ensures
            (final(self)@, effects.deep_view()) == old(self)@.after_task_message(
                message.deep_view(),
            ),
    {
        match message {
            Message::ToggleTaskCompleted(index, completed) => self.toggle_task_msg(index, completed),
            Message::RemoveTask(index) => self.remove_task_msg(index),
            Message::AddTask => self.add_task_msg(),
            Message::ClearCompleted => {
                let e = self.clear_completed();
                self.resynced(e)
            },
            Message::RequestClearAll => self.request_clear_all(),
            Message::ClearAll => self.confirm_clear_all_msg(),
            Message::CancelClearAll => {
                self.set_confirming(false);
                Vec::new()
            },
            Message::EditUndo => {
                let e = self.undo();
                self.resynced(e)
            },
            Message::EditRedo => {
                let e = self.redo();
                self.resynced(e)
            },
            _ => Vec::new(),
        }
    }

    #[verifier::spinoff_prover]
    #[verifier::rlimit(80)]
    fn update_settings(&mut self, message: Message) -> (effects: Vec<Effect>)
        ensures
            (final(self)@, effects.deep_view()) == old(self)@.after_settings_message(
                message.deep_view(),
            ),
    {
        match message {
            Message::ToggleTheme => {
                let mode = self.theme_mode.toggled();
                self.set_theme_and_persist(mode)
            },
            Message::ToggleSettings => {
                self.toggle_settings();
                Vec::new()
            },
            Message::CloseSettings => {
                self.leave_settings();
                Vec::new()
            },
            Message::SetTheme(mode) => self.set_theme_and_persist(mode),
            Message::SetReopenLastList(on) => self.set_reopen_last_list(on),
            Message::SetConfirmClearAll(on) => self.set_confirm_clear_all(on),
            Message::SetHotkeyEnabled(on) => self.set_hotkey_enabled(on),
            Message::StartRecordHotkey => {
                self.set_recording(true);
                Vec::new()
            },
            Message::CancelRecordHotkey => {
                self.set_recording(false);
                Vec::new()
            },
            Message::ResetHotkey => self.reset_hotkey(),
            _ => Vec::new(),
        }
    }

    fn update_lists(&mut self, message: Message) -> (effects: Vec<Effect>)
        ensures
            (final(self)@, effects.deep_view()) == old(self)@.after_list_message(
                message.deep_view(),
            ),
    {
        match message {
            Message::ToggleListPanel => {
                let show = !self.show_list_panel;
                self.set_list_panel(show);
                Vec::new()
            },
            Message::OpenList(name) => self.open_list_msg(name),
            Message::NewListNameChanged(value) => {
                self.set_text_field(false, value);
                Vec::new()
            },
            Message::CreateList => self.create_list_msg(),
            Message::DeleteList(name) => self.delete_list(name.as_str()),
            Message::StartRenameList(name) => self.start_rename(name),
            Message::RenameInputChanged(value) => {
                self.rename_input(value);
                Vec::new()
            },
            Message::CommitRenameList => self.commit_rename(),
            Message::CancelRenameList => {
                self.clear_rename();
                Vec::new()
            },
            Message::ImportList => Self::single(Effect::OpenImportDialog),
            Message::ImportListResult(path) => self.import_result(path),
            Message::ExportList => Self::single(self.export_dialog()),
            Message::ExportListResult(path) => self.export_result(path),
            _ => Vec::new(),
        }
    }

    fn update_window(&mut self, message: Message, platform: Platform) -> (effects: Vec<Effect>)
        ensures
            (final(self)@, effects.deep_view()) == old(self)@.after_window_message(
                message.deep_view(),
                platform,
            ),
    {
        match message {
            Message::TitleChanged(value) => {
                self.set_text_field(true, value);
                Vec::new()
            },
            Message::WindowOpened(id) => self.window_opened(id),
            Message::WindowClosed(id) => {
                self.window_closed(id);
                Vec::new()
            },
            Message::WindowCloseRequested(_) => Self::single(Effect::Exit),
            Message::NativeMenuEvent(command) => self.menu_command(command),
            Message::NativeMenuInstalled(result) => {
                self.menu_installed(result);
                Vec::new()
            },
            Message::KeyboardEvent(event) => self.keyboard(event, platform),
            Message::IpcEvent(event) => self.handle_ipc(event),
            _ => Vec::new(),
        }
    }

    /// Reacts to a message: updates the state and returns the effects the
    /// host must carry out, in order.
    pub fn update(&mut self, message: Message, platform: Platform) -> (effects: Vec<Effect>)
        ensures
            (final(self)@, effects.deep_view()) == old(self)@.after_message(
                message.deep_view(),
                platform,
            ),
    {
        match message {
            Message::ToggleTaskCompleted(..) | Message::AddTask | Message::RemoveTask(..)
            | Message::ClearCompleted | Message::RequestClearAll | Message::ClearAll
            | Message::CancelClearAll | Message::EditUndo | Message::EditRedo => self.update_tasks(
                message,
            ),
            Message::ToggleTheme | Message::ToggleSettings | Message::CloseSettings
            | Message::SetTheme(..) | Message::SetReopenLastList(..) | Message::SetConfirmClearAll(..)
            | Message::SetHotkeyEnabled(..) | Message::StartRecordHotkey
            | Message::CancelRecordHotkey | Message::ResetHotkey => self.update_settings(
                message,
            ),
            Message::ToggleListPanel | Message::OpenList(..) | Message::NewListNameChanged(..)
            | Message::CreateList | Message::DeleteList(..) | Message::StartRenameList(..)
            | Message::RenameInputChanged(..) | Message::CommitRenameList
            | Message::CancelRenameList | Message::ImportList | Message::ImportListResult(..)
            | Message::ExportList | Message::ExportListResult(..) => self.update_lists(message),
            _ => self.update_window(message, platform),
        }
    }
}

} // verus!
