use taskscape::app::commands::NativeMenuCommand;
use taskscape::app::message::{Key, KeyPress, Platform};
use taskscape::main_window::keys::{is_modifier_code, key_code_label};
use taskscape::main_window::link::{IpcInbound, IpcMessage};
use taskscape::main_window::lists::Config;
use taskscape::main_window::platform::{install_for_window, launch_tray};
use taskscape::main_window::message::{Effect, KeyEvent, KeyInput, LoadPurpose, Message};
use taskscape::main_window::settings::{HotkeySpec, ListEntry};
use taskscape::main_window::state::{Taskscape, find_list};
use taskscape::models::task::Task;
use taskscape::theme::ThemeMode;

fn default_hotkey() -> HotkeySpec {
    HotkeySpec { alt: true, ctrl: false, shift: false, meta: false, code: "Space".to_string() }
}

fn entry(name: &str, count: usize) -> ListEntry {
    ListEntry { name: name.to_string(), path: format!("/lists/{name}.json"), task_count: count }
}

fn config(last_open: Option<&str>, reopen: bool) -> Config {
    Config {
        theme: None,
        reopen_last_list: reopen,
        confirm_clear_all: true,
        hotkey_enabled: true,
        hotkey: None,
        last_open: last_open.map(|s| s.to_string()),
    }
}

/// A main window with the list `work` open and empty.
fn opened() -> Taskscape {
    let (mut s, _) = Taskscape::boot(vec![entry("work", 0)], config(None, false), default_hotkey());
    s.complete_load("work", LoadPurpose::Open, Ok(("work".to_string(), Vec::new())));
    s
}

fn add(s: &mut Taskscape, title: &str) -> Vec<Effect> {
    s.update(Message::TitleChanged(title.to_string()), Platform::Linux);
    s.update(Message::AddTask, Platform::Linux)
}

fn titles(s: &Taskscape) -> Vec<String> {
    s.tasks.iter().map(|t| t.title.clone()).collect()
}

fn press(c: char, command: bool, shift: bool) -> KeyPress {
    KeyPress { key: Key::Character(c), command, shift, alt: false, logo: false }
}

fn key_event(press: KeyPress, ctrl: bool, code: Option<&str>) -> Message {
    Message::KeyboardEvent(KeyEvent::Pressed(KeyInput { press, ctrl, code: code.map(|c| c.to_string()) }))
}

#[test]
fn boot_without_last_list_prompts() {
    let (s, effects) = Taskscape::boot(vec![entry("work", 2)], config(None, true), default_hotkey());
    assert!(effects.is_empty());
    assert_eq!(s.status_message, "Create a new list or load one to begin.");
    assert_eq!(s.theme_mode, ThemeMode::Dark);
    assert!(s.current_list.is_none());
    assert_eq!(s.hotkey.code, "Space");
    assert_eq!(s.lists.len(), 1);
}

#[test]
fn boot_reopens_last_list_quietly() {
    let (s, effects) =
        Taskscape::boot(vec![entry("home", 1), entry("work", 2)], config(Some("work"), true), default_hotkey());
    assert_eq!(s.status_message, "Ready.");
    assert_eq!(effects.len(), 1);
    assert!(matches!(&effects[0], Effect::LoadList { name, purpose: LoadPurpose::Quiet } if name == "work"));
}

#[test]
fn boot_skips_missing_or_disabled_last_list() {
    let (_, effects) = Taskscape::boot(vec![entry("home", 1)], config(Some("work"), true), default_hotkey());
    assert!(effects.is_empty());
    let (_, effects) = Taskscape::boot(vec![entry("work", 1)], config(Some("work"), false), default_hotkey());
    assert!(effects.is_empty());
}

#[test]
fn boot_takes_saved_theme_and_hotkey() {
    let mut c = config(None, false);
    c.theme = Some(ThemeMode::Light);
    c.hotkey = Some(HotkeySpec { alt: false, ctrl: true, shift: true, meta: false, code: "KeyK".to_string() });
    let (s, _) = Taskscape::boot(Vec::new(), c, default_hotkey());
    assert_eq!(s.theme_mode, ThemeMode::Light);
    assert_eq!(s.hotkey.code, "KeyK");
    assert!(s.hotkey.ctrl);
}

#[test]
fn open_load_announces_and_remembers() {
    let (mut s, _) = Taskscape::boot(vec![entry("work", 1)], config(None, false), default_hotkey());
    let effects = s.complete_load(
        "work",
        LoadPurpose::Open,
        Ok(("work".to_string(), vec![Task::new("one".to_string())])),
    );
    assert_eq!(s.status_message, "Opened \"work\".");
    assert_eq!(s.current_list.as_deref(), Some("work"));
    assert_eq!(titles(&s), vec!["one"]);
    assert_eq!(effects.len(), 1);
    assert!(matches!(&effects[0], Effect::RememberOpen { current: Some(n) } if n == "work"));
    assert_eq!(s.title(), "Taskscape — work");
}

#[test]
fn quiet_load_failure_prompts_without_effects() {
    let (mut s, _) = Taskscape::boot(vec![entry("work", 1)], config(Some("work"), true), default_hotkey());
    let effects = s.complete_load("work", LoadPurpose::Quiet, Err("unreadable".to_string()));
    assert!(effects.is_empty());
    assert_eq!(s.status_message, "Create a new list or load one to begin.");
}

#[test]
fn failed_open_shows_error_and_keeps_list() {
    let mut s = opened();
    add(&mut s, "keep");
    s.complete_load("other", LoadPurpose::Open, Err("No such list.".to_string()));
    assert_eq!(s.status_message, "No such list.");
    assert_eq!(titles(&s), vec!["keep"]);
}

#[test]
fn import_load_announces_requested_name() {
    let mut s = opened();
    s.complete_load("imported", LoadPurpose::Import, Ok(("imported (2)".to_string(), Vec::new())));
    assert_eq!(s.status_message, "Imported \"imported\".");
    assert_eq!(s.current_list.as_deref(), Some("imported (2)"));
}

#[test]
fn add_task_saves_and_records_history() {
    let mut s = opened();
    let effects = add(&mut s, "  Buy milk  ");
    assert_eq!(titles(&s), vec!["Buy milk"]);
    assert_eq!(s.title_input, "");
    assert_eq!(s.status_message, "Task added.");
    assert_eq!(s.undo_stack.len(), 1);
    assert_eq!(effects.len(), 1);
    assert!(matches!(&effects[0], Effect::SaveList { name } if name == "work"));
}

#[test]
fn add_task_is_mirrored_when_linked() {
    let mut s = opened();
    s.update(Message::IpcEvent(IpcInbound::Connected), Platform::Linux);
    let effects = add(&mut s, " x ");
    assert_eq!(effects.len(), 2);
    assert!(matches!(&effects[1], Effect::Send(IpcMessage::AddTask { title }) if title == "x"));
}

#[test]
fn blank_add_changes_nothing() {
    let mut s = opened();
    let effects = add(&mut s, "   ");
    assert!(effects.is_empty());
    assert!(s.tasks.is_empty());
    assert!(s.undo_stack.is_empty());
}

#[test]
fn out_of_range_remove_and_toggle_change_nothing() {
    let mut s = opened();
    add(&mut s, "a");
    s.update(Message::EditUndo, Platform::Linux);
    assert_eq!(s.redo_stack.len(), 1);
    let status = s.status_message.clone();
    let effects = s.update(Message::RemoveTask(4), Platform::Linux);
    assert!(effects.is_empty());
    let effects = s.update(Message::ToggleTaskCompleted(4, true), Platform::Linux);
    assert!(effects.is_empty());
    assert_eq!(s.redo_stack.len(), 1);
    assert!(s.undo_stack.is_empty());
    assert!(s.tasks.is_empty());
    assert_eq!(s.status_message, status);
    s.update(Message::EditRedo, Platform::Linux);
    assert_eq!(titles(&s), vec!["a"]);
}

#[test]
fn toggle_and_counts() {
    let mut s = opened();
    add(&mut s, "a");
    add(&mut s, "b");
    s.update(Message::ToggleTaskCompleted(0, true), Platform::Linux);
    assert_eq!(s.status_message, "Task marked complete.");
    assert_eq!(s.open_count(), 1);
    assert_eq!(s.completed_count(), 1);
    assert_eq!(s.total_count(), 2);
    s.update(Message::ClearCompleted, Platform::Linux);
    assert_eq!(titles(&s), vec!["b"]);
    assert_eq!(s.status_message, "Completed tasks removed.");
}

#[test]
fn undo_then_redo_round_trip() {
    let mut s = opened();
    add(&mut s, "a");
    add(&mut s, "b");
    s.update(Message::EditUndo, Platform::Linux);
    assert_eq!(titles(&s), vec!["a"]);
    assert_eq!(s.status_message, "Undid the last change.");
    s.update(Message::EditRedo, Platform::Linux);
    assert_eq!(titles(&s), vec!["a", "b"]);
    assert_eq!(s.status_message, "Restored the undone change.");
    assert_eq!(s.undo_stack.len(), 2);
    assert!(s.redo_stack.is_empty());
}

#[test]
fn undo_with_empty_history_is_a_no_op() {
    let mut s = opened();
    let before = s.status_message.clone();
    let effects = s.update(Message::EditUndo, Platform::Linux);
    assert!(effects.is_empty());
    assert_eq!(s.status_message, before);
}

#[test]
fn clear_all_asks_first_when_configured() {
    let mut s = opened();
    add(&mut s, "a");
    s.update(Message::RequestClearAll, Platform::Linux);
    assert!(s.confirming_clear_all);
    assert_eq!(s.tasks.len(), 1);
    s.update(Message::CancelClearAll, Platform::Linux);
    assert!(!s.confirming_clear_all);
    s.update(Message::RequestClearAll, Platform::Linux);
    s.update(Message::ClearAll, Platform::Linux);
    assert!(s.tasks.is_empty());
    assert!(!s.confirming_clear_all);
    assert_eq!(s.status_message, "All tasks removed.");
}

#[test]
fn clear_all_at_once_when_not_confirming() {
    let mut s = opened();
    s.update(Message::SetConfirmClearAll(false), Platform::Linux);
    add(&mut s, "a");
    s.update(Message::RequestClearAll, Platform::Linux);
    assert!(s.tasks.is_empty());
    assert!(!s.confirming_clear_all);
}

#[test]
fn settings_changes_are_persisted() {
    let mut s = opened();
    let effects = s.update(Message::ToggleTheme, Platform::Linux);
    assert_eq!(s.theme_mode, ThemeMode::Light);
    assert_eq!(s.status_message, "Switched to Light mode.");
    assert_eq!(effects.len(), 1);
    assert!(matches!(&effects[0], Effect::PersistSettings(st) if st.theme == ThemeMode::Light));
    let effects = s.update(Message::SetReopenLastList(true), Platform::Linux);
    assert!(matches!(&effects[0], Effect::PersistSettings(st) if st.reopen_last_list));
    s.update(Message::ToggleTheme, Platform::Linux);
    assert_eq!(s.theme_mode, ThemeMode::Dark);
}

#[test]
fn hotkey_enable_is_sent_to_linked_tray() {
    let mut s = opened();
    s.update(Message::IpcEvent(IpcInbound::Connected), Platform::Linux);
    let effects = s.update(Message::SetHotkeyEnabled(false), Platform::Linux);
    assert_eq!(s.status_message, "Mini-window hotkey disabled.");
    assert_eq!(effects.len(), 2);
    assert!(matches!(&effects[0], Effect::PersistSettings(st) if !st.hotkey_enabled));
    assert!(matches!(&effects[1], Effect::Send(IpcMessage::SetHotkey { hotkey: Some(h), enabled: false }) if h.code == "Space"));
}

#[test]
fn recording_a_shortcut() {
    let mut s = opened();
    s.update(Message::StartRecordHotkey, Platform::MacOs);
    assert!(s.recording_hotkey);
    assert_eq!(s.status_message, "Press the new shortcut… (Esc to cancel)");
    // A modifier alone is waited past.
    let e = s.update(key_event(press('x', false, false), false, Some("ShiftLeft")), Platform::MacOs);
    assert!(e.is_empty() && s.recording_hotkey);
    // Shift alone is too weak.
    let shifted = KeyPress { key: Key::Character('k'), command: false, shift: true, alt: false, logo: false };
    s.update(key_event(shifted, false, Some("KeyK")), Platform::MacOs);
    assert_eq!(s.status_message, "Hold ⌘, ⌥, or ⌃ with the key.");
    assert!(s.recording_hotkey);
    // A key that cannot be bound.
    let alt = KeyPress { key: Key::Other, command: false, shift: false, alt: true, logo: false };
    s.update(key_event(alt, false, Some("NumpadEnter")), Platform::MacOs);
    assert_eq!(s.status_message, "That key can't be used — try another.");
    // An unidentified key is waited past.
    let e = s.update(key_event(alt, false, None), Platform::MacOs);
    assert!(e.is_empty() && s.recording_hotkey);
    assert_eq!(s.hotkey.code, "Space");
    // A good combination.
    let alt_k = KeyPress { key: Key::Character('k'), command: false, shift: false, alt: true, logo: false };
    let e = s.update(key_event(alt_k, false, Some("KeyK")), Platform::MacOs);
    assert!(!s.recording_hotkey);
    assert_eq!(s.hotkey.code, "KeyK");
    assert!(s.hotkey.alt);
    assert_eq!(s.status_message, "Shortcut set to ⌥K.");
    assert_eq!(e.len(), 1);
    assert!(matches!(&e[0], Effect::PersistSettings(st) if st.hotkey.code == "KeyK"));
}

#[test]
fn escape_cancels_recording() {
    let mut s = opened();
    s.update(Message::StartRecordHotkey, Platform::Linux);
    let esc = KeyPress { key: Key::Escape, command: false, shift: false, alt: false, logo: false };
    s.update(key_event(esc, false, Some("Escape")), Platform::Linux);
    assert!(!s.recording_hotkey);
    assert_eq!(s.status_message, "Shortcut unchanged.");
    assert_eq!(s.hotkey.code, "Space");
}

#[test]
fn reset_hotkey_restores_default() {
    let mut s = opened();
    s.hotkey = default_hotkey();
    let e = s.update(Message::ResetHotkey, Platform::Linux);
    assert_eq!(s.status_message, "Shortcut reset to ⌃`.");
    assert_eq!(s.hotkey.code, "Backquote");
    assert!(s.hotkey.ctrl && !s.hotkey.alt && !s.hotkey.meta && !s.hotkey.shift);
    assert_eq!(e.len(), 1);
}

#[test]
fn main_window_keyboard_shortcuts() {
    let mut s = opened();
    add(&mut s, "a");
    let e = s.update(key_event(press('z', true, false), false, Some("KeyZ")), Platform::Linux);
    assert!(s.tasks.is_empty());
    assert!(matches!(&e[0], Effect::SaveList { .. }));
    s.update(key_event(press('z', true, true), false, Some("KeyZ")), Platform::Linux);
    assert_eq!(titles(&s), vec!["a"]);
    let e = s.update(key_event(press('e', true, false), false, Some("KeyE")), Platform::Linux);
    assert!(matches!(&e[0], Effect::OpenExportDialog { suggested } if suggested == "work.json"));
    let e = s.update(key_event(press('o', true, false), false, Some("KeyO")), Platform::Linux);
    assert!(matches!(&e[0], Effect::OpenImportDialog));
    s.update(key_event(press('l', true, false), false, Some("KeyL")), Platform::Linux);
    assert!(s.show_list_panel);
    s.update(key_event(press('t', true, false), false, Some("KeyT")), Platform::Linux);
    assert_eq!(s.theme_mode, ThemeMode::Light);
}

#[test]
fn window_shortcuts_need_a_window() {
    let mut s = opened();
    let quit = KeyPress { key: Key::Character('q'), command: true, shift: false, alt: false, logo: false };
    assert!(s.platform_window_shortcuts(quit, Platform::MacOs).is_none());
    s.update(Message::WindowOpened(7), Platform::MacOs);
    assert!(matches!(s.platform_window_shortcuts(quit, Platform::MacOs), Some(Effect::Exit)));
    let max = KeyPress { key: Key::Character('f'), command: false, shift: false, alt: false, logo: true };
    assert!(matches!(s.platform_window_shortcuts(max, Platform::Windows), Some(Effect::ToggleMaximize(7))));
    let f4 = KeyPress { key: Key::F4, command: false, shift: false, alt: true, logo: false };
    assert!(matches!(s.platform_window_shortcuts(f4, Platform::Linux), Some(Effect::Exit)));
    assert!(s.platform_window_shortcuts(f4, Platform::Other).is_none());
}

#[test]
fn escape_closes_overlays_in_order() {
    let mut s = opened();
    let esc = KeyPress { key: Key::Escape, command: false, shift: false, alt: false, logo: false };
    s.update(Message::StartRenameList("work".to_string()), Platform::Linux);
    s.update(Message::RequestClearAll, Platform::Linux);
    s.update(Message::ToggleSettings, Platform::Linux);
    s.update(key_event(esc, false, None), Platform::Linux);
    assert!(s.renaming.is_none() && s.confirming_clear_all && s.show_settings);
    s.update(key_event(esc, false, None), Platform::Linux);
    assert!(!s.confirming_clear_all && s.show_settings);
    s.update(key_event(esc, false, None), Platform::Linux);
    assert!(!s.show_settings);
}

#[test]
fn window_lifecycle() {
    let mut s = opened();
    let e = s.update(Message::WindowOpened(3), Platform::Linux);
    assert_eq!(s.window_id, Some(3));
    assert!(matches!(&e[0], Effect::InstallNativeMenu(3)));
    s.update(Message::WindowClosed(4), Platform::Linux);
    assert_eq!(s.window_id, Some(3));
    s.update(Message::NativeMenuInstalled(Err("no menu".to_string())), Platform::Linux);
    assert_eq!(s.status_message, "Native menu: no menu");
    let e = s.update(Message::WindowCloseRequested(3), Platform::Linux);
    assert!(matches!(&e[0], Effect::Exit));
    s.update(Message::WindowClosed(3), Platform::Linux);
    assert_eq!(s.window_id, None);
}

#[test]
fn native_menu_commands() {
    let mut s = opened();
    s.update(Message::NativeMenuEvent(NativeMenuCommand::FileNew), Platform::MacOs);
    assert!(s.show_list_panel);
    let e = s.update(Message::NativeMenuEvent(NativeMenuCommand::FileLoad), Platform::MacOs);
    assert!(matches!(&e[0], Effect::OpenImportDialog));
    let e = s.update(Message::NativeMenuEvent(NativeMenuCommand::ToggleTheme), Platform::MacOs);
    assert!(e.is_empty());
    assert_eq!(s.theme_mode, ThemeMode::Light);
}

#[test]
fn create_list_checks_name() {
    let (mut s, _) = Taskscape::boot(vec![entry("work", 0)], config(None, false), default_hotkey());
    s.update(Message::NewListNameChanged("  ".to_string()), Platform::Linux);
    let e = s.update(Message::CreateList, Platform::Linux);
    assert!(e.is_empty());
    assert_eq!(s.status_message, "Enter a name for the new list.");
    s.update(Message::NewListNameChanged(" work ".to_string()), Platform::Linux);
    s.update(Message::CreateList, Platform::Linux);
    assert_eq!(s.status_message, "A list named \"work\" already exists.");
    s.update(Message::NewListNameChanged(" home ".to_string()), Platform::Linux);
    let e = s.update(Message::CreateList, Platform::Linux);
    assert!(matches!(&e[0], Effect::CreateListFile { name } if name == "home"));
    let e = s.complete_create("home", Ok(()));
    assert_eq!(s.current_list.as_deref(), Some("home"));
    assert_eq!(s.new_list_name, "");
    assert_eq!(s.status_message, "Created \"home\".");
    assert!(matches!(&e[0], Effect::RefreshLists));
    assert!(matches!(&e[1], Effect::RememberOpen { current: Some(n) } if n == "home"));
    s.complete_create("x", Err("disk full".to_string()));
    assert_eq!(s.status_message, "disk full");
}

#[test]
fn delete_open_list_closes_it() {
    let mut s = opened();
    add(&mut s, "a");
    let e = s.update(Message::DeleteList("work".to_string()), Platform::Linux);
    assert!(matches!(&e[0], Effect::DeleteListFile { name, path } if name == "work" && path == "/lists/work.json"));
    let e = s.complete_delete("work", Ok(()));
    assert!(s.current_list.is_none());
    assert!(s.tasks.is_empty());
    assert_eq!(s.status_message, "Deleted \"work\".");
    assert!(matches!(&e[0], Effect::RememberOpen { current: None }));
    assert!(matches!(&e[1], Effect::RefreshLists));
}

#[test]
fn delete_unknown_list_does_nothing() {
    let mut s = opened();
    let e = s.update(Message::DeleteList("nope".to_string()), Platform::Linux);
    assert!(e.is_empty());
    s.complete_delete("x", Err("in use".to_string()));
    assert_eq!(s.status_message, "in use");
}

#[test]
fn rename_flow() {
    let mut s = opened();
    let e = s.update(Message::StartRenameList("work".to_string()), Platform::Linux);
    assert!(matches!(&e[0], Effect::FocusRenameInput));
    assert!(s.is_renaming());
    s.update(Message::RenameInputChanged("job".to_string()), Platform::Linux);
    let e = s.update(Message::CommitRenameList, Platform::Linux);
    assert!(matches!(&e[0], Effect::RenameListFile { from, to } if from == "work" && to == "job"));
    assert!(s.renaming.is_none());
    let e = s.complete_rename("work".to_string(), "job".to_string(), Ok("job".to_string()));
    assert_eq!(s.current_list.as_deref(), Some("job"));
    assert_eq!(s.status_message, "Renamed to \"job\".");
    assert!(matches!(&e[0], Effect::RememberOpen { current: Some(n) } if n == "job"));
    s.complete_rename("job".to_string(), "x".to_string(), Err("taken".to_string()));
    assert_eq!(s.status_message, "taken");
    assert_eq!(s.renaming, Some(("job".to_string(), "x".to_string())));
    s.update(Message::CancelRenameList, Platform::Linux);
    assert!(s.renaming.is_none());
}

#[test]
fn import_and_export() {
    let mut s = opened();
    let e = s.update(Message::ImportListResult(None), Platform::Linux);
    assert!(e.is_empty());
    assert_eq!(s.status_message, "Import cancelled.");
    let e = s.update(Message::ImportListResult(Some("/tmp/a.json".to_string())), Platform::Linux);
    assert!(matches!(&e[0], Effect::ImportFrom { path } if path == "/tmp/a.json"));
    let e = s.complete_import(Ok("a".to_string()));
    assert!(matches!(&e[1], Effect::LoadList { name, purpose: LoadPurpose::Import } if name == "a"));
    let e = s.update(Message::ExportListResult(Some("/tmp/out.json".to_string())), Platform::Linux);
    assert!(matches!(&e[0], Effect::ExportTo { name, path } if name == "work" && path == "/tmp/out.json"));
    s.complete_export(Ok(()), "/tmp/out.json");
    assert_eq!(s.status_message, "Exported to /tmp/out.json.");
    s.update(Message::ExportListResult(None), Platform::Linux);
    assert_eq!(s.status_message, "Export cancelled.");
}

#[test]
fn export_without_open_list_is_refused() {
    let (mut s, _) = Taskscape::boot(Vec::new(), config(None, false), default_hotkey());
    let e = s.update(Message::ExportList, Platform::Linux);
    assert!(matches!(&e[0], Effect::OpenExportDialog { suggested } if suggested == "list.json"));
    let e = s.request_export("/tmp/x.json".to_string());
    assert!(e.is_empty());
    assert_eq!(s.status_message, "No list open to export.");
}

#[test]
fn saved_list_updates_browser_count() {
    let mut s = opened();
    add(&mut s, "a");
    add(&mut s, "b");
    s.complete_list_save(Ok(()));
    assert_eq!(s.lists[0].task_count, 2);
    s.complete_list_save(Err("write failed".to_string()));
    assert_eq!(s.status_message, "write failed");
}

#[test]
fn handshake_sends_open_list() {
    let mut s = opened();
    add(&mut s, "a");
    let e = s.update(Message::IpcEvent(IpcInbound::Connected), Platform::Linux);
    assert!(s.ipc_connected);
    assert_eq!(s.status_message, "Linked to mini service.");
    assert_eq!(e.len(), 1);
    assert!(matches!(&e[0], Effect::Send(IpcMessage::Hello { list_name: Some(n), tasks }) if n == "work" && tasks.len() == 1));
    s.update(Message::IpcEvent(IpcInbound::Disconnected), Platform::Linux);
    assert!(!s.ipc_connected);
    assert_eq!(s.status_message, "Mini service offline — running standalone.");
}

#[test]
fn remote_changes_are_saved_not_echoed() {
    let mut s = opened();
    s.update(Message::IpcEvent(IpcInbound::Connected), Platform::Linux);
    let e = s.update(
        Message::IpcEvent(IpcInbound::Message(IpcMessage::AddTask { title: "from tray".to_string() })),
        Platform::Linux,
    );
    assert_eq!(titles(&s), vec!["from tray"]);
    assert_eq!(e.len(), 1);
    assert!(matches!(&e[0], Effect::SaveList { .. }));
    assert!(!s.applying_remote);
    let e = s.update(
        Message::IpcEvent(IpcInbound::Message(IpcMessage::ToggleTaskCompleted { index: 0, completed: true })),
        Platform::Linux,
    );
    assert!(s.tasks[0].completed);
    assert!(e.iter().all(|x| !matches!(x, Effect::Send(_))));
    s.update(Message::IpcEvent(IpcInbound::Message(IpcMessage::RemoveTask { index: 0 })), Platform::Linux);
    assert!(s.tasks.is_empty());
}

#[test]
fn tray_requests_show_and_quit() {
    let mut s = opened();
    s.update(Message::WindowOpened(9), Platform::Linux);
    let e = s.update(Message::IpcEvent(IpcInbound::Message(IpcMessage::ShowMain)), Platform::Linux);
    assert!(s.show_list_panel);
    assert!(matches!(&e[0], Effect::RestoreWindow(9)));
    let e = s.update(Message::IpcEvent(IpcInbound::Message(IpcMessage::Shutdown)), Platform::Linux);
    assert!(matches!(&e[0], Effect::Exit));
    let e = s.update(Message::IpcEvent(IpcInbound::Message(IpcMessage::Bye)), Platform::Linux);
    assert!(e.is_empty());
}

#[test]
fn find_list_by_name() {
    let lists = vec![entry("a", 0), entry("b", 0), entry("b", 1)];
    assert_eq!(find_list(&lists, "b"), 1);
    assert_eq!(find_list(&lists, "c"), 3);
}

#[test]
fn open_list_leaves_settings() {
    let mut s = opened();
    s.update(Message::ToggleSettings, Platform::Linux);
    s.update(Message::StartRecordHotkey, Platform::Linux);
    let e = s.update(Message::OpenList("home".to_string()), Platform::Linux);
    assert!(!s.show_settings && !s.recording_hotkey);
    assert!(matches!(&e[0], Effect::LoadList { name, purpose: LoadPurpose::Open } if name == "home"));
    s.set_lists(vec![entry("home", 3)]);
    assert_eq!(s.lists[0].name, "home");
}

#[test]
fn platform_without_menu_or_tray() {
    assert_eq!(
        install_for_window(),
        Err("Native menu is not supported on this platform in iced/winit yet. Keyboard shortcuts remain available.".to_string())
    );
    assert_eq!(launch_tray(), Ok(()));
}

#[test]
fn key_codes_and_labels() {
    assert!(is_modifier_code("ShiftLeft"));
    assert!(is_modifier_code("SuperRight"));
    assert!(!is_modifier_code("KeyK"));
    assert_eq!(key_code_label("KeyK").as_deref(), Some("K"));
    assert_eq!(key_code_label("Digit7").as_deref(), Some("7"));
    assert_eq!(key_code_label("F12").as_deref(), Some("F12"));
    assert_eq!(key_code_label("F9").as_deref(), Some("F9"));
    assert_eq!(key_code_label("F13"), None);
    assert_eq!(key_code_label("Space").as_deref(), Some("Space"));
    assert_eq!(key_code_label("Backquote").as_deref(), Some("`"));
    assert_eq!(key_code_label("Keyk"), None);
    assert_eq!(key_code_label("NumpadEnter"), None);
    let h = HotkeySpec { alt: true, ctrl: true, shift: true, meta: true, code: "KeyK".to_string() };
    assert_eq!(h.label(), "⌃⌥⇧⌘K");
    let d = HotkeySpec::default_mini_toggle();
    assert_eq!(d.label(), "⌃`");
    let odd = HotkeySpec { alt: false, ctrl: true, shift: false, meta: false, code: "NumpadEnter".to_string() };
    assert_eq!(odd.label(), "⌃NumpadEnter");
}

#[test]
fn default_state_before_configuration() {
    let s = Taskscape::default();
    assert_eq!(s.status_message, "Ready.");
    assert_eq!(s.theme_mode, ThemeMode::Dark);
    assert!(s.reopen_last_list && s.confirm_clear_all && s.hotkey_enabled);
    assert_eq!(s.hotkey.code, "Backquote");
    assert!(s.hotkey.ctrl && !s.hotkey.alt);
    assert!(s.lists.is_empty() && s.tasks.is_empty() && s.current_list.is_none());
}
