use taskscape::app::commands::{HotkeyCommand, NativeMenuCommand, TrayCommand};
use taskscape::app::ipc::{IpcInbound, IpcMessage};
use taskscape::app::message::{Effect, Key, KeyPress, Message, Platform};
use taskscape::app::state::{AppRole, Taskscape};
use taskscape::app::tray::{ICON_SIZE, icon_rgba};
use taskscape::models::task::Task;
use taskscape::theme::ThemeMode;

fn titles(s: &Taskscape) -> Vec<String> {
    s.tasks.iter().map(|t| t.title.clone()).collect()
}

fn add(s: &mut Taskscape, title: &str) -> Vec<Effect> {
    s.update(Message::TitleChanged(title.to_string()), Platform::Linux);
    s.update(Message::AddTask, Platform::Linux)
}

fn key(c: char, command: bool, shift: bool) -> KeyPress {
    KeyPress { key: Key::Character(c), command, shift, alt: false, logo: false }
}

#[test]
fn fresh_state() {
    let s = Taskscape::new(AppRole::Main);
    assert_eq!(s.status_message, "Ready.");
    assert_eq!(s.file_name, "Untitled");
    assert_eq!(s.file_name_editing, "Untitled");
    assert_eq!(s.theme_mode, ThemeMode::Dark);
    assert!(s.tasks.is_empty() && s.undo_stack.is_empty() && s.redo_stack.is_empty());
    assert!(!s.is_any_editing());
    assert_eq!(s.title(3), "Taskscape");
}

#[test]
fn add_task_trims_and_clears_inputs() {
    let mut s = Taskscape::new(AppRole::Main);
    s.update(Message::DueDateChanged("2024-01-01".to_string()), Platform::Linux);
    let effects = add(&mut s, "  Buy milk \n");
    assert!(effects.is_empty());
    assert_eq!(titles(&s), vec!["Buy milk"]);
    assert_eq!(s.title_input, "");
    assert_eq!(s.due_date_input, "");
    assert_eq!(s.status_message, "Task added.");
    assert_eq!(s.undo_stack.len(), 1);
    assert!(s.undo_stack[0].tasks.is_empty());
}

#[test]
fn blank_title_adds_nothing() {
    let mut s = Taskscape::new(AppRole::Main);
    s.title_input = "   \t".to_string();
    assert_eq!(s.add_task(), None);
    assert!(s.tasks.is_empty());
    assert!(s.undo_stack.is_empty());
    assert_eq!(s.status_message, "Ready.");
    assert_eq!(s.title_input, "   \t");
}

#[test]
fn remove_and_toggle_out_of_range_do_nothing() {
    let mut s = Taskscape::new(AppRole::Main);
    add(&mut s, "one");
    s.remove_task(5);
    s.toggle_task_completed(1, true);
    assert_eq!(titles(&s), vec!["one"]);
    assert_eq!(s.undo_stack.len(), 1);
    assert_eq!(s.status_message, "Task added.");
}

#[test]
fn toggle_remove_and_counts() {
    let mut s = Taskscape::new(AppRole::Main);
    add(&mut s, "a");
    add(&mut s, "b");
    add(&mut s, "c");
    s.update(Message::ToggleTaskCompleted(1, true), Platform::Linux);
    assert_eq!(s.status_message, "Task marked complete.");
    assert!(s.tasks[1].completed);
    assert_eq!(s.open_count(), 2);
    assert_eq!(s.completed_count(), 1);
    assert_eq!(s.total_count(), 3);
    s.update(Message::ToggleTaskCompleted(1, false), Platform::Linux);
    assert_eq!(s.status_message, "Task marked open.");
    s.update(Message::RemoveTask(0), Platform::Linux);
    assert_eq!(titles(&s), vec!["b", "c"]);
    assert_eq!(s.status_message, "Task removed.");
    let visible = s.visible_tasks();
    assert_eq!(visible.len(), 2);
    assert_eq!(visible[1].0, 1);
    assert_eq!(visible[1].1.title, "c");
}

#[test]
fn clear_completed_keeps_open_in_order() {
    let mut s = Taskscape::new(AppRole::Main);
    for t in ["a", "b", "c", "d"] {
        add(&mut s, t);
    }
    s.toggle_task_completed(0, true);
    s.toggle_task_completed(2, true);
    s.update(Message::ClearCompleted, Platform::Linux);
    assert_eq!(titles(&s), vec!["b", "d"]);
    assert_eq!(s.status_message, "Completed tasks removed.");
    assert_eq!(s.completed_count(), 0);
    s.update(Message::ClearAll, Platform::Linux);
    assert!(s.tasks.is_empty());
    assert_eq!(s.status_message, "All tasks removed.");
}

#[test]
fn undo_and_redo_walk_history() {
    let mut s = Taskscape::new(AppRole::Main);
    add(&mut s, "a");
    add(&mut s, "b");
    s.update(Message::EditUndo, Platform::Linux);
    assert_eq!(titles(&s), vec!["a"]);
    assert_eq!(s.status_message, "Undid the last change.");
    assert_eq!(s.redo_stack.len(), 1);
    s.update(Message::EditRedo, Platform::Linux);
    assert_eq!(titles(&s), vec!["a", "b"]);
    assert_eq!(s.status_message, "Restored the undone change.");
    assert_eq!(s.undo_stack.len(), 2);
    assert!(s.redo_stack.is_empty());
    // A new change forgets the redo history.
    s.update(Message::EditUndo, Platform::Linux);
    add(&mut s, "c");
    assert!(s.redo_stack.is_empty());
    assert_eq!(titles(&s), vec!["a", "c"]);
    // Nothing left to redo: no change.
    s.update(Message::EditRedo, Platform::Linux);
    assert_eq!(titles(&s), vec!["a", "c"]);
}

#[test]
fn undo_reverts_each_kind_of_change() {
    let mut s = Taskscape::new(AppRole::Main);
    add(&mut s, "a");
    add(&mut s, "b");
    s.toggle_task_completed(0, true);
    let before = titles(&s);
    s.clear_completed();
    s.undo();
    assert_eq!(titles(&s), before);
    assert!(s.tasks[0].completed);
    s.clear_all();
    s.undo();
    assert_eq!(titles(&s), before);
    s.remove_task(1);
    s.undo();
    assert_eq!(titles(&s), before);
    s.toggle_task_completed(0, false);
    s.undo();
    assert!(s.tasks[0].completed);
}

#[test]
fn empty_undo_is_a_no_op() {
    let mut s = Taskscape::new(AppRole::Tray);
    s.undo();
    s.redo();
    assert_eq!(s.status_message, "Ready.");
}

#[test]
fn new_list_forgets_everything() {
    let mut s = Taskscape::new(AppRole::Main);
    add(&mut s, "a");
    s.update(Message::FileNew, Platform::Linux);
    assert!(s.tasks.is_empty() && s.undo_stack.is_empty() && s.redo_stack.is_empty());
    assert_eq!(s.status_message, "Started a new list.");
}

#[test]
fn theme_toggle_announces_mode() {
    let mut s = Taskscape::new(AppRole::Main);
    s.update(Message::ToggleTheme, Platform::Linux);
    assert_eq!(s.theme_mode, ThemeMode::Light);
    assert_eq!(s.status_message, "Switched to Light mode.");
    s.update(Message::NativeMenuEvent(NativeMenuCommand::ToggleTheme), Platform::Linux);
    assert_eq!(s.theme_mode, ThemeMode::Dark);
    assert_eq!(s.status_message, "Switched to Dark mode.");
}

#[test]
fn title_editing_keeps_or_discards() {
    let mut s = Taskscape::new(AppRole::Main);
    let e = s.update(Message::ToggleTitleEdit, Platform::Linux);
    assert!(matches!(e.as_slice(), [Effect::MoveCursorToTitleEnd]));
    assert!(s.editing_title);
    s.update(Message::FileNameChanged("Groceries".to_string()), Platform::Linux);
    let e = s.update(Message::ToggleTitleEdit, Platform::Linux);
    assert!(e.is_empty());
    assert_eq!(s.file_name, "Groceries");
    assert!(!s.editing_title);
    s.update(Message::ToggleTitleEdit, Platform::Linux);
    s.update(Message::FileNameChanged("Oops".to_string()), Platform::Linux);
    s.update(Message::KeyboardEvent(KeyPress { key: Key::Escape, command: false, shift: false, alt: false, logo: false }), Platform::Linux);
    assert_eq!(s.file_name, "Groceries");
    assert_eq!(s.file_name_editing, "Groceries");
    assert!(!s.editing_title);
    s.update(Message::ToggleTitleEdit, Platform::Linux);
    s.update(Message::FileNameChanged("Again".to_string()), Platform::Linux);
    s.update(Message::CancelAllEditing, Platform::Linux);
    assert_eq!(s.file_name_editing, "Groceries");
    s.update(Message::ToggleTitleEdit, Platform::Linux);
    s.update(Message::ToggleTitleEditCancel, Platform::Linux);
    assert!(!s.editing_title);
}

#[test]
fn save_and_load_flow() {
    let mut s = Taskscape::new(AppRole::Main);
    let e = s.update(Message::FileSave, Platform::Linux);
    match e.as_slice() {
        [Effect::OpenSaveDialog { file_name }] => assert_eq!(file_name, "Untitled.csv"),
        other => panic!("unexpected {other:?}"),
    }
    let e = s.update(Message::FileSaveResult(Some("/tmp/x.csv".to_string())), Platform::Linux);
    match e.as_slice() {
        [Effect::SaveTasks { path }] => assert_eq!(path, "/tmp/x.csv"),
        other => panic!("unexpected {other:?}"),
    }
    s.update(Message::FileSaveResult(None), Platform::Linux);
    assert_eq!(s.status_message, "Save cancelled.");
    let e = s.update(Message::FileLoad, Platform::Linux);
    assert!(matches!(e.as_slice(), [Effect::OpenLoadDialog]));
    s.update(Message::FileLoadResult(None), Platform::Linux);
    assert_eq!(s.status_message, "Load cancelled.");
    let e = s.update(Message::FileLoadResult(Some("/tmp/y.csv".to_string())), Platform::Linux);
    assert!(matches!(e.as_slice(), [Effect::LoadTasks { .. }]));

    add(&mut s, "a");
    s.complete_save(Ok("Saved 1 task.".to_string()));
    assert!(s.undo_stack.is_empty());
    assert_eq!(s.status_message, "Saved 1 task.");
    add(&mut s, "b");
    s.complete_save(Err("disk full".to_string()));
    assert_eq!(s.undo_stack.len(), 1);
    assert_eq!(s.status_message, "disk full");

    let loaded = vec![Task::new("x".to_string()), Task::new("y".to_string()), Task::new("z".to_string())];
    s.complete_load(Ok(loaded), Some("work".to_string()), "/tmp/work.csv");
    assert_eq!(titles(&s), vec!["x", "y", "z"]);
    assert_eq!(s.file_name, "work");
    assert_eq!(s.status_message, "Loaded 3 tasks from /tmp/work.csv.");
    assert!(s.undo_stack.is_empty());
    s.complete_load(Ok(Vec::new()), None, "/tmp/empty.csv");
    assert_eq!(s.file_name, "work");
    assert_eq!(s.status_message, "Loaded 0 tasks from /tmp/empty.csv.");
    s.complete_load(Err("bad file".to_string()), None, "/tmp/bad.csv");
    assert_eq!(s.status_message, "bad file");
}

#[test]
fn keyboard_shortcuts() {
    let mut s = Taskscape::new(AppRole::Main);
    add(&mut s, "a");
    s.update(Message::KeyboardEvent(key('z', true, false)), Platform::Linux);
    assert!(s.tasks.is_empty());
    s.update(Message::KeyboardEvent(key('z', true, true)), Platform::Linux);
    assert_eq!(titles(&s), vec!["a"]);
    let e = s.update(Message::KeyboardEvent(key('s', true, false)), Platform::Linux);
    assert!(matches!(e.as_slice(), [Effect::OpenSaveDialog { .. }]));
    let e = s.update(Message::KeyboardEvent(key('o', true, false)), Platform::Linux);
    assert!(matches!(e.as_slice(), [Effect::OpenLoadDialog]));
    s.update(Message::KeyboardEvent(key('t', true, false)), Platform::Linux);
    assert_eq!(s.theme_mode, ThemeMode::Light);
    let e = s.update(Message::KeyboardEvent(key('t', false, false)), Platform::Linux);
    assert!(e.is_empty());
    assert_eq!(s.theme_mode, ThemeMode::Light);
    s.update(Message::KeyboardEvent(key('n', true, false)), Platform::Linux);
    assert!(s.tasks.is_empty());
    assert_eq!(s.status_message, "Started a new list.");
}

#[test]
fn window_shortcuts_per_platform() {
    let mut s = Taskscape::new(AppRole::Main);
    // Without a main window no shortcut fires.
    assert!(s.platform_window_shortcuts(key('f', true, false), Platform::MacOs).is_none());
    s.update(Message::WindowOpened(7), Platform::MacOs);
    assert!(matches!(s.platform_window_shortcuts(key('f', true, false), Platform::MacOs), Some(Effect::ToggleMaximize(7))));
    assert!(matches!(s.platform_window_shortcuts(key('m', true, false), Platform::MacOs), Some(Effect::MinimizeWindow(7))));
    assert!(matches!(s.platform_window_shortcuts(key('q', true, false), Platform::MacOs), Some(Effect::CloseWindow(7))));
    assert!(matches!(s.platform_window_shortcuts(key('w', true, false), Platform::MacOs), Some(Effect::MinimizeWindow(7))));
    assert!(s.platform_window_shortcuts(key('f', false, false), Platform::MacOs).is_none());
    let logo_w = KeyPress { key: Key::Character('w'), command: false, shift: false, alt: false, logo: true };
    assert!(matches!(s.platform_window_shortcuts(logo_w, Platform::Windows), Some(Effect::CloseWindow(7))));
    let alt_f4 = KeyPress { key: Key::F4, command: false, shift: false, alt: true, logo: false };
    assert!(matches!(s.platform_window_shortcuts(alt_f4, Platform::Linux), Some(Effect::CloseWindow(7))));
    assert!(s.platform_window_shortcuts(alt_f4, Platform::MacOs).is_none());
    assert!(s.platform_window_shortcuts(alt_f4, Platform::Other).is_none());
    // A shortcut wins over the app's own keys.
    let e = s.update(Message::KeyboardEvent(key('q', true, false)), Platform::MacOs);
    assert!(matches!(e.as_slice(), [Effect::CloseWindow(7)]));
}

#[test]
fn windows_open_and_close() {
    let mut main = Taskscape::new(AppRole::Main);
    let e = main.update(Message::WindowOpened(1), Platform::Linux);
    assert!(matches!(e.as_slice(), [Effect::InstallNativeMenu(1)]));
    assert_eq!(main.window_id, Some(1));
    let e = main.update(Message::WindowCloseRequested(1), Platform::Linux);
    assert!(matches!(e.as_slice(), [Effect::CloseWindow(1)]));
    let e = main.update(Message::WindowCloseRequested(1), Platform::MacOs);
    assert!(matches!(e.as_slice(), [Effect::MinimizeWindow(1)]));
    assert_eq!(main.status_message, "Minimized to the Dock.");
    main.update(Message::WindowClosed(1), Platform::Linux);
    assert_eq!(main.window_id, None);

    let mut tray = Taskscape::new(AppRole::Tray);
    let e = tray.update(Message::WindowOpened(2), Platform::MacOs);
    assert!(matches!(e.as_slice(), [Effect::InstallTray(2), Effect::InstallHotkey(2), Effect::CloseWindow(2)]));
    let e = tray.update(Message::TrayEvent(TrayCommand::ShowWindow), Platform::MacOs);
    assert!(matches!(e.as_slice(), [Effect::OpenMiniWindow { anchored: true }]));
    tray.mini_window_opened(9);
    assert_eq!(tray.status_message, "Mini window opened.");
    assert_eq!(tray.title(9), "Taskscape Mini");
    // The compact window's own open event changes nothing.
    let e = tray.update(Message::WindowOpened(9), Platform::MacOs);
    assert!(e.is_empty());
    assert_eq!(tray.window_id, Some(2));
    let e = tray.update(Message::HotkeyEvent(HotkeyCommand::ToggleMini), Platform::MacOs);
    assert!(matches!(e.as_slice(), [Effect::CloseWindow(9)]));
    assert_eq!(tray.mini_window_id, None);
    assert_eq!(tray.status_message, "Mini window closed.");
    let e = tray.update(Message::HotkeyEvent(HotkeyCommand::ToggleMini), Platform::MacOs);
    assert!(matches!(e.as_slice(), [Effect::OpenMiniWindow { anchored: false }]));
    tray.mini_window_opened(10);
    let e = tray.update(Message::WindowCloseRequested(10), Platform::MacOs);
    assert!(matches!(e.as_slice(), [Effect::CloseWindow(10)]));
    assert_eq!(tray.mini_window_id, None);
    tray.mini_window_opened(11);
    tray.update(Message::WindowClosed(11), Platform::MacOs);
    assert_eq!(tray.mini_window_id, None);
    assert_eq!(tray.window_id, Some(2));
}

#[test]
fn install_failures_are_reported() {
    let mut s = Taskscape::new(AppRole::Tray);
    s.update(Message::TrayInstalled(Ok(())), Platform::Linux);
    assert_eq!(s.status_message, "Ready.");
    s.update(Message::TrayInstalled(taskscape::app::tray::install()), Platform::Linux);
    assert_eq!(s.status_message, "Menu bar icon: Menu bar icon is only implemented on macOS for now.");
    s.update(Message::HotkeyInstalled(Err("busy".to_string())), Platform::Linux);
    assert_eq!(s.status_message, "Global hotkey: busy");
    s.update(Message::NativeMenuInstalled(Err("no menu".to_string())), Platform::Linux);
    assert_eq!(s.status_message, "Native menu: no menu");
}

#[test]
fn menu_ids_round_trip() {
    for c in NativeMenuCommand::all() {
        assert_eq!(NativeMenuCommand::from_menu_id(c.menu_id()), Some(c));
    }
    assert_eq!(NativeMenuCommand::FileNew.menu_id(), "taskscape.file.new");
    assert_eq!(NativeMenuCommand::ToggleTheme.menu_id(), "taskscape.view.toggle-theme");
    assert_eq!(NativeMenuCommand::from_menu_id("taskscape.file"), None);
    assert_eq!(NativeMenuCommand::from_menu_id(""), None);
}

#[test]
fn changes_are_mirrored_only_when_linked() {
    let mut s = Taskscape::new(AppRole::Main);
    let e = add(&mut s, "a");
    assert!(e.is_empty());
    let e = s.update(Message::IpcEvent(IpcInbound::Connected), Platform::Linux);
    assert!(s.ipc_connected);
    assert_eq!(s.status_message, "Linked to mini service.");
    match e.as_slice() {
        [Effect::Send(IpcMessage::Hello { tasks })] => assert_eq!(tasks.len(), 1),
        other => panic!("unexpected {other:?}"),
    }
    let e = add(&mut s, "  b ");
    match e.as_slice() {
        [Effect::Send(IpcMessage::AddTask { title })] => assert_eq!(title, "b"),
        other => panic!("unexpected {other:?}"),
    }
    let e = s.update(Message::ToggleTaskCompleted(0, true), Platform::Linux);
    assert!(matches!(e.as_slice(), [Effect::Send(IpcMessage::ToggleTaskCompleted { index: 0, completed: true })]));
    // Out-of-range changes are still mirrored, as the peer ignores them too.
    let e = s.update(Message::RemoveTask(9), Platform::Linux);
    assert!(matches!(e.as_slice(), [Effect::Send(IpcMessage::RemoveTask { index: 9 })]));
    let e = s.update(Message::ClearAll, Platform::Linux);
    assert!(e.is_empty());
    let e = s.update(Message::IpcEvent(IpcInbound::Disconnected), Platform::Linux);
    assert!(e.is_empty());
    assert!(!s.ipc_connected);
    assert_eq!(s.status_message, "Mini service offline — running standalone.");
}

#[test]
fn peer_changes_apply_without_echo() {
    let mut tray = Taskscape::new(AppRole::Tray);
    let e = tray.update(Message::IpcEvent(IpcInbound::Connected), Platform::MacOs);
    assert!(e.is_empty());
    assert_eq!(tray.status_message, "Linked to Taskscape.");
    add(&mut tray, "old");
    let hello = IpcMessage::Hello { tasks: vec![Task::new("x".to_string()), Task::new("y".to_string())] };
    let e = tray.update(Message::IpcEvent(IpcInbound::Message(hello)), Platform::MacOs);
    assert!(e.is_empty());
    assert_eq!(titles(&tray), vec!["x", "y"]);
    assert!(tray.undo_stack.is_empty());
    assert_eq!(tray.status_message, "Synced from Taskscape.");
    let e = tray.update(Message::IpcEvent(IpcInbound::Message(IpcMessage::AddTask { title: " z ".to_string() })), Platform::MacOs);
    assert!(e.is_empty());
    assert_eq!(titles(&tray), vec!["x", "y", " z "]);
    let e = tray.update(Message::IpcEvent(IpcInbound::Message(IpcMessage::AddTask { title: "  ".to_string() })), Platform::MacOs);
    assert!(e.is_empty());
    assert_eq!(tray.tasks.len(), 3);
    tray.update(Message::IpcEvent(IpcInbound::Message(IpcMessage::ToggleTaskCompleted { index: 1, completed: true })), Platform::MacOs);
    assert!(tray.tasks[1].completed);
    tray.update(Message::IpcEvent(IpcInbound::Message(IpcMessage::RemoveTask { index: 0 })), Platform::MacOs);
    assert_eq!(titles(&tray), vec!["y", " z "]);
    tray.update(Message::IpcEvent(IpcInbound::Message(IpcMessage::Bye)), Platform::MacOs);
    assert_eq!(titles(&tray), vec!["y", " z "]);
    assert!(!tray.applying_remote);
    let e = tray.update(Message::IpcEvent(IpcInbound::Disconnected), Platform::MacOs);
    assert!(e.is_empty());
    assert_eq!(tray.status_message, "Main app closed — running standalone.");
}

#[test]
fn nothing_is_sent_while_applying_remote() {
    let mut s = Taskscape::new(AppRole::Main);
    s.ipc_connected = true;
    s.applying_remote = true;
    let mut effects = Vec::new();
    s.broadcast(IpcMessage::Bye, &mut effects);
    assert!(effects.is_empty());
    s.applying_remote = false;
    s.broadcast(IpcMessage::Bye, &mut effects);
    assert_eq!(effects.len(), 1);
}

#[test]
fn tray_icon_drawing() {
    let rgba = icon_rgba();
    assert_eq!(rgba.len(), ICON_SIZE * ICON_SIZE * 4);
    let alpha = |x: usize, y: usize| rgba[(y * ICON_SIZE + x) * 4 + 3];
    // Three boxes of 6×6 and three lines of 16×2 pixels.
    assert_eq!(rgba.iter().filter(|b| **b == 255).count(), 3 * (36 + 32));
    assert_eq!(alpha(4, 6), 255);
    assert_eq!(alpha(9, 11), 255);
    assert_eq!(alpha(10, 6), 0);
    assert_eq!(alpha(12, 8), 255);
    assert_eq!(alpha(27, 26), 255);
    assert_eq!(alpha(28, 26), 0);
    assert_eq!(alpha(12, 6), 0);
    assert_eq!(alpha(0, 0), 0);
    assert!(rgba.chunks(4).all(|px| px[0] == 0 && px[1] == 0 && px[2] == 0));
}

#[test]
fn native_menu_needs_no_window() {
    assert_eq!(taskscape::app::commands::install_for_window(), Ok(()));
}
