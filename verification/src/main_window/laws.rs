//! Properties that hold across the operations of the main window.
use vstd::prelude::*;
use crate::app::message::{Key, KeyPress, Platform};
use crate::main_window::keys::{code_label, default_hotkey, is_modifier, shortcut_label};
use crate::main_window::link::{IpcInboundView, IpcMessageView};
use crate::main_window::message::{EffectView, KeyEventView, KeyInputView, LoadPurpose, MessageView};
use crate::main_window::settings::{HotkeySpecView, ListEntryView};
use crate::main_window::state::{MainView, first_named};
use crate::main_window::update::main_shortcut;
use crate::models::task::TaskView;
use crate::text::trimmed;
use crate::theme::ThemeMode;

verus! {

/// Undoing right after a recorded change brings back the task list and the
/// undo history from before it: adding a task (from the composer or from the
/// tray service), removing or (un)completing an existing task, clearing the
/// completed tasks and clearing all.
pub proof fn law_undo_reverts_a_change(
    s: MainView,
    title: Seq<char>,
    index: usize,
    completed: bool,
)
    ensures
        trimmed(s.title_input).len() > 0 ==> s.after_add_task().0.after_undo().0.tasks == s.tasks
            && s.after_add_task().0.after_undo().0.undo_stack == s.undo_stack,
        trimmed(title).len() > 0 ==> s.after_add_task_with_title(title).0.after_undo().0.tasks
            == s.tasks && s.after_add_task_with_title(title).0.after_undo().0.undo_stack
            == s.undo_stack,
        index < s.tasks.len() ==> s.after_remove_task(index).0.after_undo().0.tasks == s.tasks
            && s.after_remove_task(index).0.after_undo().0.undo_stack == s.undo_stack,
        index < s.tasks.len() ==> s.after_toggle_task(index, completed).0.after_undo().0.tasks
            == s.tasks && s.after_toggle_task(index, completed).0.after_undo().0.undo_stack
            == s.undo_stack,
        s.after_clear_completed().0.after_undo().0.tasks == s.tasks,
        s.after_clear_completed().0.after_undo().0.undo_stack == s.undo_stack,
        s.after_clear_all().0.after_undo().0.tasks == s.tasks,
        s.after_clear_all().0.after_undo().0.undo_stack == s.undo_stack,
{
    assert(s.undo_stack.push(s.tasks).drop_last() =~= s.undo_stack);
}

/// A recorded change forgets everything that could be redone.
pub proof fn law_change_clears_redo(s: MainView, title: Seq<char>, index: usize, completed: bool)
    ensures
        trimmed(s.title_input).len() > 0 ==> s.after_add_task().0.redo_stack.len() == 0,
        trimmed(title).len() > 0 ==> s.after_add_task_with_title(title).0.redo_stack.len() == 0,
        index < s.tasks.len() ==> s.after_remove_task(index).0.redo_stack.len() == 0,
        index < s.tasks.len() ==> s.after_toggle_task(index, completed).0.redo_stack.len() == 0,
        s.after_clear_completed().0.redo_stack.len() == 0,
        s.after_clear_all().0.redo_stack.len() == 0,
{
}

/// Redo undoes an undo, and undo undoes a redo: the list and both stacks are
/// as before.
pub proof fn law_redo_undoes_undo(s: MainView)
    ensures
        s.undo_stack.len() > 0 ==> s.after_undo().0.after_redo().0.tasks == s.tasks
            && s.after_undo().0.after_redo().0.undo_stack == s.undo_stack
            && s.after_undo().0.after_redo().0.redo_stack == s.redo_stack,
        s.redo_stack.len() > 0 ==> s.after_redo().0.after_undo().0.tasks == s.tasks
            && s.after_redo().0.after_undo().0.undo_stack == s.undo_stack
            && s.after_redo().0.after_undo().0.redo_stack == s.redo_stack,
{
    if s.undo_stack.len() > 0 {
        assert(s.undo_stack.drop_last().push(s.undo_stack.last()) =~= s.undo_stack);
        assert(s.redo_stack.push(s.tasks).drop_last() =~= s.redo_stack);
    }
    if s.redo_stack.len() > 0 {
        assert(s.redo_stack.drop_last().push(s.redo_stack.last()) =~= s.redo_stack);
        assert(s.undo_stack.push(s.tasks).drop_last() =~= s.undo_stack);
    }
}

/// With nothing to undo (or redo), undo (or redo) changes nothing and asks
/// for nothing.
pub proof fn law_empty_history_is_a_no_op(s: MainView)
    ensures
        s.undo_stack.len() == 0 ==> s.after_undo() == (s, Seq::<EffectView>::empty()),
        s.redo_stack.len() == 0 ==> s.after_redo() == (s, Seq::<EffectView>::empty()),
{
}

/// Refused changes are no-ops: a blank title adds nothing, and removing or
/// (un)completing a task that does not exist changes nothing; none of them
/// saves anything.
pub proof fn law_rejected_changes_leave_state(
    s: MainView,
    title: Seq<char>,
    index: usize,
    completed: bool,
)
    ensures
        trimmed(s.title_input).len() == 0 ==> s.after_add_task() == (
            s,
            Seq::<EffectView>::empty(),
        ),
        trimmed(title).len() == 0 ==> s.after_add_task_with_title(title) == (
            s,
            Seq::<EffectView>::empty(),
        ),
        index >= s.tasks.len() ==> s.after_remove_task(index) == (s, Seq::<EffectView>::empty()),
        index >= s.tasks.len() ==> s.after_toggle_task(index, completed) == (
            s,
            Seq::<EffectView>::empty(),
        ),
{
}

/// Every recorded change to the open list asks for that list to be saved,
/// first of all its effects.
pub proof fn law_changes_are_saved(
    s: MainView,
    name: Seq<char>,
    title: Seq<char>,
    index: usize,
    completed: bool,
)
    requires
        s.current_list == Some(name),
    ensures
        trimmed(s.title_input).len() > 0 ==> s.after_add_task().1 == seq![
            EffectView::SaveList { name },
        ],
        trimmed(title).len() > 0 ==> s.after_add_task_with_title(title).1 == seq![
            EffectView::SaveList { name },
        ],
        index < s.tasks.len() ==> s.after_remove_task(index).1 == seq![
            EffectView::SaveList { name },
        ],
        index < s.tasks.len() ==> s.after_toggle_task(index, completed).1 == seq![
            EffectView::SaveList { name },
        ],
        s.after_clear_completed().1 == seq![EffectView::SaveList { name }],
        s.after_clear_all().1 == seq![EffectView::SaveList { name }],
        s.undo_stack.len() > 0 ==> s.after_undo().1 == seq![EffectView::SaveList { name }],
        s.redo_stack.len() > 0 ==> s.after_redo().1 == seq![EffectView::SaveList { name }],
{
}

/// A change that came from the tray service is applied without being
/// mirrored back: nothing is sent, and the guard is down afterwards.
pub proof fn law_remote_changes_are_not_echoed(s: MainView, m: IpcMessageView, p: Platform)
    ensures
        forall|i: int|
            0 <= i < s.after_ipc(IpcInboundView::Message(m)).1.len() ==> !(#[trigger] s.after_ipc(
                IpcInboundView::Message(m),
            ).1[i] is Send),
        !s.after_ipc(IpcInboundView::Message(m)).0.applying_remote,
        s.after_message(MessageView::IpcEvent(IpcInboundView::Message(m)), p) == s.after_ipc(
            IpcInboundView::Message(m),
        ),
        s.applying_remote ==> s.broadcast_effects(m).len() == 0,
        !s.ipc_connected ==> s.broadcast_effects(m).len() == 0,
{
    reveal(MainView::applied_remote);
}

/// On connecting, the main window sends the open list, whole, and nothing
/// else.
pub proof fn law_handshake_sends_open_list(s: MainView)
    ensures
        s.after_ipc(IpcInboundView::Connected).1 == seq![
            EffectView::Send(
                IpcMessageView::Hello { list_name: s.current_list, tasks: s.tasks },
            ),
        ],
        s.after_ipc(IpcInboundView::Connected).0.ipc_connected,
        s.after_ipc(IpcInboundView::Connected).0.tasks == s.tasks,
{
}

/// Every change of a setting is written to the configuration, and a change
/// of the shortcut or its enabling is also sent to a linked tray service.
pub proof fn law_settings_changes_are_saved(s: MainView, m: MessageView, p: Platform)
    requires
        m is ToggleTheme || m is SetTheme || m is SetReopenLastList || m is SetConfirmClearAll
            || m is SetHotkeyEnabled || m is ResetHotkey,
    ensures
        s.after_message(m, p).1.len() >= 1,
        s.after_message(m, p).1[0] == EffectView::PersistSettings(s.after_message(m, p).0.settings()),
        (m is SetHotkeyEnabled || m is ResetHotkey) && s.ipc_connected ==> s.after_message(m, p).1
            == seq![
            EffectView::PersistSettings(s.after_message(m, p).0.settings()),
            EffectView::Send(
                IpcMessageView::SetHotkey {
                    hotkey: Some(s.after_message(m, p).0.hotkey),
                    enabled: s.after_message(m, p).0.hotkey_enabled,
                },
            ),
        ],
{
}

/// Toggling the theme twice restores it.
pub proof fn law_theme_toggle_twice(s: MainView, p: Platform)
    ensures
        s.after_message(MessageView::ToggleTheme, p).0.after_message(
            MessageView::ToggleTheme,
            p,
        ).0.theme_mode == s.theme_mode,
{
}

/// Only a combination with ⌘, ⌥ or ⌃ and a bindable, non-modifier key ever
/// becomes the shortcut while one is recorded; any other key press leaves
/// the shortcut as it was and keeps recording, unless it is Esc alone.
pub proof fn law_recorded_shortcut_is_strong(s: MainView, e: KeyEventView)
    ensures
        s.after_capture(e).0.hotkey == s.hotkey || (s.after_capture(e).0.hotkey.strong()
            && !is_modifier(s.after_capture(e).0.hotkey.code) && code_label(
            s.after_capture(e).0.hotkey.code,
        ) is Some),
        s.after_capture(e).0.hotkey != s.hotkey ==> !s.after_capture(e).0.recording_hotkey
            && s.after_capture(e).1[0] == EffectView::PersistSettings(
            s.after_capture(e).0.settings(),
        ),
        s.after_capture(e).1.len() > 0 ==> s.after_capture(e).0.hotkey.strong() && !is_modifier(
            s.after_capture(e).0.hotkey.code,
        ) && code_label(s.after_capture(e).0.hotkey.code) is Some
            && !s.after_capture(e).0.recording_hotkey,
{
}

/// Resetting the shortcut always restores the built-in one.
pub proof fn law_reset_restores_default(s: MainView, p: Platform)
    ensures
        s.after_message(MessageView::ResetHotkey, p).0.hotkey == default_hotkey(),
        !s.after_message(MessageView::ResetHotkey, p).0.recording_hotkey,
{
}

/// A list that is read becomes the open list with exactly the tasks read
/// and no history; a quiet reopen at start-up never asks for anything.
pub proof fn law_loaded_list_is_opened(
    s: MainView,
    requested: Seq<char>,
    purpose: LoadPurpose,
    name: Seq<char>,
    tasks: Seq<TaskView>,
    result: Result<(Seq<char>, Seq<TaskView>), Seq<char>>,
)
    ensures
        s.after_load(requested, purpose, Ok((name, tasks))).0.tasks == tasks,
        s.after_load(requested, purpose, Ok((name, tasks))).0.current_list == Some(name),
        s.after_load(requested, purpose, Ok((name, tasks))).0.undo_stack.len() == 0,
        s.after_load(requested, purpose, Ok((name, tasks))).0.redo_stack.len() == 0,
        s.after_load(requested, LoadPurpose::Quiet, result).1.len() == 0,
        result is Err ==> s.after_load(requested, purpose, result).0.tasks == s.tasks,
{
}

/// Deleting the open list closes it; deleting another list keeps the open
/// one as it is.
pub proof fn law_deleting_open_list_closes_it(s: MainView, name: Seq<char>)
    ensures
        s.current_list == Some(name) ==> s.after_delete(name, Ok(())).0.current_list is None
            && s.after_delete(name, Ok(())).0.tasks.len() == 0,
        s.current_list != Some(name) ==> s.after_delete(name, Ok(())).0.current_list
            == s.current_list && s.after_delete(name, Ok(())).0.tasks == s.tasks,
{
}

/// Renaming the open list keeps it open under its new name; a refused rename
/// stays open for correction and changes nothing else.
pub proof fn law_rename_follows_open_list(
    s: MainView,
    from: Seq<char>,
    to: Seq<char>,
    name: Seq<char>,
    e: Seq<char>,
)
    ensures
        s.current_list == Some(from) ==> s.after_rename(from, to, Ok(name)).0.current_list == Some(
            name,
        ),
        s.current_list != Some(from) ==> s.after_rename(from, to, Ok(name)).0.current_list
            == s.current_list,
        s.after_rename(from, to, Err(e)).0.renaming == Some((from, to)),
        s.after_rename(from, to, Err(e)).0.current_list == s.current_list,
        s.after_rename(from, to, Err(e)).0.tasks == s.tasks,
{
}

/// Leaving the settings page stops recording a shortcut.
pub proof fn law_leaving_settings_stops_recording(s: MainView, p: Platform)
    ensures
        !s.after_message(MessageView::CloseSettings, p).0.recording_hotkey,
        s.show_settings ==> !s.after_message(MessageView::ToggleSettings, p).0.recording_hotkey,
        !s.after_message(MessageView::CloseSettings, p).0.show_settings,
{
}

/// Asking to close the main window quits the app and changes nothing else.
pub proof fn law_close_request_quits(s: MainView, id: u64, p: Platform)
    ensures
        s.after_message(MessageView::WindowCloseRequested(id), p) == (s, seq![EffectView::Exit]),
{
}

/// Window shortcuts act only while the window is open: with no window, a
/// key press is handled as if no shortcut existed.
pub proof fn law_window_shortcuts_need_a_window(key: KeyPress, p: Platform)
    ensures
        main_shortcut(None, key, p) is None,
{
}

/// Picking a theme sets exactly that theme.
pub proof fn law_set_theme(s: MainView, mode: ThemeMode, p: Platform)
    ensures
        s.after_message(MessageView::SetTheme(mode), p).0.theme_mode == mode,
{
}

/// Clearing the completed tasks keeps exactly the open tasks, in their
/// order, and no completed task remains.
pub proof fn law_clear_completed_keeps_open_in_order(s: MainView)
    ensures
        s.after_clear_completed().0.tasks == s.tasks.filter(|t: TaskView| !t.completed),
        forall|i: int|
            0 <= i < s.after_clear_completed().0.tasks.len()
                ==> !(#[trigger] s.after_clear_completed().0.tasks[i]).completed,
{
    broadcast use vstd::seq_lib::group_filter_ensures;
    assert((|t: TaskView| crate::app::state::is_open(t)) =~= (|t: TaskView| !t.completed));
    let kept = s.tasks.filter(|t: TaskView| !t.completed);
    assert forall|i: int| 0 <= i < kept.len() implies !(#[trigger] kept[i]).completed by {
        assert(kept.contains(kept[i]));
    }
}

/// Marking the task at `index` complete or open sets exactly that task's
/// completion to the value asked for; every other task, and that task's
/// other fields, stay as they were.
pub proof fn law_toggle_sets_only_that_task(s: MainView, index: usize, completed: bool)
    requires
        index < s.tasks.len(),
    ensures
        s.after_toggle_task(index, completed).0.tasks.len() == s.tasks.len(),
        s.after_toggle_task(index, completed).0.tasks[index as int].completed == completed,
        s.after_toggle_task(index, completed).0.tasks[index as int].title == s.tasks[index as int].title,
        s.after_toggle_task(index, completed).0.tasks[index as int].priority == s.tasks[index as int].priority,
        s.after_toggle_task(index, completed).0.tasks[index as int].due_date == s.tasks[index as int].due_date,
        s.after_toggle_task(index, completed).0.tasks[index as int].status == s.tasks[index as int].status,
        s.after_toggle_task(index, completed).0.tasks[index as int].archived == s.tasks[index as int].archived,
        forall|j: int|
            0 <= j < s.tasks.len() && j != index ==> #[trigger] s.after_toggle_task(
                index,
                completed,
            ).0.tasks[j] == s.tasks[j],
        s.after_toggle_task(index, completed).0.status_message == if completed {
            "Task marked complete."@
        } else {
            "Task marked open."@
        },
{
}

/// Removing the task at `index` takes out exactly that task: the ones
/// before it keep their places and the ones after it move up by one.
pub proof fn law_remove_takes_out_that_task(s: MainView, index: usize)
    requires
        index < s.tasks.len(),
    ensures
        s.after_remove_task(index).0.tasks.len() == s.tasks.len() - 1,
        forall|j: int| 0 <= j < index ==> #[trigger] s.after_remove_task(index).0.tasks[j] == s.tasks[j],
        forall|j: int|
            index <= j < s.tasks.len() - 1 ==> #[trigger] s.after_remove_task(index).0.tasks[j]
                == s.tasks[j + 1],
{
}

/// A key press that becomes the shortcut becomes exactly the combination
/// pressed: its ⌥, ⌃, ⇧ and ⌘ and its key code are those of the press, and
/// the status line shows that combination. Conversely, a press of a bindable,
/// non-modifier key with ⌘, ⌥ or ⌃ held (and not Esc alone) always becomes
/// the shortcut.
pub proof fn law_recorded_shortcut_is_the_press(s: MainView, k: KeyInputView)
    ensures
        ({
            let r = s.after_capture(KeyEventView::Pressed(k));
            let pressed = HotkeySpecView {
                alt: k.press.alt,
                ctrl: k.ctrl,
                shift: k.press.shift,
                meta: k.press.logo,
                code: k.code.unwrap(),
            };
            &&& r.1.len() > 0 ==> k.code is Some && r.0.hotkey == pressed && r.0.status_message
                == "Shortcut set to "@ + shortcut_label(pressed) + "."@
            &&& (k.code is Some && !(k.press.key == Key::Escape && !k.press.alt && !k.ctrl
                && !k.press.logo) && !is_modifier(k.code.unwrap()) && code_label(k.code.unwrap()) is Some
                && pressed.strong()) ==> r.0.hotkey == pressed && !r.0.recording_hotkey && r.1.len()
                > 0
        }),
{
}

proof fn lemma_first_named(lists: Seq<ListEntryView>, name: Seq<char>)
    ensures
        0 <= first_named(lists, name) <= lists.len(),
        first_named(lists, name) < lists.len() ==> lists[first_named(lists, name)].name == name,
        forall|j: int| 0 <= j < first_named(lists, name) ==> #[trigger] lists[j].name != name,
    decreases lists.len(),
{
    if lists.len() > 0 && lists[0].name != name {
        let rest = lists.drop_first();
        lemma_first_named(rest, name);
        assert forall|j: int| 0 <= j < first_named(lists, name) implies #[trigger] lists[j].name
            != name by {
            if j > 0 {
                assert(lists[j] == rest[j - 1]);
            }
        }
    }
}

/// Asking to delete a list in the browser asks storage to delete the file
/// of the first browser entry with that name, and nothing else; asking to
/// delete a name the browser does not hold deletes no file.
pub proof fn law_delete_request_targets_that_list(s: MainView, name: Seq<char>)
    ensures
        (exists|i: int| 0 <= i < s.lists.len() && #[trigger] s.lists[i].name == name) ==> exists|
            i: int,
        |
            0 <= i < s.lists.len() && #[trigger] s.lists[i].name == name && (forall|j: int|
                0 <= j < i ==> #[trigger] s.lists[j].name != name) && s.after_delete_request(
                name,
            ).1 == seq![EffectView::DeleteListFile { name, path: s.lists[i].path }],
        (forall|i: int| 0 <= i < s.lists.len() ==> #[trigger] s.lists[i].name != name) ==> forall|
            e: int,
        |
            0 <= e < s.after_delete_request(name).1.len() ==> !(#[trigger] s.after_delete_request(
                name,
            ).1[e] is DeleteListFile),
        s.after_delete_request(name).0 == s,
{
    lemma_first_named(s.lists, name);
    let i = first_named(s.lists, name);
    if exists|k: int| 0 <= k < s.lists.len() && #[trigger] s.lists[k].name == name {
        let k = choose|k: int| 0 <= k < s.lists.len() && #[trigger] s.lists[k].name == name;
        assert(i < s.lists.len());
        assert(s.lists[i].name == name);
    }
}

} // verus!
