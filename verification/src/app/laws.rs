//! Properties that hold across the operations of the app state.
use vstd::prelude::*;
use crate::app::ipc::{IpcInboundView, IpcMessageView};
use crate::app::message::{EffectView, MessageView, Platform};
use crate::app::state::{TaskscapeView, is_done, is_open};
use crate::models::task::TaskView;
use crate::text::trimmed;

verus! {

/// Undoing right after a change brings back the task list and the undo
/// history from before it, for every change that is recorded: adding a task
/// (from the composer or from the peer), removing or (un)completing an
/// existing task, clearing the completed tasks and clearing all.
pub proof fn law_undo_reverts_a_change(s: TaskscapeView, title: Seq<char>, index: usize, completed: bool)
    ensures
        trimmed(s.title_input).len() > 0 ==> s.after_add_task().after_undo().tasks == s.tasks
            && s.after_add_task().after_undo().undo_stack == s.undo_stack,
        trimmed(title).len() > 0 ==> s.after_add_task_with_title(title).after_undo().tasks
            == s.tasks && s.after_add_task_with_title(title).after_undo().undo_stack
            == s.undo_stack,
        index < s.tasks.len() ==> s.after_remove_task(index).after_undo().tasks == s.tasks
            && s.after_remove_task(index).after_undo().undo_stack == s.undo_stack,
        index < s.tasks.len() ==> s.after_toggle_task(index, completed).after_undo().tasks
            == s.tasks && s.after_toggle_task(index, completed).after_undo().undo_stack
            == s.undo_stack,
        s.after_clear_completed().after_undo().tasks == s.tasks,
        s.after_clear_completed().after_undo().undo_stack == s.undo_stack,
        s.after_clear_all().after_undo().tasks == s.tasks,
        s.after_clear_all().after_undo().undo_stack == s.undo_stack,
{
    assert(s.undo_stack.push(s.tasks).drop_last() =~= s.undo_stack);
}

/// A recorded change forgets everything that could be redone.
pub proof fn law_change_clears_redo(s: TaskscapeView, index: usize, completed: bool)
    ensures
        trimmed(s.title_input).len() > 0 ==> s.after_add_task().redo_stack.len() == 0,
        index < s.tasks.len() ==> s.after_remove_task(index).redo_stack.len() == 0,
        index < s.tasks.len() ==> s.after_toggle_task(index, completed).redo_stack.len() == 0,
        s.after_clear_completed().redo_stack.len() == 0,
        s.after_clear_all().redo_stack.len() == 0,
{
}

/// Redo undoes an undo, and undo undoes a redo: the list and both stacks are
/// as before.
pub proof fn law_redo_undoes_undo(s: TaskscapeView)
    ensures
        s.undo_stack.len() > 0 ==> s.after_undo().after_redo().tasks == s.tasks
            && s.after_undo().after_redo().undo_stack == s.undo_stack
            && s.after_undo().after_redo().redo_stack == s.redo_stack,
        s.redo_stack.len() > 0 ==> s.after_redo().after_undo().tasks == s.tasks
            && s.after_redo().after_undo().undo_stack == s.undo_stack
            && s.after_redo().after_undo().redo_stack == s.redo_stack,
{
    if s.undo_stack.len() > 0 {
        assert(s.undo_stack.drop_last().push(s.undo_stack.last()) =~= s.undo_stack);
        assert(s.redo_stack.push(s.tasks).drop_last() =~= s.redo_stack);
    }
    if s.redo_stack.len() > 0 {
        assert(s.redo_stack.drop_last().push(s.redo_stack.last()) =~= s.redo_stack);
        assert(s.undo_stack.push(s.tasks).drop_last() =~= s.undo_stack);
    }
}

/// With nothing to undo (or redo), undo (or redo) changes nothing.
pub proof fn law_empty_history_is_a_no_op(s: TaskscapeView)
    ensures
        s.undo_stack.len() == 0 ==> s.after_undo() == s,
        s.redo_stack.len() == 0 ==> s.after_redo() == s,
{
}

/// Removing or (un)completing a task that does not exist changes nothing,
/// and neither does adding a blank title.
pub proof fn law_rejected_changes_leave_state(s: TaskscapeView, title: Seq<char>, index: usize, completed: bool)
    ensures
        index >= s.tasks.len() ==> s.after_remove_task(index) == s,
        index >= s.tasks.len() ==> s.after_toggle_task(index, completed) == s,
        trimmed(s.title_input).len() == 0 ==> s.after_add_task() == s,
        trimmed(title).len() == 0 ==> s.after_add_task_with_title(title) == s,
{
}

/// A change received from the peer is applied without being mirrored back:
/// handling it sends nothing and leaves the guard flag down.
pub proof fn law_remote_changes_are_not_echoed(s: TaskscapeView, m: IpcMessageView, p: Platform)
    ensures
        s.after_ipc(IpcInboundView::Message(m)).1.len() == 0,
        !s.after_ipc(IpcInboundView::Message(m)).0.applying_remote,
        s.after_message(MessageView::IpcEvent(IpcInboundView::Message(m)), p).1.len() == 0,
        s.applying_remote ==> s.broadcast_effects(m).len() == 0,
        !s.ipc_connected ==> s.broadcast_effects(m).len() == 0,
{
}

/// Clearing the completed tasks leaves only open ones and keeps every open
/// one.
pub proof fn law_clear_completed_keeps_open_tasks(s: TaskscapeView)
    ensures
        s.after_clear_completed().completed_count() == 0,
        s.after_clear_completed().open_count() == s.open_count(),
        s.after_clear_completed().tasks.len() == s.open_count(),
{
    let kept = s.tasks.filter(|t: TaskView| is_open(t));
    broadcast use vstd::seq_lib::group_filter_ensures;
    assert forall|i: int| 0 <= i < kept.len() implies is_open(#[trigger] kept[i]) by {
        assert(kept.contains(kept[i]));
    }
    lemma_none_done(kept);
    lemma_filter_idempotent(kept);
}

proof fn lemma_none_done(k: Seq<TaskView>)
    requires
        forall|i: int| 0 <= i < k.len() ==> is_open(#[trigger] k[i]),
    ensures
        k.filter(|t: TaskView| is_done(t)).len() == 0,
    decreases k.len(),
{
    reveal(Seq::filter);
    if k.len() > 0 {
        lemma_none_done(k.drop_last());
    }
}

proof fn lemma_filter_idempotent(k: Seq<TaskView>)
    requires
        forall|i: int| 0 <= i < k.len() ==> is_open(#[trigger] k[i]),
    ensures
        k.filter(|t: TaskView| is_open(t)) == k,
    decreases k.len(),
{
    reveal(Seq::filter);
    if k.len() > 0 {
        lemma_filter_idempotent(k.drop_last());
        assert(k.drop_last().push(k.last()) =~= k);
    }
}

/// A window that closes is forgotten, and the other window is kept.
pub proof fn law_closed_window_is_forgotten(s: TaskscapeView, id: u64)
    ensures
        s.after_window_closed(id).mini_window_id != Some(id),
        s.mini_window_id != Some(id) ==> s.after_window_closed(id).window_id != Some(id),
        s.mini_window_id == Some(id) ==> s.after_window_closed(id).window_id == s.window_id,
{
}

/// The compact window toggles: an open one is closed, otherwise opening it
/// is requested, and recording the opened window makes the next toggle close
/// it.
pub proof fn law_mini_window_toggles(s: TaskscapeView, anchored: bool, id: u64)
    ensures
        s.mini_window_id is Some ==> s.after_toggle_mini(anchored).0.mini_window_id is None,
        s.mini_window_id is None ==> s.after_toggle_mini(anchored).1 == seq![
            EffectView::OpenMiniWindow { anchored },
        ],
        s.after_mini_opened(id).after_toggle_mini(anchored).1 == seq![EffectView::CloseWindow(id)],
{
}

/// Toggling the theme twice restores it.
pub proof fn law_theme_toggle_twice(s: TaskscapeView)
    ensures
        s.after_toggle_theme().after_toggle_theme().theme_mode == s.theme_mode,
{
}

/// Starting to edit the title and cancelling keeps the name and ends editing.
pub proof fn law_title_edit_cancel_keeps_name(s: TaskscapeView)
    requires
        !s.editing_title,
    ensures
        s.after_toggle_title_edit().0.after_cancel_title_edit().file_name == s.file_name,
        !s.after_toggle_title_edit().0.after_cancel_title_edit().editing_title,
{
}

/// On connecting, the main app sends its whole list, and a tray service
/// that receives it adopts exactly that list with no history.
pub proof fn law_handshake_syncs_lists(main: TaskscapeView, tray: TaskscapeView)
    requires
        main.role == crate::app::state::AppRole::Main,
    ensures
        main.after_ipc(IpcInboundView::Connected).1 == seq![
            EffectView::Send(IpcMessageView::Hello { tasks: main.tasks }),
        ],
        tray.after_ipc(IpcInboundView::Message(IpcMessageView::Hello { tasks: main.tasks })).0.tasks
            == main.tasks,
        tray.after_ipc(
            IpcInboundView::Message(IpcMessageView::Hello { tasks: main.tasks }),
        ).0.undo_stack.len() == 0,
{
}

} // verus!
