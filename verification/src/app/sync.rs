//! Keeping the two processes' task lists in step: mirroring local changes to
//! the peer, the source-of-truth handshake, and applying the peer's changes
//! without echoing them back.
use vstd::prelude::*;
use crate::app::ipc::{IpcInbound, IpcInboundView, IpcMessage, IpcMessageView};
use crate::app::message::{Effect, EffectView};
use crate::app::state::{AppRole, Taskscape, TaskscapeView};
use crate::models::task::copy_tasks;

verus! {

impl TaskscapeView {
    /// What mirroring `message` to the peer produces: a send, unless the
    /// change came from the peer or no peer is linked.
    pub open spec fn broadcast_effects(self, message: IpcMessageView) -> Seq<EffectView> {
        if !self.applying_remote && self.ipc_connected {
            seq![EffectView::Send(message)]
        } else {
            Seq::empty()
        }
    }

    /// A change received from the peer, applied to the list.
    pub open spec fn applied_remote(self, message: IpcMessageView) -> TaskscapeView {
        match message {
            IpcMessageView::Hello { tasks } => TaskscapeView {
                tasks,
                undo_stack: Seq::empty(),
                redo_stack: Seq::empty(),
                status_message: "Synced from Taskscape."@,
                ..self
            },
            IpcMessageView::AddTask { title } => self.after_add_task_with_title(title),
            IpcMessageView::RemoveTask { index } => self.after_remove_task(index),
            IpcMessageView::ToggleTaskCompleted { index, completed } => self.after_toggle_task(
                index,
                completed,
            ),
            IpcMessageView::Bye => self,
        }
    }

    /// The state and effects after an event of the link. On connecting, the
    /// main app (the source of truth) sends its whole list.
    pub open spec fn after_ipc(self, event: IpcInboundView) -> (TaskscapeView, Seq<EffectView>) {
        match event {
            IpcInboundView::Connected => {
                let s = TaskscapeView { ipc_connected: true, ..self };
                match self.role {
                    AppRole::Main => (
                        s.with_status("Linked to mini service."@),
                        seq![EffectView::Send(IpcMessageView::Hello { tasks: self.tasks })],
                    ),
                    AppRole::Tray => (s.with_status("Linked to Taskscape."@), Seq::empty()),
                }
            },
            IpcInboundView::Disconnected => {
                let s = TaskscapeView { ipc_connected: false, ..self };
                match self.role {
                    AppRole::Main => (
                        s.with_status("Mini service offline — running standalone."@),
                        Seq::empty(),
                    ),
                    AppRole::Tray => (
                        s.with_status("Main app closed — running standalone."@),
                        Seq::empty(),
                    ),
                }
            },
            IpcInboundView::Message(m) => (
                TaskscapeView {
                    applying_remote: false,
                    ..TaskscapeView { applying_remote: true, ..self }.applied_remote(m)
                },
                Seq::empty(),
            ),
        }
    }
}

impl Taskscape {
    /// Sends `message` to the peer when one is linked.
    pub fn ipc_send(&self, message: IpcMessage, effects: &mut Vec<Effect>)
        ensures
            final(effects).deep_view() == old(effects).deep_view() + if self.ipc_connected {
                seq![EffectView::Send(message.deep_view())]
            } else {
                Seq::<EffectView>::empty()
            },
    {
        if !self.ipc_connected {
            assert(effects.deep_view() =~= old(effects).deep_view() + Seq::<EffectView>::empty());
            return;
        }
        let ghost m = message.deep_view();
        effects.push(Effect::Send(message));
        assert(effects.deep_view() =~= old(effects).deep_view() + seq![EffectView::Send(m)]);
    }

    /// Mirrors a local change to the peer, unless the change came from it.
    pub fn broadcast(&self, message: IpcMessage, effects: &mut Vec<Effect>)
        ensures
            final(effects).deep_view() == old(effects).deep_view() + self@.broadcast_effects(
                message.deep_view(),
            ),
    {
        if self.applying_remote {
            assert(effects.deep_view() =~= old(effects).deep_view() + Seq::<EffectView>::empty());
            return;
        }
        self.ipc_send(message, effects);
    }

    /// Handles an event of the link to the peer.
    pub fn handle_ipc(&mut self, event: IpcInbound) -> (effects: Vec<Effect>)
        ensures
            (final(self)@, effects.deep_view()) == old(self)@.after_ipc(event.deep_view()),
    {
        let mut effects: Vec<Effect> = Vec::new();
        let ghost ev = event.deep_view();
        match event {
            IpcInbound::Connected => {
                self.ipc_connected = true;
                match self.role {
                    AppRole::Main => {
                        let tasks = copy_tasks(&self.tasks);
                        self.ipc_send(IpcMessage::Hello { tasks }, &mut effects);
                        self.status_message = String::from_str("Linked to mini service.");
                    },
                    AppRole::Tray => {
                        self.status_message = String::from_str("Linked to Taskscape.");
                    },
                }
            },
            IpcInbound::Disconnected => {
                self.ipc_connected = false;
                self.status_message = match self.role {
                    AppRole::Main => String::from_str("Mini service offline — running standalone."),
                    AppRole::Tray => String::from_str("Main app closed — running standalone."),
                };
            },
            IpcInbound::Message(message) => {
                self.apply_remote(message);
            },
        }
        assert(self@ =~= old(self)@.after_ipc(ev).0);
        assert(effects.deep_view() =~= old(self)@.after_ipc(ev).1);
        effects
    }

    /// Applies a change received from the peer; the guard flag is set while
    /// it is applied, so nothing of it is mirrored back.
    fn apply_remote(&mut self, message: IpcMessage)
        ensures
            final(self)@ == (TaskscapeView {
                applying_remote: false,
                ..TaskscapeView { applying_remote: true, ..old(self)@ }.applied_remote(
                    message.deep_view(),
                )
            }),
    {
        self.applying_remote = true;
        let ghost guarded = self@;
        let ghost mv = message.deep_view();
        match message {
            IpcMessage::Hello { tasks } => {
                self.tasks = tasks;
                self.undo_stack.clear();
                self.redo_stack.clear();
                self.status_message = String::from_str("Synced from Taskscape.");
                assert(self@ =~= guarded.applied_remote(mv));
            },
            IpcMessage::AddTask { title } => self.add_task_with_title(title),
            IpcMessage::RemoveTask { index } => self.remove_task(index),
            IpcMessage::ToggleTaskCompleted { index, completed } => self.toggle_task_completed(
                index,
                completed,
            ),
            IpcMessage::Bye => {},
        }
        self.applying_remote = false;
    }
}

} // verus!
