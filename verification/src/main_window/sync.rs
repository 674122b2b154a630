//! The main window's side of the link: it is the source of truth, sends its
//! open list on connecting, and applies the tray service's changes without
//! echoing them back.
use vstd::prelude::*;
use crate::main_window::link::{IpcInbound, IpcInboundView, IpcMessage, IpcMessageView};
use crate::main_window::message::{Effect, EffectView};
use crate::main_window::state::{MainView, Taskscape};
use crate::models::task::copy_tasks;

verus! {

impl MainView {
    /// A message from the tray service, applied. Changes to the list are
    /// saved; `ShowMain` opens the list panel and brings the window forward;
    /// `Shutdown` quits; the rest are ignored.
    #[verifier::opaque]
    pub open spec fn applied_remote(self, m: IpcMessageView) -> (MainView, Seq<EffectView>) {
        match m {
            IpcMessageView::AddTask { title } => self.after_add_task_with_title(title),
            IpcMessageView::RemoveTask { index } => self.after_remove_task(index),
            IpcMessageView::ToggleTaskCompleted { index, completed } => self.after_toggle_task(
                index,
                completed,
            ),
            IpcMessageView::ShowMain => (
                MainView { show_list_panel: true, ..self },
                match self.window_id {
                    Some(id) => seq![EffectView::RestoreWindow(id)],
                    None => Seq::empty(),
                },
            ),
            IpcMessageView::Shutdown => (self, seq![EffectView::Exit]),
            _ => (self, Seq::empty()),
        }
    }

    /// An event of the link.
    pub open spec fn after_ipc(self, event: IpcInboundView) -> (MainView, Seq<EffectView>) {
        match event {
            IpcInboundView::Connected => (
                MainView {
                    ipc_connected: true,
                    status_message: "Linked to mini service."@,
                    ..self
                },
                seq![
                    EffectView::Send(
                        IpcMessageView::Hello { list_name: self.current_list, tasks: self.tasks },
                    ),
                ],
            ),
            IpcInboundView::Disconnected => (
                MainView {
                    ipc_connected: false,
                    status_message: "Mini service offline — running standalone."@,
                    ..self
                },
                Seq::empty(),
            ),
            IpcInboundView::Message(m) => {
                let r = MainView { applying_remote: true, ..self }.applied_remote(m);
                (MainView { applying_remote: false, ..r.0 }, r.1)
            },
        }
    }
}

impl Taskscape {
    /// Handles an event of the link to the tray service.
    pub fn handle_ipc(&mut self, event: IpcInbound) -> (effects: Vec<Effect>)
        ensures
            (final(self)@, effects.deep_view()) == old(self)@.after_ipc(event.deep_view()),
    {
        let ghost ev = event.deep_view();
        match event {
            IpcInbound::Connected => {
                self.ipc_connected = true;
                let list_name = match &self.current_list {
                    Some(n) => Some(n.clone()),
                    None => None,
                };
                let mut effects = Vec::new();
                effects.push(
                    Effect::Send(IpcMessage::Hello { list_name, tasks: copy_tasks(&self.tasks) }),
                );
                self.status_message = String::from_str("Linked to mini service.");
                assert(self@ =~= old(self)@.after_ipc(ev).0);
                assert(effects.deep_view() =~= old(self)@.after_ipc(ev).1);
                effects
            },
            IpcInbound::Disconnected => {
                self.ipc_connected = false;
                self.status_message = String::from_str("Mini service offline — running standalone.");
                assert(self@ =~= old(self)@.after_ipc(ev).0);
                Vec::new()
            },
            IpcInbound::Message(message) => self.apply_remote(message),
        }
    }

    /// Applies a message of the tray service while the remote guard is up.
    #[verifier::rlimit(100)]
    fn apply_remote(&mut self, message: IpcMessage) -> (effects: Vec<Effect>)
        ensures
            final(self)@ == (MainView {
                applying_remote: false,
                ..(MainView { applying_remote: true, ..old(self)@ }).applied_remote(
                    message.deep_view(),
                ).0
            }),
            effects.deep_view() == (MainView { applying_remote: true, ..old(self)@ }).applied_remote(
                message.deep_view(),
            ).1,
    {
        self.applying_remote = true;
        assert(self@ =~= MainView { applying_remote: true, ..old(self)@ });
        let effects = self.apply_guarded(message);
        let ghost applied = self@;
        self.applying_remote = false;
        assert(self@ =~= MainView { applying_remote: false, ..applied });
        effects
    }

    fn apply_guarded(&mut self, message: IpcMessage) -> (effects: Vec<Effect>)
        ensures
            (final(self)@, effects.deep_view()) == old(self)@.applied_remote(message.deep_view()),
    {
        reveal(MainView::applied_remote);
        match message {
            IpcMessage::AddTask { title } => self.add_task_with_title(title),
            IpcMessage::RemoveTask { index } => self.remove_task(index),
            IpcMessage::ToggleTaskCompleted { index, completed } => self.toggle_task_completed(
                index,
                completed,
            ),
            IpcMessage::ShowMain => {
                self.show_list_panel = true;
                let mut e = Vec::new();
                if let Some(id) = self.window_id {
                    e.push(Effect::RestoreWindow(id));
                }
                assert(self@ =~= old(self)@.applied_remote(IpcMessageView::ShowMain).0);
                assert(e.deep_view() =~= old(self)@.applied_remote(IpcMessageView::ShowMain).1);
                e
            },
            IpcMessage::Shutdown => {
                let mut e = Vec::new();
                e.push(Effect::Exit);
                assert(e.deep_view() =~= seq![EffectView::Exit]);
                e
            },
            _ => Vec::new(),
        }
    }
}

} // verus!
