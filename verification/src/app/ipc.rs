//! Messages exchanged with the peer process (main window app and tray
//! service keep the same task list in step).
use vstd::prelude::*;
use crate::models::task::{Task, TaskView};

verus! {

/// A message sent to, or received from, the peer process.
#[derive(Debug)]
pub enum IpcMessage {
    /// The sender's whole task list; the receiver adopts it.
    Hello { tasks: Vec<Task> },
    AddTask { title: String },
    RemoveTask { index: usize },
    ToggleTaskCompleted { index: usize, completed: bool },
    /// The sender is going away.
    Bye,
}

pub enum IpcMessageView {
    Hello { tasks: Seq<TaskView> },
    AddTask { title: Seq<char> },
    RemoveTask { index: usize },
    ToggleTaskCompleted { index: usize, completed: bool },
    Bye,
}

impl DeepView for IpcMessage {
    type V = IpcMessageView;

    open spec fn deep_view(&self) -> IpcMessageView {
        match self {
            IpcMessage::Hello { tasks } => IpcMessageView::Hello { tasks: tasks.deep_view() },
            IpcMessage::AddTask { title } => IpcMessageView::AddTask { title: title@ },
            IpcMessage::RemoveTask { index } => IpcMessageView::RemoveTask { index: *index },
            IpcMessage::ToggleTaskCompleted { index, completed } =>
                IpcMessageView::ToggleTaskCompleted { index: *index, completed: *completed },
            IpcMessage::Bye => IpcMessageView::Bye,
        }
    }
}

/// What the link to the peer reports.
#[derive(Debug)]
pub enum IpcInbound {
    Connected,
    Disconnected,
    Message(IpcMessage),
}

pub enum IpcInboundView {
    Connected,
    Disconnected,
    Message(IpcMessageView),
}

impl DeepView for IpcInbound {
    type V = IpcInboundView;

    open spec fn deep_view(&self) -> IpcInboundView {
        match self {
            IpcInbound::Connected => IpcInboundView::Connected,
            IpcInbound::Disconnected => IpcInboundView::Disconnected,
            IpcInbound::Message(m) => IpcInboundView::Message(m.deep_view()),
        }
    }
}

} // verus!
