//! Messages of the link between the main-window app and the tray service.
use vstd::prelude::*;
use crate::main_window::settings::{HotkeySpec, HotkeySpecView};
use crate::models::task::{Task, TaskView};

verus! {

/// A message sent to, or received from, the tray service.
#[derive(Debug)]
pub enum IpcMessage {
    /// The open list's name and tasks; the tray adopts them.
    Hello { list_name: Option<String>, tasks: Vec<Task> },
    AddTask { title: String },
    RemoveTask { index: usize },
    ToggleTaskCompleted { index: usize, completed: bool },
    /// The tray asks the main window to come forward with the list panel.
    ShowMain,
    /// The user quit from the tray.
    Shutdown,
    Bye,
    /// The shortcut the tray should register, and whether it is enabled.
    SetHotkey { hotkey: Option<HotkeySpec>, enabled: bool },
}

pub enum IpcMessageView {
    Hello { list_name: Option<Seq<char>>, tasks: Seq<TaskView> },
    AddTask { title: Seq<char> },
    RemoveTask { index: usize },
    ToggleTaskCompleted { index: usize, completed: bool },
    ShowMain,
    Shutdown,
    Bye,
    SetHotkey { hotkey: Option<HotkeySpecView>, enabled: bool },
}

pub open spec fn option_hotkey_view(h: Option<HotkeySpec>) -> Option<HotkeySpecView> {
    match h {
        Some(k) => Some(k@),
        None => None,
    }
}

impl DeepView for IpcMessage {
    type V = IpcMessageView;

    open spec fn deep_view(&self) -> IpcMessageView {
        match self {
            IpcMessage::Hello { list_name, tasks } => IpcMessageView::Hello {
                list_name: crate::app::message::option_text(*list_name),
                tasks: tasks.deep_view(),
            },
            IpcMessage::AddTask { title } => IpcMessageView::AddTask { title: title@ },
            IpcMessage::RemoveTask { index } => IpcMessageView::RemoveTask { index: *index },
            IpcMessage::ToggleTaskCompleted { index, completed } =>
                IpcMessageView::ToggleTaskCompleted { index: *index, completed: *completed },
            IpcMessage::ShowMain => IpcMessageView::ShowMain,
            IpcMessage::Shutdown => IpcMessageView::Shutdown,
            IpcMessage::Bye => IpcMessageView::Bye,
            IpcMessage::SetHotkey { hotkey, enabled } => IpcMessageView::SetHotkey {
                hotkey: option_hotkey_view(*hotkey),
                enabled: *enabled,
            },
        }
    }
}

/// What the link to the tray service reports.
#[derive(Debug)]
pub enum IpcInbound {
    Connected,
    Disconnected,
    Message(IpcMessage),
}

pub enum IpcInboundView {
    Connected,
    Disconnected,
    Message(IpcMessageView),
}

impl DeepView for IpcInbound {
    type V = IpcInboundView;

    open spec fn deep_view(&self) -> IpcInboundView {
        match self {
            IpcInbound::Connected => IpcInboundView::Connected,
            IpcInbound::Disconnected => IpcInboundView::Disconnected,
            IpcInbound::Message(m) => IpcInboundView::Message(m.deep_view()),
        }
    }
}

} // verus!
