//! The events the state reacts to and the effects it asks its host to carry
//! out (opening dialogs and windows, sending to the peer, file I/O).
use vstd::prelude::*;
use crate::app::commands::{HotkeyCommand, NativeMenuCommand, TrayCommand};
use crate::app::ipc::{IpcInbound, IpcInboundView, IpcMessage, IpcMessageView};

verus! {

/// The desktop platform the app runs on; window shortcuts differ per platform.
#[derive(Debug, Clone, Copy, PartialEq, Eq, Structural)]
pub enum Platform {
    MacOs,
    Windows,
    Linux,
    Other,
}

/// A pressed key, as far as the shortcuts look at it.
#[derive(Debug, Clone, Copy, PartialEq, Eq, Structural)]
pub enum Key {
    /// A key that types a single character.
    Character(char),
    Escape,
    F4,
    /// Any other key.
    Other,
}

/// A key press with the modifiers held. `command` is the platform's command
/// modifier (⌘ on macOS, Ctrl elsewhere); `logo` is the Windows / Super key.
#[derive(Debug, Clone, Copy, PartialEq, Eq, Structural)]
pub struct KeyPress {
    pub key: Key,
    pub command: bool,
    pub shift: bool,
    pub alt: bool,
    pub logo: bool,
}

/// Everything the state reacts to.
#[derive(Debug)]
pub enum Message {
    FontLoaded,
    ToggleTheme,
    TitleChanged(String),
    FileNameChanged(String),
    ToggleTitleEdit,
    ToggleTitleEditCancel,
    CancelAllEditing,
    DueDateChanged(String),
    ToggleTaskCompleted(usize, bool),
    RemoveTask(usize),
    AddTask,
    ClearCompleted,
    ClearAll,
    FileNew,
    FileSave,
    FileLoad,
    /// The path picked in the save dialog, or `None` when it was cancelled.
    FileSaveResult(Option<String>),
    /// The path picked in the open dialog, or `None` when it was cancelled.
    FileLoadResult(Option<String>),
    EditUndo,
    EditRedo,
    WindowOpened(u64),
    WindowClosed(u64),
    WindowCloseRequested(u64),
    NativeMenuEvent(NativeMenuCommand),
    NativeMenuInstalled(Result<(), String>),
    TrayEvent(TrayCommand),
    TrayInstalled(Result<(), String>),
    HotkeyEvent(HotkeyCommand),
    HotkeyInstalled(Result<(), String>),
    KeyboardEvent(KeyPress),
    /// An event of the link to the peer process.
    IpcEvent(IpcInbound),
}

pub enum MessageView {
    FontLoaded,
    ToggleTheme,
    TitleChanged(Seq<char>),
    FileNameChanged(Seq<char>),
    ToggleTitleEdit,
    ToggleTitleEditCancel,
    CancelAllEditing,
    DueDateChanged(Seq<char>),
    ToggleTaskCompleted(usize, bool),
    RemoveTask(usize),
    AddTask,
    ClearCompleted,
    ClearAll,
    FileNew,
    FileSave,
    FileLoad,
    FileSaveResult(Option<Seq<char>>),
    FileLoadResult(Option<Seq<char>>),
    EditUndo,
    EditRedo,
    WindowOpened(u64),
    WindowClosed(u64),
    WindowCloseRequested(u64),
    NativeMenuEvent(NativeMenuCommand),
    NativeMenuInstalled(Result<(), Seq<char>>),
    TrayEvent(TrayCommand),
    TrayInstalled(Result<(), Seq<char>>),
    HotkeyEvent(HotkeyCommand),
    HotkeyInstalled(Result<(), Seq<char>>),
    KeyboardEvent(KeyPress),
    IpcEvent(IpcInboundView),
}

pub open spec fn option_text(o: Option<String>) -> Option<Seq<char>> {
    match o {
        Some(s) => Some(s@),
        None => None,
    }
}

pub open spec fn result_text(r: Result<(), String>) -> Result<(), Seq<char>> {
    match r {
        Ok(()) => Ok(()),
        Err(e) => Err(e@),
    }
}

impl DeepView for Message {
    type V = MessageView;

    open spec fn deep_view(&self) -> MessageView {
        match self {
            Message::FontLoaded => MessageView::FontLoaded,
            Message::ToggleTheme => MessageView::ToggleTheme,
            Message::TitleChanged(v) => MessageView::TitleChanged(v@),
            Message::FileNameChanged(v) => MessageView::FileNameChanged(v@),
            Message::ToggleTitleEdit => MessageView::ToggleTitleEdit,
            Message::ToggleTitleEditCancel => MessageView::ToggleTitleEditCancel,
            Message::CancelAllEditing => MessageView::CancelAllEditing,
            Message::DueDateChanged(v) => MessageView::DueDateChanged(v@),
            Message::ToggleTaskCompleted(i, c) => MessageView::ToggleTaskCompleted(*i, *c),
            Message::RemoveTask(i) => MessageView::RemoveTask(*i),
            Message::AddTask => MessageView::AddTask,
            Message::ClearCompleted => MessageView::ClearCompleted,
            Message::ClearAll => MessageView::ClearAll,
            Message::FileNew => MessageView::FileNew,
            Message::FileSave => MessageView::FileSave,
            Message::FileLoad => MessageView::FileLoad,
            Message::FileSaveResult(p) => MessageView::FileSaveResult(option_text(*p)),
            Message::FileLoadResult(p) => MessageView::FileLoadResult(option_text(*p)),
            Message::EditUndo => MessageView::EditUndo,
            Message::EditRedo => MessageView::EditRedo,
            Message::WindowOpened(id) => MessageView::WindowOpened(*id),
            Message::WindowClosed(id) => MessageView::WindowClosed(*id),
            Message::WindowCloseRequested(id) => MessageView::WindowCloseRequested(*id),
            Message::NativeMenuEvent(c) => MessageView::NativeMenuEvent(*c),
            Message::NativeMenuInstalled(r) => MessageView::NativeMenuInstalled(result_text(*r)),
            Message::TrayEvent(c) => MessageView::TrayEvent(*c),
            Message::TrayInstalled(r) => MessageView::TrayInstalled(result_text(*r)),
            Message::HotkeyEvent(c) => MessageView::HotkeyEvent(*c),
            Message::HotkeyInstalled(r) => MessageView::HotkeyInstalled(result_text(*r)),
            Message::KeyboardEvent(k) => MessageView::KeyboardEvent(*k),
            Message::IpcEvent(e) => MessageView::IpcEvent(e.deep_view()),
        }
    }
}

/// Work the state asks its host to do after handling a message.
#[derive(Debug)]
pub enum Effect {
    /// Send a message to the peer process.
    Send(IpcMessage),
    /// Put the cursor at the end of the file name input.
    MoveCursorToTitleEnd,
    /// Ask the user where to save, suggesting `file_name`.
    OpenSaveDialog { file_name: String },
    /// Ask the user which file to load.
    OpenLoadDialog,
    /// Write the task list to `path`.
    SaveTasks { path: String },
    /// Read a task list from `path`.
    LoadTasks { path: String },
    InstallNativeMenu(u64),
    InstallTray(u64),
    InstallHotkey(u64),
    CloseWindow(u64),
    MinimizeWindow(u64),
    ToggleMaximize(u64),
    /// Open the compact window; `anchored` places it under the menu bar icon.
    OpenMiniWindow { anchored: bool },
}

pub enum EffectView {
    Send(IpcMessageView),
    MoveCursorToTitleEnd,
    OpenSaveDialog { file_name: Seq<char> },
    OpenLoadDialog,
    SaveTasks { path: Seq<char> },
    LoadTasks { path: Seq<char> },
    InstallNativeMenu(u64),
    InstallTray(u64),
    InstallHotkey(u64),
    CloseWindow(u64),
    MinimizeWindow(u64),
    ToggleMaximize(u64),
    OpenMiniWindow { anchored: bool },
}

impl DeepView for Effect {
    type V = EffectView;

    open spec fn deep_view(&self) -> EffectView {
        match self {
            Effect::Send(m) => EffectView::Send(m.deep_view()),
            Effect::MoveCursorToTitleEnd => EffectView::MoveCursorToTitleEnd,
            Effect::OpenSaveDialog { file_name } => EffectView::OpenSaveDialog {
                file_name: file_name@,
            },
            Effect::OpenLoadDialog => EffectView::OpenLoadDialog,
            Effect::SaveTasks { path } => EffectView::SaveTasks { path: path@ },
            Effect::LoadTasks { path } => EffectView::LoadTasks { path: path@ },
            Effect::InstallNativeMenu(id) => EffectView::InstallNativeMenu(*id),
            Effect::InstallTray(id) => EffectView::InstallTray(*id),
            Effect::InstallHotkey(id) => EffectView::InstallHotkey(*id),
            Effect::CloseWindow(id) => EffectView::CloseWindow(*id),
            Effect::MinimizeWindow(id) => EffectView::MinimizeWindow(*id),
            Effect::ToggleMaximize(id) => EffectView::ToggleMaximize(*id),
            Effect::OpenMiniWindow { anchored } => EffectView::OpenMiniWindow {
                anchored: *anchored,
            },
        }
    }
}

} // verus!
