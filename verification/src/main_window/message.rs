//! Events of the main-window app and the effects it asks its host for.
use vstd::prelude::*;
use crate::app::commands::NativeMenuCommand;
use crate::app::message::{KeyPress, option_text, result_text};
use crate::main_window::link::{IpcInbound, IpcInboundView, IpcMessage, IpcMessageView};
use crate::main_window::settings::{Settings, SettingsView};
use crate::theme::ThemeMode;

verus! {

/// A key press as the main window sees it. Besides the shortcut view it
/// carries what recording a new global shortcut needs: the Ctrl key and the
/// physical key's code name (such as `KeyK`; `None` when unidentified).
#[derive(Debug)]
pub struct KeyInput {
    pub press: KeyPress,
    pub ctrl: bool,
    pub code: Option<String>,
}

pub struct KeyInputView {
    pub press: KeyPress,
    pub ctrl: bool,
    pub code: Option<Seq<char>>,
}

impl View for KeyInput {
    type V = KeyInputView;

    open spec fn view(&self) -> KeyInputView {
        KeyInputView {
            press: self.press,
            ctrl: self.ctrl,
            code: option_text(self.code),
        }
    }
}

/// A keyboard event: a key press, or anything else (releases, modifier
/// changes).
#[derive(Debug)]
pub enum KeyEvent {
    Pressed(KeyInput),
    Other,
}

pub enum KeyEventView {
    Pressed(KeyInputView),
    Other,
}

impl DeepView for KeyEvent {
    type V = KeyEventView;

    open spec fn deep_view(&self) -> KeyEventView {
        match self {
            KeyEvent::Pressed(k) => KeyEventView::Pressed(k@),
            KeyEvent::Other => KeyEventView::Other,
        }
    }
}

/// Why a list is being read.
#[derive(Debug, Clone, Copy, PartialEq, Eq, Structural)]
pub enum LoadPurpose {
    /// The user opened it from the browser.
    Open,
    /// It was just imported.
    Import,
    /// It is reopened at start-up, without any announcement.
    Quiet,
}

/// Everything the main window reacts to.
#[derive(Debug)]
pub enum Message {
    FontLoaded,
    ToggleTheme,
    TitleChanged(String),
    ToggleTaskCompleted(usize, bool),
    RemoveTask(usize),
    AddTask,
    ClearCompleted,
    /// "Clear all" pressed: clears at once or asks first.
    RequestClearAll,
    /// Clear every task (confirmed).
    ClearAll,
    CancelClearAll,
    EditUndo,
    EditRedo,
    ToggleSettings,
    CloseSettings,
    SetTheme(ThemeMode),
    SetReopenLastList(bool),
    SetConfirmClearAll(bool),
    SetHotkeyEnabled(bool),
    StartRecordHotkey,
    CancelRecordHotkey,
    /// Restore the built-in shortcut.
    ResetHotkey,
    ToggleListPanel,
    OpenList(String),
    NewListNameChanged(String),
    CreateList,
    DeleteList(String),
    StartRenameList(String),
    RenameInputChanged(String),
    CommitRenameList,
    CancelRenameList,
    ImportList,
    ImportListResult(Option<String>),
    ExportList,
    ExportListResult(Option<String>),
    WindowOpened(u64),
    WindowClosed(u64),
    WindowCloseRequested(u64),
    NativeMenuEvent(NativeMenuCommand),
    NativeMenuInstalled(Result<(), String>),
    KeyboardEvent(KeyEvent),
    IpcEvent(IpcInbound),
}

pub enum MessageView {
    FontLoaded,
    ToggleTheme,
    TitleChanged(Seq<char>),
    ToggleTaskCompleted(usize, bool),
    RemoveTask(usize),
    AddTask,
    ClearCompleted,
    RequestClearAll,
    ClearAll,
    CancelClearAll,
    EditUndo,
    EditRedo,
    ToggleSettings,
    CloseSettings,
    SetTheme(ThemeMode),
    SetReopenLastList(bool),
    SetConfirmClearAll(bool),
    SetHotkeyEnabled(bool),
    StartRecordHotkey,
    CancelRecordHotkey,
    ResetHotkey,
    ToggleListPanel,
    OpenList(Seq<char>),
    NewListNameChanged(Seq<char>),
    CreateList,
    DeleteList(Seq<char>),
    StartRenameList(Seq<char>),
    RenameInputChanged(Seq<char>),
    CommitRenameList,
    CancelRenameList,
    ImportList,
    ImportListResult(Option<Seq<char>>),
    ExportList,
    ExportListResult(Option<Seq<char>>),
    WindowOpened(u64),
    WindowClosed(u64),
    WindowCloseRequested(u64),
    NativeMenuEvent(NativeMenuCommand),
    NativeMenuInstalled(Result<(), Seq<char>>),
    KeyboardEvent(KeyEventView),
    IpcEvent(IpcInboundView),
}

impl DeepView for Message {
    type V = MessageView;

    open spec fn deep_view(&self) -> MessageView {
        match self {
            Message::FontLoaded => MessageView::FontLoaded,
            Message::ToggleTheme => MessageView::ToggleTheme,
            Message::TitleChanged(v) => MessageView::TitleChanged(v@),
            Message::ToggleTaskCompleted(i, c) => MessageView::ToggleTaskCompleted(*i, *c),
            Message::RemoveTask(i) => MessageView::RemoveTask(*i),
            Message::AddTask => MessageView::AddTask,
            Message::ClearCompleted => MessageView::ClearCompleted,
            Message::RequestClearAll => MessageView::RequestClearAll,
            Message::ClearAll => MessageView::ClearAll,
            Message::CancelClearAll => MessageView::CancelClearAll,
            Message::EditUndo => MessageView::EditUndo,
            Message::EditRedo => MessageView::EditRedo,
            Message::ToggleSettings => MessageView::ToggleSettings,
            Message::CloseSettings => MessageView::CloseSettings,
            Message::SetTheme(m) => MessageView::SetTheme(*m),
            Message::SetReopenLastList(b) => MessageView::SetReopenLastList(*b),
            Message::SetConfirmClearAll(b) => MessageView::SetConfirmClearAll(*b),
            Message::SetHotkeyEnabled(b) => MessageView::SetHotkeyEnabled(*b),
            Message::StartRecordHotkey => MessageView::StartRecordHotkey,
            Message::CancelRecordHotkey => MessageView::CancelRecordHotkey,
            Message::ResetHotkey => MessageView::ResetHotkey,
            Message::ToggleListPanel => MessageView::ToggleListPanel,
            Message::OpenList(n) => MessageView::OpenList(n@),
            Message::NewListNameChanged(v) => MessageView::NewListNameChanged(v@),
            Message::CreateList => MessageView::CreateList,
            Message::DeleteList(n) => MessageView::DeleteList(n@),
            Message::StartRenameList(n) => MessageView::StartRenameList(n@),
            Message::RenameInputChanged(v) => MessageView::RenameInputChanged(v@),
            Message::CommitRenameList => MessageView::CommitRenameList,
            Message::CancelRenameList => MessageView::CancelRenameList,
            Message::ImportList => MessageView::ImportList,
            Message::ImportListResult(p) => MessageView::ImportListResult(option_text(*p)),
            Message::ExportList => MessageView::ExportList,
            Message::ExportListResult(p) => MessageView::ExportListResult(option_text(*p)),
            Message::WindowOpened(id) => MessageView::WindowOpened(*id),
            Message::WindowClosed(id) => MessageView::WindowClosed(*id),
            Message::WindowCloseRequested(id) => MessageView::WindowCloseRequested(*id),
            Message::NativeMenuEvent(c) => MessageView::NativeMenuEvent(*c),
            Message::NativeMenuInstalled(r) => MessageView::NativeMenuInstalled(result_text(*r)),
            Message::KeyboardEvent(k) => MessageView::KeyboardEvent(k.deep_view()),
            Message::IpcEvent(e) => MessageView::IpcEvent(e.deep_view()),
        }
    }
}

/// Work the main window asks its host to do.
#[derive(Debug)]
pub enum Effect {
    Send(IpcMessage),
    /// Write these settings to the configuration, keeping its other fields.
    PersistSettings(Settings),
    /// Write the current tasks to the list `name`, then report back.
    SaveList { name: String },
    /// Record the open list (or none) in the configuration.
    RememberOpen { current: Option<String> },
    /// Re-scan the saved lists and report them back.
    RefreshLists,
    /// Read the list `name`, then report back with `purpose`.
    LoadList { name: String, purpose: LoadPurpose },
    /// Create an empty list `name`, then report back.
    CreateListFile { name: String },
    /// Delete the list `name` stored at `path`, then report back.
    DeleteListFile { name: String, path: String },
    /// Rename list `from` to `to`, then report back.
    RenameListFile { from: String, to: String },
    /// Focus the rename input with the cursor at its end.
    FocusRenameInput,
    OpenImportDialog,
    /// Import the list in the file at `path`, then report back.
    ImportFrom { path: String },
    /// Ask where to export, suggesting `suggested`.
    OpenExportDialog { suggested: String },
    /// Export the list `name` to `path`, then report back.
    ExportTo { name: String, path: String },
    InstallNativeMenu(u64),
    ToggleMaximize(u64),
    MinimizeWindow(u64),
    /// Bring the window forward and un-minimise it.
    RestoreWindow(u64),
    /// Quit the app.
    Exit,
}

pub enum EffectView {
    Send(IpcMessageView),
    PersistSettings(SettingsView),
    SaveList { name: Seq<char> },
    RememberOpen { current: Option<Seq<char>> },
    RefreshLists,
    LoadList { name: Seq<char>, purpose: LoadPurpose },
    CreateListFile { name: Seq<char> },
    DeleteListFile { name: Seq<char>, path: Seq<char> },
    RenameListFile { from: Seq<char>, to: Seq<char> },
    FocusRenameInput,
    OpenImportDialog,
    ImportFrom { path: Seq<char> },
    OpenExportDialog { suggested: Seq<char> },
    ExportTo { name: Seq<char>, path: Seq<char> },
    InstallNativeMenu(u64),
    ToggleMaximize(u64),
    MinimizeWindow(u64),
    RestoreWindow(u64),
    Exit,
}

impl DeepView for Effect {
    type V = EffectView;

    open spec fn deep_view(&self) -> EffectView {
        match self {
            Effect::Send(m) => EffectView::Send(m.deep_view()),
            Effect::PersistSettings(s) => EffectView::PersistSettings(s@),
            Effect::SaveList { name } => EffectView::SaveList { name: name@ },
            Effect::RememberOpen { current } => EffectView::RememberOpen {
                current: option_text(*current),
            },
            Effect::RefreshLists => EffectView::RefreshLists,
            Effect::LoadList { name, purpose } => EffectView::LoadList {
                name: name@,
                purpose: *purpose,
            },
            Effect::CreateListFile { name } => EffectView::CreateListFile { name: name@ },
            Effect::DeleteListFile { name, path } => EffectView::DeleteListFile {
                name: name@,
                path: path@,
            },
            Effect::RenameListFile { from, to } => EffectView::RenameListFile {
                from: from@,
                to: to@,
            },
            Effect::FocusRenameInput => EffectView::FocusRenameInput,
            Effect::OpenImportDialog => EffectView::OpenImportDialog,
            Effect::ImportFrom { path } => EffectView::ImportFrom { path: path@ },
            Effect::OpenExportDialog { suggested } => EffectView::OpenExportDialog {
                suggested: suggested@,
            },
            Effect::ExportTo { name, path } => EffectView::ExportTo { name: name@, path: path@ },
            Effect::InstallNativeMenu(id) => EffectView::InstallNativeMenu(*id),
            Effect::ToggleMaximize(id) => EffectView::ToggleMaximize(*id),
            Effect::MinimizeWindow(id) => EffectView::MinimizeWindow(*id),
            Effect::RestoreWindow(id) => EffectView::RestoreWindow(*id),
            Effect::Exit => EffectView::Exit,
        }
    }
}

} // verus!
