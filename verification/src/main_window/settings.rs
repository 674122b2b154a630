//! User settings and the entries of the list browser.
use vstd::prelude::*;
use crate::theme::ThemeMode;

verus! {

/// A global keyboard shortcut: modifiers and the physical key's code name
/// (such as `Backquote` or `KeyK`).
#[derive(Debug)]
pub struct HotkeySpec {
    pub alt: bool,
    pub ctrl: bool,
    pub shift: bool,
    pub meta: bool,
    pub code: String,
}

pub struct HotkeySpecView {
    pub alt: bool,
    pub ctrl: bool,
    pub shift: bool,
    pub meta: bool,
    pub code: Seq<char>,
}

impl View for HotkeySpec {
    type V = HotkeySpecView;

    open spec fn view(&self) -> HotkeySpecView {
        HotkeySpecView {
            alt: self.alt,
            ctrl: self.ctrl,
            shift: self.shift,
            meta: self.meta,
            code: self.code@,
        }
    }
}

impl HotkeySpecView {
    /// A shortcut must hold ⌘, ⌥ or ⌃; Shift alone is too weak.
    pub open spec fn strong(self) -> bool {
        self.alt || self.ctrl || self.meta
    }
}

impl HotkeySpec {
    /// Whether the shortcut holds ⌘ (meta), ⌥ (alt) or ⌃ (ctrl).
    pub fn has_strong_modifier(&self) -> (b: bool)
        ensures
            b == self@.strong(),
    {
        self.alt || self.ctrl || self.meta
    }

    /// A new shortcut equal to this one.
    pub fn duplicate(&self) -> (h: HotkeySpec)
        ensures
            h@ == self@,
    {
        HotkeySpec {
            alt: self.alt,
            ctrl: self.ctrl,
            shift: self.shift,
            meta: self.meta,
            code: self.code.clone(),
        }
    }
}

/// The settings written to the configuration file.
#[derive(Debug)]
pub struct Settings {
    pub theme: ThemeMode,
    pub reopen_last_list: bool,
    pub confirm_clear_all: bool,
    pub hotkey_enabled: bool,
    pub hotkey: HotkeySpec,
}

pub struct SettingsView {
    pub theme: ThemeMode,
    pub reopen_last_list: bool,
    pub confirm_clear_all: bool,
    pub hotkey_enabled: bool,
    pub hotkey: HotkeySpecView,
}

impl View for Settings {
    type V = SettingsView;

    open spec fn view(&self) -> SettingsView {
        SettingsView {
            theme: self.theme,
            reopen_last_list: self.reopen_last_list,
            confirm_clear_all: self.confirm_clear_all,
            hotkey_enabled: self.hotkey_enabled,
            hotkey: self.hotkey@,
        }
    }
}

/// A saved list as the browser shows it.
#[derive(Debug)]
pub struct ListEntry {
    /// The display name.
    pub name: String,
    /// Where the list is stored.
    pub path: String,
    pub task_count: usize,
}

pub struct ListEntryView {
    pub name: Seq<char>,
    pub path: Seq<char>,
    pub task_count: usize,
}

impl View for ListEntry {
    type V = ListEntryView;

    open spec fn view(&self) -> ListEntryView {
        ListEntryView { name: self.name@, path: self.path@, task_count: self.task_count }
    }
}

impl DeepView for ListEntry {
    type V = ListEntryView;

    open spec fn deep_view(&self) -> ListEntryView {
        self@
    }
}

} // verus!
