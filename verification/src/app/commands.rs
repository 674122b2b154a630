//! Commands that reach the app from the native menu bar, the menu bar (tray)
//! icon and the global hotkey.
use vstd::prelude::*;
use crate::text::text_order;

verus! {

/// Items of the native application menu.
#[derive(Debug, Clone, Copy, PartialEq, Eq, Structural)]
pub enum NativeMenuCommand {
    FileNew,
    FileSave,
    FileLoad,
    EditUndo,
    EditRedo,
    ToggleTheme,
}

impl NativeMenuCommand {
    /// Every menu command, in menu order.
    pub fn all() -> (v: Vec<NativeMenuCommand>)
        ensures
            v@ == seq![
                NativeMenuCommand::FileNew,
                NativeMenuCommand::FileSave,
                NativeMenuCommand::FileLoad,
                NativeMenuCommand::EditUndo,
                NativeMenuCommand::EditRedo,
                NativeMenuCommand::ToggleTheme,
            ],
    {
        let mut v = Vec::new();
        v.push(NativeMenuCommand::FileNew);
        v.push(NativeMenuCommand::FileSave);
        v.push(NativeMenuCommand::FileLoad);
        v.push(NativeMenuCommand::EditUndo);
        v.push(NativeMenuCommand::EditRedo);
        v.push(NativeMenuCommand::ToggleTheme);
        v
    }

    /// The identifier the menu item of a command is registered under.
    pub open spec fn spec_menu_id(self) -> Seq<char> {
        match self {
            NativeMenuCommand::FileNew => "taskscape.file.new"@,
            NativeMenuCommand::FileSave => "taskscape.file.save"@,
            NativeMenuCommand::FileLoad => "taskscape.file.load"@,
            NativeMenuCommand::EditUndo => "taskscape.edit.undo"@,
            NativeMenuCommand::EditRedo => "taskscape.edit.redo"@,
            NativeMenuCommand::ToggleTheme => "taskscape.view.toggle-theme"@,
        }
    }

    pub fn menu_id(self) -> (s: &'static str)
        ensures
            s@ == self.spec_menu_id(),
    {
        match self {
            NativeMenuCommand::FileNew => "taskscape.file.new",
            NativeMenuCommand::FileSave => "taskscape.file.save",
            NativeMenuCommand::FileLoad => "taskscape.file.load",
            NativeMenuCommand::EditUndo => "taskscape.edit.undo",
            NativeMenuCommand::EditRedo => "taskscape.edit.redo",
            NativeMenuCommand::ToggleTheme => "taskscape.view.toggle-theme",
        }
    }

    /// The command whose menu item has the identifier `id`, if any.
    pub fn from_menu_id(id: &str) -> (r: Option<NativeMenuCommand>)
        ensures
            match r {
                Some(c) => id@ == c.spec_menu_id(),
                None => forall|c: NativeMenuCommand| id@ != c.spec_menu_id(),
            },
    {
        if text_order(id, "taskscape.file.new") == 0 {
            Some(NativeMenuCommand::FileNew)
        } else if text_order(id, "taskscape.file.save") == 0 {
            Some(NativeMenuCommand::FileSave)
        } else if text_order(id, "taskscape.file.load") == 0 {
            Some(NativeMenuCommand::FileLoad)
        } else if text_order(id, "taskscape.edit.undo") == 0 {
            Some(NativeMenuCommand::EditUndo)
        } else if text_order(id, "taskscape.edit.redo") == 0 {
            Some(NativeMenuCommand::EditRedo)
        } else if text_order(id, "taskscape.view.toggle-theme") == 0 {
            Some(NativeMenuCommand::ToggleTheme)
        } else {
            assert forall|c: NativeMenuCommand| id@ != c.spec_menu_id() by {
                match c {
                    NativeMenuCommand::FileNew => {},
                    NativeMenuCommand::FileSave => {},
                    NativeMenuCommand::FileLoad => {},
                    NativeMenuCommand::EditUndo => {},
                    NativeMenuCommand::EditRedo => {},
                    NativeMenuCommand::ToggleTheme => {},
                }
            }
            None
        }
    }
}

/// Installs the native menu for a window. Here the menu needs no window: it
/// is installed with the app, so there is nothing to do and nothing fails.
pub fn install_for_window() -> (r: Result<(), String>)
    ensures
        r is Ok,
{
    Ok(())
}

/// Commands produced by interacting with the menu bar icon.
#[derive(Debug, Clone, Copy, PartialEq, Eq, Structural)]
pub enum TrayCommand {
    /// Show (or hide again) the compact window under the icon.
    ShowWindow,
}

/// Commands produced by the global keyboard shortcut.
#[derive(Debug, Clone, Copy, PartialEq, Eq, Structural)]
pub enum HotkeyCommand {
    /// Toggle the compact window.
    ToggleMini,
}

} // verus!
