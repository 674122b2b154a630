//! What the main window gets from the platform where neither the native menu
//! bar nor the tray service is implemented.
use vstd::prelude::*;

verus! {

/// Why the native menu bar is missing on this platform.
pub open spec fn menu_unsupported_text() -> Seq<char> {
    "Native menu is not supported on this platform in iced/winit yet. Keyboard shortcuts remain available."@
}

/// Installs the native menu bar for the main window: on this platform there
/// is none, and the keyboard shortcuts stand in for it.
pub fn install_for_window() -> (r: Result<(), String>)
    ensures
        r matches Err(e) && e@ == menu_unsupported_text(),
{
    Err(
        String::from_str(
            "Native menu is not supported on this platform in iced/winit yet. Keyboard shortcuts remain available.",
        ),
    )
}

/// Starts the tray service: on this platform there is none to start, which
/// is no failure; the main window then runs on its own.
pub fn launch_tray() -> (r: Result<(), String>)
    ensures
        r is Ok,
{
    Ok(())
}

} // verus!
