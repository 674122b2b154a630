//! The light/dark appearance switch and the button variants the views use.
use vstd::prelude::*;

verus! {

/// The colour scheme of the whole app.
#[derive(Debug, Clone, Copy, PartialEq, Eq, Structural)]
pub enum ThemeMode {
    Dark,
    Light,
}

impl ThemeMode {
    /// The other mode.
    pub open spec fn spec_toggled(self) -> ThemeMode {
        match self {
            ThemeMode::Dark => ThemeMode::Light,
            ThemeMode::Light => ThemeMode::Dark,
        }
    }

    pub open spec fn spec_label(self) -> Seq<char> {
        match self {
            ThemeMode::Dark => "Dark mode"@,
            ThemeMode::Light => "Light mode"@,
        }
    }

    pub fn toggled(self) -> (m: ThemeMode)
        ensures
            m == self.spec_toggled(),
    {
        match self {
            ThemeMode::Dark => ThemeMode::Light,
            ThemeMode::Light => ThemeMode::Dark,
        }
    }

    pub fn label(self) -> (s: &'static str)
        ensures
            s@ == self.spec_label(),
    {
        match self {
            ThemeMode::Dark => "Dark mode",
            ThemeMode::Light => "Light mode",
        }
    }
}

impl Default for ThemeMode {
    fn default() -> (m: Self)
        ensures
            m == ThemeMode::Dark,
    {
        ThemeMode::Dark
    }
}

/// Toggling the theme twice gives back the theme one started with, and a
/// toggle always changes it.
pub proof fn law_toggle_is_involution(m: ThemeMode)
    ensures
        m.spec_toggled().spec_toggled() == m,
        m.spec_toggled() != m,
{
}

/// The visual variants of a button; `Sidebar` and `Chip` carry whether the
/// button is the active or selected one.
#[derive(Debug, Clone, Copy, PartialEq, Eq, Structural)]
pub enum ButtonKind {
    Primary,
    Secondary,
    /// A faint, see-through button for secondary actions.
    Faint,
    Icon,
    Sidebar(bool),
    Chip(bool),
}

} // verus!
