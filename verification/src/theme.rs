//! The two desktop themes and the small rules that relate them.

use vstd::prelude::*;

verus! {

/// A desktop theme: `Light` is in effect between sunrise and sunset,
/// `Dark` between sunset and sunrise.
#[derive(Debug, Clone, Copy, PartialEq, Eq, Structural)]
pub enum Theme {
    Light,
    Dark,
}

/// The other theme.
pub open spec fn opposite_spec(t: Theme) -> Theme {
    match t {
        Theme::Light => Theme::Dark,
        Theme::Dark => Theme::Light,
    }
}

impl Theme {
    /// The other theme.
    pub fn opposite(self) -> (r: Theme)
        ensures
            r == opposite_spec(self),
            r != self,
    {
        match self {
            Theme::Light => Theme::Dark,
            Theme::Dark => Theme::Light,
        }
    }
}

/// The theme a manual toggle lands on: the opposite of what is on screen.
/// An unreadable screen state counts as Light, so the toggle goes to Dark.
pub fn toggle_target(current: Option<Theme>) -> (r: Theme)
    ensures
        r == match current {
            Some(t) => opposite_spec(t),
            None => Theme::Dark,
        },
{
    match current {
        Some(t) => t.opposite(),
        None => Theme::Dark,
    }
}

/// Toggling twice from a readable screen returns to where it started.
pub proof fn lemma_opposite_involutive(t: Theme)
    ensures
        opposite_spec(opposite_spec(t)) == t,
        opposite_spec(t) != t,
{
}


/// The word used for a (possibly unreadable) theme in log lines.
pub fn theme_str(t: Option<Theme>) -> (r: &'static str)
    ensures
        r@ == match t {
            Some(Theme::Light) => "light"@,
            Some(Theme::Dark) => "dark"@,
            None => "unknown"@,
        },
{
    match t {
        Some(Theme::Light) => "light",
        Some(Theme::Dark) => "dark",
        None => "unknown",
    }
}

/// The `SystemUsesLightTheme` / `AppsUseLightTheme` registry value of a
/// theme: 1 for Light, 0 for Dark.
pub open spec fn light_flag_of(t: Theme) -> u32 {
    match t {
        Theme::Light => 1,
        Theme::Dark => 0,
    }
}

/// The theme a `SystemUsesLightTheme` registry value stands for: zero is
/// Dark, anything else Light.
pub open spec fn theme_of_light_flag(v: u32) -> Theme {
    if v == 0 { Theme::Dark } else { Theme::Light }
}

impl Theme {
    /// The registry value that selects this theme.
    pub fn light_flag(self) -> (v: u32)
        ensures
            v == light_flag_of(self),
    {
        match self {
            Theme::Light => 1,
            Theme::Dark => 0,
        }
    }

    /// The theme a registry value stands for.
    pub fn from_light_flag(v: u32) -> (t: Theme)
        ensures
            t == theme_of_light_flag(v),
    {
        if v == 0 { Theme::Dark } else { Theme::Light }
    }
}

/// The theme read back from the registry after writing a theme's value is
/// that theme.
pub proof fn lemma_light_flag_round_trip(t: Theme)
    ensures
        theme_of_light_flag(light_flag_of(t)) == t,
{
}

} // verus!
