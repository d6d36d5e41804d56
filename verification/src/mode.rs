use vstd::prelude::*;

use crate::locale::Locale;

verus! {

/// The two system appearances.
#[derive(Clone, Copy, Debug, PartialEq, Eq, Structural, PartialOrd, Ord, Default)]
pub enum Mode {
    #[default]
    Light,
    Dark,
}

/// The other appearance.
pub open spec fn opposite(mode: Mode) -> Mode {
    match mode {
        Mode::Light => Mode::Dark,
        Mode::Dark => Mode::Light,
    }
}

/// The name of an appearance shown to the user, in the given language.
pub open spec fn label_text(mode: Mode, locale: Locale) -> Seq<char> {
    match (mode, locale) {
        (Mode::Light, Locale::English) => "Light"@,
        (Mode::Dark, Locale::English) => "Dark"@,
        (Mode::Light, Locale::Chinese) => "浅色"@,
        (Mode::Dark, Locale::Chinese) => "深色"@,
    }
}

/// The fixed English name of an appearance.
pub open spec fn name_text(mode: Mode) -> Seq<char> {
    match mode {
        Mode::Light => "Light"@,
        Mode::Dark => "Dark"@,
    }
}

impl Mode {
    /// The name of the appearance in the given language.
    pub fn label(self, locale: Locale) -> (r: &'static str)
        ensures
            r@ == label_text(self, locale),
    {
        match (self, locale) {
            (Mode::Light, Locale::English) => "Light",
            (Mode::Dark, Locale::English) => "Dark",
            (Mode::Light, Locale::Chinese) => "浅色",
            (Mode::Dark, Locale::Chinese) => "深色",
        }
    }

    /// Switches between light and dark.
    pub fn toggle(self) -> (r: Mode)
        ensures
            r == opposite(self),
    {
        match self {
            Mode::Light => Mode::Dark,
            Mode::Dark => Mode::Light,
        }
    }

    /// The fixed English name, as the appearance is written in messages.
    pub fn text(self) -> (r: &'static str)
        ensures
            r@ == name_text(self),
    {
        match self {
            Mode::Light => "Light",
            Mode::Dark => "Dark",
        }
    }
}

/// Toggling twice gives back the appearance one started from, and toggling
/// always changes the appearance.
pub proof fn toggle_is_an_involution(mode: Mode)
    ensures
        opposite(opposite(mode)) == mode,
        opposite(mode) != mode,
{
}

} // verus!
