//! Color-theme selection.
//!
//! The crate's callers persist the chosen theme under its label; the enum
//! and its label functions here are the verified core of that round trip,
//! while reading and writing the configuration file belongs to the
//! application layer.

use crate::types::str_eq;
use vstd::prelude::*;

verus! {

/// The available color themes.
#[derive(Clone, Copy, Debug, PartialEq, Eq, Structural)]
pub enum ThemeVariant {
    Dark,
    Light,
    RedDark,
    RosePineMoon,
    SolarizedDark,
    Custom,
}

/// The label naming each theme.
pub open spec fn theme_label_of(t: ThemeVariant) -> Seq<char> {
    match t {
        ThemeVariant::Dark => "Dark"@,
        ThemeVariant::Light => "Light"@,
        ThemeVariant::RedDark => "RedDark"@,
        ThemeVariant::RosePineMoon => "RosePineMoon"@,
        ThemeVariant::SolarizedDark => "SolarizedDark"@,
        ThemeVariant::Custom => "Custom"@,
    }
}

/// The theme named by a label, by exact, case-sensitive match.
pub open spec fn theme_of_label(s: Seq<char>) -> Option<ThemeVariant> {
    if s == theme_label_of(ThemeVariant::Dark) {
        Some(ThemeVariant::Dark)
    } else if s == theme_label_of(ThemeVariant::Light) {
        Some(ThemeVariant::Light)
    } else if s == theme_label_of(ThemeVariant::RedDark) {
        Some(ThemeVariant::RedDark)
    } else if s == theme_label_of(ThemeVariant::RosePineMoon) {
        Some(ThemeVariant::RosePineMoon)
    } else if s == theme_label_of(ThemeVariant::SolarizedDark) {
        Some(ThemeVariant::SolarizedDark)
    } else if s == theme_label_of(ThemeVariant::Custom) {
        Some(ThemeVariant::Custom)
    } else {
        None
    }
}

impl ThemeVariant {
    /// The label naming this theme.
    pub fn label(&self) -> (r: &'static str)
        ensures
            r@ == theme_label_of(*self),
    {
        match self {
            ThemeVariant::Dark => "Dark",
            ThemeVariant::Light => "Light",
            ThemeVariant::RedDark => "RedDark",
            ThemeVariant::RosePineMoon => "RosePineMoon",
            ThemeVariant::SolarizedDark => "SolarizedDark",
            ThemeVariant::Custom => "Custom",
        }
    }

    /// Parses a label into the theme it names, by exact match.
    pub fn from_label(s: &str) -> (t: Option<ThemeVariant>)
        ensures
            t == theme_of_label(s@),
    {
        if str_eq(s, "Dark") {
            Some(ThemeVariant::Dark)
        } else if str_eq(s, "Light") {
            Some(ThemeVariant::Light)
        } else if str_eq(s, "RedDark") {
            Some(ThemeVariant::RedDark)
        } else if str_eq(s, "RosePineMoon") {
            Some(ThemeVariant::RosePineMoon)
        } else if str_eq(s, "SolarizedDark") {
            Some(ThemeVariant::SolarizedDark)
        } else if str_eq(s, "Custom") {
            Some(ThemeVariant::Custom)
        } else {
            None
        }
    }
}

/// Every theme's label parses back to that theme.
pub proof fn lemma_theme_labels_distinct()
    ensures
        forall|t: ThemeVariant| #[trigger] theme_of_label(theme_label_of(t)) == Some(t),
{
    reveal_strlit("Dark");
    reveal_strlit("Light");
    reveal_strlit("RedDark");
    reveal_strlit("RosePineMoon");
    reveal_strlit("SolarizedDark");
    reveal_strlit("Custom");
    assert("Dark"@.len() == 4);
    assert("Light"@.len() == 5);
    assert("RedDark"@.len() == 7);
    assert("RosePineMoon"@.len() == 12);
    assert("SolarizedDark"@.len() == 13);
    assert("Custom"@.len() == 6);
    assert(theme_of_label(theme_label_of(ThemeVariant::Dark)) == Some(ThemeVariant::Dark));
    assert(theme_of_label(theme_label_of(ThemeVariant::Light)) == Some(ThemeVariant::Light));
    assert(theme_of_label(theme_label_of(ThemeVariant::RedDark)) == Some(ThemeVariant::RedDark));
    assert(theme_of_label(theme_label_of(ThemeVariant::RosePineMoon)) == Some(
        ThemeVariant::RosePineMoon,
    ));
    assert(theme_of_label(theme_label_of(ThemeVariant::SolarizedDark)) == Some(
        ThemeVariant::SolarizedDark,
    ));
    assert(theme_of_label(theme_label_of(ThemeVariant::Custom)) == Some(ThemeVariant::Custom));
}

} // verus!
