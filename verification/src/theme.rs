//! Colours of the session, chosen from the desktop's colour scheme.

use vstd::prelude::*;

verus! {

/// The colour scheme that the desktop asks for.
#[derive(Debug, PartialEq, Eq, Clone, Copy, Structural)]
pub enum ThemeMode {
    Dark,
    Light,
    Unspecified,
}

/// The colours that the session paints with.
#[derive(Debug, PartialEq, Eq, Clone, Copy, Structural)]
pub enum Color {
    Black,
    White,
    DarkGray,
    Yellow,
}

/// How the border of a panel is drawn.
#[derive(Debug, PartialEq, Eq, Clone, Copy, Structural)]
pub struct Style {
    pub fg: Color,
    pub bold: bool,
}

/// Asks the desktop for its colour scheme with `dark_light::detect`.
///
/// Trusted, and nothing is claimed of the answer: it is whatever the desktop
/// says at the moment of the call, or nothing where it cannot be asked.
#[verifier::external_body]
pub(crate) fn detect_theme() -> (r: Option<ThemeMode>) {
    match dark_light::detect() {
        Ok(dark_light::Mode::Dark) => Some(ThemeMode::Dark),
        Ok(dark_light::Mode::Light) => Some(ThemeMode::Light),
        Ok(dark_light::Mode::Unspecified) => Some(ThemeMode::Unspecified),
        Err(_) => None,
    }
}

/// The scheme to paint with: the detected one, or the light one where none
/// was detected.
pub open spec fn theme_or_light_spec(detected: Option<ThemeMode>) -> ThemeMode {
    match detected {
        Some(mode) => mode,
        None => ThemeMode::Light,
    }
}

/// Settles on a scheme after detection.
pub fn theme_or_light(detected: Option<ThemeMode>) -> (mode: ThemeMode)
    ensures
        mode == theme_or_light_spec(detected),
{
    match detected {
        Some(mode) => mode,
        None => ThemeMode::Light,
    }
}

/// Foreground colour under a scheme: white on dark, black otherwise.
pub open spec fn fg_color(mode: ThemeMode) -> Color {
    match mode {
        ThemeMode::Dark => Color::White,
        ThemeMode::Light => Color::Black,
        ThemeMode::Unspecified => Color::Black,
    }
}

/// Background colour under a scheme: black on dark, white otherwise.
pub open spec fn bg_color(mode: ThemeMode) -> Color {
    match mode {
        ThemeMode::Dark => Color::Black,
        ThemeMode::Light => Color::White,
        ThemeMode::Unspecified => Color::White,
    }
}

} // verus!
