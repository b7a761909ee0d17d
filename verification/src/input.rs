//! The dashboard's model of terminal key input.
//!
//! The input listener forwards every key event verbatim; interpretation is
//! centralized here. Only key presses are meaningful: a press of the quit
//! key asks the dashboard to exit, a press of the color-cycle key advances
//! the accent color, and everything else is an explicit no-op.

use vstd::prelude::*;

verus! {

/// The key that asks the dashboard to exit.
pub const QUIT_KEY: char = 'q';

/// The key that advances the accent color through the palette.
pub const COLOR_KEY: char = 'c';

/// Whether a key event is a press, a release, or an auto-repeat.
#[derive(Clone, Copy, PartialEq, Eq, Structural, Debug)]
pub enum KeyKind {
    Press,
    Release,
    Repeat,
}

/// The logical code of a key: a printable character, or any other key
/// (arrows, function keys, ...), which the dashboard never distinguishes.
#[derive(Clone, Copy, PartialEq, Eq, Structural, Debug)]
pub enum KeyCode {
    Char(char),
    Other,
}

/// One key event as delivered by the terminal: a logical code and the
/// press/release/repeat kind.
#[derive(Clone, Copy, PartialEq, Eq, Structural, Debug)]
pub struct InputSignal {
    pub code: KeyCode,
    pub kind: KeyKind,
}

/// Whether a signal is a press of the quit key.
pub open spec fn is_quit_press(sig: InputSignal) -> bool {
    sig.kind == KeyKind::Press && sig.code == KeyCode::Char(QUIT_KEY)
}

/// Whether a signal is a press of the color-cycle key.
pub open spec fn is_color_press(sig: InputSignal) -> bool {
    sig.kind == KeyKind::Press && sig.code == KeyCode::Char(COLOR_KEY)
}

impl InputSignal {
    /// Build a signal from its parts.
    pub fn new(code: KeyCode, kind: KeyKind) -> (r: InputSignal)
        ensures
            r.code == code,
            r.kind == kind,
    {
        InputSignal { code, kind }
    }

    /// Executable mirror of [`is_quit_press`].
    pub fn quit_press(&self) -> (r: bool)
        ensures
            r == is_quit_press(*self),
    {
        self.kind == KeyKind::Press && self.code == KeyCode::Char(QUIT_KEY)
    }

    /// Executable mirror of [`is_color_press`].
    pub fn color_press(&self) -> (r: bool)
        ensures
            r == is_color_press(*self),
    {
        self.kind == KeyKind::Press && self.code == KeyCode::Char(COLOR_KEY)
    }
}

} // verus!
