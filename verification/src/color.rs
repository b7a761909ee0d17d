//! The fixed cyclic palette of accent colors for the dashboard's bars.

use vstd::prelude::*;

verus! {

/// One entry of the fixed accent palette. The dashboard starts on `Cyan`
/// and a color-cycle key press advances through the palette in a fixed
/// cyclic order.
#[derive(Clone, Copy, PartialEq, Eq, Structural, Debug)]
pub enum AccentColor {
    Cyan,
    Magenta,
    Green,
    Yellow,
}

/// The successor of a color in the fixed cyclic palette.
pub open spec fn spec_next_color(c: AccentColor) -> AccentColor {
    match c {
        AccentColor::Cyan => AccentColor::Magenta,
        AccentColor::Magenta => AccentColor::Green,
        AccentColor::Green => AccentColor::Yellow,
        AccentColor::Yellow => AccentColor::Cyan,
    }
}

/// How many colors the palette holds.
pub open spec fn palette_len() -> nat {
    4
}

/// `spec_next_color` applied `n` times.
pub open spec fn spec_next_color_n(c: AccentColor, n: nat) -> AccentColor
    decreases n,
{
    if n == 0 {
        c
    } else {
        spec_next_color(spec_next_color_n(c, (n - 1) as nat))
    }
}

impl AccentColor {
    /// The palette entry the dashboard starts on.
    pub fn default_color() -> (r: AccentColor)
        ensures
            r == AccentColor::Cyan,
    {
        AccentColor::Cyan
    }

    /// Advance to the next entry of the cyclic palette.
    pub fn next(self) -> (r: AccentColor)
        ensures
            r == spec_next_color(self),
    {
        match self {
            AccentColor::Cyan => AccentColor::Magenta,
            AccentColor::Magenta => AccentColor::Green,
            AccentColor::Green => AccentColor::Yellow,
            AccentColor::Yellow => AccentColor::Cyan,
        }
    }
}

/// The palette is cyclic: advancing as many times as the palette has
/// entries returns to the starting color.
pub proof fn lemma_palette_cyclic(c: AccentColor)
    ensures
        spec_next_color_n(c, palette_len()) == c,
{
    assert(spec_next_color_n(c, 0) == c);
    assert(spec_next_color_n(c, 1) == spec_next_color(spec_next_color_n(c, 0)));
    assert(spec_next_color_n(c, 2) == spec_next_color(spec_next_color_n(c, 1)));
    assert(spec_next_color_n(c, 3) == spec_next_color(spec_next_color_n(c, 2)));
    assert(spec_next_color_n(c, 4) == spec_next_color(spec_next_color_n(c, 3)));
}

} // verus!
