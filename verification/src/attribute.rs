//! Style attributes of a font, used as an equality key.

use vstd::prelude::*;

verus! {

/// Slant of a font.
///
/// An oblique angle is held as the bit pattern of the single-precision number
/// that the font tables give, so that two styles are equal exactly when they
/// were read as the same value.
#[derive(Clone, Copy, Debug, PartialEq, Eq, Hash, Structural)]
pub enum Style {
    Normal,
    Italic,
    Oblique(Option<u32>),
}

/// Stretch, style and weight of a font.
///
/// The registry never interprets these numerically: they only tell fonts of
/// one family apart. `stretch` and `weight` are the bit patterns of the
/// single-precision ratio and weight read from the font (a weight of 400 is
/// `0x43C8_0000`, a ratio of 1 is `0x3F80_0000`).
#[derive(Clone, Copy, Debug, PartialEq, Eq, Hash, Structural)]
pub struct Attributes {
    pub stretch: u32,
    pub style: Style,
    pub weight: u32,
}

impl Attributes {
    /// Attributes from their three parts.
    pub fn new(stretch: u32, style: Style, weight: u32) -> (r: Self)
        ensures
            r == (Attributes { stretch, style, weight }),
    {
        Attributes { stretch, style, weight }
    }
}

} // verus!
