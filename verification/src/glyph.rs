//! Glyph keys and rendered glyphs.

use vstd::prelude::*;
use crate::raster::pixmap_dims;

verus! {

/// One character at one pixel size: the key of a font's glyph cache.
#[derive(Clone, Copy, Debug, Hash, PartialEq, Eq, Structural)]
pub struct Glyph {
    pub character: char,
    pub size_px: u16,
}

/// Offset, in whole pixels, from the pen position to the top-left corner of a
/// glyph's bitmap.
#[derive(Clone, Copy, Debug, PartialEq, Eq, Structural)]
pub struct Offset {
    pub x: i32,
    pub y: i32,
}

/// A glyph that has been rasterized once and is kept for reuse.
#[derive(Clone)]
pub struct RenderedGlyph {
    /// Coverage bitmap; absent when the glyph has no ink (a space).
    pub pixmap: Option<tiny_skia::Pixmap>,
    /// Where the bitmap goes, relative to the pen.
    pub pos: Offset,
    /// How far the pen moves after this glyph, in pixels.
    pub advance: i16,
}

impl Glyph {
    /// The number under which a font's cache files this glyph: the code point
    /// in the high bits, the size in the low sixteen.
    pub open spec fn spec_key(self) -> u64 {
        ((self.character as u32) as u64 * 65536 + self.size_px as u64) as u64
    }

    /// Computes [`Glyph::spec_key`].
    pub fn key(self) -> (k: u64)
        ensures
            k == self.spec_key(),
    {
        let c: u32 = self.character as u32;
        c as u64 * 65536 + self.size_px as u64
    }
}

/// Two glyph keys get the same cache number only if they are the same key.
pub proof fn lemma_key_injective(a: Glyph, b: Glyph)
    ensures
        a.spec_key() == b.spec_key() <==> a == b,
{
    let ca = (a.character as u32) as int;
    let cb = (b.character as u32) as int;
    let sa = a.size_px as int;
    let sb = b.size_px as int;
    assert(ca * 65536 + sa == cb * 65536 + sb ==> ca == cb && sa == sb) by (nonlinear_arith)
        requires
            0 <= sa < 65536,
            0 <= sb < 65536,
    ;
    assert(a.character as u32 == b.character as u32 ==> a.character == b.character);
}

impl RenderedGlyph {
    /// A bitmap, where there is one, has positive width and height.
    pub open spec fn wf(self) -> bool {
        self.pixmap matches Some(p) ==> pixmap_dims(p).0 > 0 && pixmap_dims(p).1 > 0
    }
}

} // verus!
