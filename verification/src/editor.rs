//! The text of the editor and the pen positions of its glyphs.

use vstd::prelude::*;
use vstd::string::{StrSliceExecFns, StringExecFns};
use crate::data::render_post;
use crate::error::FontError;
use crate::font::UiFont;
use crate::glyph::{Glyph, RenderedGlyph};

verus! {

/// A line of text with a cursor in it.
pub struct Editor {
    edit: String,
    cursor: usize,
}

/// One character of the line, placed: where the pen stands before it, and
/// how far the pen moves after it. The pen's number is wide enough for a
/// line of any length.
#[derive(Clone, Copy, Debug, PartialEq, Eq, Structural)]
pub struct Placement {
    pub character: char,
    pub pen_x: i128,
    pub advance: i16,
    /// Whether the cursor stands right behind this character.
    pub at_cursor: bool,
}

/// The sum of the advances of the first `k` placements: where the pen
/// stands after them.
pub open spec fn pen_after(placed: Seq<Placement>, k: int) -> int
    decreases k,
{
    if k <= 0 {
        0
    } else {
        pen_after(placed, k - 1) + placed[k - 1].advance
    }
}

/// The glyph that a font has cached for a character at a size, if any.
pub open spec fn cached_advance(font: UiFont<'_>, character: char, size_px: u16) -> Option<i16> {
    let key = Glyph { character, size_px };
    if font.cache().contains_key(key) {
        Some(font.cache()[key].advance)
    } else {
        None
    }
}

impl Editor {
    /// The characters of the line.
    pub closed spec fn text(&self) -> Seq<char> {
        self.edit@
    }

    /// The number of characters before the cursor.
    pub closed spec fn cursor(&self) -> nat {
        self.cursor as nat
    }

    /// The cursor is in the line or at its end.
    pub open spec fn wf(&self) -> bool {
        self.cursor() <= self.text().len()
    }

    /// An empty line.
    pub fn new() -> (r: Self)
        ensures
            r.wf(),
            r.text() == Seq::<char>::empty(),
            r.cursor() == 0,
    {
        Editor { edit: String::new(), cursor: 0 }
    }

    /// The line's text.
    pub fn as_str(&self) -> (r: &str)
        ensures
            r@ == self.text(),
    {
        self.edit.as_str()
    }

    /// The number of characters in the line.
    pub fn len(&self) -> (r: usize)
        ensures
            r == self.text().len(),
    {
        self.edit.as_str().unicode_len()
    }

    /// The number of characters before the cursor.
    pub fn cursor_position(&self) -> (r: usize)
        ensures
            r == self.cursor(),
    {
        self.cursor
    }

    /// Puts `text` into the line at the cursor and moves the cursor one
    /// character on, as one key press does. Returns whether the line has
    /// changed and has to be drawn again.
    pub fn insert(&mut self, text: &str) -> (redraw: bool)
        requires
            old(self).wf(),
        ensures
            final(self).wf(),
            final(self).text() == old(self).text().take(old(self).cursor() as int) + text@
                + old(self).text().skip(old(self).cursor() as int),
            final(self).cursor() == old(self).cursor() + if text@.len() > 0 {
                1nat
            } else {
                0nat
            },
            redraw == (text@.len() > 0),
    {
        let len = self.edit.as_str().unicode_len();
        let added = text.unicode_len();
        let ghost before = self.edit@;
        let mut line = String::from_str(self.edit.as_str().substring_char(0, self.cursor));
        line.append(text);
        line.append(self.edit.as_str().substring_char(self.cursor, len));
        proof {
            assert(before.subrange(0, self.cursor as int) == before.take(self.cursor as int));
            assert(before.subrange(self.cursor as int, len as int) == before.skip(
                self.cursor as int,
            ));
        }
        let total = line.as_str().unicode_len();
        self.edit = line;
        if added > 0 {
            assert(self.cursor < total);
            self.cursor = self.cursor + 1;
        }
        added > 0
    }

    /// Lays the line out with one font at one size: renders each character's
    /// glyph, through the font's cache, and sums the advances into pen
    /// positions.
    ///
    /// The pen starts at zero and stands, before each character, at the sum
    /// of the advances of the characters before it. The first character
    /// whose glyph cannot be rendered ends the layout with its failure.
    pub fn place(&self, font: &mut UiFont, size_px: u16) -> (r: Result<Vec<Placement>, FontError>)
        requires
            self.wf(),
            old(font).wf(),
        ensures
            final(font).wf(),
            final(font).data() == old(font).data(),
            match r {
                Ok(placed) => {
                    &&& placed@.len() == self.text().len()
                    &&& forall|k: int|
                        0 <= k < placed@.len() ==> {
                            &&& (#[trigger] placed@[k]).character == self.text()[k]
                            &&& placed@[k].pen_x == pen_after(placed@, k)
                            &&& placed@[k].at_cursor == (k + 1 == self.cursor())
                            &&& cached_advance(*final(font), self.text()[k], size_px) == Some(
                                placed@[k].advance,
                            )
                        }
                },
                Err(e) => exists|k: int|
                    {
                        &&& 0 <= k < self.text().len()
                        &&& render_post(
                            old(font).data().tables(),
                            old(font).data().hinted(),
                            Glyph { character: #[trigger] self.text()[k], size_px },
                            Err::<RenderedGlyph, FontError>(e),
                        )
                        &&& forall|j: int|
                            0 <= j < k ==> cached_advance(
                                *final(font),
                                #[trigger] self.text()[j],
                                size_px,
                            ) is Some
                    },
            },
    {
        let line = self.edit.as_str();
        let len = line.unicode_len();
        let mut placed: Vec<Placement> = Vec::new();
        let mut pen_x: i128 = 0;
        let mut i: usize = 0;
        while i < len
            invariant
                i <= len,
                len == self.text().len(),
                line@ == self.text(),
                font.wf(),
                font.data() == old(font).data(),
                placed@.len() == i,
                pen_x == pen_after(placed@, i as int),
                -32768 * i <= pen_x <= 32767 * i,
                forall|k: int|
                    0 <= k < i ==> {
                        &&& (#[trigger] placed@[k]).character == self.text()[k]
                        &&& placed@[k].pen_x == pen_after(placed@, k)
                        &&& placed@[k].at_cursor == (k + 1 == self.cursor())
                        &&& cached_advance(*font, self.text()[k], size_px) == Some(
                            placed@[k].advance,
                        )
                    },
            decreases len - i,
        {
            let character = line.get_char(i);
            let ghost before = *font;
            let ghost so_far = placed@;
            let advance = match font.glyph(Glyph { character, size_px }) {
                Ok(rendered) => rendered.advance,
                Err(e) => {
                    proof {
                        assert(!before.cache().contains_key(Glyph { character, size_px }));
                        assert(self.text()[i as int] == character);
                        assert forall|j: int| 0 <= j < i implies cached_advance(
                            *font,
                            #[trigger] self.text()[j],
                            size_px,
                        ) is Some by {
                            assert(cached_advance(before, self.text()[j], size_px) == Some(
                                placed@[j].advance,
                            ));
                        }
                    }
                    return Err(e);
                },
            };
            placed.push(Placement { character, pen_x, advance, at_cursor: i + 1 == self.cursor });
            proof {
                lemma_pen_after_prefix(so_far, placed@, i as int);
                assert forall|k: int| 0 <= k <= i implies {
                    &&& (#[trigger] placed@[k]).character == self.text()[k]
                    &&& placed@[k].pen_x == pen_after(placed@, k)
                    &&& placed@[k].at_cursor == (k + 1 == self.cursor())
                    &&& cached_advance(*font, self.text()[k], size_px) == Some(placed@[k].advance)
                } by {
                    if k < i {
                        assert(placed@[k] == so_far[k]);
                        lemma_pen_after_prefix(so_far, placed@, k);
                        assert(cached_advance(before, self.text()[k], size_px) == Some(
                            so_far[k].advance,
                        ));
                    } else {
                        assert(pen_after(placed@, i as int) == pen_after(so_far, i as int));
                    }
                }
                assert(pen_after(placed@, i + 1) == pen_after(placed@, i as int) + advance);
            }
            pen_x = pen_x + advance as i128;
            i += 1;
        }
        Ok(placed)
    }
}

impl Default for Editor {
    /// An empty line.
    fn default() -> (r: Self)
        ensures
            r.wf(),
            r.text() == Seq::<char>::empty(),
            r.cursor() == 0,
    {
        Editor::new()
    }
}

/// The pen position after `k` placements depends on those `k` alone.
pub proof fn lemma_pen_after_prefix(a: Seq<Placement>, b: Seq<Placement>, k: int)
    requires
        0 <= k <= a.len(),
        k <= b.len(),
        forall|j: int| 0 <= j < k ==> a[j] == b[j],
    ensures
        pen_after(a, k) == pen_after(b, k),
    decreases k,
{
    if k > 0 {
        lemma_pen_after_prefix(a, b, k - 1);
    }
}

/// The pen moves on from glyph to glyph by the glyph's advance: after the
/// first glyph it stands at that glyph's advance, and after each further one
/// at the sum so far.
pub proof fn lemma_pen_advances(placed: Seq<Placement>, k: int)
    requires
        0 <= k < placed.len(),
    ensures
        pen_after(placed, 0) == 0,
        pen_after(placed, k + 1) == pen_after(placed, k) + placed[k].advance,
{
}

} // verus!
