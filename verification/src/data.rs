//! One parsed font: its family, its attributes, and the glyph rasterizer.

use vstd::prelude::*;
use skrifa::metrics::BoundingBox;
use skrifa::outline::pen::PathElement;
use skrifa::raw::ReadError;
use skrifa::{FontRef, OutlineGlyphCollection};
use crate::attribute::Attributes;
use crate::error::FontError;
use crate::glyph::{Glyph, Offset, RenderedGlyph};
use crate::raster::{glyph_path, rasterize, rasterized, sized, trace_outline};
use crate::tables::{
    advance_of, attributes_of, bounds_of, cff2_fault, cff_fault, count_fonts, count_of,
    draw_outline, font_attributes, font_name, font_outlines, glyph_advance,
    glyph_bounds, glyph_metrics, glyph_of, hinted_draw, hinted_settings, hinting_instance,
    hinting_of, map_char, metrics_fault, metrics_of, name_fault, name_of,
    outline_glyph, outline_of, outlines_of, parse_font, parse_font_at, parsed, parsed_at,
    read_cff, read_cff2, read_metrics, read_name, read_truetype, segments_drawn,
    truetype_fault, unhinted_draw, unhinted_settings, Hinting, NameId,
};

verus! {

/// A font parsed from a byte buffer that outlives it.
pub struct FontDrawData<'s> {
    tables: FontRef<'s>,
    attr: Attributes,
    family: String,
    glyph_outlines: OutlineGlyphCollection<'s>,
    hinted: bool,
}

/// The family that a font names: its family name, or else its typographic
/// family name.
pub open spec fn family_of(font: FontRef<'_>) -> Option<Seq<char>> {
    match name_of(font, NameId::Family) {
        Some(name) => Some(name),
        None => name_of(font, NameId::TypographicFamily),
    }
}

/// What the font tables give for one glyph, before any pixel is filled.
pub ghost struct GlyphSource {
    pub advance: i16,
    pub bounds: BoundingBox,
    pub segments: Seq<PathElement>,
}

/// How glyphs are fitted where hinting is on: smoothly, for antialiased
/// bitmaps, not for the subpixels of a display, and with the advances moving
/// with the outline.
pub open spec fn glyph_hinting() -> Hinting {
    Hinting::Smooth { lcd_subpixel: None, preserve_linear_metrics: false }
}

/// The segments of an outline at a size, grid fitted or not. A glyph whose
/// fitting fails on the way is still drawn: the draw is not pedantic.
pub open spec fn segments_of(font: FontRef<'_>, hinted: bool, glyph: Glyph) -> Result<
    Seq<PathElement>,
    FontError,
>
    recommends
        glyph_of(font, glyph.character) is Some,
        outline_of(outlines_of(font), glyph_of(font, glyph.character).unwrap()) is Some,
{
    let outline = outline_of(outlines_of(font), glyph_of(font, glyph.character).unwrap()).unwrap();
    let segments = if hinted {
        match hinting_of(outlines_of(font), glyph.size_px, glyph_hinting()) {
            Ok(hints) => segments_drawn(outline, hinted_draw(hints, false)),
            Err(e) => Err(e),
        }
    } else {
        segments_drawn(outline, unhinted_draw(glyph.size_px))
    };
    match segments {
        Ok(segments) => Ok(segments),
        Err(e) => Err(FontError::Draw(e)),
    }
}

/// Looks a glyph up in a font: the character has to be mapped to a glyph
/// that has an outline, a bounding box and an advance, else there is
/// `NoMap`; the outline has to be traceable, else there is `Draw`.
pub open spec fn glyph_source(font: FontRef<'_>, hinted: bool, glyph: Glyph) -> Result<
    GlyphSource,
    FontError,
> {
    let missing = Err::<GlyphSource, FontError>(FontError::NoMap(glyph.character));
    match glyph_of(font, glyph.character) {
        None => missing,
        Some(id) => if outline_of(outlines_of(font), id) is None {
            missing
        } else {
            let metrics = metrics_of(font, glyph.size_px);
            match (bounds_of(metrics, id), advance_of(metrics, id)) {
                (Some(bounds), Some(advance)) => match segments_of(font, hinted, glyph) {
                    Ok(segments) => Ok(GlyphSource { advance, bounds, segments }),
                    Err(e) => Err(e),
                },
                _ => missing,
            }
        },
    }
}

/// What rendering `glyph` from `font` yields: the failure of the lookup, or
/// what rasterizing the looked-up outline's path yields ([`rasterized`]).
pub open spec fn rendered(font: FontRef<'_>, hinted: bool, glyph: Glyph) -> Result<
    RenderedGlyph,
    FontError,
> {
    match glyph_source(font, hinted, glyph) {
        Err(e) => Err(e),
        Ok(source) => rasterized(
            glyph.size_px,
            source.advance,
            source.bounds,
            glyph_path(source.segments),
        ),
    }
}

/// Whether a rendered glyph's bitmap, where it has one, has the size that
/// the glyph's bounding box in the font gives it ([`sized`]).
pub open spec fn bitmap_sized(
    font: FontRef<'_>,
    hinted: bool,
    glyph: Glyph,
    rendered: RenderedGlyph,
) -> bool {
    rendered.pixmap is Some ==> (glyph_source(font, hinted, glyph) matches Ok(source) && sized(
        glyph.size_px,
        source.bounds,
        rendered,
    ))
}

/// Whether `r` is what rendering `glyph` from `font` yields.
pub open spec fn render_post(
    font: FontRef<'_>,
    hinted: bool,
    glyph: Glyph,
    r: Result<RenderedGlyph, FontError>,
) -> bool {
    r == rendered(font, hinted, glyph)
}

/// Why the font has no outlines to read: its TrueType outlines cannot be
/// read, and neither kind of PostScript outlines can.
pub open spec fn outlines_fault(font: FontRef<'_>) -> Option<ReadError> {
    if cff_fault(font) is None || cff2_fault(font) is None {
        None
    } else {
        truetype_fault(font)
    }
}

/// The first of the tables that a font has to have which cannot be read:
/// its names, its horizontal metrics, its outlines.
pub open spec fn missing_table(font: FontRef<'_>) -> Option<ReadError> {
    match name_fault(font) {
        Some(e) => Some(e),
        None => match metrics_fault(font) {
            Some(e) => Some(e),
            None => outlines_fault(font),
        },
    }
}

/// What reading a font yields: the tables of a font that names a family;
/// `Parse` where the bytes are no font or a table that a font has to have
/// cannot be read; `NoFamilyName` where the font names neither a family nor
/// a typographic family.
pub open spec fn outcome(parsed: Result<FontRef<'static>, ReadError>) -> Result<
    FontRef<'static>,
    FontError,
> {
    match parsed {
        Err(e) => Err(FontError::Parse(e)),
        Ok(font) => match missing_table(font) {
            Some(e) => Err(FontError::Parse(e)),
            None => match family_of(font) {
                None => Err(FontError::NoFamilyName),
                Some(_) => Ok(font),
            },
        },
    }
}

/// Computes [`missing_table`].
fn find_missing_table(font: &FontRef) -> (r: Option<ReadError>)
    ensures
        r == missing_table(*font),
{
    match read_name(font) {
        Some(e) => {
            return Some(e);
        },
        None => {},
    }
    match read_metrics(font) {
        Some(e) => {
            return Some(e);
        },
        None => {},
    }
    let truetype = read_truetype(font);
    if truetype.is_none() {
        return None;
    }
    if read_cff(font).is_none() || read_cff2(font).is_none() {
        None
    } else {
        truetype
    }
}

/// What parsing a buffer that holds a single font yields.
pub open spec fn parse_outcome(data: Seq<u8>) -> Result<FontRef<'static>, FontError> {
    outcome(parsed(data))
}

/// What parsing the font at `index` of a buffer yields. The buffer may hold
/// a collection of fonts, or a single font, which has index 0.
pub open spec fn parse_outcome_at(data: Seq<u8>, index: u32) -> Result<
    FontRef<'static>,
    FontError,
> {
    outcome(parsed_at(data, index))
}

/// The number of fonts in a buffer: a collection is read font by font, each
/// by its index.
pub fn font_count(data: &[u8]) -> (r: Result<usize, FontError>)
    ensures
        match count_of(data@) {
            Ok(count) => r == Ok::<usize, FontError>(count),
            Err(e) => r == Err::<usize, FontError>(FontError::Parse(e)),
        },
{
    match count_fonts(data) {
        Ok(count) => Ok(count),
        Err(e) => Err(FontError::Parse(e)),
    }
}

impl<'s> FontDrawData<'s> {
    /// The parsed tables.
    pub closed spec fn tables(&self) -> FontRef<'s> {
        self.tables
    }

    /// The family name.
    pub closed spec fn spec_family(&self) -> Seq<char> {
        self.family@
    }

    /// The style attributes.
    pub closed spec fn spec_attr(&self) -> Attributes {
        self.attr
    }

    /// Whether outlines are grid fitted before they are filled.
    pub closed spec fn hinted(&self) -> bool {
        self.hinted
    }

    /// The outlines that glyphs are drawn from.
    pub closed spec fn outlines(&self) -> OutlineGlyphCollection<'s> {
        self.glyph_outlines
    }

    /// Family, attributes and outlines are those of the tables.
    pub open spec fn wf(&self) -> bool {
        &&& family_of(self.tables()) == Some(self.spec_family())
        &&& self.spec_attr() == attributes_of(self.tables())
        &&& self.outlines() == outlines_of(self.tables())
    }

    /// Parses a single font and reads its family and attributes; see
    /// [`parse_outcome`]. Hinting is on in a new font.
    pub fn new(data: &'s [u8]) -> (r: Result<Self, FontError>)
        ensures
            match parse_outcome(data@) {
                Err(e) => r == Err::<Self, FontError>(e),
                Ok(font) => {
                    &&& r matches Ok(d)
                    &&& d.wf()
                    &&& d.tables() == font
                    &&& d.hinted()
                },
            },
    {
        match parse_font(data) {
            Ok(tables) => Self::from_tables(tables),
            Err(e) => Err(FontError::Parse(e)),
        }
    }

    /// Parses the font at `index` of a buffer and reads its family and
    /// attributes; see [`parse_outcome_at`]. Hinting is on in a new font.
    pub fn from_index(data: &'s [u8], index: u32) -> (r: Result<Self, FontError>)
        ensures
            match parse_outcome_at(data@, index) {
                Err(e) => r == Err::<Self, FontError>(e),
                Ok(font) => {
                    &&& r matches Ok(d)
                    &&& d.wf()
                    &&& d.tables() == font
                    &&& d.hinted()
                },
            },
    {
        match parse_font_at(data, index) {
            Ok(tables) => Self::from_tables(tables),
            Err(e) => Err(FontError::Parse(e)),
        }
    }

    /// Reads family, attributes and outlines from parsed tables.
    fn from_tables(tables: FontRef<'s>) -> (r: Result<Self, FontError>)
        ensures
            match missing_table(tables) {
                Some(e) => r == Err::<Self, FontError>(FontError::Parse(e)),
                None => match family_of(tables) {
                    None => r == Err::<Self, FontError>(FontError::NoFamilyName),
                    Some(_) => {
                        &&& r matches Ok(d)
                        &&& d.wf()
                        &&& d.tables() == tables
                        &&& d.hinted()
                    },
                },
            },
    {
        match find_missing_table(&tables) {
            Some(e) => {
                return Err(FontError::Parse(e));
            },
            None => {},
        }
        let family = match font_name(&tables, NameId::Family) {
            Some(family) => family,
            None => match font_name(&tables, NameId::TypographicFamily) {
                Some(family) => family,
                None => {
                    return Err(FontError::NoFamilyName);
                },
            },
        };
        let attr = font_attributes(&tables);
        let glyph_outlines = font_outlines(&tables);
        Ok(Self { tables, attr, family, glyph_outlines, hinted: true })
    }

    /// The same font with grid fitting switched on or off.
    pub fn with_hinting(self, hinted: bool) -> (r: Self)
        ensures
            r.tables() == self.tables(),
            r.spec_family() == self.spec_family(),
            r.spec_attr() == self.spec_attr(),
            r.outlines() == self.outlines(),
            r.hinted() == hinted,
    {
        Self {
            tables: self.tables,
            attr: self.attr,
            family: self.family,
            glyph_outlines: self.glyph_outlines,
            hinted,
        }
    }

    /// Rasterizes one glyph at one size.
    pub fn render_glyph(&self, glyph: Glyph) -> (r: Result<RenderedGlyph, FontError>)
        requires
            self.wf(),
        ensures
            render_post(self.tables(), self.hinted(), glyph, r),
            r matches Ok(g) ==> g.wf() && bitmap_sized(self.tables(), self.hinted(), glyph, g),
    {
        let ch = glyph.character;
        let size = glyph.size_px;
        let id = match map_char(&self.tables, ch) {
            Some(id) => id,
            None => {
                return Err(FontError::NoMap(ch));
            },
        };
        let outline = match outline_glyph(&self.glyph_outlines, id) {
            Some(outline) => outline,
            None => {
                return Err(FontError::NoMap(ch));
            },
        };
        let metrics = glyph_metrics(&self.tables, size);
        let bounds = match glyph_bounds(&metrics, id) {
            Some(bounds) => bounds,
            None => {
                return Err(FontError::NoMap(ch));
            },
        };
        let advance = match glyph_advance(&metrics, id) {
            Some(advance) => advance,
            None => {
                return Err(FontError::NoMap(ch));
            },
        };
        let drawn = if self.hinted {
            let mode = Hinting::Smooth { lcd_subpixel: None, preserve_linear_metrics: false };
            match hinting_instance(&self.glyph_outlines, size, mode) {
                Ok(hints) => draw_outline(&outline, hinted_settings(&hints, false)),
                Err(e) => Err(e),
            }
        } else {
            draw_outline(&outline, unhinted_settings(size))
        };
        let segments = match drawn {
            Ok(segments) => segments,
            Err(e) => {
                return Err(FontError::Draw(e));
            },
        };
        let path = trace_outline(&segments);
        rasterize(size, advance, &bounds, path)
    }

    /// The font's family name.
    pub fn family(&self) -> (r: &str)
        ensures
            r@ == self.spec_family(),
    {
        self.family.as_str()
    }

    /// The font's stretch, style and weight.
    pub fn attributes(&self) -> (r: Attributes)
        ensures
            r == self.spec_attr(),
    {
        self.attr
    }
}

/// A glyph whose outline has no segment, such as a space, renders to a
/// glyph without a bitmap, with no offset and with the advance that the
/// font's metrics give; this is no failure.
pub proof fn lemma_blank_glyph(
    font: FontRef<'_>,
    hinted: bool,
    glyph: Glyph,
    r: Result<RenderedGlyph, FontError>,
)
    requires
        glyph_source(font, hinted, glyph) matches Ok(source) && source.segments.len() == 0,
        render_post(font, hinted, glyph, r),
    ensures
        r matches Ok(g) && g.pixmap is None && g.pos == (Offset { x: 0, y: 0 }) && Some(g.advance)
            == advance_of(
            metrics_of(font, glyph.size_px),
            glyph_of(font, glyph.character).unwrap(),
        ),
{
}

/// Rendering a glyph from a font gives one outcome, whenever it is done:
/// the same failure, or the same advance, offset and bitmap.
pub proof fn lemma_render_is_one(
    font: FontRef<'_>,
    hinted: bool,
    glyph: Glyph,
    first: Result<RenderedGlyph, FontError>,
    second: Result<RenderedGlyph, FontError>,
)
    requires
        render_post(font, hinted, glyph, first),
        render_post(font, hinted, glyph, second),
    ensures
        first == second,
{
}

/// A character that the font's character map lacks renders to `NoMap` with
/// that character.
pub proof fn lemma_unmapped_glyph(
    font: FontRef<'_>,
    hinted: bool,
    glyph: Glyph,
    r: Result<RenderedGlyph, FontError>,
)
    requires
        glyph_of(font, glyph.character) is None,
        render_post(font, hinted, glyph, r),
    ensures
        r == Err::<RenderedGlyph, FontError>(FontError::NoMap(glyph.character)),
{
}

} // verus!
