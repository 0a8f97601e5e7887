//! The font table reader: what a font's tables say, as read by `skrifa`.
//!
//! Every function here is a thin call into `skrifa`. Verus does not see the
//! table parser, so each result gets a name, a function of the call's
//! arguments alone, and the rest of the library states its contracts over
//! those names.

use vstd::prelude::*;
use skrifa::instance::{LocationRef, Size};
use skrifa::metrics::{BoundingBox, GlyphMetrics};
use skrifa::outline::pen::PathElement;
use skrifa::outline::{
    DrawError, DrawSettings, HintingInstance, HintingMode, LcdLayout, OutlineGlyph,
};
use skrifa::raw::{FileRef, ReadError, TableProvider};
use skrifa::string::StringId;
use skrifa::{FontRef, GlyphId, MetadataProvider, OutlineGlyphCollection};
use crate::attribute::{Attributes, Style};

verus! {

#[verifier::external_type_specification]
#[verifier::external_body]
pub struct ExFontRef<'a>(FontRef<'a>);

#[verifier::external_type_specification]
#[verifier::external_body]
pub struct ExGlyphId(GlyphId);

#[verifier::external_type_specification]
#[verifier::external_body]
pub struct ExOutlineGlyphCollection<'a>(OutlineGlyphCollection<'a>);

#[verifier::external_type_specification]
#[verifier::external_body]
pub struct ExOutlineGlyph<'a>(OutlineGlyph<'a>);

#[verifier::external_type_specification]
#[verifier::external_body]
#[verifier::reject_recursive_types(T)]
pub struct ExBoundingBox<T>(skrifa::raw::types::BoundingBox<T>);

#[verifier::external_type_specification]
#[verifier::external_body]
pub struct ExHintingInstance(HintingInstance);

#[verifier::external_type_specification]
#[verifier::external_body]
pub struct ExPathElement(PathElement);

#[verifier::external_type_specification]
#[verifier::external_body]
pub struct ExGlyphMetrics<'a>(GlyphMetrics<'a>);

#[verifier::external_type_specification]
#[verifier::external_body]
pub struct ExDrawSettings<'a>(DrawSettings<'a>);

/// Which entry of the name table to read.
#[derive(Clone, Copy, Debug, PartialEq, Eq, Structural)]
pub enum NameId {
    /// The family name (name identifier 1).
    Family,
    /// The typographic family name (name identifier 16).
    TypographicFamily,
}

/// How the pixels of a display lie that outlines are fitted for.
#[derive(Clone, Copy, Debug, PartialEq, Eq)]
pub enum Lcd {
    Horizontal,
    Vertical,
}

/// How outlines are fitted to the pixel grid.
#[derive(Clone, Copy, Debug, PartialEq, Eq)]
pub enum Hinting {
    /// Strong fitting, for bitmaps of one bit per pixel.
    Strong,
    /// Lighter fitting, for antialiased bitmaps.
    Smooth {
        /// The display's subpixels to fit for, if any.
        lcd_subpixel: Option<Lcd>,
        /// Whether advances are left as the metrics give them.
        preserve_linear_metrics: bool,
    },
}

/// Why the font's names, `name`, cannot be read; `None` where they can.
pub uninterp spec fn name_fault(font: FontRef<'_>) -> Option<ReadError>;

/// Why the font's horizontal metrics cannot be read: those of `HMTX` where
/// the font has that table, else those of `hmtx`, each with the header that
/// says how many there are; `None` where they can.
pub uninterp spec fn metrics_fault(font: FontRef<'_>) -> Option<ReadError>;

/// Why the font's TrueType outlines and their places cannot be read: `GLYF`
/// with `LOCA` where the font has `GLYF`, else `glyf` with `loca`; `None`
/// where they can.
pub uninterp spec fn truetype_fault(font: FontRef<'_>) -> Option<ReadError>;

/// Why the font's PostScript outlines, `CFF `, cannot be read; `None` where
/// they can.
pub uninterp spec fn cff_fault(font: FontRef<'_>) -> Option<ReadError>;

/// Why the PostScript outlines of a variable font, `CFF2`, cannot be read;
/// `None` where they can.
pub uninterp spec fn cff2_fault(font: FontRef<'_>) -> Option<ReadError>;

/// The font that `data` parses to, or why it is not a font.
pub uninterp spec fn parsed(data: Seq<u8>) -> Result<FontRef<'static>, ReadError>;

/// The font at place `index` of the file that `data` parses to: of a
/// collection, its font of that index; of a single font, the font itself at
/// index 0.
pub uninterp spec fn parsed_at(data: Seq<u8>, index: u32) -> Result<FontRef<'static>, ReadError>;

/// The number of fonts in the file that `data` parses to: those of a
/// collection, or one.
pub uninterp spec fn count_of(data: Seq<u8>) -> Result<usize, ReadError>;

/// The string that the font's name table holds under `id`: the English one
/// if there is one, else the first; `None` if it holds none.
pub uninterp spec fn name_of(font: FontRef<'_>, id: NameId) -> Option<Seq<char>>;

/// Stretch, style and weight of the font's default instance.
pub uninterp spec fn attributes_of(font: FontRef<'_>) -> Attributes;

/// The font's collection of scalable outlines.
pub uninterp spec fn outlines_of(font: FontRef<'_>) -> OutlineGlyphCollection<'static>;

/// The glyph that the font's character map gives for `ch`.
pub uninterp spec fn glyph_of(font: FontRef<'_>, ch: char) -> Option<GlyphId>;

/// The outline stored for glyph `id`.
pub uninterp spec fn outline_of(outlines: OutlineGlyphCollection<'_>, id: GlyphId) -> Option<
    OutlineGlyph<'static>,
>;

/// The font's glyph metrics scaled to `size_px` pixels per em, at the
/// default location in variation space.
pub uninterp spec fn metrics_of(font: FontRef<'_>, size_px: u16) -> GlyphMetrics<'static>;

/// The bounding box of glyph `id`.
pub uninterp spec fn bounds_of(metrics: GlyphMetrics<'_>, id: GlyphId) -> Option<BoundingBox>;

/// The advance width of glyph `id`, in whole pixels.
pub uninterp spec fn advance_of(metrics: GlyphMetrics<'_>, id: GlyphId) -> Option<i16>;

/// The hinting state of the outlines at `size_px` pixels per em, for one way
/// of fitting.
pub uninterp spec fn hinting_of(
    outlines: OutlineGlyphCollection<'_>,
    size_px: u16,
    mode: Hinting,
) -> Result<HintingInstance, DrawError>;

/// The settings for drawing an outline grid fitted with `hints`; where
/// `pedantic`, any error of the fitting makes the draw fail.
pub uninterp spec fn hinted_draw(hints: HintingInstance, pedantic: bool) -> DrawSettings<'static>;

/// The settings for drawing an outline scaled to `size_px` pixels per em and
/// not grid fitted.
pub uninterp spec fn unhinted_draw(size_px: u16) -> DrawSettings<'static>;

/// The segments that drawing the outline with the settings emits.
pub uninterp spec fn segments_drawn(outline: OutlineGlyph<'_>, settings: DrawSettings<'_>) -> Result<
    Seq<PathElement>,
    DrawError,
>;

/// Calls `FontRef::new`: reads the table directory of a single font. The
/// result depends on the bytes alone.
#[verifier::external_body]
pub(crate) fn parse_font<'s>(data: &'s [u8]) -> (r: Result<FontRef<'s>, ReadError>)
    ensures
        r == parsed(data@),
{
    FontRef::new(data)
}

/// Calls `FontRef::from_index`: reads the table directory of one font of a
/// collection, or of a single font where the index is 0.
#[verifier::external_body]
pub(crate) fn parse_font_at<'s>(data: &'s [u8], index: u32) -> (r: Result<FontRef<'s>, ReadError>)
    ensures
        r == parsed_at(data@, index),
{
    FontRef::from_index(data, index)
}

/// Calls `FileRef::new` and counts `FileRef::fonts`.
#[verifier::external_body]
pub(crate) fn count_fonts(data: &[u8]) -> (r: Result<usize, ReadError>)
    ensures
        r == count_of(data@),
{
    FileRef::new(data).map(|file| file.fonts().count())
}

/// Calls `TableProvider::name` and keeps the failure, if there is one.
#[verifier::external_body]
pub(crate) fn read_name(font: &FontRef) -> (r: Option<ReadError>)
    ensures
        r == name_fault(*font),
{
    font.name().err()
}

/// Calls `TableProvider::h_glyph_metric_records`, the reader of horizontal
/// metrics that the glyph metrics themselves draw from, and keeps the
/// failure, if there is one.
#[verifier::external_body]
pub(crate) fn read_metrics(font: &FontRef) -> (r: Option<ReadError>)
    ensures
        r == metrics_fault(*font),
{
    font.h_glyph_metric_records().err()
}

/// Calls `TableProvider::selected_glyf_loca`, the reader of TrueType outlines
/// that the outlines themselves draw from, with the format that the font's
/// header gives, and keeps the failure, if there is one.
#[verifier::external_body]
pub(crate) fn read_truetype(font: &FontRef) -> (r: Option<ReadError>)
    ensures
        r == truetype_fault(*font),
{
    font.selected_glyf_loca(None).err()
}

/// Calls `TableProvider::cff` and keeps the failure, if there is one.
#[verifier::external_body]
pub(crate) fn read_cff(font: &FontRef) -> (r: Option<ReadError>)
    ensures
        r == cff_fault(*font),
{
    font.cff().err()
}

/// Calls `TableProvider::cff2` and keeps the failure, if there is one.
#[verifier::external_body]
pub(crate) fn read_cff2(font: &FontRef) -> (r: Option<ReadError>)
    ensures
        r == cff2_fault(*font),
{
    font.cff2().err()
}

/// Calls `MetadataProvider::localized_strings` and
/// `LocalizedStrings::english_or_first`, and collects the characters of the
/// string found.
#[verifier::external_body]
pub(crate) fn font_name(font: &FontRef, id: NameId) -> (r: Option<String>)
    ensures
        match name_of(*font, id) {
            Some(name) => r is Some && r.unwrap()@ == name,
            None => r is None,
        },
{
    let id = match id {
        NameId::Family => StringId::FAMILY_NAME,
        NameId::TypographicFamily => StringId::TYPOGRAPHIC_FAMILY_NAME,
    };
    font.localized_strings(id).english_or_first().map(|name| name.chars().collect())
}

/// Calls `MetadataProvider::attributes` and takes the three attributes apart
/// into bit patterns.
#[verifier::external_body]
pub(crate) fn font_attributes(font: &FontRef) -> (r: Attributes)
    ensures
        r == attributes_of(*font),
{
    let attr = font.attributes();
    Attributes {
        stretch: attr.stretch.ratio().to_bits(),
        style: match attr.style {
            skrifa::attribute::Style::Normal => Style::Normal,
            skrifa::attribute::Style::Italic => Style::Italic,
            skrifa::attribute::Style::Oblique(angle) => Style::Oblique(angle.map(|a| a.to_bits())),
        },
        weight: attr.weight.value().to_bits(),
    }
}

/// Calls `MetadataProvider::outline_glyphs`.
#[verifier::external_body]
pub(crate) fn font_outlines<'s>(font: &FontRef<'s>) -> (r: OutlineGlyphCollection<'s>)
    ensures
        r == outlines_of(*font),
{
    font.outline_glyphs()
}

/// Calls `MetadataProvider::charmap` and `Charmap::map`.
#[verifier::external_body]
pub(crate) fn map_char(font: &FontRef, ch: char) -> (r: Option<GlyphId>)
    ensures
        r == glyph_of(*font, ch),
{
    font.charmap().map(ch)
}

/// Calls `OutlineGlyphCollection::get`.
#[verifier::external_body]
pub(crate) fn outline_glyph<'s>(outlines: &OutlineGlyphCollection<'s>, id: GlyphId) -> (r: Option<
    OutlineGlyph<'s>,
>)
    ensures
        r == outline_of(*outlines, id),
{
    outlines.get(id)
}

/// Calls `MetadataProvider::glyph_metrics` at the default location in
/// variation space.
#[verifier::external_body]
pub(crate) fn glyph_metrics<'s>(font: &FontRef<'s>, size_px: u16) -> (r: GlyphMetrics<'s>)
    ensures
        r == metrics_of(*font, size_px),
{
    font.glyph_metrics(Size::new(size_px.into()), LocationRef::default())
}

/// Calls `GlyphMetrics::bounds`.
#[verifier::external_body]
pub(crate) fn glyph_bounds(metrics: &GlyphMetrics, id: GlyphId) -> (r: Option<BoundingBox>)
    ensures
        r == bounds_of(*metrics, id),
{
    metrics.bounds(id)
}

/// Calls `GlyphMetrics::advance_width`, and converts the width to whole
/// pixels.
#[verifier::external_body]
pub(crate) fn glyph_advance(metrics: &GlyphMetrics, id: GlyphId) -> (r: Option<i16>)
    ensures
        r == advance_of(*metrics, id),
{
    metrics.advance_width(id).map(|advance| advance as i16)
}

/// Calls `HintingInstance::new` at the default location in variation
/// space, with the hinting mode that `mode` stands for.
#[verifier::external_body]
pub(crate) fn hinting_instance(outlines: &OutlineGlyphCollection, size_px: u16, mode: Hinting) -> (r:
    Result<HintingInstance, DrawError>)
    ensures
        r == hinting_of(*outlines, size_px, mode),
{
    let mode = match mode {
        Hinting::Strong => HintingMode::Strong,
        Hinting::Smooth { lcd_subpixel: None, preserve_linear_metrics } => {
            HintingMode::Smooth { lcd_subpixel: None, preserve_linear_metrics }
        },
        Hinting::Smooth { lcd_subpixel: Some(Lcd::Horizontal), preserve_linear_metrics } => {
            HintingMode::Smooth { lcd_subpixel: Some(LcdLayout::Horizontal), preserve_linear_metrics }
        },
        Hinting::Smooth { lcd_subpixel: Some(Lcd::Vertical), preserve_linear_metrics } => {
            HintingMode::Smooth { lcd_subpixel: Some(LcdLayout::Vertical), preserve_linear_metrics }
        },
    };
    HintingInstance::new(outlines, Size::new(size_px.into()), LocationRef::default(), mode)
}

/// Calls `DrawSettings::hinted`.
#[verifier::external_body]
pub(crate) fn hinted_settings<'a>(hints: &'a HintingInstance, pedantic: bool) -> (r: DrawSettings<
    'a,
>)
    ensures
        r == hinted_draw(*hints, pedantic),
{
    DrawSettings::hinted(hints, pedantic)
}

/// Calls `DrawSettings::unhinted` at the default location.
#[verifier::external_body]
pub(crate) fn unhinted_settings(size_px: u16) -> (r: DrawSettings<'static>)
    ensures
        r == unhinted_draw(size_px),
{
    DrawSettings::unhinted(Size::new(size_px.into()), LocationRef::default())
}

/// Calls `OutlineGlyph::draw` with a vector of path elements as the pen, and
/// hands the vector out where the draw succeeds.
#[verifier::external_body]
pub(crate) fn draw_outline(outline: &OutlineGlyph, settings: DrawSettings) -> (r: Result<
    Vec<PathElement>,
    DrawError,
>)
    ensures
        match segments_drawn(*outline, settings) {
            Ok(segments) => r is Ok && r.unwrap()@ == segments,
            Err(e) => r == Err::<Vec<PathElement>, DrawError>(e),
        },
{
    let mut pen: Vec<PathElement> = Vec::new();
    outline.draw(settings, &mut pen).map(|_| pen)
}

} // verus!
