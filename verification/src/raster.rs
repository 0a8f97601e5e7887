//! The rasterizer's geometry, and the calls into `tiny-skia` that fill a path.

use vstd::prelude::*;
use skrifa::metrics::BoundingBox;
use skrifa::outline::pen::PathElement;
use tiny_skia::{
    Color, FillRule, NonZeroRect, Paint, Path, PathBuilder, Pixmap, Shader, Transform,
};
use crate::error::FontError;
use crate::glyph::{Offset, RenderedGlyph};

verus! {

#[verifier::external_type_specification]
#[verifier::external_body]
pub struct ExPixmap(Pixmap);

#[verifier::external_type_specification]
#[verifier::external_body]
pub struct ExPath(Path);

#[verifier::external_type_specification]
#[verifier::external_body]
pub struct ExPathBuilder(PathBuilder);

#[verifier::external_type_specification]
#[verifier::external_body]
pub struct ExNonZeroRect(NonZeroRect);

#[verifier::external_type_specification]
#[verifier::external_body]
pub struct ExTransform(Transform);

/// The colour that glyphs are filled in: opaque black, as red, green, blue
/// and opacity.
pub const INK: (u8, u8, u8, u8) = (0, 0, 0, 255);

/// The antialiasing margin of a glyph bitmap, in pixels, both edges of one
/// axis together.
pub const AA_PADDING: u32 = 4;

/// A rectangle cut to whole pixels, in the font's coordinates (y grows
/// upward): its left edge, its upper edge, and its extent. Each number is
/// the rectangle's own with the fraction dropped, so a rectangle less than
/// a pixel wide has width 0 here.
#[derive(Clone, Copy, Debug, PartialEq, Eq, Structural)]
pub struct PixelBox {
    pub x_min: i32,
    pub y_max: i32,
    pub width: u32,
    pub height: u32,
}

/// How a fill decides what is inside a path.
#[derive(Clone, Copy, Debug, PartialEq, Eq, Structural)]
pub enum Winding {
    NonZero,
    EvenOdd,
}

/// Width and height, in pixels, of a pixmap.
pub uninterp spec fn pixmap_dims(pixmap: Pixmap) -> (u32, u32);

/// The rectangle with the edges of a bounding box; `None` for a box that is
/// degenerate: whose width or height is not positive, or whose edges are no
/// finite numbers.
pub uninterp spec fn rect_of(bounds: BoundingBox) -> Option<NonZeroRect>;

/// A rectangle's left edge, lower edge (the upper one where y grows upward),
/// width and height, each cut to a whole number of pixels.
pub uninterp spec fn pixels_of(rect: NonZeroRect) -> PixelBox;

/// The builder after one more segment.
pub uninterp spec fn traced(builder: PathBuilder, segment: PathElement) -> PathBuilder;

/// The path that a builder holds; `None` where it holds no drawable path.
pub uninterp spec fn finished(builder: PathBuilder) -> Option<Path>;

/// The path of an outline: what a new builder holds after the segments were
/// traced into it, first to last.
pub uninterp spec fn outline_path(segments: Seq<PathElement>) -> Option<Path>;

/// The transparent pixmap of a size.
pub uninterp spec fn blank_pixmap(width: u32, height: u32) -> Pixmap;

/// The transform with the six entries: scale in x, skew in y, skew in x,
/// scale in y, shift in x, shift in y.
pub uninterp spec fn matrix_of(sx: i16, ky: i16, kx: i16, sy: i16, tx: i32, ty: i32) -> Transform;

/// The pixmap after a path, carried over by a transform, was filled into it
/// in one colour.
pub uninterp spec fn filled(
    pixmap: Pixmap,
    path: Path,
    rgba: (u8, u8, u8, u8),
    anti_alias: bool,
    rule: Winding,
    transform: Transform,
) -> Pixmap;

/// Whether a pixmap of this size can be had: neither side is zero, a row of
/// four-byte pixels fits in `i32`, and all rows together in `isize`, the
/// most that one allocation can hold.
pub open spec fn pixmap_fits(width: u32, height: u32) -> bool {
    &&& width > 0
    &&& height > 0
    &&& width * 4 <= i32::MAX
    &&& height * (width * 4) <= isize::MAX
}

/// Calls `NonZeroRect::from_ltrb` with the box's `x_min`, `y_min`, `x_max`,
/// `y_max`; there is a rectangle exactly where left is less than right and
/// top less than bottom, all four finite.
#[verifier::external_body]
pub(crate) fn bounds_rect(bounds: &BoundingBox) -> (r: Option<NonZeroRect>)
    ensures
        r == rect_of(*bounds),
{
    NonZeroRect::from_ltrb(bounds.x_min, bounds.y_min, bounds.x_max, bounds.y_max)
}

/// Calls `NonZeroRect::left`, `bottom`, `width` and `height`, and converts
/// each to an integer.
#[verifier::external_body]
pub(crate) fn rect_pixels(rect: &NonZeroRect) -> (r: PixelBox)
    ensures
        r == pixels_of(*rect),
{
    PixelBox {
        x_min: rect.left() as i32,
        y_max: rect.bottom() as i32,
        width: rect.width() as u32,
        height: rect.height() as u32,
    }
}

/// Calls `PathBuilder::new`. A builder that was given no segment holds no
/// path, and what a new builder holds after some segments depends on the
/// segments alone.
#[verifier::external_body]
pub(crate) fn new_builder() -> (r: PathBuilder)
    ensures
        finished(r) is None,
        forall|segments: Seq<PathElement>|
            finished(#[trigger] trace_all(r, segments)) == outline_path(segments),
{
    PathBuilder::new()
}

/// Calls the builder method that the segment stands for: `move_to`,
/// `line_to`, `quad_to`, `cubic_to` or `close`, with the segment's own
/// coordinates.
#[verifier::external_body]
pub(crate) fn trace_segment(builder: &mut PathBuilder, segment: &PathElement)
    ensures
        *final(builder) == traced(*old(builder), *segment),
{
    match *segment {
        PathElement::MoveTo { x, y } => builder.move_to(x, y),
        PathElement::LineTo { x, y } => builder.line_to(x, y),
        PathElement::QuadTo { cx0, cy0, x, y } => builder.quad_to(cx0, cy0, x, y),
        PathElement::CurveTo { cx0, cy0, cx1, cy1, x, y } => builder.cubic_to(
            cx0,
            cy0,
            cx1,
            cy1,
            x,
            y,
        ),
        PathElement::Close => builder.close(),
    }
}

/// Calls `PathBuilder::finish`.
#[verifier::external_body]
pub(crate) fn finish_builder(builder: PathBuilder) -> (r: Option<Path>)
    ensures
        r == finished(builder),
{
    builder.finish()
}

/// Calls `Pixmap::new`, which, for a size that can be had, allocates a
/// transparent pixmap of exactly that size.
#[verifier::external_body]
pub(crate) fn new_pixmap(width: u32, height: u32) -> (r: Option<Pixmap>)
    requires
        pixmap_fits(width, height),
    ensures
        r == Some(blank_pixmap(width, height)),
        r matches Some(p) ==> pixmap_dims(p) == (width, height),
{
    Pixmap::new(width, height)
}

/// Calls `Transform::from_row` with the six entries converted from integers:
/// scale in x, skew in y, skew in x, scale in y, shift in x, shift in y.
#[verifier::external_body]
pub(crate) fn matrix(sx: i16, ky: i16, kx: i16, sy: i16, tx: i32, ty: i32) -> (r: Transform)
    ensures
        r == matrix_of(sx, ky, kx, sy, tx, ty),
{
    Transform::from_row(sx.into(), ky.into(), kx.into(), sy.into(), tx as _, ty as _)
}

/// Calls `Pixmap::fill_path` with a solid colour and no mask. The fill
/// changes pixels, not the pixmap's size.
#[verifier::external_body]
pub(crate) fn fill_path(
    pixmap: &mut Pixmap,
    path: &Path,
    rgba: (u8, u8, u8, u8),
    anti_alias: bool,
    rule: Winding,
    transform: Transform,
)
    ensures
        *final(pixmap) == filled(*old(pixmap), *path, rgba, anti_alias, rule, transform),
        pixmap_dims(*final(pixmap)) == pixmap_dims(*old(pixmap)),
{
    let mut paint = Paint::default();
    paint.shader = Shader::SolidColor(Color::from_rgba8(rgba.0, rgba.1, rgba.2, rgba.3));
    paint.anti_alias = anti_alias;
    let rule = match rule {
        Winding::NonZero => FillRule::Winding,
        Winding::EvenOdd => FillRule::EvenOdd,
    };
    pixmap.fill_path(path, &paint, rule, transform, None);
}

/// Where a glyph's bitmap lies, and how its outline is carried into it.
#[derive(Clone, Copy, Debug, PartialEq, Eq, Structural)]
pub struct GlyphFrame {
    /// Width of the bitmap: the box's width and the margin.
    pub width: u32,
    /// Height of the bitmap: the box's height and the margin.
    pub height: u32,
    /// Offset from the pen to the bitmap's top-left corner.
    pub pos: Offset,
    /// Added to an outline's x to get the bitmap's column.
    pub shift_x: i32,
    /// An outline's y is taken from this to get the bitmap's row.
    pub shift_y: i32,
}

/// The frame of a glyph with pixel box `b` drawn at `size_px`:
/// the bitmap is the box widened by [`AA_PADDING`], half of it on each edge;
/// the pen offset is `(b.x_min, size_px - b.y_max)`, which lines glyphs up on
/// one baseline. There is none where a number leaves its range.
///
/// The box is in whole pixels, and so is the offset: it is the offset of the
/// glyph's own box with the fractions of `x_min` and `y_max` dropped. The
/// outline is carried into the bitmap by the same whole numbers (`shift_x`,
/// `shift_y`), so that bitmap and offset together put the ink where the
/// outline has it. What the dropped fractions move is only where in its
/// margin the ink lies: less than a pixel, inside the half margin of two. A
/// box less than a pixel wide or high has extent 0 here and a bitmap of the
/// margin alone.
pub open spec fn frame_of(size_px: u16, b: PixelBox) -> Option<GlyphFrame> {
    if b.width + AA_PADDING > u32::MAX || b.height + AA_PADDING > u32::MAX {
        None
    } else if size_px - b.y_max > i32::MAX || AA_PADDING / 2 - b.x_min > i32::MAX || b.y_max
        + AA_PADDING / 2 > i32::MAX {
        None
    } else {
        Some(
            GlyphFrame {
                width: (b.width + AA_PADDING) as u32,
                height: (b.height + AA_PADDING) as u32,
                pos: Offset { x: b.x_min, y: (size_px - b.y_max) as i32 },
                shift_x: (AA_PADDING / 2 - b.x_min) as i32,
                shift_y: (b.y_max + AA_PADDING / 2) as i32,
            },
        )
    }
}

/// Computes [`frame_of`].
pub fn glyph_frame(size_px: u16, b: PixelBox) -> (r: Option<GlyphFrame>)
    ensures
        r == frame_of(size_px, b),
{
    if b.width > u32::MAX - AA_PADDING || b.height > u32::MAX - AA_PADDING {
        return None;
    }
    let half: i64 = (AA_PADDING / 2) as i64;
    let pos_y: i64 = size_px as i64 - b.y_max as i64;
    let shift_x: i64 = half - b.x_min as i64;
    let shift_y: i64 = b.y_max as i64 + half;
    if pos_y > i32::MAX as i64 || shift_x > i32::MAX as i64 || shift_y > i32::MAX as i64 {
        return None;
    }
    Some(
        GlyphFrame {
            width: b.width + AA_PADDING,
            height: b.height + AA_PADDING,
            pos: Offset { x: b.x_min, y: pos_y as i32 },
            shift_x: shift_x as i32,
            shift_y: shift_y as i32,
        },
    )
}

/// Computes [`pixmap_fits`].
pub fn can_allocate(width: u32, height: u32) -> (r: bool)
    ensures
        r == pixmap_fits(width, height),
{
    if width == 0 || height == 0 || width > 0x1FFF_FFFF {
        return false;
    }
    let row: u64 = width as u64 * 4;
    assert(height * row <= 0xFFFF_FFFF * 0x7FFF_FFFC) by (nonlinear_arith)
        requires
            height <= 0xFFFF_FFFF,
            row <= 0x7FFF_FFFC,
    ;
    height as u64 * row <= isize::MAX as u64
}

/// The builder after all of `segments`, first to last.
pub open spec fn trace_all(builder: PathBuilder, segments: Seq<PathElement>) -> PathBuilder
    decreases segments.len(),
{
    if segments.len() == 0 {
        builder
    } else {
        traced(trace_all(builder, segments.drop_last()), segments.last())
    }
}

/// Walks an outline's segments in order (move, line, quadratic curve, cubic
/// curve, close) into `builder` and takes the path that results.
pub fn trace_path(builder: PathBuilder, segments: &Vec<PathElement>) -> (r: Option<Path>)
    ensures
        r == finished(trace_all(builder, segments@)),
{
    let mut builder = builder;
    let ghost start = builder;
    let mut i: usize = 0;
    while i < segments.len()
        invariant
            i <= segments.len(),
            builder == trace_all(start, segments@.take(i as int)),
        decreases segments.len() - i,
    {
        proof {
            assert(segments@.take(i + 1).drop_last() == segments@.take(i as int));
        }
        trace_segment(&mut builder, &segments[i]);
        i += 1;
    }
    proof {
        assert(segments@.take(i as int) == segments@);
    }
    finish_builder(builder)
}

/// The path of a glyph's outline: none for an outline without segments,
/// else what a new builder holds after the segments.
pub open spec fn glyph_path(segments: Seq<PathElement>) -> Option<Path> {
    if segments.len() == 0 {
        None
    } else {
        outline_path(segments)
    }
}

/// Traces an outline into a path of its own; see [`glyph_path`].
pub fn trace_outline(segments: &Vec<PathElement>) -> (r: Option<Path>)
    ensures
        r == glyph_path(segments@),
{
    if segments.len() == 0 {
        None
    } else {
        trace_path(new_builder(), segments)
    }
}

/// The frame of a glyph with bounding box `bounds` drawn at `size_px`: that
/// of the box cut to whole pixels ([`frame_of`]); none for a degenerate box.
pub open spec fn box_frame(size_px: u16, bounds: BoundingBox) -> Option<GlyphFrame> {
    match rect_of(bounds) {
        Some(rect) => frame_of(size_px, pixels_of(rect)),
        None => None,
    }
}

/// Whether a glyph's bitmap, where it has one, has the size of the frame of
/// `bounds`: the box's width and height in whole pixels, each with the
/// margin of [`AA_PADDING`].
pub open spec fn sized(size_px: u16, bounds: BoundingBox, glyph: RenderedGlyph) -> bool {
    glyph.pixmap matches Some(p) ==> (box_frame(size_px, bounds) matches Some(frame)
        && pixmap_dims(p) == (frame.width, frame.height))
}

/// A glyph's bitmap is as wide and as high as its box in whole pixels, and
/// the margin more.
pub proof fn lemma_bitmap_is_box_and_margin(
    size_px: u16,
    bounds: BoundingBox,
    glyph: RenderedGlyph,
    bitmap: Pixmap,
)
    requires
        sized(size_px, bounds, glyph),
        glyph.pixmap == Some(bitmap),
    ensures
        rect_of(bounds) matches Some(rect) && pixmap_dims(bitmap) == (
            (pixels_of(rect).width + AA_PADDING) as u32,
            (pixels_of(rect).height + AA_PADDING) as u32,
        ),
{
}

/// What rasterizing yields for a glyph whose advance, bounding box and
/// traced path are given.
///
/// Without a path there is no bitmap and no offset, which is no failure.
/// With one, the bounding box has to be no degenerate one, with a frame
/// ([`frame_of`]) whose bitmap can be allocated, else there is
/// `InvalidBounds`. The glyph's bitmap is then the transparent pixmap of the
/// frame's size with the path filled into it in opaque black, antialiased,
/// by the even-odd rule, flipped so that rows grow downward and moved by the
/// frame's shifts.
pub open spec fn rasterized(
    size_px: u16,
    advance: i16,
    bounds: BoundingBox,
    path: Option<Path>,
) -> Result<RenderedGlyph, FontError> {
    match path {
        None => Ok(RenderedGlyph { pixmap: None, pos: Offset { x: 0, y: 0 }, advance }),
        Some(path) => match box_frame(size_px, bounds) {
            None => Err(FontError::InvalidBounds),
            Some(frame) => {
                if pixmap_fits(frame.width, frame.height) {
                    Ok(
                        RenderedGlyph {
                            pixmap: Some(
                                filled(
                                    blank_pixmap(frame.width, frame.height),
                                    path,
                                    INK,
                                    true,
                                    Winding::EvenOdd,
                                    matrix_of(1, 0, 0, -1i16, frame.shift_x, frame.shift_y),
                                ),
                            ),
                            pos: frame.pos,
                            advance,
                        },
                    )
                } else {
                    Err(FontError::InvalidBounds)
                }
            },
        },
    }
}

/// Fills a traced path into a bitmap of its own; see [`rasterized`].
pub fn rasterize(size_px: u16, advance: i16, bounds: &BoundingBox, path: Option<Path>) -> (r:
    Result<RenderedGlyph, FontError>)
    ensures
        r == rasterized(size_px, advance, *bounds, path),
        r matches Ok(g) ==> g.wf() && sized(size_px, *bounds, g),
{
    let path = match path {
        Some(path) => path,
        None => {
            return Ok(RenderedGlyph { pixmap: None, pos: Offset { x: 0, y: 0 }, advance });
        },
    };
    let rect = match bounds_rect(bounds) {
        Some(rect) => rect,
        None => {
            return Err(FontError::InvalidBounds);
        },
    };
    let frame = match glyph_frame(size_px, rect_pixels(&rect)) {
        Some(frame) => frame,
        None => {
            return Err(FontError::InvalidBounds);
        },
    };
    if !can_allocate(frame.width, frame.height) {
        return Err(FontError::InvalidBounds);
    }
    let mut map = match new_pixmap(frame.width, frame.height) {
        Some(map) => map,
        None => {
            return Err(FontError::InvalidBounds);
        },
    };
    let flip = matrix(1, 0, 0, -1, frame.shift_x, frame.shift_y);
    fill_path(&mut map, &path, INK, true, Winding::EvenOdd, flip);
    Ok(RenderedGlyph { pixmap: Some(map), pos: frame.pos, advance })
}

} // verus!
