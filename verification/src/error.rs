//! Failures of loading a font and of rendering a glyph.

use vstd::prelude::*;

verus! {

#[verifier::external_type_specification]
#[verifier::external_body]
pub struct ExIoError(std::io::Error);

#[verifier::external_type_specification]
#[verifier::external_body]
pub struct ExReadError(skrifa::raw::ReadError);

#[verifier::external_type_specification]
#[verifier::external_body]
pub struct ExDrawError(skrifa::outline::DrawError);

/// Why a font could not be loaded or a glyph could not be rendered.
#[derive(Debug)]
pub enum FontError {
    /// The font file could not be opened, mapped or read.
    IO(std::io::Error),
    /// The buffer is not a font, or one of its tables is malformed.
    Parse(skrifa::raw::ReadError),
    /// The glyph's outline could not be traced.
    Draw(skrifa::outline::DrawError),
    /// The font names no family.
    NoFamilyName,
    /// The font has no glyph for this character.
    NoMap(char),
    /// The glyph's bounding box is degenerate.
    InvalidBounds,
}

} // verus!
