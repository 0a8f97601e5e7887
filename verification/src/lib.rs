//! A font resource cache with glyph-render memoization.
//!
//! Fonts are parsed once from byte buffers that a [`store::FontStorage`] keeps
//! alive, registered in a [`font::Fonts`] registry that never holds the same
//! (family, attributes) pair twice, and rasterized glyph by glyph on demand,
//! each (character, size) at most once per font.
//!
//! The tables of a font are read by `skrifa` ([`tables`]) and outlines are
//! filled by `tiny-skia` ([`raster`]); what these two compute is named there
//! and taken on trust, and everything that the library decides around them
//! is proved against those names.

pub mod atom;
pub mod attribute;
pub mod context;
pub mod data;
pub mod editor;
pub mod error;
pub mod family;
pub mod font;
pub mod glyph;
pub mod index;
pub mod present;
pub mod raster;
pub mod slots;
pub mod store;
pub mod tables;
