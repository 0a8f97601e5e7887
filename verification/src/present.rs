//! Pixels as the window takes them.

use vstd::prelude::*;

verus! {

/// A colour channel scaled by the pixel's opacity: the product of the two,
/// without its low eight bits.
pub open spec fn scaled(channel: u8, alpha: u8) -> u32 {
    ((channel as u32 * alpha as u32) as u32) >> 8u32
}

/// Computes [`scaled`].
pub fn scale_channel(channel: u8, alpha: u8) -> (r: u32)
    ensures
        r == scaled(channel, alpha),
        r <= 254,
{
    assert(channel as u32 * alpha as u32 <= 65025) by (nonlinear_arith)
        requires
            channel <= 255,
            alpha <= 255,
    ;
    let product: u32 = channel as u32 * alpha as u32;
    assert(product >> 8u32 <= 254) by (bit_vector)
        requires
            product <= 65025,
    ;
    product >> 8u32
}

/// The pixel as one number for the window's buffer: red in bits 16 to 23,
/// green in bits 8 to 15, blue in bits 0 to 7, each scaled by the opacity.
pub open spec fn packed(red: u8, green: u8, blue: u8, alpha: u8) -> u32 {
    scaled(red, alpha) << 16u32 | scaled(green, alpha) << 8u32 | scaled(blue, alpha)
}

/// Computes [`packed`].
pub fn pack_pixel(red: u8, green: u8, blue: u8, alpha: u8) -> (r: u32)
    ensures
        r == packed(red, green, blue, alpha),
        r <= 0xFF_FFFF,
{
    let r = scale_channel(red, alpha);
    let g = scale_channel(green, alpha);
    let b = scale_channel(blue, alpha);
    assert((r << 16u32 | g << 8u32 | b) <= 0xFF_FFFF) by (bit_vector)
        requires
            r <= 254,
            g <= 254,
            b <= 254,
    ;
    r << 16u32 | g << 8u32 | b
}

} // verus!
