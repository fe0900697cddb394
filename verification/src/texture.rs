//! The layout of RGBA pixel data copied into a texture: four bytes per pixel, rows
//! packed one after another.
use vstd::prelude::*;

verus! {

/// The bytes in one pixel.
pub const BYTES_PER_PIXEL: u32 = 4;

/// The bytes in one row of an image `width` pixels wide.
pub fn row_bytes(width: u32) -> (bytes: u32)
    requires
        width * 4 <= u32::MAX,
    ensures
        bytes == width * 4,
{
    width * BYTES_PER_PIXEL
}

/// The bytes in a whole image of `width` by `height` pixels.
pub fn frame_bytes(width: u32, height: u32) -> (bytes: usize)
    requires
        width * height * 4 <= u32::MAX,
    ensures
        bytes == width * height * 4,
{
    proof {
        assert(0 <= width * height <= width * height * 4) by (nonlinear_arith);
    }
    (width * height * BYTES_PER_PIXEL) as usize
}

} // verus!
