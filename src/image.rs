//! Layout of the square images that a simulation is drawn into.
//!
//! An image is `IMAGE_SIDE` rows of `IMAGE_SIDE` pixels, stored row after
//! row, each pixel as `channels` consecutive bytes (three for BGR, four for
//! RGBA).
use vstd::prelude::*;

verus! {

/// Pixels along each side of an image.
pub const IMAGE_SIDE: usize = 1000;

/// Largest number of bytes per pixel.
pub const MAX_CHANNELS: usize = 4;

/// Number of bytes of an image with `channels` bytes per pixel.
pub fn image_len(channels: usize) -> (n: usize)
    requires
        1 <= channels <= MAX_CHANNELS,
    ensures
        n == IMAGE_SIDE * IMAGE_SIDE * channels,
{
    IMAGE_SIDE * IMAGE_SIDE * channels
}

/// Offset of the first byte of the pixel at `row` and `column`.
pub fn pixel_offset(row: usize, column: usize, channels: usize) -> (offset: usize)
    requires
        row < IMAGE_SIDE,
        column < IMAGE_SIDE,
        1 <= channels <= MAX_CHANNELS,
    ensures
        offset == (row * IMAGE_SIDE + column) * channels,
        offset + channels <= IMAGE_SIDE * IMAGE_SIDE * channels,
{
    proof {
        assert((row * IMAGE_SIDE + column) * channels + channels <= IMAGE_SIDE * IMAGE_SIDE
            * channels) by (nonlinear_arith)
            requires
                row < IMAGE_SIDE,
                column < IMAGE_SIDE,
                1 <= channels <= MAX_CHANNELS,
                IMAGE_SIDE == 1000,
        ;
        assert(IMAGE_SIDE * IMAGE_SIDE * channels <= IMAGE_SIDE * IMAGE_SIDE * MAX_CHANNELS)
            by (nonlinear_arith)
            requires
                channels <= MAX_CHANNELS,
        ;
    }
    (row * IMAGE_SIDE + column) * channels
}

} // verus!
