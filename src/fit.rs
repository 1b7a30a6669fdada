//! The samples that a parabola is fitted to, to find the centre of a line.
//!
//! The centre of a line profile is the vertex of a parabola fitted by least
//! squares to the few samples nearest its bottom. The window of samples is
//! centred on the bottom, and slides inwards where the bottom lies so near an
//! end of the profile that a centred window would not fit.
use vstd::prelude::*;

verus! {

/// Number of samples that the parabola is fitted to.
pub const FIT_POINTS: usize = 7;

/// Number of samples on each side of the bottom in a centred window.
pub const FIT_HALF_WIDTH: usize = 3;

/// First index of the window for a bottom at index `bottom` of `len` samples.
pub open spec fn window_start(bottom: int, len: int) -> int {
    if bottom < FIT_HALF_WIDTH {
        0
    } else if bottom - FIT_HALF_WIDTH + FIT_POINTS > len {
        len - FIT_POINTS
    } else {
        bottom - FIT_HALF_WIDTH
    }
}

/// First index of the `FIT_POINTS` samples nearest the bottom at `bottom`.
pub fn peak_window(bottom: usize, len: usize) -> (start: usize)
    requires
        bottom < len,
        FIT_POINTS <= len,
    ensures
        start == window_start(bottom as int, len as int),
        start + FIT_POINTS <= len,
        start <= bottom < start + FIT_POINTS,
{
    if bottom < FIT_HALF_WIDTH {
        0
    } else if bottom - FIT_HALF_WIDTH > len - FIT_POINTS {
        len - FIT_POINTS
    } else {
        bottom - FIT_HALF_WIDTH
    }
}

} // verus!
