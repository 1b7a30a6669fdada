//! Which sample each point of a Doppler-shifted profile takes.
//!
//! A profile sampled on an evenly spaced velocity grid is shifted by a
//! velocity that splits into a whole number of grid steps (the quotient) and a
//! remainder smaller than a step. The whole steps move the samples: output
//! point `i` takes input sample `i - quotient`. The remainder is then applied
//! to each moved sample by linear interpolation along the profile's slope.
//!
//! Points that no input sample reaches are filled by duplicating the
//! boundary sample on their side, the first sample where the profile moved
//! towards higher indices and the last one where it moved towards lower
//! indices. A duplicated boundary sample is taken as it is, with no
//! interpolation.
//!
//! A profile is paired with its velocity grid, sample for sample. The grid has
//! at least two points and runs strictly one way; its points are compared
//! through their ordering keys (see `order`).
use vstd::prelude::*;

verus! {

/// The source of one point of a shifted profile.
#[derive(Clone, Copy, Debug, PartialEq, Eq, Structural)]
pub enum ShiftSource {
    /// The input sample at this index, corrected by the remainder of the shift.
    Sample(usize),
    /// The boundary sample at this index, duplicated unchanged.
    Edge(usize),
}

/// Where point `i` of a profile of `len` samples shifted by `quotient` whole
/// steps comes from.
pub open spec fn source_of(i: int, quotient: int, len: int) -> ShiftSource {
    let j = i - quotient;
    if j < 0 {
        ShiftSource::Edge(0)
    } else if j < len {
        ShiftSource::Sample(j as usize)
    } else {
        ShiftSource::Edge((len - 1) as usize)
    }
}

/// Where point `i` of a profile of `len` samples shifted by `quotient` whole
/// grid steps comes from.
pub fn shift_source(i: usize, quotient: i64, len: usize) -> (r: ShiftSource)
    requires
        i < len,
    ensures
        r == source_of(i as int, quotient as int, len as int),
{
    let j: i128 = i as i128 - quotient as i128;
    if j < 0 {
        ShiftSource::Edge(0)
    } else if j < len as i128 {
        ShiftSource::Sample(j as usize)
    } else {
        ShiftSource::Edge(len - 1)
    }
}

/// The sources of every point of a profile of `len` samples shifted by
/// `quotient` whole grid steps: one per point, so that the shifted profile is
/// as long as the profile.
pub fn shift_plan(quotient: i64, len: usize) -> (plan: Vec<ShiftSource>)
    ensures
        plan@.len() == len,
        forall|i: int| 0 <= i < len ==> #[trigger] plan@[i] == source_of(i, quotient as int, len as int),
{
    let mut plan: Vec<ShiftSource> = Vec::with_capacity(len);
    let mut i: usize = 0;
    while i < len
        invariant
            i <= len,
            plan@.len() == i,
            forall|k: int| 0 <= k < i ==> #[trigger] plan@[k] == source_of(k, quotient as int, len as int),
        decreases len - i,
    {
        plan.push(shift_source(i, quotient, len));
        i += 1;
    }
    plan
}

/// A shift by no whole step takes every point of the profile from its own
/// input sample, with nothing duplicated.
pub proof fn zero_shift_keeps_every_sample(len: int)
    requires
        0 <= len,
    ensures
        forall|i: int| 0 <= i < len ==> #[trigger] source_of(i, 0, len) == ShiftSource::Sample(
            i as usize,
        ),
{
}

/// Why a velocity grid cannot carry a profile.
#[derive(Clone, Copy, Debug, PartialEq, Eq, Structural)]
pub enum GridError {
    /// The grid and the profile differ in length.
    LengthMismatch,
    /// The grid has fewer than two points, so it has no step.
    TooShort,
    /// The grid does not run strictly one way.
    NotMonotonic,
}

/// Each key is below the next.
pub open spec fn rising(keys: Seq<i64>) -> bool {
    forall|i: int| 0 <= i < keys.len() - 1 ==> #[trigger] keys[i] < keys[i + 1]
}

/// Each key is above the next.
pub open spec fn falling(keys: Seq<i64>) -> bool {
    forall|i: int| 0 <= i < keys.len() - 1 ==> #[trigger] keys[i] > keys[i + 1]
}

/// Whether a grid with keys `grid` can carry a profile of `profile_len` samples.
pub open spec fn grid_check(grid: Seq<i64>, profile_len: int) -> Result<(), GridError> {
    if grid.len() != profile_len {
        Err(GridError::LengthMismatch)
    } else if grid.len() < 2 {
        Err(GridError::TooShort)
    } else if rising(grid) || falling(grid) {
        Ok(())
    } else {
        Err(GridError::NotMonotonic)
    }
}

/// Checks that a velocity grid with keys `grid` can carry a profile of
/// `profile_len` samples.
pub fn check_grid(grid: &Vec<i64>, profile_len: usize) -> (r: Result<(), GridError>)
    ensures
        r == grid_check(grid@, profile_len as int),
{
    if grid.len() != profile_len {
        return Err(GridError::LengthMismatch);
    }
    if grid.len() < 2 {
        return Err(GridError::TooShort);
    }
    let mut up = true;
    let mut down = true;
    let mut i: usize = 0;
    while i < grid.len() - 1
        invariant
            grid@.len() >= 2,
            i <= grid@.len() - 1,
            up == (forall|k: int| 0 <= k < i ==> #[trigger] grid@[k] < grid@[k + 1]),
            down == (forall|k: int| 0 <= k < i ==> #[trigger] grid@[k] > grid@[k + 1]),
        decreases grid@.len() - 1 - i,
    {
        up = up && grid[i] < grid[i + 1];
        down = down && grid[i] > grid[i + 1];
        i += 1;
    }
    if up || down {
        Ok(())
    } else {
        Err(GridError::NotMonotonic)
    }
}

} // verus!
