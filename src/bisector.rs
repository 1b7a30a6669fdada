//! The discrete skeleton of a line bisector.
//!
//! A line profile is a dip. Its bisector is traced between two wings that
//! climb away from the bottom of the dip: the right wing towards higher
//! indices, the left wing towards lower ones. Both wings start at the bottom
//! sample, so that each holds the deepest point of the line. A wing holds each
//! sample that its next sample does not lie below, and stops before the first
//! one whose next sample lies below it, or before the end of the profile.
//! Along a wing the depth is sorted, so that the velocity at a given depth is
//! found by a binary search for the pair of samples that bracket it.
//!
//! Samples are compared through their ordering keys (see `order`).
use vstd::prelude::*;

verus! {

/// `m` is the first index at which `keys` takes its smallest value.
pub open spec fn is_first_min(keys: Seq<i64>, m: int) -> bool {
    &&& 0 <= m < keys.len()
    &&& forall|j: int| 0 <= j < keys.len() ==> keys[m] <= #[trigger] keys[j]
    &&& forall|j: int| 0 <= j < m ==> keys[m] < #[trigger] keys[j]
}

/// The `n` samples from `start` upwards each have a next sample that is not below them.
pub open spec fn climbs_right(keys: Seq<i64>, start: int, n: int) -> bool {
    forall|i: int| start <= i < start + n ==> #[trigger] keys[i] <= keys[i + 1]
}

/// The `n` samples from `start` downwards each have a previous sample that is not below them.
pub open spec fn climbs_left(keys: Seq<i64>, start: int, n: int) -> bool {
    forall|i: int| start - n < i <= start ==> #[trigger] keys[i] <= keys[i - 1]
}

/// `n` is the number of samples of the right wing that starts at `start`.
pub open spec fn is_right_wing(keys: Seq<i64>, start: int, n: int) -> bool {
    &&& 0 <= n
    &&& start + n < keys.len()
    &&& climbs_right(keys, start, n)
    &&& (start + n + 1 == keys.len() || keys[start + n] > keys[start + n + 1])
}

/// `n` is the number of samples of the left wing that starts at `start`.
pub open spec fn is_left_wing(keys: Seq<i64>, start: int, n: int) -> bool {
    &&& 0 <= n <= start
    &&& climbs_left(keys, start, n)
    &&& (n == start || keys[start - n] > keys[start - n - 1])
}

/// Where the two wings of a line profile lie.
#[derive(Clone, Copy, Debug, PartialEq, Eq, Structural)]
pub struct Wings {
    /// Index of the bottom of the line: the first smallest sample.
    pub bottom: usize,
    /// Number of samples of the left wing: `bottom`, `bottom - 1`, and so on.
    pub left: usize,
    /// Number of samples of the right wing: `bottom`, `bottom + 1`, and so on.
    pub right: usize,
}

/// Index of the first smallest key.
pub fn min_index(keys: &Vec<i64>) -> (m: usize)
    requires
        keys@.len() > 0,
    ensures
        is_first_min(keys@, m as int),
{
    let mut m: usize = 0;
    let mut i: usize = 1;
    while i < keys.len()
        invariant
            1 <= i <= keys@.len(),
            m < i,
            forall|j: int| 0 <= j < i ==> keys@[m as int] <= #[trigger] keys@[j],
            forall|j: int| 0 <= j < m ==> keys@[m as int] < #[trigger] keys@[j],
        decreases keys@.len() - i,
    {
        if keys[i] < keys[m] {
            m = i;
        }
        i += 1;
    }
    m
}

/// Length of the right wing that starts at `start`.
pub fn right_wing_len(keys: &Vec<i64>, start: usize) -> (n: usize)
    requires
        start < keys@.len(),
    ensures
        is_right_wing(keys@, start as int, n as int),
{
    let last = keys.len() - 1;
    let mut n: usize = 0;
    while n < last - start && keys[start + n] <= keys[start + n + 1]
        invariant
            last == keys@.len() - 1,
            start + n < keys@.len(),
            climbs_right(keys@, start as int, n as int),
        decreases keys@.len() - start - n,
    {
        n += 1;
    }
    n
}

/// Length of the left wing that starts at `start`.
pub fn left_wing_len(keys: &Vec<i64>, start: usize) -> (n: usize)
    requires
        start < keys@.len(),
    ensures
        is_left_wing(keys@, start as int, n as int),
{
    let mut n: usize = 0;
    while n < start && keys[start - n] <= keys[start - n - 1]
        invariant
            n <= start,
            start < keys@.len(),
            climbs_left(keys@, start as int, n as int),
        decreases start - n,
    {
        n += 1;
    }
    n
}

/// The bottom of a line profile and the two wings that climb from it.
pub fn find_wings(keys: &Vec<i64>) -> (w: Wings)
    requires
        keys@.len() > 0,
    ensures
        is_first_min(keys@, w.bottom as int),
        is_left_wing(keys@, w.bottom as int, w.left as int),
        is_right_wing(keys@, w.bottom as int, w.right as int),
{
    let bottom = min_index(keys);
    let left = left_wing_len(keys, bottom);
    let right = right_wing_len(keys, bottom);
    Wings { bottom, left, right }
}

/// `keys` never decreases.
pub open spec fn sorted(keys: Seq<i64>) -> bool {
    forall|i: int, j: int| 0 <= i <= j < keys.len() ==> #[trigger] keys[i] <= #[trigger] keys[j]
}

/// Number of keys that lie below `key`.
pub open spec fn count_below(keys: Seq<i64>, key: i64) -> nat
    decreases keys.len(),
{
    if keys.len() == 0 {
        0
    } else {
        count_below(keys.drop_last(), key) + if keys.last() < key {
            1nat
        } else {
            0nat
        }
    }
}

/// In sorted keys, the keys below `key` are exactly those before index `p`.
pub open spec fn splits_at(keys: Seq<i64>, key: i64, p: int) -> bool {
    &&& 0 <= p <= keys.len()
    &&& forall|i: int| 0 <= i < p ==> #[trigger] keys[i] < key
    &&& forall|i: int| p <= i < keys.len() ==> key <= #[trigger] keys[i]
}

proof fn lemma_split_is_count(keys: Seq<i64>, key: i64, p: int)
    requires
        splits_at(keys, key, p),
    ensures
        p == count_below(keys, key),
    decreases keys.len(),
{
    if keys.len() > 0 {
        let rest = keys.drop_last();
        if p == keys.len() {
            lemma_split_is_count(rest, key, p - 1);
        } else {
            lemma_split_is_count(rest, key, p);
        }
    }
}

/// Where `key` falls among sorted keys: `Ok(p)` where the key at `p` equals
/// it, `Err(p)` where it falls between the keys before `p` and those from `p`
/// on. `p` is the number of keys below `key`.
pub fn locate(keys: &Vec<i64>, key: i64) -> (r: Result<usize, usize>)
    requires
        sorted(keys@),
    ensures
        match r {
            Ok(p) => {
                &&& p == count_below(keys@, key)
                &&& splits_at(keys@, key, p as int)
                &&& p < keys@.len() && keys@[p as int] == key
            },
            Err(p) => {
                &&& p == count_below(keys@, key)
                &&& splits_at(keys@, key, p as int)
                &&& (p == keys@.len() || keys@[p as int] != key)
            },
        },
{
    let mut lo: usize = 0;
    let mut hi: usize = keys.len();
    while lo < hi
        invariant
            sorted(keys@),
            0 <= lo <= hi <= keys@.len(),
            forall|i: int| 0 <= i < lo ==> #[trigger] keys@[i] < key,
            forall|i: int| hi <= i < keys@.len() ==> key <= #[trigger] keys@[i],
        decreases hi - lo,
    {
        let mid = lo + (hi - lo) / 2;
        if keys[mid] < key {
            assert forall|i: int| 0 <= i <= mid implies #[trigger] keys@[i] < key by {
                assert(keys@[i] <= keys@[mid as int]);
            }
            lo = mid + 1;
        } else {
            assert forall|i: int| mid <= i < keys@.len() implies key <= #[trigger] keys@[i] by {
                assert(keys@[mid as int] <= keys@[i]);
            }
            hi = mid;
        }
    }
    proof {
        lemma_split_is_count(keys@, key, lo as int);
    }
    if lo < keys.len() && keys[lo] == key {
        Ok(lo)
    } else {
        Err(lo)
    }
}

} // verus!
