//! Ordering keys for the bit patterns of double-precision samples.
//!
//! A double is stored as a sign bit over a magnitude whose unsigned order is
//! the order of the absolute values. Applying the sign to the magnitude gives
//! an integer that orders non-NaN samples as the numbers they encode, with the
//! two zeros equal; NaN patterns fall beyond the infinity of their sign. Line
//! profiles and velocity grids are compared through these keys.
use vstd::prelude::*;

verus! {

/// The sign bit of a double's bit pattern.
pub const SIGN_BIT: u64 = 0x8000_0000_0000_0000;

/// The signed magnitude that a bit pattern encodes.
pub open spec fn signed_magnitude(bits: u64) -> int {
    if bits < SIGN_BIT {
        bits as int
    } else {
        -((bits - SIGN_BIT) as int)
    }
}

/// The ordering key of the double whose bit pattern is `bits`.
pub fn order_key(bits: u64) -> (r: i64)
    ensures
        r as int == signed_magnitude(bits),
{
    if bits < SIGN_BIT {
        bits as i64
    } else {
        let magnitude: u64 = bits - SIGN_BIT;
        -(magnitude as i64)
    }
}

/// Keys of a whole sequence of bit patterns, in order.
pub fn order_keys(bits: &Vec<u64>) -> (r: Vec<i64>)
    ensures
        r@.len() == bits@.len(),
        forall|i: int| 0 <= i < bits@.len() ==> r@[i] as int == signed_magnitude(#[trigger] bits@[i]),
{
    let mut keys: Vec<i64> = Vec::with_capacity(bits.len());
    let mut i: usize = 0;
    while i < bits.len()
        invariant
            i <= bits@.len(),
            keys@.len() == i,
            forall|j: int| 0 <= j < i ==> keys@[j] as int == signed_magnitude(#[trigger] bits@[j]),
        decreases bits@.len() - i,
    {
        keys.push(order_key(bits[i]));
        i += 1;
    }
    keys
}

} // verus!
