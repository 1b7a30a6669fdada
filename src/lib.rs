//! Starspot photometry and radial-velocity modelling: the discrete core.
//!
//! The floating-point numerics of the simulation (limb-darkening integrals,
//! sphere geometry, Doppler shifting of line profiles) run around this crate;
//! the decisions they depend on (which sample a shifted profile takes, where a
//! line profile bottoms out, which colour a temperature gets, how the random
//! generator is seeded) are made and proved here.
use vstd::prelude::*;

pub mod bisector;
pub mod fit;
pub mod image;
pub mod order;
pub mod palette;
pub mod seed;
pub mod shift;

verus! {

/// Absolute value of a signed quantity.
pub trait Abs: Sized {
    /// The quantity as a mathematical integer.
    spec fn value_of(&self) -> int;

    /// Whether the magnitude of the quantity is representable in its own type.
    spec fn abs_fits(&self) -> bool;

    /// The magnitude of the quantity.
    fn abs(self) -> (r: Self)
        requires
            self.abs_fits(),
        ensures
            r.value_of() == if self.value_of() < 0 {
                -self.value_of()
            } else {
                self.value_of()
            },
    ;
}

impl Abs for i64 {
    open spec fn value_of(&self) -> int {
        *self as int
    }

    open spec fn abs_fits(&self) -> bool {
        *self != i64::MIN
    }

    fn abs(self) -> (r: i64) {
        if self < 0 {
            -self
        } else {
            self
        }
    }
}

} // verus!
