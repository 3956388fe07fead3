//! The dual maps on the full multivector.

use vstd::prelude::*;

use crate::values::{EgaValue, Multivector};

verus! {

/// The dual maps: index permutation onto complement blades, with or
/// without the Hodge sign.
pub trait Dual: EgaValue {
    /// The Poincare dual: complement blades, no sign change.
    fn poincare_dual(&self) -> (r: Self)
        requires
            self.bounded(),
        ensures
            r.coeffs() == self.coeffs().complement(),
    ;

    /// The Hodge dual relative to the pseudoscalar `e0123`.
    fn dual(&self) -> (r: Self)
        requires
            self.bounded(),
        ensures
            r.coeffs() == self.coeffs().hodge(),
    ;
}

impl Dual for Multivector {
    fn poincare_dual(&self) -> Multivector {
        Multivector { e0: self.e123, e1: self.e032, e2: self.e013, e3: self.e021,
            s: self.e0123, e23: self.e01, e31: self.e02, e12: self.e03, e01: self.e23,
            e02: self.e31, e03: self.e12, e0123: self.s, e123: self.e0, e032: self.e1,
            e013: self.e2, e021: self.e3 }
    }

    fn dual(&self) -> Multivector {
        Multivector { e0: -self.e123, e1: -self.e032, e2: -self.e013, e3: -self.e021,
            s: self.e0123, e23: self.e01, e31: self.e02, e12: self.e03, e01: self.e23,
            e02: self.e31, e03: self.e12, e0123: self.s, e123: self.e0, e032: self.e1,
            e013: self.e2, e021: self.e3 }
    }
}

} // verus!
