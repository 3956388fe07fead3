//! The reverse: the order-reversal anti-automorphism.

use vstd::prelude::*;

use crate::values::{Bivector, EgaValue, Empty, Multivector, Pseudoscalar, Scalar, Trivector, Vector};

verus! {

/// The reverse: the order-reversal anti-automorphism.
///
/// Grade-`k` components change sign by `(-1)^(k(k-1)/2)`: grades 2 and 3
/// are negated, grades 0, 1 and 4 are unchanged.
pub trait Reverse: EgaValue {
    /// The reverse.
    fn reverse(self) -> (r: Self)
        requires
            self.bounded(),
        ensures
            r.coeffs() == self.coeffs().rev(),
    ;
}

impl Reverse for Multivector {
    fn reverse(self) -> Multivector {
        Multivector { e0: self.e0, e1: self.e1, e2: self.e2, e3: self.e3, s: self.s,
            e23: -self.e23, e31: -self.e31, e12: -self.e12, e01: -self.e01,
            e02: -self.e02, e03: -self.e03, e0123: self.e0123, e123: -self.e123,
            e032: -self.e032, e013: -self.e013, e021: -self.e021 }
    }
}

impl Reverse for Scalar {
    fn reverse(self) -> Scalar {
        self
    }
}

impl Reverse for Vector {
    fn reverse(self) -> Vector {
        self
    }
}

impl Reverse for Bivector {
    fn reverse(self) -> Bivector {
        Bivector { e23: -self.e23, e31: -self.e31, e12: -self.e12, e01: -self.e01,
            e02: -self.e02, e03: -self.e03 }
    }
}

impl Reverse for Trivector {
    fn reverse(self) -> Trivector {
        Trivector { e123: -self.e123, e032: -self.e032, e013: -self.e013,
            e021: -self.e021 }
    }
}

impl Reverse for Pseudoscalar {
    fn reverse(self) -> Pseudoscalar {
        self
    }
}

impl Reverse for Empty {
    fn reverse(self) -> Empty {
        Empty
    }
}

} // verus!
