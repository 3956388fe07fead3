//! Componentwise negation.

use vstd::prelude::*;

use crate::values::{Bivector, EgaValue, Empty, Multivector, Pseudoscalar, Scalar, Trivector, Vector};

verus! {

/// Componentwise negation.
pub trait Neg: EgaValue {
    /// The kind of the result (always the kind itself).
    type Output: EgaValue;

    /// The negation.
    fn neg(self) -> (r: Self::Output)
        requires
            self.bounded(),
        ensures
            r.coeffs() == self.coeffs().negate(),
    ;
}

impl Neg for Multivector {
    type Output = Multivector;

    fn neg(self) -> Multivector {
        Multivector { e0: -self.e0, e1: -self.e1, e2: -self.e2, e3: -self.e3,
            s: -self.s, e23: -self.e23, e31: -self.e31, e12: -self.e12, e01: -self.e01,
            e02: -self.e02, e03: -self.e03, e0123: -self.e0123, e123: -self.e123,
            e032: -self.e032, e013: -self.e013, e021: -self.e021 }
    }
}

impl Neg for Scalar {
    type Output = Scalar;

    fn neg(self) -> Scalar {
        Scalar { s: -self.s }
    }
}

impl Neg for Vector {
    type Output = Vector;

    fn neg(self) -> Vector {
        Vector { e0: -self.e0, e1: -self.e1, e2: -self.e2, e3: -self.e3 }
    }
}

impl Neg for Bivector {
    type Output = Bivector;

    fn neg(self) -> Bivector {
        Bivector { e23: -self.e23, e31: -self.e31, e12: -self.e12, e01: -self.e01,
            e02: -self.e02, e03: -self.e03 }
    }
}

impl Neg for Trivector {
    type Output = Trivector;

    fn neg(self) -> Trivector {
        Trivector { e123: -self.e123, e032: -self.e032, e013: -self.e013,
            e021: -self.e021 }
    }
}

impl Neg for Pseudoscalar {
    type Output = Pseudoscalar;

    fn neg(self) -> Pseudoscalar {
        Pseudoscalar { e0123: -self.e0123 }
    }
}

impl Neg for Empty {
    type Output = Empty;

    fn neg(self) -> Empty {
        Empty
    }
}

} // verus!
