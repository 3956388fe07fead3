//! The Hodge dual and its inverse.

use vstd::prelude::*;

use crate::values::{Bivector, EgaValue, Empty, Multivector, Pseudoscalar, Scalar, Trivector, Vector};

verus! {

/// The Hodge dual relative to the pseudoscalar `e0123`.
///
/// Each blade moves to its complement blade, signed so that
/// `blade.meet(blade.hodge_dual())` is `+e0123`; `hodge_undual` is the
/// inverse map, so `a.hodge_dual().hodge_undual()` returns `a`.
pub trait HodgeDual: EgaValue {
    /// The complementary kind: grade `k` maps to grade `4 - k`.
    type Output: EgaValue;

    /// The Hodge dual.
    fn hodge_dual(self) -> (r: Self::Output)
        requires
            self.bounded(),
        ensures
            r.coeffs() == self.coeffs().hodge(),
    ;

    /// The inverse of the Hodge dual.
    fn hodge_undual(self) -> (r: Self::Output)
        requires
            self.bounded(),
        ensures
            r.coeffs() == self.coeffs().unhodge(),
    ;
}

impl HodgeDual for Multivector {
    type Output = Multivector;

    fn hodge_dual(self) -> Multivector {
        Multivector { e0: -self.e123, e1: -self.e032, e2: -self.e013, e3: -self.e021,
            s: self.e0123, e23: self.e01, e31: self.e02, e12: self.e03, e01: self.e23,
            e02: self.e31, e03: self.e12, e0123: self.s, e123: self.e0, e032: self.e1,
            e013: self.e2, e021: self.e3 }
    }

    fn hodge_undual(self) -> Multivector {
        Multivector { e0: self.e123, e1: self.e032, e2: self.e013, e3: self.e021,
            s: self.e0123, e23: self.e01, e31: self.e02, e12: self.e03, e01: self.e23,
            e02: self.e31, e03: self.e12, e0123: self.s, e123: -self.e0,
            e032: -self.e1, e013: -self.e2, e021: -self.e3 }
    }
}

impl HodgeDual for Scalar {
    type Output = Pseudoscalar;

    fn hodge_dual(self) -> Pseudoscalar {
        Pseudoscalar { e0123: self.s }
    }

    fn hodge_undual(self) -> Pseudoscalar {
        Pseudoscalar { e0123: self.s }
    }
}

impl HodgeDual for Vector {
    type Output = Trivector;

    fn hodge_dual(self) -> Trivector {
        Trivector { e123: self.e0, e032: self.e1, e013: self.e2, e021: self.e3 }
    }

    fn hodge_undual(self) -> Trivector {
        Trivector { e123: -self.e0, e032: -self.e1, e013: -self.e2, e021: -self.e3 }
    }
}

impl HodgeDual for Bivector {
    type Output = Bivector;

    fn hodge_dual(self) -> Bivector {
        Bivector { e23: self.e01, e31: self.e02, e12: self.e03, e01: self.e23,
            e02: self.e31, e03: self.e12 }
    }

    fn hodge_undual(self) -> Bivector {
        Bivector { e23: self.e01, e31: self.e02, e12: self.e03, e01: self.e23,
            e02: self.e31, e03: self.e12 }
    }
}

impl HodgeDual for Trivector {
    type Output = Vector;

    fn hodge_dual(self) -> Vector {
        Vector { e0: -self.e123, e1: -self.e032, e2: -self.e013, e3: -self.e021 }
    }

    fn hodge_undual(self) -> Vector {
        Vector { e0: self.e123, e1: self.e032, e2: self.e013, e3: self.e021 }
    }
}

impl HodgeDual for Pseudoscalar {
    type Output = Scalar;

    fn hodge_dual(self) -> Scalar {
        Scalar { s: self.e0123 }
    }

    fn hodge_undual(self) -> Scalar {
        Scalar { s: self.e0123 }
    }
}

impl HodgeDual for Empty {
    type Output = Empty;

    fn hodge_dual(self) -> Empty {
        Empty
    }

    fn hodge_undual(self) -> Empty {
        Empty
    }
}

} // verus!
