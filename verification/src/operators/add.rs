//! Componentwise addition, widening mixed grades into [`Multivector`].

use vstd::prelude::*;

use crate::values::{Bivector, EgaValue, Empty, Multivector, Pseudoscalar, Scalar, Trivector, Vector};

verus! {

/// Componentwise addition, widening mixed grades into [`Multivector`].
///
/// [`Empty`] is an identity on either side: the other operand comes back
/// unchanged.
pub trait Add<Rhs: EgaValue>: EgaValue {
    /// The statically determined kind of the result.
    type Output: EgaValue;

    /// Componentwise sum.
    fn add(self, rhs: Rhs) -> (r: Self::Output)
        requires
            self.bounded(),
            rhs.bounded(),
    ;
}

impl Add<Multivector> for Multivector {
    type Output = Multivector;

    fn add(self, rhs: Multivector) -> (r: Multivector)
        ensures
            r.coeffs() == self.coeffs().plus(rhs.coeffs()),
    {
        Multivector { e0: self.e0 + rhs.e0, e1: self.e1 + rhs.e1, e2: self.e2 + rhs.e2,
            e3: self.e3 + rhs.e3, s: self.s + rhs.s, e23: self.e23 + rhs.e23,
            e31: self.e31 + rhs.e31, e12: self.e12 + rhs.e12, e01: self.e01 + rhs.e01,
            e02: self.e02 + rhs.e02, e03: self.e03 + rhs.e03,
            e0123: self.e0123 + rhs.e0123, e123: self.e123 + rhs.e123,
            e032: self.e032 + rhs.e032, e013: self.e013 + rhs.e013,
            e021: self.e021 + rhs.e021 }
    }
}

impl Add<Scalar> for Multivector {
    type Output = Multivector;

    fn add(self, rhs: Scalar) -> (r: Multivector)
        ensures
            r.coeffs() == self.coeffs().plus(rhs.coeffs()),
    {
        Multivector { e0: self.e0, e1: self.e1, e2: self.e2, e3: self.e3,
            s: self.s + rhs.s, e23: self.e23, e31: self.e31, e12: self.e12,
            e01: self.e01, e02: self.e02, e03: self.e03, e0123: self.e0123,
            e123: self.e123, e032: self.e032, e013: self.e013, e021: self.e021 }
    }
}

impl Add<Vector> for Multivector {
    type Output = Multivector;

    fn add(self, rhs: Vector) -> (r: Multivector)
        ensures
            r.coeffs() == self.coeffs().plus(rhs.coeffs()),
    {
        Multivector { e0: self.e0 + rhs.e0, e1: self.e1 + rhs.e1, e2: self.e2 + rhs.e2,
            e3: self.e3 + rhs.e3, s: self.s, e23: self.e23, e31: self.e31,
            e12: self.e12, e01: self.e01, e02: self.e02, e03: self.e03,
            e0123: self.e0123, e123: self.e123, e032: self.e032, e013: self.e013,
            e021: self.e021 }
    }
}

impl Add<Bivector> for Multivector {
    type Output = Multivector;

    fn add(self, rhs: Bivector) -> (r: Multivector)
        ensures
            r.coeffs() == self.coeffs().plus(rhs.coeffs()),
    {
        Multivector { e0: self.e0, e1: self.e1, e2: self.e2, e3: self.e3, s: self.s,
            e23: self.e23 + rhs.e23, e31: self.e31 + rhs.e31, e12: self.e12 + rhs.e12,
            e01: self.e01 + rhs.e01, e02: self.e02 + rhs.e02, e03: self.e03 + rhs.e03,
            e0123: self.e0123, e123: self.e123, e032: self.e032, e013: self.e013,
            e021: self.e021 }
    }
}

impl Add<Trivector> for Multivector {
    type Output = Multivector;

    fn add(self, rhs: Trivector) -> (r: Multivector)
        ensures
            r.coeffs() == self.coeffs().plus(rhs.coeffs()),
    {
        Multivector { e0: self.e0, e1: self.e1, e2: self.e2, e3: self.e3, s: self.s,
            e23: self.e23, e31: self.e31, e12: self.e12, e01: self.e01, e02: self.e02,
            e03: self.e03, e0123: self.e0123, e123: self.e123 + rhs.e123,
            e032: self.e032 + rhs.e032, e013: self.e013 + rhs.e013,
            e021: self.e021 + rhs.e021 }
    }
}

impl Add<Pseudoscalar> for Multivector {
    type Output = Multivector;

    fn add(self, rhs: Pseudoscalar) -> (r: Multivector)
        ensures
            r.coeffs() == self.coeffs().plus(rhs.coeffs()),
    {
        Multivector { e0: self.e0, e1: self.e1, e2: self.e2, e3: self.e3, s: self.s,
            e23: self.e23, e31: self.e31, e12: self.e12, e01: self.e01, e02: self.e02,
            e03: self.e03, e0123: self.e0123 + rhs.e0123, e123: self.e123,
            e032: self.e032, e013: self.e013, e021: self.e021 }
    }
}

impl Add<Empty> for Multivector {
    type Output = Multivector;

    fn add(self, rhs: Empty) -> (r: Multivector)
        ensures
            r == self,
    {
        self
    }
}

impl Add<Multivector> for Scalar {
    type Output = Multivector;

    fn add(self, rhs: Multivector) -> (r: Multivector)
        ensures
            r.coeffs() == self.coeffs().plus(rhs.coeffs()),
    {
        Multivector { e0: rhs.e0, e1: rhs.e1, e2: rhs.e2, e3: rhs.e3,
            s: self.s + rhs.s, e23: rhs.e23, e31: rhs.e31, e12: rhs.e12, e01: rhs.e01,
            e02: rhs.e02, e03: rhs.e03, e0123: rhs.e0123, e123: rhs.e123,
            e032: rhs.e032, e013: rhs.e013, e021: rhs.e021 }
    }
}

impl Add<Scalar> for Scalar {
    type Output = Scalar;

    fn add(self, rhs: Scalar) -> (r: Scalar)
        ensures
            r.coeffs() == self.coeffs().plus(rhs.coeffs()),
    {
        Scalar { s: self.s + rhs.s }
    }
}

impl Add<Vector> for Scalar {
    type Output = Multivector;

    fn add(self, rhs: Vector) -> (r: Multivector)
        ensures
            r.coeffs() == self.coeffs().plus(rhs.coeffs()),
    {
        Multivector { e0: rhs.e0, e1: rhs.e1, e2: rhs.e2, e3: rhs.e3, s: self.s,
            e23: 0, e31: 0, e12: 0, e01: 0, e02: 0, e03: 0, e0123: 0, e123: 0, e032: 0,
            e013: 0, e021: 0 }
    }
}

impl Add<Bivector> for Scalar {
    type Output = Multivector;

    fn add(self, rhs: Bivector) -> (r: Multivector)
        ensures
            r.coeffs() == self.coeffs().plus(rhs.coeffs()),
    {
        Multivector { e0: 0, e1: 0, e2: 0, e3: 0, s: self.s, e23: rhs.e23,
            e31: rhs.e31, e12: rhs.e12, e01: rhs.e01, e02: rhs.e02, e03: rhs.e03,
            e0123: 0, e123: 0, e032: 0, e013: 0, e021: 0 }
    }
}

impl Add<Trivector> for Scalar {
    type Output = Multivector;

    fn add(self, rhs: Trivector) -> (r: Multivector)
        ensures
            r.coeffs() == self.coeffs().plus(rhs.coeffs()),
    {
        Multivector { e0: 0, e1: 0, e2: 0, e3: 0, s: self.s, e23: 0, e31: 0, e12: 0,
            e01: 0, e02: 0, e03: 0, e0123: 0, e123: rhs.e123, e032: rhs.e032,
            e013: rhs.e013, e021: rhs.e021 }
    }
}

impl Add<Pseudoscalar> for Scalar {
    type Output = Multivector;

    fn add(self, rhs: Pseudoscalar) -> (r: Multivector)
        ensures
            r.coeffs() == self.coeffs().plus(rhs.coeffs()),
    {
        Multivector { e0: 0, e1: 0, e2: 0, e3: 0, s: self.s, e23: 0, e31: 0, e12: 0,
            e01: 0, e02: 0, e03: 0, e0123: rhs.e0123, e123: 0, e032: 0, e013: 0,
            e021: 0 }
    }
}

impl Add<Empty> for Scalar {
    type Output = Scalar;

    fn add(self, rhs: Empty) -> (r: Scalar)
        ensures
            r == self,
    {
        self
    }
}

impl Add<Multivector> for Vector {
    type Output = Multivector;

    fn add(self, rhs: Multivector) -> (r: Multivector)
        ensures
            r.coeffs() == self.coeffs().plus(rhs.coeffs()),
    {
        Multivector { e0: self.e0 + rhs.e0, e1: self.e1 + rhs.e1, e2: self.e2 + rhs.e2,
            e3: self.e3 + rhs.e3, s: rhs.s, e23: rhs.e23, e31: rhs.e31, e12: rhs.e12,
            e01: rhs.e01, e02: rhs.e02, e03: rhs.e03, e0123: rhs.e0123, e123: rhs.e123,
            e032: rhs.e032, e013: rhs.e013, e021: rhs.e021 }
    }
}

impl Add<Scalar> for Vector {
    type Output = Multivector;

    fn add(self, rhs: Scalar) -> (r: Multivector)
        ensures
            r.coeffs() == self.coeffs().plus(rhs.coeffs()),
    {
        Multivector { e0: self.e0, e1: self.e1, e2: self.e2, e3: self.e3, s: rhs.s,
            e23: 0, e31: 0, e12: 0, e01: 0, e02: 0, e03: 0, e0123: 0, e123: 0, e032: 0,
            e013: 0, e021: 0 }
    }
}

impl Add<Vector> for Vector {
    type Output = Vector;

    fn add(self, rhs: Vector) -> (r: Vector)
        ensures
            r.coeffs() == self.coeffs().plus(rhs.coeffs()),
    {
        Vector { e0: self.e0 + rhs.e0, e1: self.e1 + rhs.e1, e2: self.e2 + rhs.e2,
            e3: self.e3 + rhs.e3 }
    }
}

impl Add<Bivector> for Vector {
    type Output = Multivector;

    fn add(self, rhs: Bivector) -> (r: Multivector)
        ensures
            r.coeffs() == self.coeffs().plus(rhs.coeffs()),
    {
        Multivector { e0: self.e0, e1: self.e1, e2: self.e2, e3: self.e3, s: 0,
            e23: rhs.e23, e31: rhs.e31, e12: rhs.e12, e01: rhs.e01, e02: rhs.e02,
            e03: rhs.e03, e0123: 0, e123: 0, e032: 0, e013: 0, e021: 0 }
    }
}

impl Add<Trivector> for Vector {
    type Output = Multivector;

    fn add(self, rhs: Trivector) -> (r: Multivector)
        ensures
            r.coeffs() == self.coeffs().plus(rhs.coeffs()),
    {
        Multivector { e0: self.e0, e1: self.e1, e2: self.e2, e3: self.e3, s: 0, e23: 0,
            e31: 0, e12: 0, e01: 0, e02: 0, e03: 0, e0123: 0, e123: rhs.e123,
            e032: rhs.e032, e013: rhs.e013, e021: rhs.e021 }
    }
}

impl Add<Pseudoscalar> for Vector {
    type Output = Multivector;

    fn add(self, rhs: Pseudoscalar) -> (r: Multivector)
        ensures
            r.coeffs() == self.coeffs().plus(rhs.coeffs()),
    {
        Multivector { e0: self.e0, e1: self.e1, e2: self.e2, e3: self.e3, s: 0, e23: 0,
            e31: 0, e12: 0, e01: 0, e02: 0, e03: 0, e0123: rhs.e0123, e123: 0, e032: 0,
            e013: 0, e021: 0 }
    }
}

impl Add<Empty> for Vector {
    type Output = Vector;

    fn add(self, rhs: Empty) -> (r: Vector)
        ensures
            r == self,
    {
        self
    }
}

impl Add<Multivector> for Bivector {
    type Output = Multivector;

    fn add(self, rhs: Multivector) -> (r: Multivector)
        ensures
            r.coeffs() == self.coeffs().plus(rhs.coeffs()),
    {
        Multivector { e0: rhs.e0, e1: rhs.e1, e2: rhs.e2, e3: rhs.e3, s: rhs.s,
            e23: self.e23 + rhs.e23, e31: self.e31 + rhs.e31, e12: self.e12 + rhs.e12,
            e01: self.e01 + rhs.e01, e02: self.e02 + rhs.e02, e03: self.e03 + rhs.e03,
            e0123: rhs.e0123, e123: rhs.e123, e032: rhs.e032, e013: rhs.e013,
            e021: rhs.e021 }
    }
}

impl Add<Scalar> for Bivector {
    type Output = Multivector;

    fn add(self, rhs: Scalar) -> (r: Multivector)
        ensures
            r.coeffs() == self.coeffs().plus(rhs.coeffs()),
    {
        Multivector { e0: 0, e1: 0, e2: 0, e3: 0, s: rhs.s, e23: self.e23,
            e31: self.e31, e12: self.e12, e01: self.e01, e02: self.e02, e03: self.e03,
            e0123: 0, e123: 0, e032: 0, e013: 0, e021: 0 }
    }
}

impl Add<Vector> for Bivector {
    type Output = Multivector;

    fn add(self, rhs: Vector) -> (r: Multivector)
        ensures
            r.coeffs() == self.coeffs().plus(rhs.coeffs()),
    {
        Multivector { e0: rhs.e0, e1: rhs.e1, e2: rhs.e2, e3: rhs.e3, s: 0,
            e23: self.e23, e31: self.e31, e12: self.e12, e01: self.e01, e02: self.e02,
            e03: self.e03, e0123: 0, e123: 0, e032: 0, e013: 0, e021: 0 }
    }
}

impl Add<Bivector> for Bivector {
    type Output = Bivector;

    fn add(self, rhs: Bivector) -> (r: Bivector)
        ensures
            r.coeffs() == self.coeffs().plus(rhs.coeffs()),
    {
        Bivector { e23: self.e23 + rhs.e23, e31: self.e31 + rhs.e31,
            e12: self.e12 + rhs.e12, e01: self.e01 + rhs.e01, e02: self.e02 + rhs.e02,
            e03: self.e03 + rhs.e03 }
    }
}

impl Add<Trivector> for Bivector {
    type Output = Multivector;

    fn add(self, rhs: Trivector) -> (r: Multivector)
        ensures
            r.coeffs() == self.coeffs().plus(rhs.coeffs()),
    {
        Multivector { e0: 0, e1: 0, e2: 0, e3: 0, s: 0, e23: self.e23, e31: self.e31,
            e12: self.e12, e01: self.e01, e02: self.e02, e03: self.e03, e0123: 0,
            e123: rhs.e123, e032: rhs.e032, e013: rhs.e013, e021: rhs.e021 }
    }
}

impl Add<Pseudoscalar> for Bivector {
    type Output = Multivector;

    fn add(self, rhs: Pseudoscalar) -> (r: Multivector)
        ensures
            r.coeffs() == self.coeffs().plus(rhs.coeffs()),
    {
        Multivector { e0: 0, e1: 0, e2: 0, e3: 0, s: 0, e23: self.e23, e31: self.e31,
            e12: self.e12, e01: self.e01, e02: self.e02, e03: self.e03,
            e0123: rhs.e0123, e123: 0, e032: 0, e013: 0, e021: 0 }
    }
}

impl Add<Empty> for Bivector {
    type Output = Bivector;

    fn add(self, rhs: Empty) -> (r: Bivector)
        ensures
            r == self,
    {
        self
    }
}

impl Add<Multivector> for Trivector {
    type Output = Multivector;

    fn add(self, rhs: Multivector) -> (r: Multivector)
        ensures
            r.coeffs() == self.coeffs().plus(rhs.coeffs()),
    {
        Multivector { e0: rhs.e0, e1: rhs.e1, e2: rhs.e2, e3: rhs.e3, s: rhs.s,
            e23: rhs.e23, e31: rhs.e31, e12: rhs.e12, e01: rhs.e01, e02: rhs.e02,
            e03: rhs.e03, e0123: rhs.e0123, e123: self.e123 + rhs.e123,
            e032: self.e032 + rhs.e032, e013: self.e013 + rhs.e013,
            e021: self.e021 + rhs.e021 }
    }
}

impl Add<Scalar> for Trivector {
    type Output = Multivector;

    fn add(self, rhs: Scalar) -> (r: Multivector)
        ensures
            r.coeffs() == self.coeffs().plus(rhs.coeffs()),
    {
        Multivector { e0: 0, e1: 0, e2: 0, e3: 0, s: rhs.s, e23: 0, e31: 0, e12: 0,
            e01: 0, e02: 0, e03: 0, e0123: 0, e123: self.e123, e032: self.e032,
            e013: self.e013, e021: self.e021 }
    }
}

impl Add<Vector> for Trivector {
    type Output = Multivector;

    fn add(self, rhs: Vector) -> (r: Multivector)
        ensures
            r.coeffs() == self.coeffs().plus(rhs.coeffs()),
    {
        Multivector { e0: rhs.e0, e1: rhs.e1, e2: rhs.e2, e3: rhs.e3, s: 0, e23: 0,
            e31: 0, e12: 0, e01: 0, e02: 0, e03: 0, e0123: 0, e123: self.e123,
            e032: self.e032, e013: self.e013, e021: self.e021 }
    }
}

impl Add<Bivector> for Trivector {
    type Output = Multivector;

    fn add(self, rhs: Bivector) -> (r: Multivector)
        ensures
            r.coeffs() == self.coeffs().plus(rhs.coeffs()),
    {
        Multivector { e0: 0, e1: 0, e2: 0, e3: 0, s: 0, e23: rhs.e23, e31: rhs.e31,
            e12: rhs.e12, e01: rhs.e01, e02: rhs.e02, e03: rhs.e03, e0123: 0,
            e123: self.e123, e032: self.e032, e013: self.e013, e021: self.e021 }
    }
}

impl Add<Trivector> for Trivector {
    type Output = Trivector;

    fn add(self, rhs: Trivector) -> (r: Trivector)
        ensures
            r.coeffs() == self.coeffs().plus(rhs.coeffs()),
    {
        Trivector { e123: self.e123 + rhs.e123, e032: self.e032 + rhs.e032,
            e013: self.e013 + rhs.e013, e021: self.e021 + rhs.e021 }
    }
}

impl Add<Pseudoscalar> for Trivector {
    type Output = Multivector;

    fn add(self, rhs: Pseudoscalar) -> (r: Multivector)
        ensures
            r.coeffs() == self.coeffs().plus(rhs.coeffs()),
    {
        Multivector { e0: 0, e1: 0, e2: 0, e3: 0, s: 0, e23: 0, e31: 0, e12: 0, e01: 0,
            e02: 0, e03: 0, e0123: rhs.e0123, e123: self.e123, e032: self.e032,
            e013: self.e013, e021: self.e021 }
    }
}

impl Add<Empty> for Trivector {
    type Output = Trivector;

    fn add(self, rhs: Empty) -> (r: Trivector)
        ensures
            r == self,
    {
        self
    }
}

impl Add<Multivector> for Pseudoscalar {
    type Output = Multivector;

    fn add(self, rhs: Multivector) -> (r: Multivector)
        ensures
            r.coeffs() == self.coeffs().plus(rhs.coeffs()),
    {
        Multivector { e0: rhs.e0, e1: rhs.e1, e2: rhs.e2, e3: rhs.e3, s: rhs.s,
            e23: rhs.e23, e31: rhs.e31, e12: rhs.e12, e01: rhs.e01, e02: rhs.e02,
            e03: rhs.e03, e0123: self.e0123 + rhs.e0123, e123: rhs.e123,
            e032: rhs.e032, e013: rhs.e013, e021: rhs.e021 }
    }
}

impl Add<Scalar> for Pseudoscalar {
    type Output = Multivector;

    fn add(self, rhs: Scalar) -> (r: Multivector)
        ensures
            r.coeffs() == self.coeffs().plus(rhs.coeffs()),
    {
        Multivector { e0: 0, e1: 0, e2: 0, e3: 0, s: rhs.s, e23: 0, e31: 0, e12: 0,
            e01: 0, e02: 0, e03: 0, e0123: self.e0123, e123: 0, e032: 0, e013: 0,
            e021: 0 }
    }
}

impl Add<Vector> for Pseudoscalar {
    type Output = Multivector;

    fn add(self, rhs: Vector) -> (r: Multivector)
        ensures
            r.coeffs() == self.coeffs().plus(rhs.coeffs()),
    {
        Multivector { e0: rhs.e0, e1: rhs.e1, e2: rhs.e2, e3: rhs.e3, s: 0, e23: 0,
            e31: 0, e12: 0, e01: 0, e02: 0, e03: 0, e0123: self.e0123, e123: 0,
            e032: 0, e013: 0, e021: 0 }
    }
}

impl Add<Bivector> for Pseudoscalar {
    type Output = Multivector;

    fn add(self, rhs: Bivector) -> (r: Multivector)
        ensures
            r.coeffs() == self.coeffs().plus(rhs.coeffs()),
    {
        Multivector { e0: 0, e1: 0, e2: 0, e3: 0, s: 0, e23: rhs.e23, e31: rhs.e31,
            e12: rhs.e12, e01: rhs.e01, e02: rhs.e02, e03: rhs.e03, e0123: self.e0123,
            e123: 0, e032: 0, e013: 0, e021: 0 }
    }
}

impl Add<Trivector> for Pseudoscalar {
    type Output = Multivector;

    fn add(self, rhs: Trivector) -> (r: Multivector)
        ensures
            r.coeffs() == self.coeffs().plus(rhs.coeffs()),
    {
        Multivector { e0: 0, e1: 0, e2: 0, e3: 0, s: 0, e23: 0, e31: 0, e12: 0, e01: 0,
            e02: 0, e03: 0, e0123: self.e0123, e123: rhs.e123, e032: rhs.e032,
            e013: rhs.e013, e021: rhs.e021 }
    }
}

impl Add<Pseudoscalar> for Pseudoscalar {
    type Output = Pseudoscalar;

    fn add(self, rhs: Pseudoscalar) -> (r: Pseudoscalar)
        ensures
            r.coeffs() == self.coeffs().plus(rhs.coeffs()),
    {
        Pseudoscalar { e0123: self.e0123 + rhs.e0123 }
    }
}

impl Add<Empty> for Pseudoscalar {
    type Output = Pseudoscalar;

    fn add(self, rhs: Empty) -> (r: Pseudoscalar)
        ensures
            r == self,
    {
        self
    }
}

impl Add<Empty> for Empty {
    type Output = Empty;

    fn add(self, rhs: Empty) -> (r: Empty)
        ensures
            r == rhs,
    {
        rhs
    }
}

impl Add<Scalar> for Empty {
    type Output = Scalar;

    fn add(self, rhs: Scalar) -> (r: Scalar)
        ensures
            r == rhs,
    {
        rhs
    }
}

impl Add<Vector> for Empty {
    type Output = Vector;

    fn add(self, rhs: Vector) -> (r: Vector)
        ensures
            r == rhs,
    {
        rhs
    }
}

impl Add<Bivector> for Empty {
    type Output = Bivector;

    fn add(self, rhs: Bivector) -> (r: Bivector)
        ensures
            r == rhs,
    {
        rhs
    }
}

impl Add<Trivector> for Empty {
    type Output = Trivector;

    fn add(self, rhs: Trivector) -> (r: Trivector)
        ensures
            r == rhs,
    {
        rhs
    }
}

impl Add<Pseudoscalar> for Empty {
    type Output = Pseudoscalar;

    fn add(self, rhs: Pseudoscalar) -> (r: Pseudoscalar)
        ensures
            r == rhs,
    {
        rhs
    }
}

} // verus!
