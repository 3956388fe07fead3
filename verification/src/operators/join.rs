//! The regressive product: the grade-subtractive dual of [`Meet`].

use vstd::prelude::*;

use crate::arith::term;
use crate::values::{Bivector, EgaValue, Empty, Multivector, Pseudoscalar, Scalar, Trivector, Vector};

verus! {

/// The regressive product: the grade-subtractive dual of [`Meet`].
///
/// Conceptually `join(a, b)` is `dual(meet(dual(b), dual(a)))`; the
/// implementations below are the closed forms over complementary blade
/// indices, and [`crate::laws::lemma_join_is_dual_of_meet`] proves that they
/// agree with the double-duality route.  A grade pair whose combined grade
/// falls below the pseudoscalar yields [`Empty`].
pub trait Join<Rhs: EgaValue>: EgaValue {
    /// The statically determined grade of the result.
    type Output: EgaValue;

    /// The regressive product.
    fn join(self, rhs: Rhs) -> (r: Self::Output)
        requires
            self.bounded(),
            rhs.bounded(),
        ensures
            r.coeffs() == self.coeffs().regressive(rhs.coeffs()),
    ;
}

impl Join<Multivector> for Multivector {
    type Output = Multivector;

    fn join(self, rhs: Multivector) -> Multivector {
        let e0: i64 = term(self.e0, rhs.e0123) - term(self.e01, rhs.e032)
            - term(self.e02, rhs.e013) - term(self.e03, rhs.e021)
            - term(self.e032, rhs.e01) - term(self.e013, rhs.e02)
            - term(self.e021, rhs.e03) + term(self.e0123, rhs.e0);
        let e1: i64 = term(self.e1, rhs.e0123) + term(self.e31, rhs.e021)
            - term(self.e12, rhs.e013) + term(self.e01, rhs.e123)
            + term(self.e123, rhs.e01) - term(self.e013, rhs.e12)
            + term(self.e021, rhs.e31) + term(self.e0123, rhs.e1);
        let e2: i64 = term(self.e2, rhs.e0123) - term(self.e23, rhs.e021)
            + term(self.e12, rhs.e032) + term(self.e02, rhs.e123)
            + term(self.e123, rhs.e02) + term(self.e032, rhs.e12)
            - term(self.e021, rhs.e23) + term(self.e0123, rhs.e2);
        let e3: i64 = term(self.e3, rhs.e0123) + term(self.e23, rhs.e013)
            - term(self.e31, rhs.e032) + term(self.e03, rhs.e123)
            + term(self.e123, rhs.e03) - term(self.e032, rhs.e31)
            + term(self.e013, rhs.e23) + term(self.e0123, rhs.e3);
        let s: i64 = term(self.s, rhs.e0123) - term(self.e0, rhs.e123)
            - term(self.e1, rhs.e032) - term(self.e2, rhs.e013)
            - term(self.e3, rhs.e021) + term(self.e23, rhs.e01)
            + term(self.e31, rhs.e02) + term(self.e12, rhs.e03)
            + term(self.e01, rhs.e23) + term(self.e02, rhs.e31)
            + term(self.e03, rhs.e12) + term(self.e123, rhs.e0)
            + term(self.e032, rhs.e1) + term(self.e013, rhs.e2)
            + term(self.e021, rhs.e3) + term(self.e0123, rhs.s);
        let e23: i64 = term(self.e23, rhs.e0123) - term(self.e123, rhs.e032)
            + term(self.e032, rhs.e123) + term(self.e0123, rhs.e23);
        let e31: i64 = term(self.e31, rhs.e0123) - term(self.e123, rhs.e013)
            + term(self.e013, rhs.e123) + term(self.e0123, rhs.e31);
        let e12: i64 = term(self.e12, rhs.e0123) - term(self.e123, rhs.e021)
            + term(self.e021, rhs.e123) + term(self.e0123, rhs.e12);
        let e01: i64 = term(self.e01, rhs.e0123) - term(self.e013, rhs.e021)
            + term(self.e021, rhs.e013) + term(self.e0123, rhs.e01);
        let e02: i64 = term(self.e02, rhs.e0123) + term(self.e032, rhs.e021)
            - term(self.e021, rhs.e032) + term(self.e0123, rhs.e02);
        let e03: i64 = term(self.e03, rhs.e0123) - term(self.e032, rhs.e013)
            + term(self.e013, rhs.e032) + term(self.e0123, rhs.e03);
        let e0123: i64 = term(self.e0123, rhs.e0123);
        let e123: i64 = term(self.e123, rhs.e0123) + term(self.e0123, rhs.e123);
        let e032: i64 = term(self.e032, rhs.e0123) + term(self.e0123, rhs.e032);
        let e013: i64 = term(self.e013, rhs.e0123) + term(self.e0123, rhs.e013);
        let e021: i64 = term(self.e021, rhs.e0123) + term(self.e0123, rhs.e021);
        Multivector { e0, e1, e2, e3, s, e23, e31, e12, e01, e02, e03, e0123, e123,
            e032, e013, e021 }
    }
}

impl Join<Scalar> for Multivector {
    type Output = Scalar;

    fn join(self, rhs: Scalar) -> Scalar {
        let s: i64 = term(self.e0123, rhs.s);
        Scalar { s }
    }
}

impl Join<Vector> for Multivector {
    type Output = Multivector;

    fn join(self, rhs: Vector) -> Multivector {
        let e0: i64 = term(self.e0123, rhs.e0);
        let e1: i64 = term(self.e0123, rhs.e1);
        let e2: i64 = term(self.e0123, rhs.e2);
        let e3: i64 = term(self.e0123, rhs.e3);
        let s: i64 = term(self.e123, rhs.e0) + term(self.e032, rhs.e1)
            + term(self.e013, rhs.e2) + term(self.e021, rhs.e3);
        let e23: i64 = 0;
        let e31: i64 = 0;
        let e12: i64 = 0;
        let e01: i64 = 0;
        let e02: i64 = 0;
        let e03: i64 = 0;
        let e0123: i64 = 0;
        let e123: i64 = 0;
        let e032: i64 = 0;
        let e013: i64 = 0;
        let e021: i64 = 0;
        Multivector { e0, e1, e2, e3, s, e23, e31, e12, e01, e02, e03, e0123, e123,
            e032, e013, e021 }
    }
}

impl Join<Bivector> for Multivector {
    type Output = Multivector;

    fn join(self, rhs: Bivector) -> Multivector {
        let e0: i64 = - term(self.e032, rhs.e01) - term(self.e013, rhs.e02)
            - term(self.e021, rhs.e03);
        let e1: i64 = term(self.e123, rhs.e01) - term(self.e013, rhs.e12)
            + term(self.e021, rhs.e31);
        let e2: i64 = term(self.e123, rhs.e02) + term(self.e032, rhs.e12)
            - term(self.e021, rhs.e23);
        let e3: i64 = term(self.e123, rhs.e03) - term(self.e032, rhs.e31)
            + term(self.e013, rhs.e23);
        let s: i64 = term(self.e23, rhs.e01) + term(self.e31, rhs.e02)
            + term(self.e12, rhs.e03) + term(self.e01, rhs.e23)
            + term(self.e02, rhs.e31) + term(self.e03, rhs.e12);
        let e23: i64 = term(self.e0123, rhs.e23);
        let e31: i64 = term(self.e0123, rhs.e31);
        let e12: i64 = term(self.e0123, rhs.e12);
        let e01: i64 = term(self.e0123, rhs.e01);
        let e02: i64 = term(self.e0123, rhs.e02);
        let e03: i64 = term(self.e0123, rhs.e03);
        let e0123: i64 = 0;
        let e123: i64 = 0;
        let e032: i64 = 0;
        let e013: i64 = 0;
        let e021: i64 = 0;
        Multivector { e0, e1, e2, e3, s, e23, e31, e12, e01, e02, e03, e0123, e123,
            e032, e013, e021 }
    }
}

impl Join<Trivector> for Multivector {
    type Output = Multivector;

    fn join(self, rhs: Trivector) -> Multivector {
        let e0: i64 = - term(self.e01, rhs.e032) - term(self.e02, rhs.e013)
            - term(self.e03, rhs.e021);
        let e1: i64 = term(self.e31, rhs.e021) - term(self.e12, rhs.e013)
            + term(self.e01, rhs.e123);
        let e2: i64 = - term(self.e23, rhs.e021) + term(self.e12, rhs.e032)
            + term(self.e02, rhs.e123);
        let e3: i64 = term(self.e23, rhs.e013) - term(self.e31, rhs.e032)
            + term(self.e03, rhs.e123);
        let s: i64 = - term(self.e0, rhs.e123) - term(self.e1, rhs.e032)
            - term(self.e2, rhs.e013) - term(self.e3, rhs.e021);
        let e23: i64 = - term(self.e123, rhs.e032) + term(self.e032, rhs.e123);
        let e31: i64 = - term(self.e123, rhs.e013) + term(self.e013, rhs.e123);
        let e12: i64 = - term(self.e123, rhs.e021) + term(self.e021, rhs.e123);
        let e01: i64 = - term(self.e013, rhs.e021) + term(self.e021, rhs.e013);
        let e02: i64 = term(self.e032, rhs.e021) - term(self.e021, rhs.e032);
        let e03: i64 = - term(self.e032, rhs.e013) + term(self.e013, rhs.e032);
        let e0123: i64 = 0;
        let e123: i64 = term(self.e0123, rhs.e123);
        let e032: i64 = term(self.e0123, rhs.e032);
        let e013: i64 = term(self.e0123, rhs.e013);
        let e021: i64 = term(self.e0123, rhs.e021);
        Multivector { e0, e1, e2, e3, s, e23, e31, e12, e01, e02, e03, e0123, e123,
            e032, e013, e021 }
    }
}

impl Join<Pseudoscalar> for Multivector {
    type Output = Multivector;

    fn join(self, rhs: Pseudoscalar) -> Multivector {
        let e0: i64 = term(self.e0, rhs.e0123);
        let e1: i64 = term(self.e1, rhs.e0123);
        let e2: i64 = term(self.e2, rhs.e0123);
        let e3: i64 = term(self.e3, rhs.e0123);
        let s: i64 = term(self.s, rhs.e0123);
        let e23: i64 = term(self.e23, rhs.e0123);
        let e31: i64 = term(self.e31, rhs.e0123);
        let e12: i64 = term(self.e12, rhs.e0123);
        let e01: i64 = term(self.e01, rhs.e0123);
        let e02: i64 = term(self.e02, rhs.e0123);
        let e03: i64 = term(self.e03, rhs.e0123);
        let e0123: i64 = term(self.e0123, rhs.e0123);
        let e123: i64 = term(self.e123, rhs.e0123);
        let e032: i64 = term(self.e032, rhs.e0123);
        let e013: i64 = term(self.e013, rhs.e0123);
        let e021: i64 = term(self.e021, rhs.e0123);
        Multivector { e0, e1, e2, e3, s, e23, e31, e12, e01, e02, e03, e0123, e123,
            e032, e013, e021 }
    }
}

impl Join<Multivector> for Scalar {
    type Output = Scalar;

    fn join(self, rhs: Multivector) -> Scalar {
        let s: i64 = term(self.s, rhs.e0123);
        Scalar { s }
    }
}

impl Join<Scalar> for Scalar {
    type Output = Empty;

    fn join(self, rhs: Scalar) -> Empty {
        Empty
    }
}

impl Join<Vector> for Scalar {
    type Output = Empty;

    fn join(self, rhs: Vector) -> Empty {
        Empty
    }
}

impl Join<Bivector> for Scalar {
    type Output = Empty;

    fn join(self, rhs: Bivector) -> Empty {
        Empty
    }
}

impl Join<Trivector> for Scalar {
    type Output = Empty;

    fn join(self, rhs: Trivector) -> Empty {
        Empty
    }
}

impl Join<Pseudoscalar> for Scalar {
    type Output = Scalar;

    fn join(self, rhs: Pseudoscalar) -> Scalar {
        let s: i64 = term(self.s, rhs.e0123);
        Scalar { s }
    }
}

impl Join<Multivector> for Vector {
    type Output = Multivector;

    fn join(self, rhs: Multivector) -> Multivector {
        let e0: i64 = term(self.e0, rhs.e0123);
        let e1: i64 = term(self.e1, rhs.e0123);
        let e2: i64 = term(self.e2, rhs.e0123);
        let e3: i64 = term(self.e3, rhs.e0123);
        let s: i64 = - term(self.e0, rhs.e123) - term(self.e1, rhs.e032)
            - term(self.e2, rhs.e013) - term(self.e3, rhs.e021);
        let e23: i64 = 0;
        let e31: i64 = 0;
        let e12: i64 = 0;
        let e01: i64 = 0;
        let e02: i64 = 0;
        let e03: i64 = 0;
        let e0123: i64 = 0;
        let e123: i64 = 0;
        let e032: i64 = 0;
        let e013: i64 = 0;
        let e021: i64 = 0;
        Multivector { e0, e1, e2, e3, s, e23, e31, e12, e01, e02, e03, e0123, e123,
            e032, e013, e021 }
    }
}

impl Join<Scalar> for Vector {
    type Output = Empty;

    fn join(self, rhs: Scalar) -> Empty {
        Empty
    }
}

impl Join<Vector> for Vector {
    type Output = Empty;

    fn join(self, rhs: Vector) -> Empty {
        Empty
    }
}

impl Join<Bivector> for Vector {
    type Output = Empty;

    fn join(self, rhs: Bivector) -> Empty {
        Empty
    }
}

impl Join<Trivector> for Vector {
    type Output = Scalar;

    fn join(self, rhs: Trivector) -> Scalar {
        let s: i64 = - term(self.e0, rhs.e123) - term(self.e1, rhs.e032)
            - term(self.e2, rhs.e013) - term(self.e3, rhs.e021);
        Scalar { s }
    }
}

impl Join<Pseudoscalar> for Vector {
    type Output = Vector;

    fn join(self, rhs: Pseudoscalar) -> Vector {
        let e0: i64 = term(self.e0, rhs.e0123);
        let e1: i64 = term(self.e1, rhs.e0123);
        let e2: i64 = term(self.e2, rhs.e0123);
        let e3: i64 = term(self.e3, rhs.e0123);
        Vector { e0, e1, e2, e3 }
    }
}

impl Join<Multivector> for Bivector {
    type Output = Multivector;

    fn join(self, rhs: Multivector) -> Multivector {
        let e0: i64 = - term(self.e01, rhs.e032) - term(self.e02, rhs.e013)
            - term(self.e03, rhs.e021);
        let e1: i64 = term(self.e31, rhs.e021) - term(self.e12, rhs.e013)
            + term(self.e01, rhs.e123);
        let e2: i64 = - term(self.e23, rhs.e021) + term(self.e12, rhs.e032)
            + term(self.e02, rhs.e123);
        let e3: i64 = term(self.e23, rhs.e013) - term(self.e31, rhs.e032)
            + term(self.e03, rhs.e123);
        let s: i64 = term(self.e23, rhs.e01) + term(self.e31, rhs.e02)
            + term(self.e12, rhs.e03) + term(self.e01, rhs.e23)
            + term(self.e02, rhs.e31) + term(self.e03, rhs.e12);
        let e23: i64 = term(self.e23, rhs.e0123);
        let e31: i64 = term(self.e31, rhs.e0123);
        let e12: i64 = term(self.e12, rhs.e0123);
        let e01: i64 = term(self.e01, rhs.e0123);
        let e02: i64 = term(self.e02, rhs.e0123);
        let e03: i64 = term(self.e03, rhs.e0123);
        let e0123: i64 = 0;
        let e123: i64 = 0;
        let e032: i64 = 0;
        let e013: i64 = 0;
        let e021: i64 = 0;
        Multivector { e0, e1, e2, e3, s, e23, e31, e12, e01, e02, e03, e0123, e123,
            e032, e013, e021 }
    }
}

impl Join<Scalar> for Bivector {
    type Output = Empty;

    fn join(self, rhs: Scalar) -> Empty {
        Empty
    }
}

impl Join<Vector> for Bivector {
    type Output = Empty;

    fn join(self, rhs: Vector) -> Empty {
        Empty
    }
}

impl Join<Bivector> for Bivector {
    type Output = Scalar;

    fn join(self, rhs: Bivector) -> Scalar {
        let s: i64 = term(self.e23, rhs.e01) + term(self.e31, rhs.e02)
            + term(self.e12, rhs.e03) + term(self.e01, rhs.e23)
            + term(self.e02, rhs.e31) + term(self.e03, rhs.e12);
        Scalar { s }
    }
}

impl Join<Trivector> for Bivector {
    type Output = Vector;

    fn join(self, rhs: Trivector) -> Vector {
        let e0: i64 = - term(self.e01, rhs.e032) - term(self.e02, rhs.e013)
            - term(self.e03, rhs.e021);
        let e1: i64 = term(self.e31, rhs.e021) - term(self.e12, rhs.e013)
            + term(self.e01, rhs.e123);
        let e2: i64 = - term(self.e23, rhs.e021) + term(self.e12, rhs.e032)
            + term(self.e02, rhs.e123);
        let e3: i64 = term(self.e23, rhs.e013) - term(self.e31, rhs.e032)
            + term(self.e03, rhs.e123);
        Vector { e0, e1, e2, e3 }
    }
}

impl Join<Pseudoscalar> for Bivector {
    type Output = Bivector;

    fn join(self, rhs: Pseudoscalar) -> Bivector {
        let e23: i64 = term(self.e23, rhs.e0123);
        let e31: i64 = term(self.e31, rhs.e0123);
        let e12: i64 = term(self.e12, rhs.e0123);
        let e01: i64 = term(self.e01, rhs.e0123);
        let e02: i64 = term(self.e02, rhs.e0123);
        let e03: i64 = term(self.e03, rhs.e0123);
        Bivector { e23, e31, e12, e01, e02, e03 }
    }
}

impl Join<Multivector> for Trivector {
    type Output = Multivector;

    fn join(self, rhs: Multivector) -> Multivector {
        let e0: i64 = - term(self.e032, rhs.e01) - term(self.e013, rhs.e02)
            - term(self.e021, rhs.e03);
        let e1: i64 = term(self.e123, rhs.e01) - term(self.e013, rhs.e12)
            + term(self.e021, rhs.e31);
        let e2: i64 = term(self.e123, rhs.e02) + term(self.e032, rhs.e12)
            - term(self.e021, rhs.e23);
        let e3: i64 = term(self.e123, rhs.e03) - term(self.e032, rhs.e31)
            + term(self.e013, rhs.e23);
        let s: i64 = term(self.e123, rhs.e0) + term(self.e032, rhs.e1)
            + term(self.e013, rhs.e2) + term(self.e021, rhs.e3);
        let e23: i64 = - term(self.e123, rhs.e032) + term(self.e032, rhs.e123);
        let e31: i64 = - term(self.e123, rhs.e013) + term(self.e013, rhs.e123);
        let e12: i64 = - term(self.e123, rhs.e021) + term(self.e021, rhs.e123);
        let e01: i64 = - term(self.e013, rhs.e021) + term(self.e021, rhs.e013);
        let e02: i64 = term(self.e032, rhs.e021) - term(self.e021, rhs.e032);
        let e03: i64 = - term(self.e032, rhs.e013) + term(self.e013, rhs.e032);
        let e0123: i64 = 0;
        let e123: i64 = term(self.e123, rhs.e0123);
        let e032: i64 = term(self.e032, rhs.e0123);
        let e013: i64 = term(self.e013, rhs.e0123);
        let e021: i64 = term(self.e021, rhs.e0123);
        Multivector { e0, e1, e2, e3, s, e23, e31, e12, e01, e02, e03, e0123, e123,
            e032, e013, e021 }
    }
}

impl Join<Scalar> for Trivector {
    type Output = Empty;

    fn join(self, rhs: Scalar) -> Empty {
        Empty
    }
}

impl Join<Vector> for Trivector {
    type Output = Scalar;

    fn join(self, rhs: Vector) -> Scalar {
        let s: i64 = term(self.e123, rhs.e0) + term(self.e032, rhs.e1)
            + term(self.e013, rhs.e2) + term(self.e021, rhs.e3);
        Scalar { s }
    }
}

impl Join<Bivector> for Trivector {
    type Output = Vector;

    fn join(self, rhs: Bivector) -> Vector {
        let e0: i64 = - term(self.e032, rhs.e01) - term(self.e013, rhs.e02)
            - term(self.e021, rhs.e03);
        let e1: i64 = term(self.e123, rhs.e01) - term(self.e013, rhs.e12)
            + term(self.e021, rhs.e31);
        let e2: i64 = term(self.e123, rhs.e02) + term(self.e032, rhs.e12)
            - term(self.e021, rhs.e23);
        let e3: i64 = term(self.e123, rhs.e03) - term(self.e032, rhs.e31)
            + term(self.e013, rhs.e23);
        Vector { e0, e1, e2, e3 }
    }
}

impl Join<Trivector> for Trivector {
    type Output = Bivector;

    fn join(self, rhs: Trivector) -> Bivector {
        let e23: i64 = - term(self.e123, rhs.e032) + term(self.e032, rhs.e123);
        let e31: i64 = - term(self.e123, rhs.e013) + term(self.e013, rhs.e123);
        let e12: i64 = - term(self.e123, rhs.e021) + term(self.e021, rhs.e123);
        let e01: i64 = - term(self.e013, rhs.e021) + term(self.e021, rhs.e013);
        let e02: i64 = term(self.e032, rhs.e021) - term(self.e021, rhs.e032);
        let e03: i64 = - term(self.e032, rhs.e013) + term(self.e013, rhs.e032);
        Bivector { e23, e31, e12, e01, e02, e03 }
    }
}

impl Join<Pseudoscalar> for Trivector {
    type Output = Trivector;

    fn join(self, rhs: Pseudoscalar) -> Trivector {
        let e123: i64 = term(self.e123, rhs.e0123);
        let e032: i64 = term(self.e032, rhs.e0123);
        let e013: i64 = term(self.e013, rhs.e0123);
        let e021: i64 = term(self.e021, rhs.e0123);
        Trivector { e123, e032, e013, e021 }
    }
}

impl Join<Multivector> for Pseudoscalar {
    type Output = Multivector;

    fn join(self, rhs: Multivector) -> Multivector {
        let e0: i64 = term(self.e0123, rhs.e0);
        let e1: i64 = term(self.e0123, rhs.e1);
        let e2: i64 = term(self.e0123, rhs.e2);
        let e3: i64 = term(self.e0123, rhs.e3);
        let s: i64 = term(self.e0123, rhs.s);
        let e23: i64 = term(self.e0123, rhs.e23);
        let e31: i64 = term(self.e0123, rhs.e31);
        let e12: i64 = term(self.e0123, rhs.e12);
        let e01: i64 = term(self.e0123, rhs.e01);
        let e02: i64 = term(self.e0123, rhs.e02);
        let e03: i64 = term(self.e0123, rhs.e03);
        let e0123: i64 = term(self.e0123, rhs.e0123);
        let e123: i64 = term(self.e0123, rhs.e123);
        let e032: i64 = term(self.e0123, rhs.e032);
        let e013: i64 = term(self.e0123, rhs.e013);
        let e021: i64 = term(self.e0123, rhs.e021);
        Multivector { e0, e1, e2, e3, s, e23, e31, e12, e01, e02, e03, e0123, e123,
            e032, e013, e021 }
    }
}

impl Join<Scalar> for Pseudoscalar {
    type Output = Scalar;

    fn join(self, rhs: Scalar) -> Scalar {
        let s: i64 = term(self.e0123, rhs.s);
        Scalar { s }
    }
}

impl Join<Vector> for Pseudoscalar {
    type Output = Vector;

    fn join(self, rhs: Vector) -> Vector {
        let e0: i64 = term(self.e0123, rhs.e0);
        let e1: i64 = term(self.e0123, rhs.e1);
        let e2: i64 = term(self.e0123, rhs.e2);
        let e3: i64 = term(self.e0123, rhs.e3);
        Vector { e0, e1, e2, e3 }
    }
}

impl Join<Bivector> for Pseudoscalar {
    type Output = Bivector;

    fn join(self, rhs: Bivector) -> Bivector {
        let e23: i64 = term(self.e0123, rhs.e23);
        let e31: i64 = term(self.e0123, rhs.e31);
        let e12: i64 = term(self.e0123, rhs.e12);
        let e01: i64 = term(self.e0123, rhs.e01);
        let e02: i64 = term(self.e0123, rhs.e02);
        let e03: i64 = term(self.e0123, rhs.e03);
        Bivector { e23, e31, e12, e01, e02, e03 }
    }
}

impl Join<Trivector> for Pseudoscalar {
    type Output = Trivector;

    fn join(self, rhs: Trivector) -> Trivector {
        let e123: i64 = term(self.e0123, rhs.e123);
        let e032: i64 = term(self.e0123, rhs.e032);
        let e013: i64 = term(self.e0123, rhs.e013);
        let e021: i64 = term(self.e0123, rhs.e021);
        Trivector { e123, e032, e013, e021 }
    }
}

impl Join<Pseudoscalar> for Pseudoscalar {
    type Output = Pseudoscalar;

    fn join(self, rhs: Pseudoscalar) -> Pseudoscalar {
        let e0123: i64 = term(self.e0123, rhs.e0123);
        Pseudoscalar { e0123 }
    }
}

impl Join<Empty> for Empty {
    type Output = Empty;

    fn join(self, rhs: Empty) -> Empty {
        Empty
    }
}

impl Join<Empty> for Multivector {
    type Output = Empty;

    fn join(self, rhs: Empty) -> Empty {
        Empty
    }
}

impl Join<Empty> for Scalar {
    type Output = Empty;

    fn join(self, rhs: Empty) -> Empty {
        Empty
    }
}

impl Join<Empty> for Vector {
    type Output = Empty;

    fn join(self, rhs: Empty) -> Empty {
        Empty
    }
}

impl Join<Empty> for Bivector {
    type Output = Empty;

    fn join(self, rhs: Empty) -> Empty {
        Empty
    }
}

impl Join<Empty> for Trivector {
    type Output = Empty;

    fn join(self, rhs: Empty) -> Empty {
        Empty
    }
}

impl Join<Empty> for Pseudoscalar {
    type Output = Empty;

    fn join(self, rhs: Empty) -> Empty {
        Empty
    }
}

impl Join<Multivector> for Empty {
    type Output = Empty;

    fn join(self, rhs: Multivector) -> Empty {
        Empty
    }
}

impl Join<Scalar> for Empty {
    type Output = Empty;

    fn join(self, rhs: Scalar) -> Empty {
        Empty
    }
}

impl Join<Vector> for Empty {
    type Output = Empty;

    fn join(self, rhs: Vector) -> Empty {
        Empty
    }
}

impl Join<Bivector> for Empty {
    type Output = Empty;

    fn join(self, rhs: Bivector) -> Empty {
        Empty
    }
}

impl Join<Trivector> for Empty {
    type Output = Empty;

    fn join(self, rhs: Trivector) -> Empty {
        Empty
    }
}

impl Join<Pseudoscalar> for Empty {
    type Output = Empty;

    fn join(self, rhs: Pseudoscalar) -> Empty {
        Empty
    }
}

} // verus!
