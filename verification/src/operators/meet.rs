//! The outer (wedge) product: the grade-additive combination.

use vstd::prelude::*;

use crate::arith::term;
use crate::values::{Bivector, EgaValue, Empty, Multivector, Pseudoscalar, Scalar, Trivector, Vector};

verus! {

/// The outer (wedge) product: the grade-additive combination.
///
/// For blades with disjoint index sets the result is their union with the
/// permutation sign; blades that share an index contribute nothing.  A grade
/// pair whose blades can never combine yields [`Empty`].
pub trait Meet<Rhs: EgaValue>: EgaValue {
    /// The statically determined grade of the result.
    type Output: EgaValue;

    /// The outer product.
    fn meet(self, rhs: Rhs) -> (r: Self::Output)
        requires
            self.bounded(),
            rhs.bounded(),
        ensures
            r.coeffs() == self.coeffs().outer(rhs.coeffs()),
    ;
}

impl Meet<Multivector> for Multivector {
    type Output = Multivector;

    fn meet(self, rhs: Multivector) -> Multivector {
        let e0: i64 = term(self.s, rhs.e0) + term(self.e0, rhs.s);
        let e1: i64 = term(self.s, rhs.e1) + term(self.e1, rhs.s);
        let e2: i64 = term(self.s, rhs.e2) + term(self.e2, rhs.s);
        let e3: i64 = term(self.s, rhs.e3) + term(self.e3, rhs.s);
        let s: i64 = term(self.s, rhs.s);
        let e23: i64 = term(self.s, rhs.e23) + term(self.e2, rhs.e3)
            - term(self.e3, rhs.e2) + term(self.e23, rhs.s);
        let e31: i64 = term(self.s, rhs.e31) - term(self.e1, rhs.e3)
            + term(self.e3, rhs.e1) + term(self.e31, rhs.s);
        let e12: i64 = term(self.s, rhs.e12) + term(self.e1, rhs.e2)
            - term(self.e2, rhs.e1) + term(self.e12, rhs.s);
        let e01: i64 = term(self.s, rhs.e01) + term(self.e0, rhs.e1)
            - term(self.e1, rhs.e0) + term(self.e01, rhs.s);
        let e02: i64 = term(self.s, rhs.e02) + term(self.e0, rhs.e2)
            - term(self.e2, rhs.e0) + term(self.e02, rhs.s);
        let e03: i64 = term(self.s, rhs.e03) + term(self.e0, rhs.e3)
            - term(self.e3, rhs.e0) + term(self.e03, rhs.s);
        let e0123: i64 = term(self.s, rhs.e0123) + term(self.e0, rhs.e123)
            + term(self.e1, rhs.e032) + term(self.e2, rhs.e013)
            + term(self.e3, rhs.e021) + term(self.e23, rhs.e01)
            + term(self.e31, rhs.e02) + term(self.e12, rhs.e03)
            + term(self.e01, rhs.e23) + term(self.e02, rhs.e31)
            + term(self.e03, rhs.e12) - term(self.e123, rhs.e0)
            - term(self.e032, rhs.e1) - term(self.e013, rhs.e2)
            - term(self.e021, rhs.e3) + term(self.e0123, rhs.s);
        let e123: i64 = term(self.s, rhs.e123) + term(self.e1, rhs.e23)
            + term(self.e2, rhs.e31) + term(self.e3, rhs.e12)
            + term(self.e23, rhs.e1) + term(self.e31, rhs.e2)
            + term(self.e12, rhs.e3) + term(self.e123, rhs.s);
        let e032: i64 = term(self.s, rhs.e032) - term(self.e0, rhs.e23)
            + term(self.e2, rhs.e03) - term(self.e3, rhs.e02)
            - term(self.e23, rhs.e0) - term(self.e02, rhs.e3)
            + term(self.e03, rhs.e2) + term(self.e032, rhs.s);
        let e013: i64 = term(self.s, rhs.e013) - term(self.e0, rhs.e31)
            - term(self.e1, rhs.e03) + term(self.e3, rhs.e01)
            - term(self.e31, rhs.e0) + term(self.e01, rhs.e3)
            - term(self.e03, rhs.e1) + term(self.e013, rhs.s);
        let e021: i64 = term(self.s, rhs.e021) - term(self.e0, rhs.e12)
            + term(self.e1, rhs.e02) - term(self.e2, rhs.e01)
            - term(self.e12, rhs.e0) - term(self.e01, rhs.e2)
            + term(self.e02, rhs.e1) + term(self.e021, rhs.s);
        Multivector { e0, e1, e2, e3, s, e23, e31, e12, e01, e02, e03, e0123, e123,
            e032, e013, e021 }
    }
}

impl Meet<Scalar> for Multivector {
    type Output = Multivector;

    fn meet(self, rhs: Scalar) -> Multivector {
        let e0: i64 = term(self.e0, rhs.s);
        let e1: i64 = term(self.e1, rhs.s);
        let e2: i64 = term(self.e2, rhs.s);
        let e3: i64 = term(self.e3, rhs.s);
        let s: i64 = term(self.s, rhs.s);
        let e23: i64 = term(self.e23, rhs.s);
        let e31: i64 = term(self.e31, rhs.s);
        let e12: i64 = term(self.e12, rhs.s);
        let e01: i64 = term(self.e01, rhs.s);
        let e02: i64 = term(self.e02, rhs.s);
        let e03: i64 = term(self.e03, rhs.s);
        let e0123: i64 = term(self.e0123, rhs.s);
        let e123: i64 = term(self.e123, rhs.s);
        let e032: i64 = term(self.e032, rhs.s);
        let e013: i64 = term(self.e013, rhs.s);
        let e021: i64 = term(self.e021, rhs.s);
        Multivector { e0, e1, e2, e3, s, e23, e31, e12, e01, e02, e03, e0123, e123,
            e032, e013, e021 }
    }
}

impl Meet<Vector> for Multivector {
    type Output = Multivector;

    fn meet(self, rhs: Vector) -> Multivector {
        let e0: i64 = term(self.s, rhs.e0);
        let e1: i64 = term(self.s, rhs.e1);
        let e2: i64 = term(self.s, rhs.e2);
        let e3: i64 = term(self.s, rhs.e3);
        let s: i64 = 0;
        let e23: i64 = term(self.e2, rhs.e3) - term(self.e3, rhs.e2);
        let e31: i64 = - term(self.e1, rhs.e3) + term(self.e3, rhs.e1);
        let e12: i64 = term(self.e1, rhs.e2) - term(self.e2, rhs.e1);
        let e01: i64 = term(self.e0, rhs.e1) - term(self.e1, rhs.e0);
        let e02: i64 = term(self.e0, rhs.e2) - term(self.e2, rhs.e0);
        let e03: i64 = term(self.e0, rhs.e3) - term(self.e3, rhs.e0);
        let e0123: i64 = - term(self.e123, rhs.e0) - term(self.e032, rhs.e1)
            - term(self.e013, rhs.e2) - term(self.e021, rhs.e3);
        let e123: i64 = term(self.e23, rhs.e1) + term(self.e31, rhs.e2)
            + term(self.e12, rhs.e3);
        let e032: i64 = - term(self.e23, rhs.e0) - term(self.e02, rhs.e3)
            + term(self.e03, rhs.e2);
        let e013: i64 = - term(self.e31, rhs.e0) + term(self.e01, rhs.e3)
            - term(self.e03, rhs.e1);
        let e021: i64 = - term(self.e12, rhs.e0) - term(self.e01, rhs.e2)
            + term(self.e02, rhs.e1);
        Multivector { e0, e1, e2, e3, s, e23, e31, e12, e01, e02, e03, e0123, e123,
            e032, e013, e021 }
    }
}

impl Meet<Bivector> for Multivector {
    type Output = Multivector;

    fn meet(self, rhs: Bivector) -> Multivector {
        let e0: i64 = 0;
        let e1: i64 = 0;
        let e2: i64 = 0;
        let e3: i64 = 0;
        let s: i64 = 0;
        let e23: i64 = term(self.s, rhs.e23);
        let e31: i64 = term(self.s, rhs.e31);
        let e12: i64 = term(self.s, rhs.e12);
        let e01: i64 = term(self.s, rhs.e01);
        let e02: i64 = term(self.s, rhs.e02);
        let e03: i64 = term(self.s, rhs.e03);
        let e0123: i64 = term(self.e23, rhs.e01) + term(self.e31, rhs.e02)
            + term(self.e12, rhs.e03) + term(self.e01, rhs.e23)
            + term(self.e02, rhs.e31) + term(self.e03, rhs.e12);
        let e123: i64 = term(self.e1, rhs.e23) + term(self.e2, rhs.e31)
            + term(self.e3, rhs.e12);
        let e032: i64 = - term(self.e0, rhs.e23) + term(self.e2, rhs.e03)
            - term(self.e3, rhs.e02);
        let e013: i64 = - term(self.e0, rhs.e31) - term(self.e1, rhs.e03)
            + term(self.e3, rhs.e01);
        let e021: i64 = - term(self.e0, rhs.e12) + term(self.e1, rhs.e02)
            - term(self.e2, rhs.e01);
        Multivector { e0, e1, e2, e3, s, e23, e31, e12, e01, e02, e03, e0123, e123,
            e032, e013, e021 }
    }
}

impl Meet<Trivector> for Multivector {
    type Output = Multivector;

    fn meet(self, rhs: Trivector) -> Multivector {
        let e0: i64 = 0;
        let e1: i64 = 0;
        let e2: i64 = 0;
        let e3: i64 = 0;
        let s: i64 = 0;
        let e23: i64 = 0;
        let e31: i64 = 0;
        let e12: i64 = 0;
        let e01: i64 = 0;
        let e02: i64 = 0;
        let e03: i64 = 0;
        let e0123: i64 = term(self.e0, rhs.e123) + term(self.e1, rhs.e032)
            + term(self.e2, rhs.e013) + term(self.e3, rhs.e021);
        let e123: i64 = term(self.s, rhs.e123);
        let e032: i64 = term(self.s, rhs.e032);
        let e013: i64 = term(self.s, rhs.e013);
        let e021: i64 = term(self.s, rhs.e021);
        Multivector { e0, e1, e2, e3, s, e23, e31, e12, e01, e02, e03, e0123, e123,
            e032, e013, e021 }
    }
}

impl Meet<Pseudoscalar> for Multivector {
    type Output = Pseudoscalar;

    fn meet(self, rhs: Pseudoscalar) -> Pseudoscalar {
        let e0123: i64 = term(self.s, rhs.e0123);
        Pseudoscalar { e0123 }
    }
}

impl Meet<Multivector> for Scalar {
    type Output = Multivector;

    fn meet(self, rhs: Multivector) -> Multivector {
        let e0: i64 = term(self.s, rhs.e0);
        let e1: i64 = term(self.s, rhs.e1);
        let e2: i64 = term(self.s, rhs.e2);
        let e3: i64 = term(self.s, rhs.e3);
        let s: i64 = term(self.s, rhs.s);
        let e23: i64 = term(self.s, rhs.e23);
        let e31: i64 = term(self.s, rhs.e31);
        let e12: i64 = term(self.s, rhs.e12);
        let e01: i64 = term(self.s, rhs.e01);
        let e02: i64 = term(self.s, rhs.e02);
        let e03: i64 = term(self.s, rhs.e03);
        let e0123: i64 = term(self.s, rhs.e0123);
        let e123: i64 = term(self.s, rhs.e123);
        let e032: i64 = term(self.s, rhs.e032);
        let e013: i64 = term(self.s, rhs.e013);
        let e021: i64 = term(self.s, rhs.e021);
        Multivector { e0, e1, e2, e3, s, e23, e31, e12, e01, e02, e03, e0123, e123,
            e032, e013, e021 }
    }
}

impl Meet<Scalar> for Scalar {
    type Output = Scalar;

    fn meet(self, rhs: Scalar) -> Scalar {
        let s: i64 = term(self.s, rhs.s);
        Scalar { s }
    }
}

impl Meet<Vector> for Scalar {
    type Output = Vector;

    fn meet(self, rhs: Vector) -> Vector {
        let e0: i64 = term(self.s, rhs.e0);
        let e1: i64 = term(self.s, rhs.e1);
        let e2: i64 = term(self.s, rhs.e2);
        let e3: i64 = term(self.s, rhs.e3);
        Vector { e0, e1, e2, e3 }
    }
}

impl Meet<Bivector> for Scalar {
    type Output = Bivector;

    fn meet(self, rhs: Bivector) -> Bivector {
        let e23: i64 = term(self.s, rhs.e23);
        let e31: i64 = term(self.s, rhs.e31);
        let e12: i64 = term(self.s, rhs.e12);
        let e01: i64 = term(self.s, rhs.e01);
        let e02: i64 = term(self.s, rhs.e02);
        let e03: i64 = term(self.s, rhs.e03);
        Bivector { e23, e31, e12, e01, e02, e03 }
    }
}

impl Meet<Trivector> for Scalar {
    type Output = Trivector;

    fn meet(self, rhs: Trivector) -> Trivector {
        let e123: i64 = term(self.s, rhs.e123);
        let e032: i64 = term(self.s, rhs.e032);
        let e013: i64 = term(self.s, rhs.e013);
        let e021: i64 = term(self.s, rhs.e021);
        Trivector { e123, e032, e013, e021 }
    }
}

impl Meet<Pseudoscalar> for Scalar {
    type Output = Pseudoscalar;

    fn meet(self, rhs: Pseudoscalar) -> Pseudoscalar {
        let e0123: i64 = term(self.s, rhs.e0123);
        Pseudoscalar { e0123 }
    }
}

impl Meet<Multivector> for Vector {
    type Output = Multivector;

    fn meet(self, rhs: Multivector) -> Multivector {
        let e0: i64 = term(self.e0, rhs.s);
        let e1: i64 = term(self.e1, rhs.s);
        let e2: i64 = term(self.e2, rhs.s);
        let e3: i64 = term(self.e3, rhs.s);
        let s: i64 = 0;
        let e23: i64 = term(self.e2, rhs.e3) - term(self.e3, rhs.e2);
        let e31: i64 = - term(self.e1, rhs.e3) + term(self.e3, rhs.e1);
        let e12: i64 = term(self.e1, rhs.e2) - term(self.e2, rhs.e1);
        let e01: i64 = term(self.e0, rhs.e1) - term(self.e1, rhs.e0);
        let e02: i64 = term(self.e0, rhs.e2) - term(self.e2, rhs.e0);
        let e03: i64 = term(self.e0, rhs.e3) - term(self.e3, rhs.e0);
        let e0123: i64 = term(self.e0, rhs.e123) + term(self.e1, rhs.e032)
            + term(self.e2, rhs.e013) + term(self.e3, rhs.e021);
        let e123: i64 = term(self.e1, rhs.e23) + term(self.e2, rhs.e31)
            + term(self.e3, rhs.e12);
        let e032: i64 = - term(self.e0, rhs.e23) + term(self.e2, rhs.e03)
            - term(self.e3, rhs.e02);
        let e013: i64 = - term(self.e0, rhs.e31) - term(self.e1, rhs.e03)
            + term(self.e3, rhs.e01);
        let e021: i64 = - term(self.e0, rhs.e12) + term(self.e1, rhs.e02)
            - term(self.e2, rhs.e01);
        Multivector { e0, e1, e2, e3, s, e23, e31, e12, e01, e02, e03, e0123, e123,
            e032, e013, e021 }
    }
}

impl Meet<Scalar> for Vector {
    type Output = Vector;

    fn meet(self, rhs: Scalar) -> Vector {
        let e0: i64 = term(self.e0, rhs.s);
        let e1: i64 = term(self.e1, rhs.s);
        let e2: i64 = term(self.e2, rhs.s);
        let e3: i64 = term(self.e3, rhs.s);
        Vector { e0, e1, e2, e3 }
    }
}

impl Meet<Vector> for Vector {
    type Output = Bivector;

    fn meet(self, rhs: Vector) -> Bivector {
        let e23: i64 = term(self.e2, rhs.e3) - term(self.e3, rhs.e2);
        let e31: i64 = - term(self.e1, rhs.e3) + term(self.e3, rhs.e1);
        let e12: i64 = term(self.e1, rhs.e2) - term(self.e2, rhs.e1);
        let e01: i64 = term(self.e0, rhs.e1) - term(self.e1, rhs.e0);
        let e02: i64 = term(self.e0, rhs.e2) - term(self.e2, rhs.e0);
        let e03: i64 = term(self.e0, rhs.e3) - term(self.e3, rhs.e0);
        Bivector { e23, e31, e12, e01, e02, e03 }
    }
}

impl Meet<Bivector> for Vector {
    type Output = Trivector;

    fn meet(self, rhs: Bivector) -> Trivector {
        let e123: i64 = term(self.e1, rhs.e23) + term(self.e2, rhs.e31)
            + term(self.e3, rhs.e12);
        let e032: i64 = - term(self.e0, rhs.e23) + term(self.e2, rhs.e03)
            - term(self.e3, rhs.e02);
        let e013: i64 = - term(self.e0, rhs.e31) - term(self.e1, rhs.e03)
            + term(self.e3, rhs.e01);
        let e021: i64 = - term(self.e0, rhs.e12) + term(self.e1, rhs.e02)
            - term(self.e2, rhs.e01);
        Trivector { e123, e032, e013, e021 }
    }
}

impl Meet<Trivector> for Vector {
    type Output = Pseudoscalar;

    fn meet(self, rhs: Trivector) -> Pseudoscalar {
        let e0123: i64 = term(self.e0, rhs.e123) + term(self.e1, rhs.e032)
            + term(self.e2, rhs.e013) + term(self.e3, rhs.e021);
        Pseudoscalar { e0123 }
    }
}

impl Meet<Pseudoscalar> for Vector {
    type Output = Empty;

    fn meet(self, rhs: Pseudoscalar) -> Empty {
        Empty
    }
}

impl Meet<Multivector> for Bivector {
    type Output = Multivector;

    fn meet(self, rhs: Multivector) -> Multivector {
        let e0: i64 = 0;
        let e1: i64 = 0;
        let e2: i64 = 0;
        let e3: i64 = 0;
        let s: i64 = 0;
        let e23: i64 = term(self.e23, rhs.s);
        let e31: i64 = term(self.e31, rhs.s);
        let e12: i64 = term(self.e12, rhs.s);
        let e01: i64 = term(self.e01, rhs.s);
        let e02: i64 = term(self.e02, rhs.s);
        let e03: i64 = term(self.e03, rhs.s);
        let e0123: i64 = term(self.e23, rhs.e01) + term(self.e31, rhs.e02)
            + term(self.e12, rhs.e03) + term(self.e01, rhs.e23)
            + term(self.e02, rhs.e31) + term(self.e03, rhs.e12);
        let e123: i64 = term(self.e23, rhs.e1) + term(self.e31, rhs.e2)
            + term(self.e12, rhs.e3);
        let e032: i64 = - term(self.e23, rhs.e0) - term(self.e02, rhs.e3)
            + term(self.e03, rhs.e2);
        let e013: i64 = - term(self.e31, rhs.e0) + term(self.e01, rhs.e3)
            - term(self.e03, rhs.e1);
        let e021: i64 = - term(self.e12, rhs.e0) - term(self.e01, rhs.e2)
            + term(self.e02, rhs.e1);
        Multivector { e0, e1, e2, e3, s, e23, e31, e12, e01, e02, e03, e0123, e123,
            e032, e013, e021 }
    }
}

impl Meet<Scalar> for Bivector {
    type Output = Bivector;

    fn meet(self, rhs: Scalar) -> Bivector {
        let e23: i64 = term(self.e23, rhs.s);
        let e31: i64 = term(self.e31, rhs.s);
        let e12: i64 = term(self.e12, rhs.s);
        let e01: i64 = term(self.e01, rhs.s);
        let e02: i64 = term(self.e02, rhs.s);
        let e03: i64 = term(self.e03, rhs.s);
        Bivector { e23, e31, e12, e01, e02, e03 }
    }
}

impl Meet<Vector> for Bivector {
    type Output = Trivector;

    fn meet(self, rhs: Vector) -> Trivector {
        let e123: i64 = term(self.e23, rhs.e1) + term(self.e31, rhs.e2)
            + term(self.e12, rhs.e3);
        let e032: i64 = - term(self.e23, rhs.e0) - term(self.e02, rhs.e3)
            + term(self.e03, rhs.e2);
        let e013: i64 = - term(self.e31, rhs.e0) + term(self.e01, rhs.e3)
            - term(self.e03, rhs.e1);
        let e021: i64 = - term(self.e12, rhs.e0) - term(self.e01, rhs.e2)
            + term(self.e02, rhs.e1);
        Trivector { e123, e032, e013, e021 }
    }
}

impl Meet<Bivector> for Bivector {
    type Output = Pseudoscalar;

    fn meet(self, rhs: Bivector) -> Pseudoscalar {
        let e0123: i64 = term(self.e23, rhs.e01) + term(self.e31, rhs.e02)
            + term(self.e12, rhs.e03) + term(self.e01, rhs.e23)
            + term(self.e02, rhs.e31) + term(self.e03, rhs.e12);
        Pseudoscalar { e0123 }
    }
}

impl Meet<Trivector> for Bivector {
    type Output = Empty;

    fn meet(self, rhs: Trivector) -> Empty {
        Empty
    }
}

impl Meet<Pseudoscalar> for Bivector {
    type Output = Empty;

    fn meet(self, rhs: Pseudoscalar) -> Empty {
        Empty
    }
}

impl Meet<Multivector> for Trivector {
    type Output = Multivector;

    fn meet(self, rhs: Multivector) -> Multivector {
        let e0: i64 = 0;
        let e1: i64 = 0;
        let e2: i64 = 0;
        let e3: i64 = 0;
        let s: i64 = 0;
        let e23: i64 = 0;
        let e31: i64 = 0;
        let e12: i64 = 0;
        let e01: i64 = 0;
        let e02: i64 = 0;
        let e03: i64 = 0;
        let e0123: i64 = - term(self.e123, rhs.e0) - term(self.e032, rhs.e1)
            - term(self.e013, rhs.e2) - term(self.e021, rhs.e3);
        let e123: i64 = term(self.e123, rhs.s);
        let e032: i64 = term(self.e032, rhs.s);
        let e013: i64 = term(self.e013, rhs.s);
        let e021: i64 = term(self.e021, rhs.s);
        Multivector { e0, e1, e2, e3, s, e23, e31, e12, e01, e02, e03, e0123, e123,
            e032, e013, e021 }
    }
}

impl Meet<Scalar> for Trivector {
    type Output = Trivector;

    fn meet(self, rhs: Scalar) -> Trivector {
        let e123: i64 = term(self.e123, rhs.s);
        let e032: i64 = term(self.e032, rhs.s);
        let e013: i64 = term(self.e013, rhs.s);
        let e021: i64 = term(self.e021, rhs.s);
        Trivector { e123, e032, e013, e021 }
    }
}

impl Meet<Vector> for Trivector {
    type Output = Pseudoscalar;

    fn meet(self, rhs: Vector) -> Pseudoscalar {
        let e0123: i64 = - term(self.e123, rhs.e0) - term(self.e032, rhs.e1)
            - term(self.e013, rhs.e2) - term(self.e021, rhs.e3);
        Pseudoscalar { e0123 }
    }
}

impl Meet<Bivector> for Trivector {
    type Output = Empty;

    fn meet(self, rhs: Bivector) -> Empty {
        Empty
    }
}

impl Meet<Trivector> for Trivector {
    type Output = Empty;

    fn meet(self, rhs: Trivector) -> Empty {
        Empty
    }
}

impl Meet<Pseudoscalar> for Trivector {
    type Output = Empty;

    fn meet(self, rhs: Pseudoscalar) -> Empty {
        Empty
    }
}

impl Meet<Multivector> for Pseudoscalar {
    type Output = Pseudoscalar;

    fn meet(self, rhs: Multivector) -> Pseudoscalar {
        let e0123: i64 = term(self.e0123, rhs.s);
        Pseudoscalar { e0123 }
    }
}

impl Meet<Scalar> for Pseudoscalar {
    type Output = Pseudoscalar;

    fn meet(self, rhs: Scalar) -> Pseudoscalar {
        let e0123: i64 = term(self.e0123, rhs.s);
        Pseudoscalar { e0123 }
    }
}

impl Meet<Vector> for Pseudoscalar {
    type Output = Empty;

    fn meet(self, rhs: Vector) -> Empty {
        Empty
    }
}

impl Meet<Bivector> for Pseudoscalar {
    type Output = Empty;

    fn meet(self, rhs: Bivector) -> Empty {
        Empty
    }
}

impl Meet<Trivector> for Pseudoscalar {
    type Output = Empty;

    fn meet(self, rhs: Trivector) -> Empty {
        Empty
    }
}

impl Meet<Pseudoscalar> for Pseudoscalar {
    type Output = Empty;

    fn meet(self, rhs: Pseudoscalar) -> Empty {
        Empty
    }
}

impl Meet<Empty> for Empty {
    type Output = Empty;

    fn meet(self, rhs: Empty) -> Empty {
        Empty
    }
}

impl Meet<Empty> for Multivector {
    type Output = Empty;

    fn meet(self, rhs: Empty) -> Empty {
        Empty
    }
}

impl Meet<Empty> for Scalar {
    type Output = Empty;

    fn meet(self, rhs: Empty) -> Empty {
        Empty
    }
}

impl Meet<Empty> for Vector {
    type Output = Empty;

    fn meet(self, rhs: Empty) -> Empty {
        Empty
    }
}

impl Meet<Empty> for Bivector {
    type Output = Empty;

    fn meet(self, rhs: Empty) -> Empty {
        Empty
    }
}

impl Meet<Empty> for Trivector {
    type Output = Empty;

    fn meet(self, rhs: Empty) -> Empty {
        Empty
    }
}

impl Meet<Empty> for Pseudoscalar {
    type Output = Empty;

    fn meet(self, rhs: Empty) -> Empty {
        Empty
    }
}

impl Meet<Multivector> for Empty {
    type Output = Empty;

    fn meet(self, rhs: Multivector) -> Empty {
        Empty
    }
}

impl Meet<Scalar> for Empty {
    type Output = Empty;

    fn meet(self, rhs: Scalar) -> Empty {
        Empty
    }
}

impl Meet<Vector> for Empty {
    type Output = Empty;

    fn meet(self, rhs: Vector) -> Empty {
        Empty
    }
}

impl Meet<Bivector> for Empty {
    type Output = Empty;

    fn meet(self, rhs: Bivector) -> Empty {
        Empty
    }
}

impl Meet<Trivector> for Empty {
    type Output = Empty;

    fn meet(self, rhs: Trivector) -> Empty {
        Empty
    }
}

impl Meet<Pseudoscalar> for Empty {
    type Output = Empty;

    fn meet(self, rhs: Pseudoscalar) -> Empty {
        Empty
    }
}

} // verus!
