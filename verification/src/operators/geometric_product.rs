//! The geometric product: the full Cayley-table product under the

use vstd::prelude::*;

use crate::arith::term;
use crate::values::{Bivector, EgaValue, Empty, Multivector, Pseudoscalar, Scalar, Trivector, Vector};

verus! {

/// The geometric product: the full Cayley-table product under the
/// degenerate metric.
pub trait GeometricProduct<Rhs: EgaValue>: EgaValue {
    /// The statically determined grade of the result.
    type Output: EgaValue;

    /// The geometric product.
    fn geometric_product(self, rhs: Rhs) -> (r: Self::Output)
        requires
            self.bounded(),
            rhs.bounded(),
        ensures
            r.coeffs() == self.coeffs().geometric(rhs.coeffs()),
    ;
}

impl GeometricProduct<Multivector> for Multivector {
    type Output = Multivector;

    fn geometric_product(self, rhs: Multivector) -> Multivector {
        let e0: i64 = term(self.s, rhs.e0) + term(self.e0, rhs.s)
            - term(self.e1, rhs.e01) - term(self.e2, rhs.e02)
            - term(self.e3, rhs.e03) + term(self.e23, rhs.e032)
            + term(self.e31, rhs.e013) + term(self.e12, rhs.e021)
            + term(self.e01, rhs.e1) + term(self.e02, rhs.e2)
            + term(self.e03, rhs.e3) + term(self.e123, rhs.e0123)
            + term(self.e032, rhs.e23) + term(self.e013, rhs.e31)
            + term(self.e021, rhs.e12) - term(self.e0123, rhs.e123);
        let e1: i64 = term(self.s, rhs.e1) + term(self.e1, rhs.s)
            - term(self.e2, rhs.e12) + term(self.e3, rhs.e31)
            - term(self.e23, rhs.e123) - term(self.e31, rhs.e3)
            + term(self.e12, rhs.e2) - term(self.e123, rhs.e23);
        let e2: i64 = term(self.s, rhs.e2) + term(self.e1, rhs.e12)
            + term(self.e2, rhs.s) - term(self.e3, rhs.e23) + term(self.e23, rhs.e3)
            - term(self.e31, rhs.e123) - term(self.e12, rhs.e1)
            - term(self.e123, rhs.e31);
        let e3: i64 = term(self.s, rhs.e3) - term(self.e1, rhs.e31)
            + term(self.e2, rhs.e23) + term(self.e3, rhs.s) - term(self.e23, rhs.e2)
            + term(self.e31, rhs.e1) - term(self.e12, rhs.e123)
            - term(self.e123, rhs.e12);
        let s: i64 = term(self.s, rhs.s) + term(self.e1, rhs.e1)
            + term(self.e2, rhs.e2) + term(self.e3, rhs.e3) - term(self.e23, rhs.e23)
            - term(self.e31, rhs.e31) - term(self.e12, rhs.e12)
            - term(self.e123, rhs.e123);
        let e23: i64 = term(self.s, rhs.e23) + term(self.e1, rhs.e123)
            + term(self.e2, rhs.e3) - term(self.e3, rhs.e2) + term(self.e23, rhs.s)
            - term(self.e31, rhs.e12) + term(self.e12, rhs.e31)
            + term(self.e123, rhs.e1);
        let e31: i64 = term(self.s, rhs.e31) - term(self.e1, rhs.e3)
            + term(self.e2, rhs.e123) + term(self.e3, rhs.e1)
            + term(self.e23, rhs.e12) + term(self.e31, rhs.s)
            - term(self.e12, rhs.e23) + term(self.e123, rhs.e2);
        let e12: i64 = term(self.s, rhs.e12) + term(self.e1, rhs.e2)
            - term(self.e2, rhs.e1) + term(self.e3, rhs.e123)
            - term(self.e23, rhs.e31) + term(self.e31, rhs.e23)
            + term(self.e12, rhs.s) + term(self.e123, rhs.e3);
        let e01: i64 = term(self.s, rhs.e01) + term(self.e0, rhs.e1)
            - term(self.e1, rhs.e0) - term(self.e2, rhs.e021)
            + term(self.e3, rhs.e013) - term(self.e23, rhs.e0123)
            - term(self.e31, rhs.e03) + term(self.e12, rhs.e02)
            + term(self.e01, rhs.s) - term(self.e02, rhs.e12)
            + term(self.e03, rhs.e31) - term(self.e123, rhs.e032)
            + term(self.e032, rhs.e123) + term(self.e013, rhs.e3)
            - term(self.e021, rhs.e2) - term(self.e0123, rhs.e23);
        let e02: i64 = term(self.s, rhs.e02) + term(self.e0, rhs.e2)
            + term(self.e1, rhs.e021) - term(self.e2, rhs.e0)
            - term(self.e3, rhs.e032) + term(self.e23, rhs.e03)
            - term(self.e31, rhs.e0123) - term(self.e12, rhs.e01)
            + term(self.e01, rhs.e12) + term(self.e02, rhs.s)
            - term(self.e03, rhs.e23) - term(self.e123, rhs.e013)
            - term(self.e032, rhs.e3) + term(self.e013, rhs.e123)
            + term(self.e021, rhs.e1) - term(self.e0123, rhs.e31);
        let e03: i64 = term(self.s, rhs.e03) + term(self.e0, rhs.e3)
            - term(self.e1, rhs.e013) + term(self.e2, rhs.e032)
            - term(self.e3, rhs.e0) - term(self.e23, rhs.e02)
            + term(self.e31, rhs.e01) - term(self.e12, rhs.e0123)
            - term(self.e01, rhs.e31) + term(self.e02, rhs.e23)
            + term(self.e03, rhs.s) - term(self.e123, rhs.e021)
            + term(self.e032, rhs.e2) - term(self.e013, rhs.e1)
            + term(self.e021, rhs.e123) - term(self.e0123, rhs.e12);
        let e0123: i64 = term(self.s, rhs.e0123) + term(self.e0, rhs.e123)
            + term(self.e1, rhs.e032) + term(self.e2, rhs.e013)
            + term(self.e3, rhs.e021) + term(self.e23, rhs.e01)
            + term(self.e31, rhs.e02) + term(self.e12, rhs.e03)
            + term(self.e01, rhs.e23) + term(self.e02, rhs.e31)
            + term(self.e03, rhs.e12) - term(self.e123, rhs.e0)
            - term(self.e032, rhs.e1) - term(self.e013, rhs.e2)
            - term(self.e021, rhs.e3) + term(self.e0123, rhs.s);
        let e123: i64 = term(self.s, rhs.e123) + term(self.e1, rhs.e23)
            + term(self.e2, rhs.e31) + term(self.e3, rhs.e12)
            + term(self.e23, rhs.e1) + term(self.e31, rhs.e2)
            + term(self.e12, rhs.e3) + term(self.e123, rhs.s);
        let e032: i64 = term(self.s, rhs.e032) - term(self.e0, rhs.e23)
            + term(self.e1, rhs.e0123) + term(self.e2, rhs.e03)
            - term(self.e3, rhs.e02) - term(self.e23, rhs.e0)
            - term(self.e31, rhs.e021) + term(self.e12, rhs.e013)
            - term(self.e01, rhs.e123) - term(self.e02, rhs.e3)
            + term(self.e03, rhs.e2) + term(self.e123, rhs.e01)
            + term(self.e032, rhs.s) - term(self.e013, rhs.e12)
            + term(self.e021, rhs.e31) - term(self.e0123, rhs.e1);
        let e013: i64 = term(self.s, rhs.e013) - term(self.e0, rhs.e31)
            - term(self.e1, rhs.e03) + term(self.e2, rhs.e0123)
            + term(self.e3, rhs.e01) + term(self.e23, rhs.e021)
            - term(self.e31, rhs.e0) - term(self.e12, rhs.e032)
            + term(self.e01, rhs.e3) - term(self.e02, rhs.e123)
            - term(self.e03, rhs.e1) + term(self.e123, rhs.e02)
            + term(self.e032, rhs.e12) + term(self.e013, rhs.s)
            - term(self.e021, rhs.e23) - term(self.e0123, rhs.e2);
        let e021: i64 = term(self.s, rhs.e021) - term(self.e0, rhs.e12)
            + term(self.e1, rhs.e02) - term(self.e2, rhs.e01)
            + term(self.e3, rhs.e0123) - term(self.e23, rhs.e013)
            + term(self.e31, rhs.e032) - term(self.e12, rhs.e0)
            - term(self.e01, rhs.e2) + term(self.e02, rhs.e1)
            - term(self.e03, rhs.e123) + term(self.e123, rhs.e03)
            - term(self.e032, rhs.e31) + term(self.e013, rhs.e23)
            + term(self.e021, rhs.s) - term(self.e0123, rhs.e3);
        Multivector { e0, e1, e2, e3, s, e23, e31, e12, e01, e02, e03, e0123, e123,
            e032, e013, e021 }
    }
}

impl GeometricProduct<Scalar> for Multivector {
    type Output = Multivector;

    fn geometric_product(self, rhs: Scalar) -> Multivector {
        let e0: i64 = term(self.e0, rhs.s);
        let e1: i64 = term(self.e1, rhs.s);
        let e2: i64 = term(self.e2, rhs.s);
        let e3: i64 = term(self.e3, rhs.s);
        let s: i64 = term(self.s, rhs.s);
        let e23: i64 = term(self.e23, rhs.s);
        let e31: i64 = term(self.e31, rhs.s);
        let e12: i64 = term(self.e12, rhs.s);
        let e01: i64 = term(self.e01, rhs.s);
        let e02: i64 = term(self.e02, rhs.s);
        let e03: i64 = term(self.e03, rhs.s);
        let e0123: i64 = term(self.e0123, rhs.s);
        let e123: i64 = term(self.e123, rhs.s);
        let e032: i64 = term(self.e032, rhs.s);
        let e013: i64 = term(self.e013, rhs.s);
        let e021: i64 = term(self.e021, rhs.s);
        Multivector { e0, e1, e2, e3, s, e23, e31, e12, e01, e02, e03, e0123, e123,
            e032, e013, e021 }
    }
}

impl GeometricProduct<Vector> for Multivector {
    type Output = Multivector;

    fn geometric_product(self, rhs: Vector) -> Multivector {
        let e0: i64 = term(self.s, rhs.e0) + term(self.e01, rhs.e1)
            + term(self.e02, rhs.e2) + term(self.e03, rhs.e3);
        let e1: i64 = term(self.s, rhs.e1) - term(self.e31, rhs.e3)
            + term(self.e12, rhs.e2);
        let e2: i64 = term(self.s, rhs.e2) + term(self.e23, rhs.e3)
            - term(self.e12, rhs.e1);
        let e3: i64 = term(self.s, rhs.e3) - term(self.e23, rhs.e2)
            + term(self.e31, rhs.e1);
        let s: i64 = term(self.e1, rhs.e1) + term(self.e2, rhs.e2)
            + term(self.e3, rhs.e3);
        let e23: i64 = term(self.e2, rhs.e3) - term(self.e3, rhs.e2)
            + term(self.e123, rhs.e1);
        let e31: i64 = - term(self.e1, rhs.e3) + term(self.e3, rhs.e1)
            + term(self.e123, rhs.e2);
        let e12: i64 = term(self.e1, rhs.e2) - term(self.e2, rhs.e1)
            + term(self.e123, rhs.e3);
        let e01: i64 = term(self.e0, rhs.e1) - term(self.e1, rhs.e0)
            + term(self.e013, rhs.e3) - term(self.e021, rhs.e2);
        let e02: i64 = term(self.e0, rhs.e2) - term(self.e2, rhs.e0)
            - term(self.e032, rhs.e3) + term(self.e021, rhs.e1);
        let e03: i64 = term(self.e0, rhs.e3) - term(self.e3, rhs.e0)
            + term(self.e032, rhs.e2) - term(self.e013, rhs.e1);
        let e0123: i64 = - term(self.e123, rhs.e0) - term(self.e032, rhs.e1)
            - term(self.e013, rhs.e2) - term(self.e021, rhs.e3);
        let e123: i64 = term(self.e23, rhs.e1) + term(self.e31, rhs.e2)
            + term(self.e12, rhs.e3);
        let e032: i64 = - term(self.e23, rhs.e0) - term(self.e02, rhs.e3)
            + term(self.e03, rhs.e2) - term(self.e0123, rhs.e1);
        let e013: i64 = - term(self.e31, rhs.e0) + term(self.e01, rhs.e3)
            - term(self.e03, rhs.e1) - term(self.e0123, rhs.e2);
        let e021: i64 = - term(self.e12, rhs.e0) - term(self.e01, rhs.e2)
            + term(self.e02, rhs.e1) - term(self.e0123, rhs.e3);
        Multivector { e0, e1, e2, e3, s, e23, e31, e12, e01, e02, e03, e0123, e123,
            e032, e013, e021 }
    }
}

impl GeometricProduct<Bivector> for Multivector {
    type Output = Multivector;

    fn geometric_product(self, rhs: Bivector) -> Multivector {
        let e0: i64 = - term(self.e1, rhs.e01) - term(self.e2, rhs.e02)
            - term(self.e3, rhs.e03) + term(self.e032, rhs.e23)
            + term(self.e013, rhs.e31) + term(self.e021, rhs.e12);
        let e1: i64 = - term(self.e2, rhs.e12) + term(self.e3, rhs.e31)
            - term(self.e123, rhs.e23);
        let e2: i64 = term(self.e1, rhs.e12) - term(self.e3, rhs.e23)
            - term(self.e123, rhs.e31);
        let e3: i64 = - term(self.e1, rhs.e31) + term(self.e2, rhs.e23)
            - term(self.e123, rhs.e12);
        let s: i64 = - term(self.e23, rhs.e23) - term(self.e31, rhs.e31)
            - term(self.e12, rhs.e12);
        let e23: i64 = term(self.s, rhs.e23) - term(self.e31, rhs.e12)
            + term(self.e12, rhs.e31);
        let e31: i64 = term(self.s, rhs.e31) + term(self.e23, rhs.e12)
            - term(self.e12, rhs.e23);
        let e12: i64 = term(self.s, rhs.e12) - term(self.e23, rhs.e31)
            + term(self.e31, rhs.e23);
        let e01: i64 = term(self.s, rhs.e01) - term(self.e31, rhs.e03)
            + term(self.e12, rhs.e02) - term(self.e02, rhs.e12)
            + term(self.e03, rhs.e31) - term(self.e0123, rhs.e23);
        let e02: i64 = term(self.s, rhs.e02) + term(self.e23, rhs.e03)
            - term(self.e12, rhs.e01) + term(self.e01, rhs.e12)
            - term(self.e03, rhs.e23) - term(self.e0123, rhs.e31);
        let e03: i64 = term(self.s, rhs.e03) - term(self.e23, rhs.e02)
            + term(self.e31, rhs.e01) - term(self.e01, rhs.e31)
            + term(self.e02, rhs.e23) - term(self.e0123, rhs.e12);
        let e0123: i64 = term(self.e23, rhs.e01) + term(self.e31, rhs.e02)
            + term(self.e12, rhs.e03) + term(self.e01, rhs.e23)
            + term(self.e02, rhs.e31) + term(self.e03, rhs.e12);
        let e123: i64 = term(self.e1, rhs.e23) + term(self.e2, rhs.e31)
            + term(self.e3, rhs.e12);
        let e032: i64 = - term(self.e0, rhs.e23) + term(self.e2, rhs.e03)
            - term(self.e3, rhs.e02) + term(self.e123, rhs.e01)
            - term(self.e013, rhs.e12) + term(self.e021, rhs.e31);
        let e013: i64 = - term(self.e0, rhs.e31) - term(self.e1, rhs.e03)
            + term(self.e3, rhs.e01) + term(self.e123, rhs.e02)
            + term(self.e032, rhs.e12) - term(self.e021, rhs.e23);
        let e021: i64 = - term(self.e0, rhs.e12) + term(self.e1, rhs.e02)
            - term(self.e2, rhs.e01) + term(self.e123, rhs.e03)
            - term(self.e032, rhs.e31) + term(self.e013, rhs.e23);
        Multivector { e0, e1, e2, e3, s, e23, e31, e12, e01, e02, e03, e0123, e123,
            e032, e013, e021 }
    }
}

impl GeometricProduct<Trivector> for Multivector {
    type Output = Multivector;

    fn geometric_product(self, rhs: Trivector) -> Multivector {
        let e0: i64 = term(self.e23, rhs.e032) + term(self.e31, rhs.e013)
            + term(self.e12, rhs.e021) - term(self.e0123, rhs.e123);
        let e1: i64 = - term(self.e23, rhs.e123);
        let e2: i64 = - term(self.e31, rhs.e123);
        let e3: i64 = - term(self.e12, rhs.e123);
        let s: i64 = - term(self.e123, rhs.e123);
        let e23: i64 = term(self.e1, rhs.e123);
        let e31: i64 = term(self.e2, rhs.e123);
        let e12: i64 = term(self.e3, rhs.e123);
        let e01: i64 = - term(self.e2, rhs.e021) + term(self.e3, rhs.e013)
            - term(self.e123, rhs.e032) + term(self.e032, rhs.e123);
        let e02: i64 = term(self.e1, rhs.e021) - term(self.e3, rhs.e032)
            - term(self.e123, rhs.e013) + term(self.e013, rhs.e123);
        let e03: i64 = - term(self.e1, rhs.e013) + term(self.e2, rhs.e032)
            - term(self.e123, rhs.e021) + term(self.e021, rhs.e123);
        let e0123: i64 = term(self.e0, rhs.e123) + term(self.e1, rhs.e032)
            + term(self.e2, rhs.e013) + term(self.e3, rhs.e021);
        let e123: i64 = term(self.s, rhs.e123);
        let e032: i64 = term(self.s, rhs.e032) - term(self.e31, rhs.e021)
            + term(self.e12, rhs.e013) - term(self.e01, rhs.e123);
        let e013: i64 = term(self.s, rhs.e013) + term(self.e23, rhs.e021)
            - term(self.e12, rhs.e032) - term(self.e02, rhs.e123);
        let e021: i64 = term(self.s, rhs.e021) - term(self.e23, rhs.e013)
            + term(self.e31, rhs.e032) - term(self.e03, rhs.e123);
        Multivector { e0, e1, e2, e3, s, e23, e31, e12, e01, e02, e03, e0123, e123,
            e032, e013, e021 }
    }
}

impl GeometricProduct<Pseudoscalar> for Multivector {
    type Output = Multivector;

    fn geometric_product(self, rhs: Pseudoscalar) -> Multivector {
        let e0: i64 = term(self.e123, rhs.e0123);
        let e1: i64 = 0;
        let e2: i64 = 0;
        let e3: i64 = 0;
        let s: i64 = 0;
        let e23: i64 = 0;
        let e31: i64 = 0;
        let e12: i64 = 0;
        let e01: i64 = - term(self.e23, rhs.e0123);
        let e02: i64 = - term(self.e31, rhs.e0123);
        let e03: i64 = - term(self.e12, rhs.e0123);
        let e0123: i64 = term(self.s, rhs.e0123);
        let e123: i64 = 0;
        let e032: i64 = term(self.e1, rhs.e0123);
        let e013: i64 = term(self.e2, rhs.e0123);
        let e021: i64 = term(self.e3, rhs.e0123);
        Multivector { e0, e1, e2, e3, s, e23, e31, e12, e01, e02, e03, e0123, e123,
            e032, e013, e021 }
    }
}

impl GeometricProduct<Multivector> for Scalar {
    type Output = Multivector;

    fn geometric_product(self, rhs: Multivector) -> Multivector {
        let e0: i64 = term(self.s, rhs.e0);
        let e1: i64 = term(self.s, rhs.e1);
        let e2: i64 = term(self.s, rhs.e2);
        let e3: i64 = term(self.s, rhs.e3);
        let s: i64 = term(self.s, rhs.s);
        let e23: i64 = term(self.s, rhs.e23);
        let e31: i64 = term(self.s, rhs.e31);
        let e12: i64 = term(self.s, rhs.e12);
        let e01: i64 = term(self.s, rhs.e01);
        let e02: i64 = term(self.s, rhs.e02);
        let e03: i64 = term(self.s, rhs.e03);
        let e0123: i64 = term(self.s, rhs.e0123);
        let e123: i64 = term(self.s, rhs.e123);
        let e032: i64 = term(self.s, rhs.e032);
        let e013: i64 = term(self.s, rhs.e013);
        let e021: i64 = term(self.s, rhs.e021);
        Multivector { e0, e1, e2, e3, s, e23, e31, e12, e01, e02, e03, e0123, e123,
            e032, e013, e021 }
    }
}

impl GeometricProduct<Scalar> for Scalar {
    type Output = Scalar;

    fn geometric_product(self, rhs: Scalar) -> Scalar {
        let s: i64 = term(self.s, rhs.s);
        Scalar { s }
    }
}

impl GeometricProduct<Vector> for Scalar {
    type Output = Vector;

    fn geometric_product(self, rhs: Vector) -> Vector {
        let e0: i64 = term(self.s, rhs.e0);
        let e1: i64 = term(self.s, rhs.e1);
        let e2: i64 = term(self.s, rhs.e2);
        let e3: i64 = term(self.s, rhs.e3);
        Vector { e0, e1, e2, e3 }
    }
}

impl GeometricProduct<Bivector> for Scalar {
    type Output = Bivector;

    fn geometric_product(self, rhs: Bivector) -> Bivector {
        let e23: i64 = term(self.s, rhs.e23);
        let e31: i64 = term(self.s, rhs.e31);
        let e12: i64 = term(self.s, rhs.e12);
        let e01: i64 = term(self.s, rhs.e01);
        let e02: i64 = term(self.s, rhs.e02);
        let e03: i64 = term(self.s, rhs.e03);
        Bivector { e23, e31, e12, e01, e02, e03 }
    }
}

impl GeometricProduct<Trivector> for Scalar {
    type Output = Trivector;

    fn geometric_product(self, rhs: Trivector) -> Trivector {
        let e123: i64 = term(self.s, rhs.e123);
        let e032: i64 = term(self.s, rhs.e032);
        let e013: i64 = term(self.s, rhs.e013);
        let e021: i64 = term(self.s, rhs.e021);
        Trivector { e123, e032, e013, e021 }
    }
}

impl GeometricProduct<Pseudoscalar> for Scalar {
    type Output = Pseudoscalar;

    fn geometric_product(self, rhs: Pseudoscalar) -> Pseudoscalar {
        let e0123: i64 = term(self.s, rhs.e0123);
        Pseudoscalar { e0123 }
    }
}

impl GeometricProduct<Multivector> for Vector {
    type Output = Multivector;

    fn geometric_product(self, rhs: Multivector) -> Multivector {
        let e0: i64 = term(self.e0, rhs.s) - term(self.e1, rhs.e01)
            - term(self.e2, rhs.e02) - term(self.e3, rhs.e03);
        let e1: i64 = term(self.e1, rhs.s) - term(self.e2, rhs.e12)
            + term(self.e3, rhs.e31);
        let e2: i64 = term(self.e1, rhs.e12) + term(self.e2, rhs.s)
            - term(self.e3, rhs.e23);
        let e3: i64 = - term(self.e1, rhs.e31) + term(self.e2, rhs.e23)
            + term(self.e3, rhs.s);
        let s: i64 = term(self.e1, rhs.e1) + term(self.e2, rhs.e2)
            + term(self.e3, rhs.e3);
        let e23: i64 = term(self.e1, rhs.e123) + term(self.e2, rhs.e3)
            - term(self.e3, rhs.e2);
        let e31: i64 = - term(self.e1, rhs.e3) + term(self.e2, rhs.e123)
            + term(self.e3, rhs.e1);
        let e12: i64 = term(self.e1, rhs.e2) - term(self.e2, rhs.e1)
            + term(self.e3, rhs.e123);
        let e01: i64 = term(self.e0, rhs.e1) - term(self.e1, rhs.e0)
            - term(self.e2, rhs.e021) + term(self.e3, rhs.e013);
        let e02: i64 = term(self.e0, rhs.e2) + term(self.e1, rhs.e021)
            - term(self.e2, rhs.e0) - term(self.e3, rhs.e032);
        let e03: i64 = term(self.e0, rhs.e3) - term(self.e1, rhs.e013)
            + term(self.e2, rhs.e032) - term(self.e3, rhs.e0);
        let e0123: i64 = term(self.e0, rhs.e123) + term(self.e1, rhs.e032)
            + term(self.e2, rhs.e013) + term(self.e3, rhs.e021);
        let e123: i64 = term(self.e1, rhs.e23) + term(self.e2, rhs.e31)
            + term(self.e3, rhs.e12);
        let e032: i64 = - term(self.e0, rhs.e23) + term(self.e1, rhs.e0123)
            + term(self.e2, rhs.e03) - term(self.e3, rhs.e02);
        let e013: i64 = - term(self.e0, rhs.e31) - term(self.e1, rhs.e03)
            + term(self.e2, rhs.e0123) + term(self.e3, rhs.e01);
        let e021: i64 = - term(self.e0, rhs.e12) + term(self.e1, rhs.e02)
            - term(self.e2, rhs.e01) + term(self.e3, rhs.e0123);
        Multivector { e0, e1, e2, e3, s, e23, e31, e12, e01, e02, e03, e0123, e123,
            e032, e013, e021 }
    }
}

impl GeometricProduct<Scalar> for Vector {
    type Output = Vector;

    fn geometric_product(self, rhs: Scalar) -> Vector {
        let e0: i64 = term(self.e0, rhs.s);
        let e1: i64 = term(self.e1, rhs.s);
        let e2: i64 = term(self.e2, rhs.s);
        let e3: i64 = term(self.e3, rhs.s);
        Vector { e0, e1, e2, e3 }
    }
}

impl GeometricProduct<Vector> for Vector {
    type Output = Multivector;

    fn geometric_product(self, rhs: Vector) -> Multivector {
        let e0: i64 = 0;
        let e1: i64 = 0;
        let e2: i64 = 0;
        let e3: i64 = 0;
        let s: i64 = term(self.e1, rhs.e1) + term(self.e2, rhs.e2)
            + term(self.e3, rhs.e3);
        let e23: i64 = term(self.e2, rhs.e3) - term(self.e3, rhs.e2);
        let e31: i64 = - term(self.e1, rhs.e3) + term(self.e3, rhs.e1);
        let e12: i64 = term(self.e1, rhs.e2) - term(self.e2, rhs.e1);
        let e01: i64 = term(self.e0, rhs.e1) - term(self.e1, rhs.e0);
        let e02: i64 = term(self.e0, rhs.e2) - term(self.e2, rhs.e0);
        let e03: i64 = term(self.e0, rhs.e3) - term(self.e3, rhs.e0);
        let e0123: i64 = 0;
        let e123: i64 = 0;
        let e032: i64 = 0;
        let e013: i64 = 0;
        let e021: i64 = 0;
        Multivector { e0, e1, e2, e3, s, e23, e31, e12, e01, e02, e03, e0123, e123,
            e032, e013, e021 }
    }
}

impl GeometricProduct<Bivector> for Vector {
    type Output = Multivector;

    fn geometric_product(self, rhs: Bivector) -> Multivector {
        let e0: i64 = - term(self.e1, rhs.e01) - term(self.e2, rhs.e02)
            - term(self.e3, rhs.e03);
        let e1: i64 = - term(self.e2, rhs.e12) + term(self.e3, rhs.e31);
        let e2: i64 = term(self.e1, rhs.e12) - term(self.e3, rhs.e23);
        let e3: i64 = - term(self.e1, rhs.e31) + term(self.e2, rhs.e23);
        let s: i64 = 0;
        let e23: i64 = 0;
        let e31: i64 = 0;
        let e12: i64 = 0;
        let e01: i64 = 0;
        let e02: i64 = 0;
        let e03: i64 = 0;
        let e0123: i64 = 0;
        let e123: i64 = term(self.e1, rhs.e23) + term(self.e2, rhs.e31)
            + term(self.e3, rhs.e12);
        let e032: i64 = - term(self.e0, rhs.e23) + term(self.e2, rhs.e03)
            - term(self.e3, rhs.e02);
        let e013: i64 = - term(self.e0, rhs.e31) - term(self.e1, rhs.e03)
            + term(self.e3, rhs.e01);
        let e021: i64 = - term(self.e0, rhs.e12) + term(self.e1, rhs.e02)
            - term(self.e2, rhs.e01);
        Multivector { e0, e1, e2, e3, s, e23, e31, e12, e01, e02, e03, e0123, e123,
            e032, e013, e021 }
    }
}

impl GeometricProduct<Trivector> for Vector {
    type Output = Multivector;

    fn geometric_product(self, rhs: Trivector) -> Multivector {
        let e0: i64 = 0;
        let e1: i64 = 0;
        let e2: i64 = 0;
        let e3: i64 = 0;
        let s: i64 = 0;
        let e23: i64 = term(self.e1, rhs.e123);
        let e31: i64 = term(self.e2, rhs.e123);
        let e12: i64 = term(self.e3, rhs.e123);
        let e01: i64 = - term(self.e2, rhs.e021) + term(self.e3, rhs.e013);
        let e02: i64 = term(self.e1, rhs.e021) - term(self.e3, rhs.e032);
        let e03: i64 = - term(self.e1, rhs.e013) + term(self.e2, rhs.e032);
        let e0123: i64 = term(self.e0, rhs.e123) + term(self.e1, rhs.e032)
            + term(self.e2, rhs.e013) + term(self.e3, rhs.e021);
        let e123: i64 = 0;
        let e032: i64 = 0;
        let e013: i64 = 0;
        let e021: i64 = 0;
        Multivector { e0, e1, e2, e3, s, e23, e31, e12, e01, e02, e03, e0123, e123,
            e032, e013, e021 }
    }
}

impl GeometricProduct<Pseudoscalar> for Vector {
    type Output = Trivector;

    fn geometric_product(self, rhs: Pseudoscalar) -> Trivector {
        let e123: i64 = 0;
        let e032: i64 = term(self.e1, rhs.e0123);
        let e013: i64 = term(self.e2, rhs.e0123);
        let e021: i64 = term(self.e3, rhs.e0123);
        Trivector { e123, e032, e013, e021 }
    }
}

impl GeometricProduct<Multivector> for Bivector {
    type Output = Multivector;

    fn geometric_product(self, rhs: Multivector) -> Multivector {
        let e0: i64 = term(self.e23, rhs.e032) + term(self.e31, rhs.e013)
            + term(self.e12, rhs.e021) + term(self.e01, rhs.e1)
            + term(self.e02, rhs.e2) + term(self.e03, rhs.e3);
        let e1: i64 = - term(self.e23, rhs.e123) - term(self.e31, rhs.e3)
            + term(self.e12, rhs.e2);
        let e2: i64 = term(self.e23, rhs.e3) - term(self.e31, rhs.e123)
            - term(self.e12, rhs.e1);
        let e3: i64 = - term(self.e23, rhs.e2) + term(self.e31, rhs.e1)
            - term(self.e12, rhs.e123);
        let s: i64 = - term(self.e23, rhs.e23) - term(self.e31, rhs.e31)
            - term(self.e12, rhs.e12);
        let e23: i64 = term(self.e23, rhs.s) - term(self.e31, rhs.e12)
            + term(self.e12, rhs.e31);
        let e31: i64 = term(self.e23, rhs.e12) + term(self.e31, rhs.s)
            - term(self.e12, rhs.e23);
        let e12: i64 = - term(self.e23, rhs.e31) + term(self.e31, rhs.e23)
            + term(self.e12, rhs.s);
        let e01: i64 = - term(self.e23, rhs.e0123) - term(self.e31, rhs.e03)
            + term(self.e12, rhs.e02) + term(self.e01, rhs.s)
            - term(self.e02, rhs.e12) + term(self.e03, rhs.e31);
        let e02: i64 = term(self.e23, rhs.e03) - term(self.e31, rhs.e0123)
            - term(self.e12, rhs.e01) + term(self.e01, rhs.e12)
            + term(self.e02, rhs.s) - term(self.e03, rhs.e23);
        let e03: i64 = - term(self.e23, rhs.e02) + term(self.e31, rhs.e01)
            - term(self.e12, rhs.e0123) - term(self.e01, rhs.e31)
            + term(self.e02, rhs.e23) + term(self.e03, rhs.s);
        let e0123: i64 = term(self.e23, rhs.e01) + term(self.e31, rhs.e02)
            + term(self.e12, rhs.e03) + term(self.e01, rhs.e23)
            + term(self.e02, rhs.e31) + term(self.e03, rhs.e12);
        let e123: i64 = term(self.e23, rhs.e1) + term(self.e31, rhs.e2)
            + term(self.e12, rhs.e3);
        let e032: i64 = - term(self.e23, rhs.e0) - term(self.e31, rhs.e021)
            + term(self.e12, rhs.e013) - term(self.e01, rhs.e123)
            - term(self.e02, rhs.e3) + term(self.e03, rhs.e2);
        let e013: i64 = term(self.e23, rhs.e021) - term(self.e31, rhs.e0)
            - term(self.e12, rhs.e032) + term(self.e01, rhs.e3)
            - term(self.e02, rhs.e123) - term(self.e03, rhs.e1);
        let e021: i64 = - term(self.e23, rhs.e013) + term(self.e31, rhs.e032)
            - term(self.e12, rhs.e0) - term(self.e01, rhs.e2)
            + term(self.e02, rhs.e1) - term(self.e03, rhs.e123);
        Multivector { e0, e1, e2, e3, s, e23, e31, e12, e01, e02, e03, e0123, e123,
            e032, e013, e021 }
    }
}

impl GeometricProduct<Scalar> for Bivector {
    type Output = Bivector;

    fn geometric_product(self, rhs: Scalar) -> Bivector {
        let e23: i64 = term(self.e23, rhs.s);
        let e31: i64 = term(self.e31, rhs.s);
        let e12: i64 = term(self.e12, rhs.s);
        let e01: i64 = term(self.e01, rhs.s);
        let e02: i64 = term(self.e02, rhs.s);
        let e03: i64 = term(self.e03, rhs.s);
        Bivector { e23, e31, e12, e01, e02, e03 }
    }
}

impl GeometricProduct<Vector> for Bivector {
    type Output = Multivector;

    fn geometric_product(self, rhs: Vector) -> Multivector {
        let e0: i64 = term(self.e01, rhs.e1) + term(self.e02, rhs.e2)
            + term(self.e03, rhs.e3);
        let e1: i64 = - term(self.e31, rhs.e3) + term(self.e12, rhs.e2);
        let e2: i64 = term(self.e23, rhs.e3) - term(self.e12, rhs.e1);
        let e3: i64 = - term(self.e23, rhs.e2) + term(self.e31, rhs.e1);
        let s: i64 = 0;
        let e23: i64 = 0;
        let e31: i64 = 0;
        let e12: i64 = 0;
        let e01: i64 = 0;
        let e02: i64 = 0;
        let e03: i64 = 0;
        let e0123: i64 = 0;
        let e123: i64 = term(self.e23, rhs.e1) + term(self.e31, rhs.e2)
            + term(self.e12, rhs.e3);
        let e032: i64 = - term(self.e23, rhs.e0) - term(self.e02, rhs.e3)
            + term(self.e03, rhs.e2);
        let e013: i64 = - term(self.e31, rhs.e0) + term(self.e01, rhs.e3)
            - term(self.e03, rhs.e1);
        let e021: i64 = - term(self.e12, rhs.e0) - term(self.e01, rhs.e2)
            + term(self.e02, rhs.e1);
        Multivector { e0, e1, e2, e3, s, e23, e31, e12, e01, e02, e03, e0123, e123,
            e032, e013, e021 }
    }
}

impl GeometricProduct<Bivector> for Bivector {
    type Output = Multivector;

    fn geometric_product(self, rhs: Bivector) -> Multivector {
        let e0: i64 = 0;
        let e1: i64 = 0;
        let e2: i64 = 0;
        let e3: i64 = 0;
        let s: i64 = - term(self.e23, rhs.e23) - term(self.e31, rhs.e31)
            - term(self.e12, rhs.e12);
        let e23: i64 = - term(self.e31, rhs.e12) + term(self.e12, rhs.e31);
        let e31: i64 = term(self.e23, rhs.e12) - term(self.e12, rhs.e23);
        let e12: i64 = - term(self.e23, rhs.e31) + term(self.e31, rhs.e23);
        let e01: i64 = - term(self.e31, rhs.e03) + term(self.e12, rhs.e02)
            - term(self.e02, rhs.e12) + term(self.e03, rhs.e31);
        let e02: i64 = term(self.e23, rhs.e03) - term(self.e12, rhs.e01)
            + term(self.e01, rhs.e12) - term(self.e03, rhs.e23);
        let e03: i64 = - term(self.e23, rhs.e02) + term(self.e31, rhs.e01)
            - term(self.e01, rhs.e31) + term(self.e02, rhs.e23);
        let e0123: i64 = term(self.e23, rhs.e01) + term(self.e31, rhs.e02)
            + term(self.e12, rhs.e03) + term(self.e01, rhs.e23)
            + term(self.e02, rhs.e31) + term(self.e03, rhs.e12);
        let e123: i64 = 0;
        let e032: i64 = 0;
        let e013: i64 = 0;
        let e021: i64 = 0;
        Multivector { e0, e1, e2, e3, s, e23, e31, e12, e01, e02, e03, e0123, e123,
            e032, e013, e021 }
    }
}

impl GeometricProduct<Trivector> for Bivector {
    type Output = Multivector;

    fn geometric_product(self, rhs: Trivector) -> Multivector {
        let e0: i64 = term(self.e23, rhs.e032) + term(self.e31, rhs.e013)
            + term(self.e12, rhs.e021);
        let e1: i64 = - term(self.e23, rhs.e123);
        let e2: i64 = - term(self.e31, rhs.e123);
        let e3: i64 = - term(self.e12, rhs.e123);
        let s: i64 = 0;
        let e23: i64 = 0;
        let e31: i64 = 0;
        let e12: i64 = 0;
        let e01: i64 = 0;
        let e02: i64 = 0;
        let e03: i64 = 0;
        let e0123: i64 = 0;
        let e123: i64 = 0;
        let e032: i64 = - term(self.e31, rhs.e021) + term(self.e12, rhs.e013)
            - term(self.e01, rhs.e123);
        let e013: i64 = term(self.e23, rhs.e021) - term(self.e12, rhs.e032)
            - term(self.e02, rhs.e123);
        let e021: i64 = - term(self.e23, rhs.e013) + term(self.e31, rhs.e032)
            - term(self.e03, rhs.e123);
        Multivector { e0, e1, e2, e3, s, e23, e31, e12, e01, e02, e03, e0123, e123,
            e032, e013, e021 }
    }
}

impl GeometricProduct<Pseudoscalar> for Bivector {
    type Output = Bivector;

    fn geometric_product(self, rhs: Pseudoscalar) -> Bivector {
        let e23: i64 = 0;
        let e31: i64 = 0;
        let e12: i64 = 0;
        let e01: i64 = - term(self.e23, rhs.e0123);
        let e02: i64 = - term(self.e31, rhs.e0123);
        let e03: i64 = - term(self.e12, rhs.e0123);
        Bivector { e23, e31, e12, e01, e02, e03 }
    }
}

impl GeometricProduct<Multivector> for Trivector {
    type Output = Multivector;

    fn geometric_product(self, rhs: Multivector) -> Multivector {
        let e0: i64 = term(self.e123, rhs.e0123) + term(self.e032, rhs.e23)
            + term(self.e013, rhs.e31) + term(self.e021, rhs.e12);
        let e1: i64 = - term(self.e123, rhs.e23);
        let e2: i64 = - term(self.e123, rhs.e31);
        let e3: i64 = - term(self.e123, rhs.e12);
        let s: i64 = - term(self.e123, rhs.e123);
        let e23: i64 = term(self.e123, rhs.e1);
        let e31: i64 = term(self.e123, rhs.e2);
        let e12: i64 = term(self.e123, rhs.e3);
        let e01: i64 = - term(self.e123, rhs.e032) + term(self.e032, rhs.e123)
            + term(self.e013, rhs.e3) - term(self.e021, rhs.e2);
        let e02: i64 = - term(self.e123, rhs.e013) - term(self.e032, rhs.e3)
            + term(self.e013, rhs.e123) + term(self.e021, rhs.e1);
        let e03: i64 = - term(self.e123, rhs.e021) + term(self.e032, rhs.e2)
            - term(self.e013, rhs.e1) + term(self.e021, rhs.e123);
        let e0123: i64 = - term(self.e123, rhs.e0) - term(self.e032, rhs.e1)
            - term(self.e013, rhs.e2) - term(self.e021, rhs.e3);
        let e123: i64 = term(self.e123, rhs.s);
        let e032: i64 = term(self.e123, rhs.e01) + term(self.e032, rhs.s)
            - term(self.e013, rhs.e12) + term(self.e021, rhs.e31);
        let e013: i64 = term(self.e123, rhs.e02) + term(self.e032, rhs.e12)
            + term(self.e013, rhs.s) - term(self.e021, rhs.e23);
        let e021: i64 = term(self.e123, rhs.e03) - term(self.e032, rhs.e31)
            + term(self.e013, rhs.e23) + term(self.e021, rhs.s);
        Multivector { e0, e1, e2, e3, s, e23, e31, e12, e01, e02, e03, e0123, e123,
            e032, e013, e021 }
    }
}

impl GeometricProduct<Scalar> for Trivector {
    type Output = Trivector;

    fn geometric_product(self, rhs: Scalar) -> Trivector {
        let e123: i64 = term(self.e123, rhs.s);
        let e032: i64 = term(self.e032, rhs.s);
        let e013: i64 = term(self.e013, rhs.s);
        let e021: i64 = term(self.e021, rhs.s);
        Trivector { e123, e032, e013, e021 }
    }
}

impl GeometricProduct<Vector> for Trivector {
    type Output = Multivector;

    fn geometric_product(self, rhs: Vector) -> Multivector {
        let e0: i64 = 0;
        let e1: i64 = 0;
        let e2: i64 = 0;
        let e3: i64 = 0;
        let s: i64 = 0;
        let e23: i64 = term(self.e123, rhs.e1);
        let e31: i64 = term(self.e123, rhs.e2);
        let e12: i64 = term(self.e123, rhs.e3);
        let e01: i64 = term(self.e013, rhs.e3) - term(self.e021, rhs.e2);
        let e02: i64 = - term(self.e032, rhs.e3) + term(self.e021, rhs.e1);
        let e03: i64 = term(self.e032, rhs.e2) - term(self.e013, rhs.e1);
        let e0123: i64 = - term(self.e123, rhs.e0) - term(self.e032, rhs.e1)
            - term(self.e013, rhs.e2) - term(self.e021, rhs.e3);
        let e123: i64 = 0;
        let e032: i64 = 0;
        let e013: i64 = 0;
        let e021: i64 = 0;
        Multivector { e0, e1, e2, e3, s, e23, e31, e12, e01, e02, e03, e0123, e123,
            e032, e013, e021 }
    }
}

impl GeometricProduct<Bivector> for Trivector {
    type Output = Multivector;

    fn geometric_product(self, rhs: Bivector) -> Multivector {
        let e0: i64 = term(self.e032, rhs.e23) + term(self.e013, rhs.e31)
            + term(self.e021, rhs.e12);
        let e1: i64 = - term(self.e123, rhs.e23);
        let e2: i64 = - term(self.e123, rhs.e31);
        let e3: i64 = - term(self.e123, rhs.e12);
        let s: i64 = 0;
        let e23: i64 = 0;
        let e31: i64 = 0;
        let e12: i64 = 0;
        let e01: i64 = 0;
        let e02: i64 = 0;
        let e03: i64 = 0;
        let e0123: i64 = 0;
        let e123: i64 = 0;
        let e032: i64 = term(self.e123, rhs.e01) - term(self.e013, rhs.e12)
            + term(self.e021, rhs.e31);
        let e013: i64 = term(self.e123, rhs.e02) + term(self.e032, rhs.e12)
            - term(self.e021, rhs.e23);
        let e021: i64 = term(self.e123, rhs.e03) - term(self.e032, rhs.e31)
            + term(self.e013, rhs.e23);
        Multivector { e0, e1, e2, e3, s, e23, e31, e12, e01, e02, e03, e0123, e123,
            e032, e013, e021 }
    }
}

impl GeometricProduct<Trivector> for Trivector {
    type Output = Multivector;

    fn geometric_product(self, rhs: Trivector) -> Multivector {
        let e0: i64 = 0;
        let e1: i64 = 0;
        let e2: i64 = 0;
        let e3: i64 = 0;
        let s: i64 = - term(self.e123, rhs.e123);
        let e23: i64 = 0;
        let e31: i64 = 0;
        let e12: i64 = 0;
        let e01: i64 = - term(self.e123, rhs.e032) + term(self.e032, rhs.e123);
        let e02: i64 = - term(self.e123, rhs.e013) + term(self.e013, rhs.e123);
        let e03: i64 = - term(self.e123, rhs.e021) + term(self.e021, rhs.e123);
        let e0123: i64 = 0;
        let e123: i64 = 0;
        let e032: i64 = 0;
        let e013: i64 = 0;
        let e021: i64 = 0;
        Multivector { e0, e1, e2, e3, s, e23, e31, e12, e01, e02, e03, e0123, e123,
            e032, e013, e021 }
    }
}

impl GeometricProduct<Pseudoscalar> for Trivector {
    type Output = Vector;

    fn geometric_product(self, rhs: Pseudoscalar) -> Vector {
        let e0: i64 = term(self.e123, rhs.e0123);
        let e1: i64 = 0;
        let e2: i64 = 0;
        let e3: i64 = 0;
        Vector { e0, e1, e2, e3 }
    }
}

impl GeometricProduct<Multivector> for Pseudoscalar {
    type Output = Multivector;

    fn geometric_product(self, rhs: Multivector) -> Multivector {
        let e0: i64 = - term(self.e0123, rhs.e123);
        let e1: i64 = 0;
        let e2: i64 = 0;
        let e3: i64 = 0;
        let s: i64 = 0;
        let e23: i64 = 0;
        let e31: i64 = 0;
        let e12: i64 = 0;
        let e01: i64 = - term(self.e0123, rhs.e23);
        let e02: i64 = - term(self.e0123, rhs.e31);
        let e03: i64 = - term(self.e0123, rhs.e12);
        let e0123: i64 = term(self.e0123, rhs.s);
        let e123: i64 = 0;
        let e032: i64 = - term(self.e0123, rhs.e1);
        let e013: i64 = - term(self.e0123, rhs.e2);
        let e021: i64 = - term(self.e0123, rhs.e3);
        Multivector { e0, e1, e2, e3, s, e23, e31, e12, e01, e02, e03, e0123, e123,
            e032, e013, e021 }
    }
}

impl GeometricProduct<Scalar> for Pseudoscalar {
    type Output = Pseudoscalar;

    fn geometric_product(self, rhs: Scalar) -> Pseudoscalar {
        let e0123: i64 = term(self.e0123, rhs.s);
        Pseudoscalar { e0123 }
    }
}

impl GeometricProduct<Vector> for Pseudoscalar {
    type Output = Trivector;

    fn geometric_product(self, rhs: Vector) -> Trivector {
        let e123: i64 = 0;
        let e032: i64 = - term(self.e0123, rhs.e1);
        let e013: i64 = - term(self.e0123, rhs.e2);
        let e021: i64 = - term(self.e0123, rhs.e3);
        Trivector { e123, e032, e013, e021 }
    }
}

impl GeometricProduct<Bivector> for Pseudoscalar {
    type Output = Bivector;

    fn geometric_product(self, rhs: Bivector) -> Bivector {
        let e23: i64 = 0;
        let e31: i64 = 0;
        let e12: i64 = 0;
        let e01: i64 = - term(self.e0123, rhs.e23);
        let e02: i64 = - term(self.e0123, rhs.e31);
        let e03: i64 = - term(self.e0123, rhs.e12);
        Bivector { e23, e31, e12, e01, e02, e03 }
    }
}

impl GeometricProduct<Trivector> for Pseudoscalar {
    type Output = Vector;

    fn geometric_product(self, rhs: Trivector) -> Vector {
        let e0: i64 = - term(self.e0123, rhs.e123);
        let e1: i64 = 0;
        let e2: i64 = 0;
        let e3: i64 = 0;
        Vector { e0, e1, e2, e3 }
    }
}

impl GeometricProduct<Pseudoscalar> for Pseudoscalar {
    type Output = Empty;

    fn geometric_product(self, rhs: Pseudoscalar) -> Empty {
        Empty
    }
}

impl GeometricProduct<Multivector> for Empty {
    type Output = Empty;

    fn geometric_product(self, rhs: Multivector) -> Empty {
        Empty
    }
}

impl GeometricProduct<Scalar> for Empty {
    type Output = Empty;

    fn geometric_product(self, rhs: Scalar) -> Empty {
        Empty
    }
}

impl GeometricProduct<Vector> for Empty {
    type Output = Empty;

    fn geometric_product(self, rhs: Vector) -> Empty {
        Empty
    }
}

impl GeometricProduct<Bivector> for Empty {
    type Output = Empty;

    fn geometric_product(self, rhs: Bivector) -> Empty {
        Empty
    }
}

impl GeometricProduct<Trivector> for Empty {
    type Output = Empty;

    fn geometric_product(self, rhs: Trivector) -> Empty {
        Empty
    }
}

impl GeometricProduct<Pseudoscalar> for Empty {
    type Output = Empty;

    fn geometric_product(self, rhs: Pseudoscalar) -> Empty {
        Empty
    }
}

impl GeometricProduct<Empty> for Empty {
    type Output = Empty;

    fn geometric_product(self, rhs: Empty) -> Empty {
        Empty
    }
}

impl GeometricProduct<Empty> for Multivector {
    type Output = Empty;

    fn geometric_product(self, rhs: Empty) -> Empty {
        Empty
    }
}

impl GeometricProduct<Empty> for Scalar {
    type Output = Empty;

    fn geometric_product(self, rhs: Empty) -> Empty {
        Empty
    }
}

impl GeometricProduct<Empty> for Vector {
    type Output = Empty;

    fn geometric_product(self, rhs: Empty) -> Empty {
        Empty
    }
}

impl GeometricProduct<Empty> for Bivector {
    type Output = Empty;

    fn geometric_product(self, rhs: Empty) -> Empty {
        Empty
    }
}

impl GeometricProduct<Empty> for Trivector {
    type Output = Empty;

    fn geometric_product(self, rhs: Empty) -> Empty {
        Empty
    }
}

impl GeometricProduct<Empty> for Pseudoscalar {
    type Output = Empty;

    fn geometric_product(self, rhs: Empty) -> Empty {
        Empty
    }
}

} // verus!
