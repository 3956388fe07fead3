//! The inner product: the symmetric contraction.

use vstd::prelude::*;

use crate::arith::term;
use crate::values::{Bivector, EgaValue, Empty, Multivector, Pseudoscalar, Scalar, Trivector, Vector};

verus! {

/// The inner product: the symmetric contraction.
///
/// Of each pairwise blade product, exactly the part whose grade is the
/// difference of the operand grades is kept.  Grade pairs with no valid
/// contraction yield [`Empty`].
pub trait Dot<Rhs: EgaValue>: EgaValue {
    /// The statically determined grade of the result.
    type Output: EgaValue;

    /// The inner product.
    fn dot(self, rhs: Rhs) -> (r: Self::Output)
        requires
            self.bounded(),
            rhs.bounded(),
        ensures
            r.coeffs() == self.coeffs().inner(rhs.coeffs()),
    ;
}

impl Dot<Multivector> for Multivector {
    type Output = Multivector;

    fn dot(self, rhs: Multivector) -> Multivector {
        let e0: i64 = term(self.s, rhs.e0) + term(self.e0, rhs.s)
            - term(self.e1, rhs.e01) - term(self.e2, rhs.e02)
            - term(self.e3, rhs.e03) + term(self.e23, rhs.e032)
            + term(self.e31, rhs.e013) + term(self.e12, rhs.e021)
            + term(self.e01, rhs.e1) + term(self.e02, rhs.e2)
            + term(self.e03, rhs.e3) + term(self.e123, rhs.e0123)
            + term(self.e032, rhs.e23) + term(self.e013, rhs.e31)
            + term(self.e021, rhs.e12) - term(self.e0123, rhs.e123);
        let e1: i64 = term(self.s, rhs.e1) + term(self.e1, rhs.s)
            - term(self.e2, rhs.e12) + term(self.e3, rhs.e31)
            - term(self.e23, rhs.e123) - term(self.e31, rhs.e3)
            + term(self.e12, rhs.e2) - term(self.e123, rhs.e23);
        let e2: i64 = term(self.s, rhs.e2) + term(self.e1, rhs.e12)
            + term(self.e2, rhs.s) - term(self.e3, rhs.e23) + term(self.e23, rhs.e3)
            - term(self.e31, rhs.e123) - term(self.e12, rhs.e1)
            - term(self.e123, rhs.e31);
        let e3: i64 = term(self.s, rhs.e3) - term(self.e1, rhs.e31)
            + term(self.e2, rhs.e23) + term(self.e3, rhs.s) - term(self.e23, rhs.e2)
            + term(self.e31, rhs.e1) - term(self.e12, rhs.e123)
            - term(self.e123, rhs.e12);
        let s: i64 = term(self.s, rhs.s) + term(self.e1, rhs.e1)
            + term(self.e2, rhs.e2) + term(self.e3, rhs.e3) - term(self.e23, rhs.e23)
            - term(self.e31, rhs.e31) - term(self.e12, rhs.e12)
            - term(self.e123, rhs.e123);
        let e23: i64 = term(self.s, rhs.e23) + term(self.e1, rhs.e123)
            + term(self.e23, rhs.s) + term(self.e123, rhs.e1);
        let e31: i64 = term(self.s, rhs.e31) + term(self.e2, rhs.e123)
            + term(self.e31, rhs.s) + term(self.e123, rhs.e2);
        let e12: i64 = term(self.s, rhs.e12) + term(self.e3, rhs.e123)
            + term(self.e12, rhs.s) + term(self.e123, rhs.e3);
        let e01: i64 = term(self.s, rhs.e01) - term(self.e2, rhs.e021)
            + term(self.e3, rhs.e013) - term(self.e23, rhs.e0123)
            + term(self.e01, rhs.s) + term(self.e013, rhs.e3)
            - term(self.e021, rhs.e2) - term(self.e0123, rhs.e23);
        let e02: i64 = term(self.s, rhs.e02) + term(self.e1, rhs.e021)
            - term(self.e3, rhs.e032) - term(self.e31, rhs.e0123)
            + term(self.e02, rhs.s) - term(self.e032, rhs.e3)
            + term(self.e021, rhs.e1) - term(self.e0123, rhs.e31);
        let e03: i64 = term(self.s, rhs.e03) - term(self.e1, rhs.e013)
            + term(self.e2, rhs.e032) - term(self.e12, rhs.e0123)
            + term(self.e03, rhs.s) + term(self.e032, rhs.e2)
            - term(self.e013, rhs.e1) - term(self.e0123, rhs.e12);
        let e0123: i64 = term(self.s, rhs.e0123) + term(self.e0123, rhs.s);
        let e123: i64 = term(self.s, rhs.e123) + term(self.e123, rhs.s);
        let e032: i64 = term(self.s, rhs.e032) + term(self.e1, rhs.e0123)
            + term(self.e032, rhs.s) - term(self.e0123, rhs.e1);
        let e013: i64 = term(self.s, rhs.e013) + term(self.e2, rhs.e0123)
            + term(self.e013, rhs.s) - term(self.e0123, rhs.e2);
        let e021: i64 = term(self.s, rhs.e021) + term(self.e3, rhs.e0123)
            + term(self.e021, rhs.s) - term(self.e0123, rhs.e3);
        Multivector { e0, e1, e2, e3, s, e23, e31, e12, e01, e02, e03, e0123, e123,
            e032, e013, e021 }
    }
}

impl Dot<Scalar> for Multivector {
    type Output = Multivector;

    fn dot(self, rhs: Scalar) -> Multivector {
        let e0: i64 = term(self.e0, rhs.s);
        let e1: i64 = term(self.e1, rhs.s);
        let e2: i64 = term(self.e2, rhs.s);
        let e3: i64 = term(self.e3, rhs.s);
        let s: i64 = term(self.s, rhs.s);
        let e23: i64 = term(self.e23, rhs.s);
        let e31: i64 = term(self.e31, rhs.s);
        let e12: i64 = term(self.e12, rhs.s);
        let e01: i64 = term(self.e01, rhs.s);
        let e02: i64 = term(self.e02, rhs.s);
        let e03: i64 = term(self.e03, rhs.s);
        let e0123: i64 = term(self.e0123, rhs.s);
        let e123: i64 = term(self.e123, rhs.s);
        let e032: i64 = term(self.e032, rhs.s);
        let e013: i64 = term(self.e013, rhs.s);
        let e021: i64 = term(self.e021, rhs.s);
        Multivector { e0, e1, e2, e3, s, e23, e31, e12, e01, e02, e03, e0123, e123,
            e032, e013, e021 }
    }
}

impl Dot<Vector> for Multivector {
    type Output = Multivector;

    fn dot(self, rhs: Vector) -> Multivector {
        let e0: i64 = term(self.s, rhs.e0) + term(self.e01, rhs.e1)
            + term(self.e02, rhs.e2) + term(self.e03, rhs.e3);
        let e1: i64 = term(self.s, rhs.e1) - term(self.e31, rhs.e3)
            + term(self.e12, rhs.e2);
        let e2: i64 = term(self.s, rhs.e2) + term(self.e23, rhs.e3)
            - term(self.e12, rhs.e1);
        let e3: i64 = term(self.s, rhs.e3) - term(self.e23, rhs.e2)
            + term(self.e31, rhs.e1);
        let s: i64 = term(self.e1, rhs.e1) + term(self.e2, rhs.e2)
            + term(self.e3, rhs.e3);
        let e23: i64 = term(self.e123, rhs.e1);
        let e31: i64 = term(self.e123, rhs.e2);
        let e12: i64 = term(self.e123, rhs.e3);
        let e01: i64 = term(self.e013, rhs.e3) - term(self.e021, rhs.e2);
        let e02: i64 = - term(self.e032, rhs.e3) + term(self.e021, rhs.e1);
        let e03: i64 = term(self.e032, rhs.e2) - term(self.e013, rhs.e1);
        let e0123: i64 = 0;
        let e123: i64 = 0;
        let e032: i64 = - term(self.e0123, rhs.e1);
        let e013: i64 = - term(self.e0123, rhs.e2);
        let e021: i64 = - term(self.e0123, rhs.e3);
        Multivector { e0, e1, e2, e3, s, e23, e31, e12, e01, e02, e03, e0123, e123,
            e032, e013, e021 }
    }
}

impl Dot<Bivector> for Multivector {
    type Output = Multivector;

    fn dot(self, rhs: Bivector) -> Multivector {
        let e0: i64 = - term(self.e1, rhs.e01) - term(self.e2, rhs.e02)
            - term(self.e3, rhs.e03) + term(self.e032, rhs.e23)
            + term(self.e013, rhs.e31) + term(self.e021, rhs.e12);
        let e1: i64 = - term(self.e2, rhs.e12) + term(self.e3, rhs.e31)
            - term(self.e123, rhs.e23);
        let e2: i64 = term(self.e1, rhs.e12) - term(self.e3, rhs.e23)
            - term(self.e123, rhs.e31);
        let e3: i64 = - term(self.e1, rhs.e31) + term(self.e2, rhs.e23)
            - term(self.e123, rhs.e12);
        let s: i64 = - term(self.e23, rhs.e23) - term(self.e31, rhs.e31)
            - term(self.e12, rhs.e12);
        let e23: i64 = term(self.s, rhs.e23);
        let e31: i64 = term(self.s, rhs.e31);
        let e12: i64 = term(self.s, rhs.e12);
        let e01: i64 = term(self.s, rhs.e01) - term(self.e0123, rhs.e23);
        let e02: i64 = term(self.s, rhs.e02) - term(self.e0123, rhs.e31);
        let e03: i64 = term(self.s, rhs.e03) - term(self.e0123, rhs.e12);
        let e0123: i64 = 0;
        let e123: i64 = 0;
        let e032: i64 = 0;
        let e013: i64 = 0;
        let e021: i64 = 0;
        Multivector { e0, e1, e2, e3, s, e23, e31, e12, e01, e02, e03, e0123, e123,
            e032, e013, e021 }
    }
}

impl Dot<Trivector> for Multivector {
    type Output = Multivector;

    fn dot(self, rhs: Trivector) -> Multivector {
        let e0: i64 = term(self.e23, rhs.e032) + term(self.e31, rhs.e013)
            + term(self.e12, rhs.e021) - term(self.e0123, rhs.e123);
        let e1: i64 = - term(self.e23, rhs.e123);
        let e2: i64 = - term(self.e31, rhs.e123);
        let e3: i64 = - term(self.e12, rhs.e123);
        let s: i64 = - term(self.e123, rhs.e123);
        let e23: i64 = term(self.e1, rhs.e123);
        let e31: i64 = term(self.e2, rhs.e123);
        let e12: i64 = term(self.e3, rhs.e123);
        let e01: i64 = - term(self.e2, rhs.e021) + term(self.e3, rhs.e013);
        let e02: i64 = term(self.e1, rhs.e021) - term(self.e3, rhs.e032);
        let e03: i64 = - term(self.e1, rhs.e013) + term(self.e2, rhs.e032);
        let e0123: i64 = 0;
        let e123: i64 = term(self.s, rhs.e123);
        let e032: i64 = term(self.s, rhs.e032);
        let e013: i64 = term(self.s, rhs.e013);
        let e021: i64 = term(self.s, rhs.e021);
        Multivector { e0, e1, e2, e3, s, e23, e31, e12, e01, e02, e03, e0123, e123,
            e032, e013, e021 }
    }
}

impl Dot<Pseudoscalar> for Multivector {
    type Output = Multivector;

    fn dot(self, rhs: Pseudoscalar) -> Multivector {
        let e0: i64 = term(self.e123, rhs.e0123);
        let e1: i64 = 0;
        let e2: i64 = 0;
        let e3: i64 = 0;
        let s: i64 = 0;
        let e23: i64 = 0;
        let e31: i64 = 0;
        let e12: i64 = 0;
        let e01: i64 = - term(self.e23, rhs.e0123);
        let e02: i64 = - term(self.e31, rhs.e0123);
        let e03: i64 = - term(self.e12, rhs.e0123);
        let e0123: i64 = term(self.s, rhs.e0123);
        let e123: i64 = 0;
        let e032: i64 = term(self.e1, rhs.e0123);
        let e013: i64 = term(self.e2, rhs.e0123);
        let e021: i64 = term(self.e3, rhs.e0123);
        Multivector { e0, e1, e2, e3, s, e23, e31, e12, e01, e02, e03, e0123, e123,
            e032, e013, e021 }
    }
}

impl Dot<Multivector> for Scalar {
    type Output = Multivector;

    fn dot(self, rhs: Multivector) -> Multivector {
        let e0: i64 = term(self.s, rhs.e0);
        let e1: i64 = term(self.s, rhs.e1);
        let e2: i64 = term(self.s, rhs.e2);
        let e3: i64 = term(self.s, rhs.e3);
        let s: i64 = term(self.s, rhs.s);
        let e23: i64 = term(self.s, rhs.e23);
        let e31: i64 = term(self.s, rhs.e31);
        let e12: i64 = term(self.s, rhs.e12);
        let e01: i64 = term(self.s, rhs.e01);
        let e02: i64 = term(self.s, rhs.e02);
        let e03: i64 = term(self.s, rhs.e03);
        let e0123: i64 = term(self.s, rhs.e0123);
        let e123: i64 = term(self.s, rhs.e123);
        let e032: i64 = term(self.s, rhs.e032);
        let e013: i64 = term(self.s, rhs.e013);
        let e021: i64 = term(self.s, rhs.e021);
        Multivector { e0, e1, e2, e3, s, e23, e31, e12, e01, e02, e03, e0123, e123,
            e032, e013, e021 }
    }
}

impl Dot<Scalar> for Scalar {
    type Output = Scalar;

    fn dot(self, rhs: Scalar) -> Scalar {
        let s: i64 = term(self.s, rhs.s);
        Scalar { s }
    }
}

impl Dot<Vector> for Scalar {
    type Output = Vector;

    fn dot(self, rhs: Vector) -> Vector {
        let e0: i64 = term(self.s, rhs.e0);
        let e1: i64 = term(self.s, rhs.e1);
        let e2: i64 = term(self.s, rhs.e2);
        let e3: i64 = term(self.s, rhs.e3);
        Vector { e0, e1, e2, e3 }
    }
}

impl Dot<Bivector> for Scalar {
    type Output = Bivector;

    fn dot(self, rhs: Bivector) -> Bivector {
        let e23: i64 = term(self.s, rhs.e23);
        let e31: i64 = term(self.s, rhs.e31);
        let e12: i64 = term(self.s, rhs.e12);
        let e01: i64 = term(self.s, rhs.e01);
        let e02: i64 = term(self.s, rhs.e02);
        let e03: i64 = term(self.s, rhs.e03);
        Bivector { e23, e31, e12, e01, e02, e03 }
    }
}

impl Dot<Trivector> for Scalar {
    type Output = Trivector;

    fn dot(self, rhs: Trivector) -> Trivector {
        let e123: i64 = term(self.s, rhs.e123);
        let e032: i64 = term(self.s, rhs.e032);
        let e013: i64 = term(self.s, rhs.e013);
        let e021: i64 = term(self.s, rhs.e021);
        Trivector { e123, e032, e013, e021 }
    }
}

impl Dot<Pseudoscalar> for Scalar {
    type Output = Pseudoscalar;

    fn dot(self, rhs: Pseudoscalar) -> Pseudoscalar {
        let e0123: i64 = term(self.s, rhs.e0123);
        Pseudoscalar { e0123 }
    }
}

impl Dot<Multivector> for Vector {
    type Output = Multivector;

    fn dot(self, rhs: Multivector) -> Multivector {
        let e0: i64 = term(self.e0, rhs.s) - term(self.e1, rhs.e01)
            - term(self.e2, rhs.e02) - term(self.e3, rhs.e03);
        let e1: i64 = term(self.e1, rhs.s) - term(self.e2, rhs.e12)
            + term(self.e3, rhs.e31);
        let e2: i64 = term(self.e1, rhs.e12) + term(self.e2, rhs.s)
            - term(self.e3, rhs.e23);
        let e3: i64 = - term(self.e1, rhs.e31) + term(self.e2, rhs.e23)
            + term(self.e3, rhs.s);
        let s: i64 = term(self.e1, rhs.e1) + term(self.e2, rhs.e2)
            + term(self.e3, rhs.e3);
        let e23: i64 = term(self.e1, rhs.e123);
        let e31: i64 = term(self.e2, rhs.e123);
        let e12: i64 = term(self.e3, rhs.e123);
        let e01: i64 = - term(self.e2, rhs.e021) + term(self.e3, rhs.e013);
        let e02: i64 = term(self.e1, rhs.e021) - term(self.e3, rhs.e032);
        let e03: i64 = - term(self.e1, rhs.e013) + term(self.e2, rhs.e032);
        let e0123: i64 = 0;
        let e123: i64 = 0;
        let e032: i64 = term(self.e1, rhs.e0123);
        let e013: i64 = term(self.e2, rhs.e0123);
        let e021: i64 = term(self.e3, rhs.e0123);
        Multivector { e0, e1, e2, e3, s, e23, e31, e12, e01, e02, e03, e0123, e123,
            e032, e013, e021 }
    }
}

impl Dot<Scalar> for Vector {
    type Output = Vector;

    fn dot(self, rhs: Scalar) -> Vector {
        let e0: i64 = term(self.e0, rhs.s);
        let e1: i64 = term(self.e1, rhs.s);
        let e2: i64 = term(self.e2, rhs.s);
        let e3: i64 = term(self.e3, rhs.s);
        Vector { e0, e1, e2, e3 }
    }
}

impl Dot<Vector> for Vector {
    type Output = Scalar;

    fn dot(self, rhs: Vector) -> Scalar {
        let s: i64 = term(self.e1, rhs.e1) + term(self.e2, rhs.e2)
            + term(self.e3, rhs.e3);
        Scalar { s }
    }
}

impl Dot<Bivector> for Vector {
    type Output = Vector;

    fn dot(self, rhs: Bivector) -> Vector {
        let e0: i64 = - term(self.e1, rhs.e01) - term(self.e2, rhs.e02)
            - term(self.e3, rhs.e03);
        let e1: i64 = - term(self.e2, rhs.e12) + term(self.e3, rhs.e31);
        let e2: i64 = term(self.e1, rhs.e12) - term(self.e3, rhs.e23);
        let e3: i64 = - term(self.e1, rhs.e31) + term(self.e2, rhs.e23);
        Vector { e0, e1, e2, e3 }
    }
}

impl Dot<Trivector> for Vector {
    type Output = Bivector;

    fn dot(self, rhs: Trivector) -> Bivector {
        let e23: i64 = term(self.e1, rhs.e123);
        let e31: i64 = term(self.e2, rhs.e123);
        let e12: i64 = term(self.e3, rhs.e123);
        let e01: i64 = - term(self.e2, rhs.e021) + term(self.e3, rhs.e013);
        let e02: i64 = term(self.e1, rhs.e021) - term(self.e3, rhs.e032);
        let e03: i64 = - term(self.e1, rhs.e013) + term(self.e2, rhs.e032);
        Bivector { e23, e31, e12, e01, e02, e03 }
    }
}

impl Dot<Pseudoscalar> for Vector {
    type Output = Trivector;

    fn dot(self, rhs: Pseudoscalar) -> Trivector {
        let e123: i64 = 0;
        let e032: i64 = term(self.e1, rhs.e0123);
        let e013: i64 = term(self.e2, rhs.e0123);
        let e021: i64 = term(self.e3, rhs.e0123);
        Trivector { e123, e032, e013, e021 }
    }
}

impl Dot<Multivector> for Bivector {
    type Output = Multivector;

    fn dot(self, rhs: Multivector) -> Multivector {
        let e0: i64 = term(self.e23, rhs.e032) + term(self.e31, rhs.e013)
            + term(self.e12, rhs.e021) + term(self.e01, rhs.e1)
            + term(self.e02, rhs.e2) + term(self.e03, rhs.e3);
        let e1: i64 = - term(self.e23, rhs.e123) - term(self.e31, rhs.e3)
            + term(self.e12, rhs.e2);
        let e2: i64 = term(self.e23, rhs.e3) - term(self.e31, rhs.e123)
            - term(self.e12, rhs.e1);
        let e3: i64 = - term(self.e23, rhs.e2) + term(self.e31, rhs.e1)
            - term(self.e12, rhs.e123);
        let s: i64 = - term(self.e23, rhs.e23) - term(self.e31, rhs.e31)
            - term(self.e12, rhs.e12);
        let e23: i64 = term(self.e23, rhs.s);
        let e31: i64 = term(self.e31, rhs.s);
        let e12: i64 = term(self.e12, rhs.s);
        let e01: i64 = - term(self.e23, rhs.e0123) + term(self.e01, rhs.s);
        let e02: i64 = - term(self.e31, rhs.e0123) + term(self.e02, rhs.s);
        let e03: i64 = - term(self.e12, rhs.e0123) + term(self.e03, rhs.s);
        let e0123: i64 = 0;
        let e123: i64 = 0;
        let e032: i64 = 0;
        let e013: i64 = 0;
        let e021: i64 = 0;
        Multivector { e0, e1, e2, e3, s, e23, e31, e12, e01, e02, e03, e0123, e123,
            e032, e013, e021 }
    }
}

impl Dot<Scalar> for Bivector {
    type Output = Bivector;

    fn dot(self, rhs: Scalar) -> Bivector {
        let e23: i64 = term(self.e23, rhs.s);
        let e31: i64 = term(self.e31, rhs.s);
        let e12: i64 = term(self.e12, rhs.s);
        let e01: i64 = term(self.e01, rhs.s);
        let e02: i64 = term(self.e02, rhs.s);
        let e03: i64 = term(self.e03, rhs.s);
        Bivector { e23, e31, e12, e01, e02, e03 }
    }
}

impl Dot<Vector> for Bivector {
    type Output = Vector;

    fn dot(self, rhs: Vector) -> Vector {
        let e0: i64 = term(self.e01, rhs.e1) + term(self.e02, rhs.e2)
            + term(self.e03, rhs.e3);
        let e1: i64 = - term(self.e31, rhs.e3) + term(self.e12, rhs.e2);
        let e2: i64 = term(self.e23, rhs.e3) - term(self.e12, rhs.e1);
        let e3: i64 = - term(self.e23, rhs.e2) + term(self.e31, rhs.e1);
        Vector { e0, e1, e2, e3 }
    }
}

impl Dot<Bivector> for Bivector {
    type Output = Scalar;

    fn dot(self, rhs: Bivector) -> Scalar {
        let s: i64 = - term(self.e23, rhs.e23) - term(self.e31, rhs.e31)
            - term(self.e12, rhs.e12);
        Scalar { s }
    }
}

impl Dot<Trivector> for Bivector {
    type Output = Vector;

    fn dot(self, rhs: Trivector) -> Vector {
        let e0: i64 = term(self.e23, rhs.e032) + term(self.e31, rhs.e013)
            + term(self.e12, rhs.e021);
        let e1: i64 = - term(self.e23, rhs.e123);
        let e2: i64 = - term(self.e31, rhs.e123);
        let e3: i64 = - term(self.e12, rhs.e123);
        Vector { e0, e1, e2, e3 }
    }
}

impl Dot<Pseudoscalar> for Bivector {
    type Output = Bivector;

    fn dot(self, rhs: Pseudoscalar) -> Bivector {
        let e23: i64 = 0;
        let e31: i64 = 0;
        let e12: i64 = 0;
        let e01: i64 = - term(self.e23, rhs.e0123);
        let e02: i64 = - term(self.e31, rhs.e0123);
        let e03: i64 = - term(self.e12, rhs.e0123);
        Bivector { e23, e31, e12, e01, e02, e03 }
    }
}

impl Dot<Multivector> for Trivector {
    type Output = Multivector;

    fn dot(self, rhs: Multivector) -> Multivector {
        let e0: i64 = term(self.e123, rhs.e0123) + term(self.e032, rhs.e23)
            + term(self.e013, rhs.e31) + term(self.e021, rhs.e12);
        let e1: i64 = - term(self.e123, rhs.e23);
        let e2: i64 = - term(self.e123, rhs.e31);
        let e3: i64 = - term(self.e123, rhs.e12);
        let s: i64 = - term(self.e123, rhs.e123);
        let e23: i64 = term(self.e123, rhs.e1);
        let e31: i64 = term(self.e123, rhs.e2);
        let e12: i64 = term(self.e123, rhs.e3);
        let e01: i64 = term(self.e013, rhs.e3) - term(self.e021, rhs.e2);
        let e02: i64 = - term(self.e032, rhs.e3) + term(self.e021, rhs.e1);
        let e03: i64 = term(self.e032, rhs.e2) - term(self.e013, rhs.e1);
        let e0123: i64 = 0;
        let e123: i64 = term(self.e123, rhs.s);
        let e032: i64 = term(self.e032, rhs.s);
        let e013: i64 = term(self.e013, rhs.s);
        let e021: i64 = term(self.e021, rhs.s);
        Multivector { e0, e1, e2, e3, s, e23, e31, e12, e01, e02, e03, e0123, e123,
            e032, e013, e021 }
    }
}

impl Dot<Scalar> for Trivector {
    type Output = Trivector;

    fn dot(self, rhs: Scalar) -> Trivector {
        let e123: i64 = term(self.e123, rhs.s);
        let e032: i64 = term(self.e032, rhs.s);
        let e013: i64 = term(self.e013, rhs.s);
        let e021: i64 = term(self.e021, rhs.s);
        Trivector { e123, e032, e013, e021 }
    }
}

impl Dot<Vector> for Trivector {
    type Output = Bivector;

    fn dot(self, rhs: Vector) -> Bivector {
        let e23: i64 = term(self.e123, rhs.e1);
        let e31: i64 = term(self.e123, rhs.e2);
        let e12: i64 = term(self.e123, rhs.e3);
        let e01: i64 = term(self.e013, rhs.e3) - term(self.e021, rhs.e2);
        let e02: i64 = - term(self.e032, rhs.e3) + term(self.e021, rhs.e1);
        let e03: i64 = term(self.e032, rhs.e2) - term(self.e013, rhs.e1);
        Bivector { e23, e31, e12, e01, e02, e03 }
    }
}

impl Dot<Bivector> for Trivector {
    type Output = Vector;

    fn dot(self, rhs: Bivector) -> Vector {
        let e0: i64 = term(self.e032, rhs.e23) + term(self.e013, rhs.e31)
            + term(self.e021, rhs.e12);
        let e1: i64 = - term(self.e123, rhs.e23);
        let e2: i64 = - term(self.e123, rhs.e31);
        let e3: i64 = - term(self.e123, rhs.e12);
        Vector { e0, e1, e2, e3 }
    }
}

impl Dot<Trivector> for Trivector {
    type Output = Scalar;

    fn dot(self, rhs: Trivector) -> Scalar {
        let s: i64 = - term(self.e123, rhs.e123);
        Scalar { s }
    }
}

impl Dot<Pseudoscalar> for Trivector {
    type Output = Vector;

    fn dot(self, rhs: Pseudoscalar) -> Vector {
        let e0: i64 = term(self.e123, rhs.e0123);
        let e1: i64 = 0;
        let e2: i64 = 0;
        let e3: i64 = 0;
        Vector { e0, e1, e2, e3 }
    }
}

impl Dot<Multivector> for Pseudoscalar {
    type Output = Multivector;

    fn dot(self, rhs: Multivector) -> Multivector {
        let e0: i64 = - term(self.e0123, rhs.e123);
        let e1: i64 = 0;
        let e2: i64 = 0;
        let e3: i64 = 0;
        let s: i64 = 0;
        let e23: i64 = 0;
        let e31: i64 = 0;
        let e12: i64 = 0;
        let e01: i64 = - term(self.e0123, rhs.e23);
        let e02: i64 = - term(self.e0123, rhs.e31);
        let e03: i64 = - term(self.e0123, rhs.e12);
        let e0123: i64 = term(self.e0123, rhs.s);
        let e123: i64 = 0;
        let e032: i64 = - term(self.e0123, rhs.e1);
        let e013: i64 = - term(self.e0123, rhs.e2);
        let e021: i64 = - term(self.e0123, rhs.e3);
        Multivector { e0, e1, e2, e3, s, e23, e31, e12, e01, e02, e03, e0123, e123,
            e032, e013, e021 }
    }
}

impl Dot<Scalar> for Pseudoscalar {
    type Output = Pseudoscalar;

    fn dot(self, rhs: Scalar) -> Pseudoscalar {
        let e0123: i64 = term(self.e0123, rhs.s);
        Pseudoscalar { e0123 }
    }
}

impl Dot<Vector> for Pseudoscalar {
    type Output = Trivector;

    fn dot(self, rhs: Vector) -> Trivector {
        let e123: i64 = 0;
        let e032: i64 = - term(self.e0123, rhs.e1);
        let e013: i64 = - term(self.e0123, rhs.e2);
        let e021: i64 = - term(self.e0123, rhs.e3);
        Trivector { e123, e032, e013, e021 }
    }
}

impl Dot<Bivector> for Pseudoscalar {
    type Output = Bivector;

    fn dot(self, rhs: Bivector) -> Bivector {
        let e23: i64 = 0;
        let e31: i64 = 0;
        let e12: i64 = 0;
        let e01: i64 = - term(self.e0123, rhs.e23);
        let e02: i64 = - term(self.e0123, rhs.e31);
        let e03: i64 = - term(self.e0123, rhs.e12);
        Bivector { e23, e31, e12, e01, e02, e03 }
    }
}

impl Dot<Trivector> for Pseudoscalar {
    type Output = Vector;

    fn dot(self, rhs: Trivector) -> Vector {
        let e0: i64 = - term(self.e0123, rhs.e123);
        let e1: i64 = 0;
        let e2: i64 = 0;
        let e3: i64 = 0;
        Vector { e0, e1, e2, e3 }
    }
}

impl Dot<Pseudoscalar> for Pseudoscalar {
    type Output = Empty;

    fn dot(self, rhs: Pseudoscalar) -> Empty {
        Empty
    }
}

impl Dot<Empty> for Empty {
    type Output = Empty;

    fn dot(self, rhs: Empty) -> Empty {
        Empty
    }
}

impl Dot<Empty> for Multivector {
    type Output = Empty;

    fn dot(self, rhs: Empty) -> Empty {
        Empty
    }
}

impl Dot<Empty> for Scalar {
    type Output = Empty;

    fn dot(self, rhs: Empty) -> Empty {
        Empty
    }
}

impl Dot<Empty> for Vector {
    type Output = Empty;

    fn dot(self, rhs: Empty) -> Empty {
        Empty
    }
}

impl Dot<Empty> for Bivector {
    type Output = Empty;

    fn dot(self, rhs: Empty) -> Empty {
        Empty
    }
}

impl Dot<Empty> for Trivector {
    type Output = Empty;

    fn dot(self, rhs: Empty) -> Empty {
        Empty
    }
}

impl Dot<Empty> for Pseudoscalar {
    type Output = Empty;

    fn dot(self, rhs: Empty) -> Empty {
        Empty
    }
}

impl Dot<Multivector> for Empty {
    type Output = Empty;

    fn dot(self, rhs: Multivector) -> Empty {
        Empty
    }
}

impl Dot<Scalar> for Empty {
    type Output = Empty;

    fn dot(self, rhs: Scalar) -> Empty {
        Empty
    }
}

impl Dot<Vector> for Empty {
    type Output = Empty;

    fn dot(self, rhs: Vector) -> Empty {
        Empty
    }
}

impl Dot<Bivector> for Empty {
    type Output = Empty;

    fn dot(self, rhs: Bivector) -> Empty {
        Empty
    }
}

impl Dot<Trivector> for Empty {
    type Output = Empty;

    fn dot(self, rhs: Trivector) -> Empty {
        Empty
    }
}

impl Dot<Pseudoscalar> for Empty {
    type Output = Empty;

    fn dot(self, rhs: Pseudoscalar) -> Empty {
        Empty
    }
}

} // verus!
