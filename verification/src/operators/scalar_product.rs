//! The scalar product: the grade-0 part of the geometric product.

use vstd::prelude::*;

use crate::arith::term;
use crate::values::{Bivector, EgaValue, Empty, Multivector, Pseudoscalar, Scalar, Trivector, Vector};

verus! {

/// The scalar product.
///
/// Not to be confused with scalar multiplication: `a.scalar_product(b)` is
/// exactly the grade-0 part of the geometric product of `a` and `b`, and
/// its contract says precisely that.
pub trait ScalarProduct<Rhs: EgaValue>: EgaValue {
    /// The grade-0 part of the geometric product.
    fn scalar_product(self, rhs: Rhs) -> (r: Scalar)
        requires
            self.bounded(),
            rhs.bounded(),
        ensures
            r.coeffs() == self.coeffs().geometric(rhs.coeffs()).grade(0),
    ;
}

impl ScalarProduct<Multivector> for Multivector {
    fn scalar_product(self, rhs: Multivector) -> Scalar {
        Scalar { s: term(self.s, rhs.s) + term(self.e1, rhs.e1)
                + term(self.e2, rhs.e2) + term(self.e3, rhs.e3)
                - term(self.e23, rhs.e23) - term(self.e31, rhs.e31)
                - term(self.e12, rhs.e12) - term(self.e123, rhs.e123) }
    }
}

impl ScalarProduct<Scalar> for Multivector {
    fn scalar_product(self, rhs: Scalar) -> Scalar {
        Scalar { s: term(self.s, rhs.s) }
    }
}

impl ScalarProduct<Vector> for Multivector {
    fn scalar_product(self, rhs: Vector) -> Scalar {
        Scalar { s: term(self.e1, rhs.e1) + term(self.e2, rhs.e2)
                + term(self.e3, rhs.e3) }
    }
}

impl ScalarProduct<Bivector> for Multivector {
    fn scalar_product(self, rhs: Bivector) -> Scalar {
        Scalar { s: - term(self.e23, rhs.e23) - term(self.e31, rhs.e31)
                - term(self.e12, rhs.e12) }
    }
}

impl ScalarProduct<Trivector> for Multivector {
    fn scalar_product(self, rhs: Trivector) -> Scalar {
        Scalar { s: - term(self.e123, rhs.e123) }
    }
}

impl ScalarProduct<Multivector> for Scalar {
    fn scalar_product(self, rhs: Multivector) -> Scalar {
        Scalar { s: term(self.s, rhs.s) }
    }
}

impl ScalarProduct<Scalar> for Scalar {
    fn scalar_product(self, rhs: Scalar) -> Scalar {
        Scalar { s: term(self.s, rhs.s) }
    }
}

impl ScalarProduct<Multivector> for Vector {
    fn scalar_product(self, rhs: Multivector) -> Scalar {
        Scalar { s: term(self.e1, rhs.e1) + term(self.e2, rhs.e2)
                + term(self.e3, rhs.e3) }
    }
}

impl ScalarProduct<Vector> for Vector {
    fn scalar_product(self, rhs: Vector) -> Scalar {
        Scalar { s: term(self.e1, rhs.e1) + term(self.e2, rhs.e2)
                + term(self.e3, rhs.e3) }
    }
}

impl ScalarProduct<Multivector> for Bivector {
    fn scalar_product(self, rhs: Multivector) -> Scalar {
        Scalar { s: - term(self.e23, rhs.e23) - term(self.e31, rhs.e31)
                - term(self.e12, rhs.e12) }
    }
}

impl ScalarProduct<Bivector> for Bivector {
    fn scalar_product(self, rhs: Bivector) -> Scalar {
        Scalar { s: - term(self.e23, rhs.e23) - term(self.e31, rhs.e31)
                - term(self.e12, rhs.e12) }
    }
}

impl ScalarProduct<Multivector> for Trivector {
    fn scalar_product(self, rhs: Multivector) -> Scalar {
        Scalar { s: - term(self.e123, rhs.e123) }
    }
}

impl ScalarProduct<Trivector> for Trivector {
    fn scalar_product(self, rhs: Trivector) -> Scalar {
        Scalar { s: - term(self.e123, rhs.e123) }
    }
}

impl ScalarProduct<Empty> for Multivector {
    fn scalar_product(self, rhs: Empty) -> Scalar {
        Scalar { s: 0 }
    }
}

impl ScalarProduct<Pseudoscalar> for Multivector {
    fn scalar_product(self, rhs: Pseudoscalar) -> Scalar {
        Scalar { s: 0 }
    }
}

impl ScalarProduct<Empty> for Scalar {
    fn scalar_product(self, rhs: Empty) -> Scalar {
        Scalar { s: 0 }
    }
}

impl ScalarProduct<Vector> for Scalar {
    fn scalar_product(self, rhs: Vector) -> Scalar {
        Scalar { s: 0 }
    }
}

impl ScalarProduct<Bivector> for Scalar {
    fn scalar_product(self, rhs: Bivector) -> Scalar {
        Scalar { s: 0 }
    }
}

impl ScalarProduct<Trivector> for Scalar {
    fn scalar_product(self, rhs: Trivector) -> Scalar {
        Scalar { s: 0 }
    }
}

impl ScalarProduct<Pseudoscalar> for Scalar {
    fn scalar_product(self, rhs: Pseudoscalar) -> Scalar {
        Scalar { s: 0 }
    }
}

impl ScalarProduct<Empty> for Vector {
    fn scalar_product(self, rhs: Empty) -> Scalar {
        Scalar { s: 0 }
    }
}

impl ScalarProduct<Scalar> for Vector {
    fn scalar_product(self, rhs: Scalar) -> Scalar {
        Scalar { s: 0 }
    }
}

impl ScalarProduct<Bivector> for Vector {
    fn scalar_product(self, rhs: Bivector) -> Scalar {
        Scalar { s: 0 }
    }
}

impl ScalarProduct<Trivector> for Vector {
    fn scalar_product(self, rhs: Trivector) -> Scalar {
        Scalar { s: 0 }
    }
}

impl ScalarProduct<Pseudoscalar> for Vector {
    fn scalar_product(self, rhs: Pseudoscalar) -> Scalar {
        Scalar { s: 0 }
    }
}

impl ScalarProduct<Empty> for Bivector {
    fn scalar_product(self, rhs: Empty) -> Scalar {
        Scalar { s: 0 }
    }
}

impl ScalarProduct<Scalar> for Bivector {
    fn scalar_product(self, rhs: Scalar) -> Scalar {
        Scalar { s: 0 }
    }
}

impl ScalarProduct<Vector> for Bivector {
    fn scalar_product(self, rhs: Vector) -> Scalar {
        Scalar { s: 0 }
    }
}

impl ScalarProduct<Trivector> for Bivector {
    fn scalar_product(self, rhs: Trivector) -> Scalar {
        Scalar { s: 0 }
    }
}

impl ScalarProduct<Pseudoscalar> for Bivector {
    fn scalar_product(self, rhs: Pseudoscalar) -> Scalar {
        Scalar { s: 0 }
    }
}

impl ScalarProduct<Empty> for Trivector {
    fn scalar_product(self, rhs: Empty) -> Scalar {
        Scalar { s: 0 }
    }
}

impl ScalarProduct<Scalar> for Trivector {
    fn scalar_product(self, rhs: Scalar) -> Scalar {
        Scalar { s: 0 }
    }
}

impl ScalarProduct<Vector> for Trivector {
    fn scalar_product(self, rhs: Vector) -> Scalar {
        Scalar { s: 0 }
    }
}

impl ScalarProduct<Bivector> for Trivector {
    fn scalar_product(self, rhs: Bivector) -> Scalar {
        Scalar { s: 0 }
    }
}

impl ScalarProduct<Pseudoscalar> for Trivector {
    fn scalar_product(self, rhs: Pseudoscalar) -> Scalar {
        Scalar { s: 0 }
    }
}

impl ScalarProduct<Multivector> for Pseudoscalar {
    fn scalar_product(self, rhs: Multivector) -> Scalar {
        Scalar { s: 0 }
    }
}

impl ScalarProduct<Empty> for Pseudoscalar {
    fn scalar_product(self, rhs: Empty) -> Scalar {
        Scalar { s: 0 }
    }
}

impl ScalarProduct<Scalar> for Pseudoscalar {
    fn scalar_product(self, rhs: Scalar) -> Scalar {
        Scalar { s: 0 }
    }
}

impl ScalarProduct<Vector> for Pseudoscalar {
    fn scalar_product(self, rhs: Vector) -> Scalar {
        Scalar { s: 0 }
    }
}

impl ScalarProduct<Bivector> for Pseudoscalar {
    fn scalar_product(self, rhs: Bivector) -> Scalar {
        Scalar { s: 0 }
    }
}

impl ScalarProduct<Trivector> for Pseudoscalar {
    fn scalar_product(self, rhs: Trivector) -> Scalar {
        Scalar { s: 0 }
    }
}

impl ScalarProduct<Pseudoscalar> for Pseudoscalar {
    fn scalar_product(self, rhs: Pseudoscalar) -> Scalar {
        Scalar { s: 0 }
    }
}

impl ScalarProduct<Empty> for Empty {
    fn scalar_product(self, rhs: Empty) -> Scalar {
        Scalar { s: 0 }
    }
}

impl ScalarProduct<Multivector> for Empty {
    fn scalar_product(self, rhs: Multivector) -> Scalar {
        Scalar { s: 0 }
    }
}

impl ScalarProduct<Scalar> for Empty {
    fn scalar_product(self, rhs: Scalar) -> Scalar {
        Scalar { s: 0 }
    }
}

impl ScalarProduct<Vector> for Empty {
    fn scalar_product(self, rhs: Vector) -> Scalar {
        Scalar { s: 0 }
    }
}

impl ScalarProduct<Bivector> for Empty {
    fn scalar_product(self, rhs: Bivector) -> Scalar {
        Scalar { s: 0 }
    }
}

impl ScalarProduct<Trivector> for Empty {
    fn scalar_product(self, rhs: Trivector) -> Scalar {
        Scalar { s: 0 }
    }
}

impl ScalarProduct<Pseudoscalar> for Empty {
    fn scalar_product(self, rhs: Pseudoscalar) -> Scalar {
        Scalar { s: 0 }
    }
}

} // verus!
