//! The Clifford conjugate: grades 1 and 2 are negated, grades 0, 3

use vstd::prelude::*;

use crate::values::{Bivector, EgaValue, Empty, Multivector, Pseudoscalar, Scalar, Trivector, Vector};

verus! {

/// The Clifford conjugate: grades 1 and 2 are negated, grades 0, 3
/// and 4 are unchanged.
pub trait Conjugate: EgaValue {
    /// The Clifford conjugate.
    fn conjugate(self) -> (r: Self)
        requires
            self.bounded(),
        ensures
            r.coeffs() == self.coeffs().conj(),
    ;
}

impl Conjugate for Multivector {
    fn conjugate(self) -> Multivector {
        Multivector { e0: -self.e0, e1: -self.e1, e2: -self.e2, e3: -self.e3,
            s: self.s, e23: -self.e23, e31: -self.e31, e12: -self.e12, e01: -self.e01,
            e02: -self.e02, e03: -self.e03, e0123: self.e0123, e123: self.e123,
            e032: self.e032, e013: self.e013, e021: self.e021 }
    }
}

impl Conjugate for Scalar {
    fn conjugate(self) -> Scalar {
        self
    }
}

impl Conjugate for Vector {
    fn conjugate(self) -> Vector {
        Vector { e0: -self.e0, e1: -self.e1, e2: -self.e2, e3: -self.e3 }
    }
}

impl Conjugate for Bivector {
    fn conjugate(self) -> Bivector {
        Bivector { e23: -self.e23, e31: -self.e31, e12: -self.e12, e01: -self.e01,
            e02: -self.e02, e03: -self.e03 }
    }
}

impl Conjugate for Trivector {
    fn conjugate(self) -> Trivector {
        self
    }
}

impl Conjugate for Pseudoscalar {
    fn conjugate(self) -> Pseudoscalar {
        self
    }
}

impl Conjugate for Empty {
    fn conjugate(self) -> Empty {
        Empty
    }
}

} // verus!
