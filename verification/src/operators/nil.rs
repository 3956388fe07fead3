//! Zero values behind an associated output kind.

use vstd::prelude::*;

use crate::model::Coeffs;
use crate::values::{Bivector, EgaValue, Empty, Multivector, Pseudoscalar, Scalar, Trivector, Vector};

verus! {

/// The zero value, named through an associated output kind.
pub trait Nil {
    /// The kind of the zero value (the kind itself).
    type Output: EgaValue;

    /// The zero value.
    fn nil() -> (r: Self::Output)
        ensures
            r.coeffs() == Coeffs::zero(),
            r.bounded(),
    ;
}

impl Nil for Multivector {
    type Output = Multivector;

    fn nil() -> Self {
        Multivector { e0: 0, e1: 0, e2: 0, e3: 0, s: 0, e23: 0, e31: 0, e12: 0, e01: 0,
            e02: 0, e03: 0, e0123: 0, e123: 0, e032: 0, e013: 0, e021: 0 }
    }
}

impl Nil for Scalar {
    type Output = Scalar;

    fn nil() -> Self {
        Scalar { s: 0 }
    }
}

impl Nil for Vector {
    type Output = Vector;

    fn nil() -> Self {
        Vector { e0: 0, e1: 0, e2: 0, e3: 0 }
    }
}

impl Nil for Bivector {
    type Output = Bivector;

    fn nil() -> Self {
        Bivector { e23: 0, e31: 0, e12: 0, e01: 0, e02: 0, e03: 0 }
    }
}

impl Nil for Trivector {
    type Output = Trivector;

    fn nil() -> Self {
        Trivector { e123: 0, e032: 0, e013: 0, e021: 0 }
    }
}

impl Nil for Pseudoscalar {
    type Output = Pseudoscalar;

    fn nil() -> Self {
        Pseudoscalar { e0123: 0 }
    }
}

impl Nil for Empty {
    type Output = Empty;

    fn nil() -> Self {
        Empty
    }
}

} // verus!
