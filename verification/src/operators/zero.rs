//! Zero values.

use vstd::prelude::*;

use crate::model::Coeffs;
use crate::values::{Bivector, EgaValue, Empty, Multivector, Pseudoscalar, Scalar, Trivector, Vector};

verus! {

/// The zero value of a kind: every component zero.
pub trait Zero: EgaValue {
    /// The zero value.
    fn zero() -> (r: Self)
        ensures
            r.coeffs() == Coeffs::zero(),
            r.bounded(),
    ;
}

/// The zero value of any kind that has one.
pub fn zero<T: Zero>() -> (r: T)
    ensures
        r.coeffs() == Coeffs::zero(),
        r.bounded(),
{
    T::zero()
}

impl Zero for Multivector {
    fn zero() -> Self {
        Multivector { e0: 0, e1: 0, e2: 0, e3: 0, s: 0, e23: 0, e31: 0, e12: 0, e01: 0,
            e02: 0, e03: 0, e0123: 0, e123: 0, e032: 0, e013: 0, e021: 0 }
    }
}

impl Zero for Scalar {
    fn zero() -> Self {
        Scalar { s: 0 }
    }
}

impl Zero for Vector {
    fn zero() -> Self {
        Vector { e0: 0, e1: 0, e2: 0, e3: 0 }
    }
}

impl Zero for Bivector {
    fn zero() -> Self {
        Bivector { e23: 0, e31: 0, e12: 0, e01: 0, e02: 0, e03: 0 }
    }
}

impl Zero for Trivector {
    fn zero() -> Self {
        Trivector { e123: 0, e032: 0, e013: 0, e021: 0 }
    }
}

impl Zero for Pseudoscalar {
    fn zero() -> Self {
        Pseudoscalar { e0123: 0 }
    }
}

impl Zero for Empty {
    fn zero() -> Self {
        Empty
    }
}

} // verus!
