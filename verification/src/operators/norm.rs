//! The squared Euclidean norm.

use vstd::prelude::*;

use crate::arith::term;
use crate::values::{Bivector, EgaValue, Empty, Multivector, Pseudoscalar, Scalar, Trivector, Vector};

verus! {

/// The squared Euclidean norm, `||a||^2`.
///
/// The contract is the defining identity: the squared norm is the grade-0
/// part of `a` times the reverse of `a`.  For the degenerate metric this
/// leaves exactly the squares of the components whose blades avoid the
/// null direction.
pub trait NormSquared: EgaValue {
    /// The squared norm, as a [`Scalar`].
    fn norm_squared(self) -> (r: Scalar)
        requires
            self.bounded(),
        ensures
            r.coeffs() == self.coeffs().geometric(self.coeffs().rev()).grade(0),
    ;
}

impl NormSquared for Multivector {
    fn norm_squared(self) -> Scalar {
        proof {
            // the reverse negates the grade-2 and grade-3 factors, and the
            // metric sign cancels against that negation
            broadcast use vstd::arithmetic::mul::lemma_mul_unary_negation;
        }
        Scalar { s: term(self.s, self.s) + term(self.e1, self.e1)
                + term(self.e2, self.e2) + term(self.e3, self.e3)
                + term(self.e12, self.e12) + term(self.e31, self.e31)
                + term(self.e23, self.e23) + term(self.e123, self.e123) }
    }
}

impl NormSquared for Scalar {
    fn norm_squared(self) -> Scalar {
        Scalar { s: term(self.s, self.s) }
    }
}

impl NormSquared for Vector {
    fn norm_squared(self) -> Scalar {
        Scalar { s: term(self.e1, self.e1) + term(self.e2, self.e2)
                + term(self.e3, self.e3) }
    }
}

impl NormSquared for Bivector {
    fn norm_squared(self) -> Scalar {
        proof {
            // the reverse negates the grade-2 and grade-3 factors, and the
            // metric sign cancels against that negation
            broadcast use vstd::arithmetic::mul::lemma_mul_unary_negation;
        }
        Scalar { s: term(self.e12, self.e12) + term(self.e31, self.e31)
                + term(self.e23, self.e23) }
    }
}

impl NormSquared for Trivector {
    fn norm_squared(self) -> Scalar {
        proof {
            // the reverse negates the grade-2 and grade-3 factors, and the
            // metric sign cancels against that negation
            broadcast use vstd::arithmetic::mul::lemma_mul_unary_negation;
        }
        Scalar { s: term(self.e123, self.e123) }
    }
}

impl NormSquared for Pseudoscalar {
    fn norm_squared(self) -> Scalar {
        Scalar { s: 0 }
    }
}

impl NormSquared for Empty {
    fn norm_squared(self) -> Scalar {
        Scalar { s: 0 }
    }
}

} // verus!
