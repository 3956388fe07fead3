//! The squared ideal (vanishing) norm.

use vstd::prelude::*;

use crate::arith::term;
use crate::values::{Bivector, EgaValue, Empty, Multivector, Pseudoscalar, Scalar, Trivector, Vector};

verus! {

/// The squared ideal norm, `||a||^2` of the vanishing part.
///
/// It sums the squares of exactly the components whose blades contain the
/// null direction `e0` -- the part of the value that the Euclidean norm
/// cannot see.  The result sits in the pseudoscalar slot.
pub trait IdealNormSquared: EgaValue {
    /// The squared ideal norm, as a [`Pseudoscalar`].
    fn ideal_norm_squared(self) -> (r: Pseudoscalar)
        requires
            self.bounded(),
        ensures
            r.e0123 == self.coeffs().ideal_square(),
    ;
}

impl IdealNormSquared for Multivector {
    fn ideal_norm_squared(self) -> Pseudoscalar {
        Pseudoscalar { e0123: term(self.e0123, self.e0123)
                + term(self.e032, self.e032) + term(self.e013, self.e013)
                + term(self.e021, self.e021) + term(self.e03, self.e03)
                + term(self.e02, self.e02) + term(self.e01, self.e01)
                + term(self.e0, self.e0) }
    }
}

impl IdealNormSquared for Scalar {
    fn ideal_norm_squared(self) -> Pseudoscalar {
        Pseudoscalar { e0123: 0 }
    }
}

impl IdealNormSquared for Vector {
    fn ideal_norm_squared(self) -> Pseudoscalar {
        Pseudoscalar { e0123: term(self.e0, self.e0) }
    }
}

impl IdealNormSquared for Bivector {
    fn ideal_norm_squared(self) -> Pseudoscalar {
        Pseudoscalar { e0123: term(self.e01, self.e01) + term(self.e02, self.e02)
                + term(self.e03, self.e03) }
    }
}

impl IdealNormSquared for Trivector {
    fn ideal_norm_squared(self) -> Pseudoscalar {
        Pseudoscalar { e0123: term(self.e032, self.e032)
                + term(self.e013, self.e013) + term(self.e021, self.e021) }
    }
}

impl IdealNormSquared for Pseudoscalar {
    fn ideal_norm_squared(self) -> Pseudoscalar {
        Pseudoscalar { e0123: term(self.e0123, self.e0123) }
    }
}

impl IdealNormSquared for Empty {
    fn ideal_norm_squared(self) -> Pseudoscalar {
        Pseudoscalar { e0123: 0 }
    }
}

} // verus!
