pub mod add;
pub mod conjugate;
pub mod dot;
pub mod dual;
pub mod geometric_product;
pub mod grade_select;
pub mod hodge_dual;
pub mod ideal_norm;
pub mod join;
pub mod meet;
pub mod neg;
pub mod nil;
pub mod norm;
pub mod reverse;
pub mod scalar_product;
pub mod sub;
pub mod zero;

use vstd::prelude::*;

verus! {

/// Grade involution.
pub trait Involution {
    /// The kind of the result.
    type Output;

    /// Grade involution.
    fn involution(self) -> Self;
}

/// Exponentiation.
pub trait Exponent<Rhs> {
    /// The kind of the result.
    type Output;

    /// Exponentiation.
    fn exp(self, rhs: Rhs) -> Self::Output;
}

} // verus!
