//! A kernel for 3D projective geometric algebra over exact integer
//! components.
//!
//! The algebra is built from four basis one-vectors `e0, e1, e2, e3`, where
//! `e0` squares to zero (the null direction of the degenerate metric) and
//! `e1, e2, e3` square to one.  Values are graded: [`Scalar`], [`Vector`],
//! [`Bivector`], [`Trivector`], [`Pseudoscalar`], the full 16-component
//! [`Multivector`], and the absorbing sentinel [`Empty`].
//!
//! Every product and unary map is specified against a single model: the
//! [`Coeffs`] table of all 16 basis-blade coefficients, with the
//! Cayley-table products defined on it as specification functions.  Each
//! typed operator implementation is proved to agree with that one general
//! rule, and the algebraic laws of the table are proved in [`laws`].

mod arith;
mod model;
mod operators;
mod values;

pub mod laws;

pub use model::Coeffs;
pub use operators::add::Add;
pub use operators::conjugate::Conjugate;
pub use operators::dot::Dot;
pub use operators::dual::Dual;
pub use operators::geometric_product::GeometricProduct;
pub use operators::grade_select::GradeSelect;
pub use operators::hodge_dual::HodgeDual;
pub use operators::ideal_norm::IdealNormSquared;
pub use operators::join::Join;
pub use operators::meet::Meet;
pub use operators::neg::Neg;
pub use operators::nil::Nil;
pub use operators::norm::NormSquared;
pub use operators::reverse::Reverse;
pub use operators::scalar_product::ScalarProduct;
pub use operators::sub::Sub;
pub use operators::zero::{zero, Zero};
pub use operators::{Exponent, Involution};
pub use values::{
    Bivector, EgaValue, Empty, Multivector, Pseudoscalar, Scalar, Trivector,
    Vector, COMPONENT_LIMIT,
};
