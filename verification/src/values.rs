//! The seven graded value kinds, and their embedding into the [`Coeffs`]
//! model that every contract in the crate speaks of.
//!
//! Components are exact 64-bit integers.  The binary operators ask (through
//! [`EgaValue::bounded`]) that each operand component lie within
//! [`COMPONENT_LIMIT`], which keeps every product of two operands exact:
//! a component of a product is a sum of at most 16 term products, and
//! `16 * COMPONENT_LIMIT * COMPONENT_LIMIT` still fits in an `i64`.

use vstd::prelude::*;

use crate::model::Coeffs;

verus! {

/// The largest component magnitude that the binary operators accept.
pub const COMPONENT_LIMIT: i64 = 0x2000_0000;

/// A graded value: anything that embeds into the coefficient model.
pub trait EgaValue: Sized {
    /// The basis-blade coefficients of this value; components that the
    /// kind does not carry are zero.
    spec fn coeffs(self) -> Coeffs;

    /// Every component of this value lies within [`COMPONENT_LIMIT`].
    spec fn bounded(self) -> bool;
}

/// The zero-component sentinel: "no operand of this grade".
///
/// Under `add` and `sub` it acts as an identity on either side; under the
/// products it is absorbing.  Its coefficient model is the zero table.
#[derive(Clone, Copy, Debug, PartialEq, Eq, Structural)]
pub struct Empty;

impl EgaValue for Empty {
    open spec fn coeffs(self) -> Coeffs {
        Coeffs::zero()
    }

    open spec fn bounded(self) -> bool {
        true
    }
}

/// The full graded sum: all 16 basis-blade components.
#[derive(Clone, Copy, Debug, PartialEq, Eq, Structural)]
pub struct Multivector {
    pub e0: i64,
    pub e1: i64,
    pub e2: i64,
    pub e3: i64,
    pub s: i64,
    pub e23: i64,
    pub e31: i64,
    pub e12: i64,
    pub e01: i64,
    pub e02: i64,
    pub e03: i64,
    pub e0123: i64,
    pub e123: i64,
    pub e032: i64,
    pub e013: i64,
    pub e021: i64,
}

impl EgaValue for Multivector {
    open spec fn coeffs(self) -> Coeffs {
        Coeffs {
            s: self.s as int,
            e0: self.e0 as int,
            e1: self.e1 as int,
            e2: self.e2 as int,
            e3: self.e3 as int,
            e23: self.e23 as int,
            e31: self.e31 as int,
            e12: self.e12 as int,
            e01: self.e01 as int,
            e02: self.e02 as int,
            e03: self.e03 as int,
            e123: self.e123 as int,
            e032: self.e032 as int,
            e013: self.e013 as int,
            e021: self.e021 as int,
            e0123: self.e0123 as int,
        }
    }

    open spec fn bounded(self) -> bool {
        self.coeffs().bounded()
    }
}
/// A grade-0 value: the scalar component alone.
#[derive(Clone, Copy, Debug, PartialEq, Eq, Structural)]
pub struct Scalar {
    pub s: i64,
}

impl EgaValue for Scalar {
    open spec fn coeffs(self) -> Coeffs {
        Coeffs {
            s: self.s as int,
            e0: 0,
            e1: 0,
            e2: 0,
            e3: 0,
            e23: 0,
            e31: 0,
            e12: 0,
            e01: 0,
            e02: 0,
            e03: 0,
            e123: 0,
            e032: 0,
            e013: 0,
            e021: 0,
            e0123: 0,
        }
    }

    open spec fn bounded(self) -> bool {
        self.coeffs().bounded()
    }
}
/// A grade-1 value; its four components are plane coordinates.
#[derive(Clone, Copy, Debug, PartialEq, Eq, Structural)]
pub struct Vector {
    pub e0: i64,
    pub e1: i64,
    pub e2: i64,
    pub e3: i64,
}

impl EgaValue for Vector {
    open spec fn coeffs(self) -> Coeffs {
        Coeffs {
            s: 0,
            e0: self.e0 as int,
            e1: self.e1 as int,
            e2: self.e2 as int,
            e3: self.e3 as int,
            e23: 0,
            e31: 0,
            e12: 0,
            e01: 0,
            e02: 0,
            e03: 0,
            e123: 0,
            e032: 0,
            e013: 0,
            e021: 0,
            e0123: 0,
        }
    }

    open spec fn bounded(self) -> bool {
        self.coeffs().bounded()
    }
}
/// A grade-2 value; its six components are line coordinates.
#[derive(Clone, Copy, Debug, PartialEq, Eq, Structural)]
pub struct Bivector {
    pub e23: i64,
    pub e31: i64,
    pub e12: i64,
    pub e01: i64,
    pub e02: i64,
    pub e03: i64,
}

impl EgaValue for Bivector {
    open spec fn coeffs(self) -> Coeffs {
        Coeffs {
            s: 0,
            e0: 0,
            e1: 0,
            e2: 0,
            e3: 0,
            e23: self.e23 as int,
            e31: self.e31 as int,
            e12: self.e12 as int,
            e01: self.e01 as int,
            e02: self.e02 as int,
            e03: self.e03 as int,
            e123: 0,
            e032: 0,
            e013: 0,
            e021: 0,
            e0123: 0,
        }
    }

    open spec fn bounded(self) -> bool {
        self.coeffs().bounded()
    }
}
/// A grade-3 value; its four components are point coordinates.
#[derive(Clone, Copy, Debug, PartialEq, Eq, Structural)]
pub struct Trivector {
    pub e123: i64,
    pub e032: i64,
    pub e013: i64,
    pub e021: i64,
}

impl EgaValue for Trivector {
    open spec fn coeffs(self) -> Coeffs {
        Coeffs {
            s: 0,
            e0: 0,
            e1: 0,
            e2: 0,
            e3: 0,
            e23: 0,
            e31: 0,
            e12: 0,
            e01: 0,
            e02: 0,
            e03: 0,
            e123: self.e123 as int,
            e032: self.e032 as int,
            e013: self.e013 as int,
            e021: self.e021 as int,
            e0123: 0,
        }
    }

    open spec fn bounded(self) -> bool {
        self.coeffs().bounded()
    }
}
/// The grade-4 value: the volume element `e0123` alone.
#[derive(Clone, Copy, Debug, PartialEq, Eq, Structural)]
pub struct Pseudoscalar {
    pub e0123: i64,
}

impl EgaValue for Pseudoscalar {
    open spec fn coeffs(self) -> Coeffs {
        Coeffs {
            s: 0,
            e0: 0,
            e1: 0,
            e2: 0,
            e3: 0,
            e23: 0,
            e31: 0,
            e12: 0,
            e01: 0,
            e02: 0,
            e03: 0,
            e123: 0,
            e032: 0,
            e013: 0,
            e021: 0,
            e0123: self.e0123 as int,
        }
    }

    open spec fn bounded(self) -> bool {
        self.coeffs().bounded()
    }
}

/// Widening a single grade into the full multivector.
///
/// `Multivector::from(value)` places the components of `value` in their
/// slots and zeroes the rest; `from_spec` names that value exactly.

impl From<Scalar> for Multivector {
    fn from(value: Scalar) -> (r: Multivector) {
        Multivector { e0: 0, e1: 0, e2: 0, e3: 0, s: value.s, e23: 0, e31: 0, e12: 0,
            e01: 0, e02: 0, e03: 0, e0123: 0, e123: 0, e032: 0, e013: 0, e021: 0 }
    }
}

impl vstd::std_specs::convert::FromSpecImpl<Scalar> for Multivector {
    open spec fn obeys_from_spec() -> bool {
        true
    }

    open spec fn from_spec(value: Scalar) -> Multivector {
        Multivector { e0: 0, e1: 0, e2: 0, e3: 0, s: value.s, e23: 0, e31: 0, e12: 0,
            e01: 0, e02: 0, e03: 0, e0123: 0, e123: 0, e032: 0, e013: 0, e021: 0 }
    }
}

impl From<Vector> for Multivector {
    fn from(value: Vector) -> (r: Multivector) {
        Multivector { e0: value.e0, e1: value.e1, e2: value.e2, e3: value.e3, s: 0,
            e23: 0, e31: 0, e12: 0, e01: 0, e02: 0, e03: 0, e0123: 0, e123: 0, e032: 0,
            e013: 0, e021: 0 }
    }
}

impl vstd::std_specs::convert::FromSpecImpl<Vector> for Multivector {
    open spec fn obeys_from_spec() -> bool {
        true
    }

    open spec fn from_spec(value: Vector) -> Multivector {
        Multivector { e0: value.e0, e1: value.e1, e2: value.e2, e3: value.e3, s: 0,
            e23: 0, e31: 0, e12: 0, e01: 0, e02: 0, e03: 0, e0123: 0, e123: 0, e032: 0,
            e013: 0, e021: 0 }
    }
}

impl From<Bivector> for Multivector {
    fn from(value: Bivector) -> (r: Multivector) {
        Multivector { e0: 0, e1: 0, e2: 0, e3: 0, s: 0, e23: value.e23, e31: value.e31,
            e12: value.e12, e01: value.e01, e02: value.e02, e03: value.e03, e0123: 0,
            e123: 0, e032: 0, e013: 0, e021: 0 }
    }
}

impl vstd::std_specs::convert::FromSpecImpl<Bivector> for Multivector {
    open spec fn obeys_from_spec() -> bool {
        true
    }

    open spec fn from_spec(value: Bivector) -> Multivector {
        Multivector { e0: 0, e1: 0, e2: 0, e3: 0, s: 0, e23: value.e23, e31: value.e31,
            e12: value.e12, e01: value.e01, e02: value.e02, e03: value.e03, e0123: 0,
            e123: 0, e032: 0, e013: 0, e021: 0 }
    }
}

impl From<Trivector> for Multivector {
    fn from(value: Trivector) -> (r: Multivector) {
        Multivector { e0: 0, e1: 0, e2: 0, e3: 0, s: 0, e23: 0, e31: 0, e12: 0, e01: 0,
            e02: 0, e03: 0, e0123: 0, e123: value.e123, e032: value.e032,
            e013: value.e013, e021: value.e021 }
    }
}

impl vstd::std_specs::convert::FromSpecImpl<Trivector> for Multivector {
    open spec fn obeys_from_spec() -> bool {
        true
    }

    open spec fn from_spec(value: Trivector) -> Multivector {
        Multivector { e0: 0, e1: 0, e2: 0, e3: 0, s: 0, e23: 0, e31: 0, e12: 0, e01: 0,
            e02: 0, e03: 0, e0123: 0, e123: value.e123, e032: value.e032,
            e013: value.e013, e021: value.e021 }
    }
}

impl From<Pseudoscalar> for Multivector {
    fn from(value: Pseudoscalar) -> (r: Multivector) {
        Multivector { e0: 0, e1: 0, e2: 0, e3: 0, s: 0, e23: 0, e31: 0, e12: 0, e01: 0,
            e02: 0, e03: 0, e0123: value.e0123, e123: 0, e032: 0, e013: 0, e021: 0 }
    }
}

impl vstd::std_specs::convert::FromSpecImpl<Pseudoscalar> for Multivector {
    open spec fn obeys_from_spec() -> bool {
        true
    }

    open spec fn from_spec(value: Pseudoscalar) -> Multivector {
        Multivector { e0: 0, e1: 0, e2: 0, e3: 0, s: 0, e23: 0, e31: 0, e12: 0, e01: 0,
            e02: 0, e03: 0, e0123: value.e0123, e123: 0, e032: 0, e013: 0, e021: 0 }
    }
}

} // verus!
