//! Grade selection: projecting a value onto a single grade.

use vstd::prelude::*;

use crate::values::{Bivector, EgaValue, Empty, Multivector, Pseudoscalar, Scalar, Trivector, Vector};

verus! {

/// The grade selection operator.
///
/// Each method projects onto one grade and returns that grade's concrete
/// kind; when the value has no part of that grade the result is the
/// kind's zero value, never [`Empty`].
pub trait GradeSelect: EgaValue {
    /// The grade-0 [`Scalar`] part.
    fn grade_0(self) -> (r: Scalar)
        ensures
            r.coeffs() == self.coeffs().grade(0),
    ;

    /// The grade-1 [`Vector`] part.
    fn grade_1(self) -> (r: Vector)
        ensures
            r.coeffs() == self.coeffs().grade(1),
    ;

    /// The grade-2 [`Bivector`] part.
    fn grade_2(self) -> (r: Bivector)
        ensures
            r.coeffs() == self.coeffs().grade(2),
    ;

    /// The grade-3 [`Trivector`] part.
    fn grade_3(self) -> (r: Trivector)
        ensures
            r.coeffs() == self.coeffs().grade(3),
    ;

    /// The grade-4 [`Pseudoscalar`] part.
    fn grade_4(self) -> (r: Pseudoscalar)
        ensures
            r.coeffs() == self.coeffs().grade(4),
    ;
}

impl GradeSelect for Multivector {
    fn grade_0(self) -> Scalar {
        Scalar { s: self.s }
    }

    fn grade_1(self) -> Vector {
        Vector { e0: self.e0, e1: self.e1, e2: self.e2, e3: self.e3 }
    }

    fn grade_2(self) -> Bivector {
        Bivector { e23: self.e23, e31: self.e31, e12: self.e12, e01: self.e01,
            e02: self.e02, e03: self.e03 }
    }

    fn grade_3(self) -> Trivector {
        Trivector { e123: self.e123, e032: self.e032, e013: self.e013, e021: self.e021 }
    }

    fn grade_4(self) -> Pseudoscalar {
        Pseudoscalar { e0123: self.e0123 }
    }
}

impl GradeSelect for Scalar {
    fn grade_0(self) -> Scalar {
        self
    }

    fn grade_1(self) -> Vector {
        Vector { e0: 0, e1: 0, e2: 0, e3: 0 }
    }

    fn grade_2(self) -> Bivector {
        Bivector { e23: 0, e31: 0, e12: 0, e01: 0, e02: 0, e03: 0 }
    }

    fn grade_3(self) -> Trivector {
        Trivector { e123: 0, e032: 0, e013: 0, e021: 0 }
    }

    fn grade_4(self) -> Pseudoscalar {
        Pseudoscalar { e0123: 0 }
    }
}

impl GradeSelect for Vector {
    fn grade_0(self) -> Scalar {
        Scalar { s: 0 }
    }

    fn grade_1(self) -> Vector {
        self
    }

    fn grade_2(self) -> Bivector {
        Bivector { e23: 0, e31: 0, e12: 0, e01: 0, e02: 0, e03: 0 }
    }

    fn grade_3(self) -> Trivector {
        Trivector { e123: 0, e032: 0, e013: 0, e021: 0 }
    }

    fn grade_4(self) -> Pseudoscalar {
        Pseudoscalar { e0123: 0 }
    }
}

impl GradeSelect for Bivector {
    fn grade_0(self) -> Scalar {
        Scalar { s: 0 }
    }

    fn grade_1(self) -> Vector {
        Vector { e0: 0, e1: 0, e2: 0, e3: 0 }
    }

    fn grade_2(self) -> Bivector {
        self
    }

    fn grade_3(self) -> Trivector {
        Trivector { e123: 0, e032: 0, e013: 0, e021: 0 }
    }

    fn grade_4(self) -> Pseudoscalar {
        Pseudoscalar { e0123: 0 }
    }
}

impl GradeSelect for Trivector {
    fn grade_0(self) -> Scalar {
        Scalar { s: 0 }
    }

    fn grade_1(self) -> Vector {
        Vector { e0: 0, e1: 0, e2: 0, e3: 0 }
    }

    fn grade_2(self) -> Bivector {
        Bivector { e23: 0, e31: 0, e12: 0, e01: 0, e02: 0, e03: 0 }
    }

    fn grade_3(self) -> Trivector {
        self
    }

    fn grade_4(self) -> Pseudoscalar {
        Pseudoscalar { e0123: 0 }
    }
}

impl GradeSelect for Pseudoscalar {
    fn grade_0(self) -> Scalar {
        Scalar { s: 0 }
    }

    fn grade_1(self) -> Vector {
        Vector { e0: 0, e1: 0, e2: 0, e3: 0 }
    }

    fn grade_2(self) -> Bivector {
        Bivector { e23: 0, e31: 0, e12: 0, e01: 0, e02: 0, e03: 0 }
    }

    fn grade_3(self) -> Trivector {
        Trivector { e123: 0, e032: 0, e013: 0, e021: 0 }
    }

    fn grade_4(self) -> Pseudoscalar {
        self
    }
}

impl GradeSelect for Empty {
    fn grade_0(self) -> Scalar {
        Scalar { s: 0 }
    }

    fn grade_1(self) -> Vector {
        Vector { e0: 0, e1: 0, e2: 0, e3: 0 }
    }

    fn grade_2(self) -> Bivector {
        Bivector { e23: 0, e31: 0, e12: 0, e01: 0, e02: 0, e03: 0 }
    }

    fn grade_3(self) -> Trivector {
        Trivector { e123: 0, e032: 0, e013: 0, e021: 0 }
    }

    fn grade_4(self) -> Pseudoscalar {
        Pseudoscalar { e0123: 0 }
    }
}

} // verus!
