//! The mathematical model of the algebra: one table of all 16 basis-blade
//! coefficients, with the Cayley-table products and unary maps defined on it
//! as specification functions.
//!
//! Basis blades are indexed subsets of `{0, 1, 2, 3}`; index 0 is the null
//! direction (`e0 * e0 == 0`), the others square to one.  The product of two
//! blades carries the sign of the permutation that sorts the concatenated
//! indices, and vanishes when the null index repeats.  The tables below are
//! exactly the closed forms that this rule yields; every executable operator
//! in the crate is proved against them.

use vstd::prelude::*;

use crate::values::COMPONENT_LIMIT;

verus! {

/// All 16 basis-blade coefficients of a value, as unbounded integers.
///
/// This is the common model that every graded kind embeds into: a kind with
/// fewer components maps to a table whose other coefficients are zero.
pub ghost struct Coeffs {
    pub s: int,
    pub e0: int,
    pub e1: int,
    pub e2: int,
    pub e3: int,
    pub e23: int,
    pub e31: int,
    pub e12: int,
    pub e01: int,
    pub e02: int,
    pub e03: int,
    pub e123: int,
    pub e032: int,
    pub e013: int,
    pub e021: int,
    pub e0123: int,
}

impl Coeffs {
    /// The table with every coefficient zero.
    pub open spec fn zero() -> Coeffs {
        Coeffs {
            s: 0,
            e0: 0,
            e1: 0,
            e2: 0,
            e3: 0,
            e23: 0,
            e31: 0,
            e12: 0,
            e01: 0,
            e02: 0,
            e03: 0,
            e123: 0,
            e032: 0,
            e013: 0,
            e021: 0,
            e0123: 0,
        }
    }

    /// Every coefficient lies in `[-COMPONENT_LIMIT, COMPONENT_LIMIT]`.
    pub open spec fn bounded(self) -> bool {
        &&& -(COMPONENT_LIMIT as int) <= self.s <= COMPONENT_LIMIT as int
        &&& -(COMPONENT_LIMIT as int) <= self.e0 <= COMPONENT_LIMIT as int
        &&& -(COMPONENT_LIMIT as int) <= self.e1 <= COMPONENT_LIMIT as int
        &&& -(COMPONENT_LIMIT as int) <= self.e2 <= COMPONENT_LIMIT as int
        &&& -(COMPONENT_LIMIT as int) <= self.e3 <= COMPONENT_LIMIT as int
        &&& -(COMPONENT_LIMIT as int) <= self.e23 <= COMPONENT_LIMIT as int
        &&& -(COMPONENT_LIMIT as int) <= self.e31 <= COMPONENT_LIMIT as int
        &&& -(COMPONENT_LIMIT as int) <= self.e12 <= COMPONENT_LIMIT as int
        &&& -(COMPONENT_LIMIT as int) <= self.e01 <= COMPONENT_LIMIT as int
        &&& -(COMPONENT_LIMIT as int) <= self.e02 <= COMPONENT_LIMIT as int
        &&& -(COMPONENT_LIMIT as int) <= self.e03 <= COMPONENT_LIMIT as int
        &&& -(COMPONENT_LIMIT as int) <= self.e123 <= COMPONENT_LIMIT as int
        &&& -(COMPONENT_LIMIT as int) <= self.e032 <= COMPONENT_LIMIT as int
        &&& -(COMPONENT_LIMIT as int) <= self.e013 <= COMPONENT_LIMIT as int
        &&& -(COMPONENT_LIMIT as int) <= self.e021 <= COMPONENT_LIMIT as int
        &&& -(COMPONENT_LIMIT as int) <= self.e0123 <= COMPONENT_LIMIT as int
    }

    /// True when every coefficient outside grade `k` is zero.
    pub open spec fn is_grade(self, k: int) -> bool {
        &&& k == 0 || self.s == 0
        &&& k == 1 || self.e0 == 0
        &&& k == 1 || self.e1 == 0
        &&& k == 1 || self.e2 == 0
        &&& k == 1 || self.e3 == 0
        &&& k == 2 || self.e23 == 0
        &&& k == 2 || self.e31 == 0
        &&& k == 2 || self.e12 == 0
        &&& k == 2 || self.e01 == 0
        &&& k == 2 || self.e02 == 0
        &&& k == 2 || self.e03 == 0
        &&& k == 3 || self.e123 == 0
        &&& k == 3 || self.e032 == 0
        &&& k == 3 || self.e013 == 0
        &&& k == 3 || self.e021 == 0
        &&& k == 4 || self.e0123 == 0
    }

    /// The grade-`k` part: every coefficient of another grade is zeroed.
    pub open spec fn grade(self, k: int) -> Coeffs {
        Coeffs {
            s: if k == 0 { self.s } else { 0 },
            e0: if k == 1 { self.e0 } else { 0 },
            e1: if k == 1 { self.e1 } else { 0 },
            e2: if k == 1 { self.e2 } else { 0 },
            e3: if k == 1 { self.e3 } else { 0 },
            e23: if k == 2 { self.e23 } else { 0 },
            e31: if k == 2 { self.e31 } else { 0 },
            e12: if k == 2 { self.e12 } else { 0 },
            e01: if k == 2 { self.e01 } else { 0 },
            e02: if k == 2 { self.e02 } else { 0 },
            e03: if k == 2 { self.e03 } else { 0 },
            e123: if k == 3 { self.e123 } else { 0 },
            e032: if k == 3 { self.e032 } else { 0 },
            e013: if k == 3 { self.e013 } else { 0 },
            e021: if k == 3 { self.e021 } else { 0 },
            e0123: if k == 4 { self.e0123 } else { 0 },
        }
    }

    /// Componentwise sum.
    pub open spec fn plus(self, b: Coeffs) -> Coeffs {
        Coeffs {
            s: self.s + b.s,
            e0: self.e0 + b.e0,
            e1: self.e1 + b.e1,
            e2: self.e2 + b.e2,
            e3: self.e3 + b.e3,
            e23: self.e23 + b.e23,
            e31: self.e31 + b.e31,
            e12: self.e12 + b.e12,
            e01: self.e01 + b.e01,
            e02: self.e02 + b.e02,
            e03: self.e03 + b.e03,
            e123: self.e123 + b.e123,
            e032: self.e032 + b.e032,
            e013: self.e013 + b.e013,
            e021: self.e021 + b.e021,
            e0123: self.e0123 + b.e0123,
        }
    }

    /// Componentwise difference.
    pub open spec fn minus(self, b: Coeffs) -> Coeffs {
        Coeffs {
            s: self.s - b.s,
            e0: self.e0 - b.e0,
            e1: self.e1 - b.e1,
            e2: self.e2 - b.e2,
            e3: self.e3 - b.e3,
            e23: self.e23 - b.e23,
            e31: self.e31 - b.e31,
            e12: self.e12 - b.e12,
            e01: self.e01 - b.e01,
            e02: self.e02 - b.e02,
            e03: self.e03 - b.e03,
            e123: self.e123 - b.e123,
            e032: self.e032 - b.e032,
            e013: self.e013 - b.e013,
            e021: self.e021 - b.e021,
            e0123: self.e0123 - b.e0123,
        }
    }

    /// Componentwise negation.
    pub open spec fn negate(self) -> Coeffs {
        Coeffs {
            s: -self.s,
            e0: -self.e0,
            e1: -self.e1,
            e2: -self.e2,
            e3: -self.e3,
            e23: -self.e23,
            e31: -self.e31,
            e12: -self.e12,
            e01: -self.e01,
            e02: -self.e02,
            e03: -self.e03,
            e123: -self.e123,
            e032: -self.e032,
            e013: -self.e013,
            e021: -self.e021,
            e0123: -self.e0123,
        }
    }

    /// The reverse: grades 2 and 3 change sign (`(-1)^(k(k-1)/2)`).
    pub open spec fn rev(self) -> Coeffs {
        Coeffs {
            s: self.s,
            e0: self.e0,
            e1: self.e1,
            e2: self.e2,
            e3: self.e3,
            e23: -self.e23,
            e31: -self.e31,
            e12: -self.e12,
            e01: -self.e01,
            e02: -self.e02,
            e03: -self.e03,
            e123: -self.e123,
            e032: -self.e032,
            e013: -self.e013,
            e021: -self.e021,
            e0123: self.e0123,
        }
    }

    /// The Clifford conjugate: grades 1 and 2 change sign.
    pub open spec fn conj(self) -> Coeffs {
        Coeffs {
            s: self.s,
            e0: -self.e0,
            e1: -self.e1,
            e2: -self.e2,
            e3: -self.e3,
            e23: -self.e23,
            e31: -self.e31,
            e12: -self.e12,
            e01: -self.e01,
            e02: -self.e02,
            e03: -self.e03,
            e123: self.e123,
            e032: self.e032,
            e013: self.e013,
            e021: self.e021,
            e0123: self.e0123,
        }
    }

    /// The Poincare dual: each blade moves to its complement blade,
    /// with no sign change.
    pub open spec fn complement(self) -> Coeffs {
        Coeffs {
            s: self.e0123,
            e0: self.e123,
            e1: self.e032,
            e2: self.e013,
            e3: self.e021,
            e23: self.e01,
            e31: self.e02,
            e12: self.e03,
            e01: self.e23,
            e02: self.e31,
            e03: self.e12,
            e123: self.e0,
            e032: self.e1,
            e013: self.e2,
            e021: self.e3,
            e0123: self.s,
        }
    }

    /// The Hodge dual relative to `e0123`: each blade moves to its
    /// complement, signed so that `blade ^ complement == e0123`.
    pub open spec fn hodge(self) -> Coeffs {
        Coeffs {
            s: self.e0123,
            e0: -self.e123,
            e1: -self.e032,
            e2: -self.e013,
            e3: -self.e021,
            e23: self.e01,
            e31: self.e02,
            e12: self.e03,
            e01: self.e23,
            e02: self.e31,
            e03: self.e12,
            e123: self.e0,
            e032: self.e1,
            e013: self.e2,
            e021: self.e3,
            e0123: self.s,
        }
    }

    /// The inverse of the Hodge dual: `c.hodge().unhodge() == c`.
    pub open spec fn unhodge(self) -> Coeffs {
        Coeffs {
            s: self.e0123,
            e0: self.e123,
            e1: self.e032,
            e2: self.e013,
            e3: self.e021,
            e23: self.e01,
            e31: self.e02,
            e12: self.e03,
            e01: self.e23,
            e02: self.e31,
            e03: self.e12,
            e123: -self.e0,
            e032: -self.e1,
            e013: -self.e2,
            e021: -self.e3,
            e0123: self.s,
        }
    }

    /// The sum of the squares of exactly the coefficients whose blade
    /// contains the null direction `e0` (the vanishing part).
    pub open spec fn ideal_square(self) -> int {
        self.e0 * self.e0 + self.e01 * self.e01 + self.e02 * self.e02 + self.e03 * self.e03 + self.e032 * self.e032 + self.e013 * self.e013 + self.e021 * self.e021 + self.e0123 * self.e0123
    }

    /// The geometric product: the full Cayley table under the degenerate
    /// metric.  A blade pair sharing the null index contributes nothing.
    pub open spec fn geometric(self, b: Coeffs) -> Coeffs {
        Coeffs {
            s: self.s * b.s + self.e1 * b.e1 + self.e2 * b.e2
                + self.e3 * b.e3 - self.e23 * b.e23 - self.e31 * b.e31
                - self.e12 * b.e12 - self.e123 * b.e123,
            e0: self.s * b.e0 + self.e0 * b.s - self.e1 * b.e01
                - self.e2 * b.e02 - self.e3 * b.e03 + self.e23 * b.e032
                + self.e31 * b.e013 + self.e12 * b.e021 + self.e01 * b.e1
                + self.e02 * b.e2 + self.e03 * b.e3 + self.e123 * b.e0123
                + self.e032 * b.e23 + self.e013 * b.e31
                + self.e021 * b.e12 - self.e0123 * b.e123,
            e1: self.s * b.e1 + self.e1 * b.s - self.e2 * b.e12
                + self.e3 * b.e31 - self.e23 * b.e123 - self.e31 * b.e3
                + self.e12 * b.e2 - self.e123 * b.e23,
            e2: self.s * b.e2 + self.e1 * b.e12 + self.e2 * b.s
                - self.e3 * b.e23 + self.e23 * b.e3 - self.e31 * b.e123
                - self.e12 * b.e1 - self.e123 * b.e31,
            e3: self.s * b.e3 - self.e1 * b.e31 + self.e2 * b.e23
                + self.e3 * b.s - self.e23 * b.e2 + self.e31 * b.e1
                - self.e12 * b.e123 - self.e123 * b.e12,
            e23: self.s * b.e23 + self.e1 * b.e123 + self.e2 * b.e3
                - self.e3 * b.e2 + self.e23 * b.s - self.e31 * b.e12
                + self.e12 * b.e31 + self.e123 * b.e1,
            e31: self.s * b.e31 - self.e1 * b.e3 + self.e2 * b.e123
                + self.e3 * b.e1 + self.e23 * b.e12 + self.e31 * b.s
                - self.e12 * b.e23 + self.e123 * b.e2,
            e12: self.s * b.e12 + self.e1 * b.e2 - self.e2 * b.e1
                + self.e3 * b.e123 - self.e23 * b.e31 + self.e31 * b.e23
                + self.e12 * b.s + self.e123 * b.e3,
            e01: self.s * b.e01 + self.e0 * b.e1 - self.e1 * b.e0
                - self.e2 * b.e021 + self.e3 * b.e013
                - self.e23 * b.e0123 - self.e31 * b.e03
                + self.e12 * b.e02 + self.e01 * b.s - self.e02 * b.e12
                + self.e03 * b.e31 - self.e123 * b.e032
                + self.e032 * b.e123 + self.e013 * b.e3
                - self.e021 * b.e2 - self.e0123 * b.e23,
            e02: self.s * b.e02 + self.e0 * b.e2 + self.e1 * b.e021
                - self.e2 * b.e0 - self.e3 * b.e032 + self.e23 * b.e03
                - self.e31 * b.e0123 - self.e12 * b.e01
                + self.e01 * b.e12 + self.e02 * b.s - self.e03 * b.e23
                - self.e123 * b.e013 - self.e032 * b.e3
                + self.e013 * b.e123 + self.e021 * b.e1
                - self.e0123 * b.e31,
            e03: self.s * b.e03 + self.e0 * b.e3 - self.e1 * b.e013
                + self.e2 * b.e032 - self.e3 * b.e0 - self.e23 * b.e02
                + self.e31 * b.e01 - self.e12 * b.e0123
                - self.e01 * b.e31 + self.e02 * b.e23 + self.e03 * b.s
                - self.e123 * b.e021 + self.e032 * b.e2
                - self.e013 * b.e1 + self.e021 * b.e123
                - self.e0123 * b.e12,
            e123: self.s * b.e123 + self.e1 * b.e23 + self.e2 * b.e31
                + self.e3 * b.e12 + self.e23 * b.e1 + self.e31 * b.e2
                + self.e12 * b.e3 + self.e123 * b.s,
            e032: self.s * b.e032 - self.e0 * b.e23 + self.e1 * b.e0123
                + self.e2 * b.e03 - self.e3 * b.e02 - self.e23 * b.e0
                - self.e31 * b.e021 + self.e12 * b.e013
                - self.e01 * b.e123 - self.e02 * b.e3 + self.e03 * b.e2
                + self.e123 * b.e01 + self.e032 * b.s - self.e013 * b.e12
                + self.e021 * b.e31 - self.e0123 * b.e1,
            e013: self.s * b.e013 - self.e0 * b.e31 - self.e1 * b.e03
                + self.e2 * b.e0123 + self.e3 * b.e01 + self.e23 * b.e021
                - self.e31 * b.e0 - self.e12 * b.e032 + self.e01 * b.e3
                - self.e02 * b.e123 - self.e03 * b.e1 + self.e123 * b.e02
                + self.e032 * b.e12 + self.e013 * b.s - self.e021 * b.e23
                - self.e0123 * b.e2,
            e021: self.s * b.e021 - self.e0 * b.e12 + self.e1 * b.e02
                - self.e2 * b.e01 + self.e3 * b.e0123 - self.e23 * b.e013
                + self.e31 * b.e032 - self.e12 * b.e0 - self.e01 * b.e2
                + self.e02 * b.e1 - self.e03 * b.e123 + self.e123 * b.e03
                - self.e032 * b.e31 + self.e013 * b.e23 + self.e021 * b.s
                - self.e0123 * b.e3,
            e0123: self.s * b.e0123 + self.e0 * b.e123 + self.e1 * b.e032
                + self.e2 * b.e013 + self.e3 * b.e021 + self.e23 * b.e01
                + self.e31 * b.e02 + self.e12 * b.e03 + self.e01 * b.e23
                + self.e02 * b.e31 + self.e03 * b.e12 - self.e123 * b.e0
                - self.e032 * b.e1 - self.e013 * b.e2 - self.e021 * b.e3
                + self.e0123 * b.s,
        }
    }

    /// The outer (meet, wedge) product: grade-additive; a blade pair
    /// sharing any index contributes nothing.
    pub open spec fn outer(self, b: Coeffs) -> Coeffs {
        Coeffs {
            s: self.s * b.s,
            e0: self.s * b.e0 + self.e0 * b.s,
            e1: self.s * b.e1 + self.e1 * b.s,
            e2: self.s * b.e2 + self.e2 * b.s,
            e3: self.s * b.e3 + self.e3 * b.s,
            e23: self.s * b.e23 + self.e2 * b.e3 - self.e3 * b.e2
                + self.e23 * b.s,
            e31: self.s * b.e31 - self.e1 * b.e3 + self.e3 * b.e1
                + self.e31 * b.s,
            e12: self.s * b.e12 + self.e1 * b.e2 - self.e2 * b.e1
                + self.e12 * b.s,
            e01: self.s * b.e01 + self.e0 * b.e1 - self.e1 * b.e0
                + self.e01 * b.s,
            e02: self.s * b.e02 + self.e0 * b.e2 - self.e2 * b.e0
                + self.e02 * b.s,
            e03: self.s * b.e03 + self.e0 * b.e3 - self.e3 * b.e0
                + self.e03 * b.s,
            e123: self.s * b.e123 + self.e1 * b.e23 + self.e2 * b.e31
                + self.e3 * b.e12 + self.e23 * b.e1 + self.e31 * b.e2
                + self.e12 * b.e3 + self.e123 * b.s,
            e032: self.s * b.e032 - self.e0 * b.e23 + self.e2 * b.e03
                - self.e3 * b.e02 - self.e23 * b.e0 - self.e02 * b.e3
                + self.e03 * b.e2 + self.e032 * b.s,
            e013: self.s * b.e013 - self.e0 * b.e31 - self.e1 * b.e03
                + self.e3 * b.e01 - self.e31 * b.e0 + self.e01 * b.e3
                - self.e03 * b.e1 + self.e013 * b.s,
            e021: self.s * b.e021 - self.e0 * b.e12 + self.e1 * b.e02
                - self.e2 * b.e01 - self.e12 * b.e0 - self.e01 * b.e2
                + self.e02 * b.e1 + self.e021 * b.s,
            e0123: self.s * b.e0123 + self.e0 * b.e123 + self.e1 * b.e032
                + self.e2 * b.e013 + self.e3 * b.e021 + self.e23 * b.e01
                + self.e31 * b.e02 + self.e12 * b.e03 + self.e01 * b.e23
                + self.e02 * b.e31 + self.e03 * b.e12 - self.e123 * b.e0
                - self.e032 * b.e1 - self.e013 * b.e2 - self.e021 * b.e3
                + self.e0123 * b.s,
        }
    }

    /// The inner (dot) product: of each geometric blade product, exactly
    /// the contributions whose resulting grade is the difference of the
    /// operand grades.
    pub open spec fn inner(self, b: Coeffs) -> Coeffs {
        Coeffs {
            s: self.s * b.s + self.e1 * b.e1 + self.e2 * b.e2
                + self.e3 * b.e3 - self.e23 * b.e23 - self.e31 * b.e31
                - self.e12 * b.e12 - self.e123 * b.e123,
            e0: self.s * b.e0 + self.e0 * b.s - self.e1 * b.e01
                - self.e2 * b.e02 - self.e3 * b.e03 + self.e23 * b.e032
                + self.e31 * b.e013 + self.e12 * b.e021 + self.e01 * b.e1
                + self.e02 * b.e2 + self.e03 * b.e3 + self.e123 * b.e0123
                + self.e032 * b.e23 + self.e013 * b.e31
                + self.e021 * b.e12 - self.e0123 * b.e123,
            e1: self.s * b.e1 + self.e1 * b.s - self.e2 * b.e12
                + self.e3 * b.e31 - self.e23 * b.e123 - self.e31 * b.e3
                + self.e12 * b.e2 - self.e123 * b.e23,
            e2: self.s * b.e2 + self.e1 * b.e12 + self.e2 * b.s
                - self.e3 * b.e23 + self.e23 * b.e3 - self.e31 * b.e123
                - self.e12 * b.e1 - self.e123 * b.e31,
            e3: self.s * b.e3 - self.e1 * b.e31 + self.e2 * b.e23
                + self.e3 * b.s - self.e23 * b.e2 + self.e31 * b.e1
                - self.e12 * b.e123 - self.e123 * b.e12,
            e23: self.s * b.e23 + self.e1 * b.e123 + self.e23 * b.s
                + self.e123 * b.e1,
            e31: self.s * b.e31 + self.e2 * b.e123 + self.e31 * b.s
                + self.e123 * b.e2,
            e12: self.s * b.e12 + self.e3 * b.e123 + self.e12 * b.s
                + self.e123 * b.e3,
            e01: self.s * b.e01 - self.e2 * b.e021 + self.e3 * b.e013
                - self.e23 * b.e0123 + self.e01 * b.s + self.e013 * b.e3
                - self.e021 * b.e2 - self.e0123 * b.e23,
            e02: self.s * b.e02 + self.e1 * b.e021 - self.e3 * b.e032
                - self.e31 * b.e0123 + self.e02 * b.s - self.e032 * b.e3
                + self.e021 * b.e1 - self.e0123 * b.e31,
            e03: self.s * b.e03 - self.e1 * b.e013 + self.e2 * b.e032
                - self.e12 * b.e0123 + self.e03 * b.s + self.e032 * b.e2
                - self.e013 * b.e1 - self.e0123 * b.e12,
            e123: self.s * b.e123 + self.e123 * b.s,
            e032: self.s * b.e032 + self.e1 * b.e0123 + self.e032 * b.s
                - self.e0123 * b.e1,
            e013: self.s * b.e013 + self.e2 * b.e0123 + self.e013 * b.s
                - self.e0123 * b.e2,
            e021: self.s * b.e021 + self.e3 * b.e0123 + self.e021 * b.s
                - self.e0123 * b.e3,
            e0123: self.s * b.e0123 + self.e0123 * b.s,
        }
    }

    /// The regressive (join) product: grade-subtractive, dual to the
    /// outer product through the Hodge maps.
    pub open spec fn regressive(self, b: Coeffs) -> Coeffs {
        Coeffs {
            s: self.s * b.e0123 - self.e0 * b.e123 - self.e1 * b.e032
                - self.e2 * b.e013 - self.e3 * b.e021 + self.e23 * b.e01
                + self.e31 * b.e02 + self.e12 * b.e03 + self.e01 * b.e23
                + self.e02 * b.e31 + self.e03 * b.e12 + self.e123 * b.e0
                + self.e032 * b.e1 + self.e013 * b.e2 + self.e021 * b.e3
                + self.e0123 * b.s,
            e0: self.e0 * b.e0123 - self.e01 * b.e032 - self.e02 * b.e013
                - self.e03 * b.e021 - self.e032 * b.e01
                - self.e013 * b.e02 - self.e021 * b.e03
                + self.e0123 * b.e0,
            e1: self.e1 * b.e0123 + self.e31 * b.e021 - self.e12 * b.e013
                + self.e01 * b.e123 + self.e123 * b.e01
                - self.e013 * b.e12 + self.e021 * b.e31
                + self.e0123 * b.e1,
            e2: self.e2 * b.e0123 - self.e23 * b.e021 + self.e12 * b.e032
                + self.e02 * b.e123 + self.e123 * b.e02
                + self.e032 * b.e12 - self.e021 * b.e23
                + self.e0123 * b.e2,
            e3: self.e3 * b.e0123 + self.e23 * b.e013 - self.e31 * b.e032
                + self.e03 * b.e123 + self.e123 * b.e03
                - self.e032 * b.e31 + self.e013 * b.e23
                + self.e0123 * b.e3,
            e23: self.e23 * b.e0123 - self.e123 * b.e032 + self.e032 * b.e123
                + self.e0123 * b.e23,
            e31: self.e31 * b.e0123 - self.e123 * b.e013 + self.e013 * b.e123
                + self.e0123 * b.e31,
            e12: self.e12 * b.e0123 - self.e123 * b.e021 + self.e021 * b.e123
                + self.e0123 * b.e12,
            e01: self.e01 * b.e0123 - self.e013 * b.e021 + self.e021 * b.e013
                + self.e0123 * b.e01,
            e02: self.e02 * b.e0123 + self.e032 * b.e021 - self.e021 * b.e032
                + self.e0123 * b.e02,
            e03: self.e03 * b.e0123 - self.e032 * b.e013 + self.e013 * b.e032
                + self.e0123 * b.e03,
            e123: self.e123 * b.e0123 + self.e0123 * b.e123,
            e032: self.e032 * b.e0123 + self.e0123 * b.e032,
            e013: self.e013 * b.e0123 + self.e0123 * b.e013,
            e021: self.e021 * b.e0123 + self.e0123 * b.e021,
            e0123: self.e0123 * b.e0123,
        }
    }
}

} // verus!
