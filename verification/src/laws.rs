//! The algebraic laws of the coefficient model, proved once and for all
//! values.
//!
//! Every executable operator's contract equates its result with a spec
//! function on [`Coeffs`], so each law below transfers directly to the
//! typed operators.

use vstd::prelude::*;

use crate::model::Coeffs;
use crate::values::{EgaValue, Vector};

verus! {

/// The meet of two vectors anti-commutes: `u.meet(v) == v.meet(u).neg()`.
pub proof fn lemma_meet_antisymmetric_vectors(u: Vector, v: Vector)
    ensures
        u.coeffs().outer(v.coeffs()) == v.coeffs().outer(u.coeffs()).negate(),
{
    broadcast use vstd::arithmetic::mul::lemma_mul_is_commutative;

}

/// The meet is grade-additive: on pure grades `j` and `k` the result is of
/// grade `j + k`, and nothing at all when that exceeds the pseudoscalar.
pub proof fn lemma_meet_grade_additive(a: Coeffs, b: Coeffs, j: int, k: int)
    requires
        a.is_grade(j),
        b.is_grade(k),
        0 <= j <= 4,
        0 <= k <= 4,
    ensures
        j + k <= 4 ==> a.outer(b).is_grade(j + k),
        j + k > 4 ==> a.outer(b) == Coeffs::zero(),
{
    broadcast use vstd::arithmetic::mul::lemma_mul_by_zero_is_zero;

}

/// The join is grade-subtractive: on pure grades `j` and `k` the result is
/// of grade `j + k - 4`, and nothing at all when that falls below zero.
pub proof fn lemma_join_grade_subtractive(a: Coeffs, b: Coeffs, j: int, k: int)
    requires
        a.is_grade(j),
        b.is_grade(k),
        0 <= j <= 4,
        0 <= k <= 4,
    ensures
        j + k >= 4 ==> a.regressive(b).is_grade(j + k - 4),
        j + k < 4 ==> a.regressive(b) == Coeffs::zero(),
{
    broadcast use vstd::arithmetic::mul::lemma_mul_by_zero_is_zero;

}

/// The reverse is an involution: applying it twice returns the value.
pub proof fn lemma_reverse_involution(c: Coeffs)
    ensures
        c.rev().rev() == c,
{
}

/// The Hodge dual is an involution up to a sign that depends only on the
/// grade: even grades return unchanged, odd grades return negated.
pub proof fn lemma_dual_involution(c: Coeffs, k: int)
    requires
        0 <= k <= 4,
        c.is_grade(k),
    ensures
        k % 2 == 0 ==> c.hodge().hodge() == c,
        k % 2 == 1 ==> c.hodge().hodge() == c.negate(),
{
}

/// The Poincare dual is an involution outright, on every value.
pub proof fn lemma_poincare_dual_involution(c: Coeffs)
    ensures
        c.complement().complement() == c,
{
}

/// `hodge_undual` inverts `hodge_dual` exactly, on every value.
pub proof fn lemma_hodge_undual_roundtrip(c: Coeffs)
    ensures
        c.hodge().unhodge() == c,
        c.unhodge().hodge() == c,
{
}

/// The join agrees with the double-duality route: `join(a, b)` is the
/// undual of `dual(b).meet(dual(a))`.
#[verifier::rlimit(100)]
pub proof fn lemma_join_is_dual_of_meet(a: Coeffs, b: Coeffs)
    ensures
        a.regressive(b) == b.hodge().outer(a.hodge()).unhodge(),
{
    broadcast use vstd::arithmetic::mul::lemma_mul_is_commutative;
    broadcast use vstd::arithmetic::mul::lemma_mul_unary_negation;

}

/// On pure grades the meet commutes up to the sign `(-1)^(j*k)`: operands
/// of odd grades anti-commute, all other pairs commute.
#[verifier::rlimit(100)]
pub proof fn lemma_meet_graded_commutation(a: Coeffs, b: Coeffs, j: int, k: int)
    requires
        a.is_grade(j),
        b.is_grade(k),
        0 <= j <= 4,
        0 <= k <= 4,
    ensures
        (j * k) % 2 == 0 ==> a.outer(b) == b.outer(a),
        (j * k) % 2 == 1 ==> a.outer(b) == b.outer(a).negate(),
{
    broadcast use vstd::arithmetic::mul::lemma_mul_is_commutative;
    broadcast use vstd::arithmetic::mul::lemma_mul_by_zero_is_zero;

}

/// On pure grades the meet is the grade-additive part of the geometric
/// product: blades that overlap only in the null direction vanish from
/// both, and any other overlap lowers the grade below `j + k`.
pub proof fn lemma_meet_is_graded_geometric(a: Coeffs, b: Coeffs, j: int, k: int)
    requires
        a.is_grade(j),
        b.is_grade(k),
        0 <= j <= 4,
        0 <= k <= 4,
    ensures
        a.outer(b) == a.geometric(b).grade(j + k),
{
    broadcast use vstd::arithmetic::mul::lemma_mul_by_zero_is_zero;

}

/// On pure grades the dot product is the contraction: the part of the
/// geometric product whose grade is the difference of the operand grades.
pub proof fn lemma_dot_is_graded_geometric(a: Coeffs, b: Coeffs, j: int, k: int)
    requires
        a.is_grade(j),
        b.is_grade(k),
        0 <= j <= 4,
        0 <= k <= 4,
    ensures
        a.inner(b) == a.geometric(b).grade(if j >= k { j - k } else { k - j }),
{
    broadcast use vstd::arithmetic::mul::lemma_mul_by_zero_is_zero;

}

/// Grade selection is idempotent: selecting the same grade twice changes
/// nothing after the first time.
pub proof fn lemma_grade_select_idempotent(c: Coeffs, k: int)
    ensures
        c.grade(k).grade(k) == c.grade(k),
{
}

/// The five grade parts partition a value: selecting every grade and
/// summing the parts reconstructs it.
pub proof fn lemma_grades_partition(c: Coeffs)
    ensures
        c.grade(0).plus(c.grade(1)).plus(c.grade(2)).plus(c.grade(3)).plus(c.grade(4)) == c,
{
}

/// Under addition and subtraction the absent value acts as an identity:
/// its coefficient table is zero, and adding or removing zero changes
/// nothing.
pub proof fn lemma_absent_is_add_identity(c: Coeffs)
    ensures
        c.plus(Coeffs::zero()) == c,
        Coeffs::zero().plus(c) == c,
        c.minus(Coeffs::zero()) == c,
{
}

/// Under every product the absent value is absorbing: combined with
/// anything it yields the zero table again.
pub proof fn lemma_absent_absorbs_products(c: Coeffs)
    ensures
        c.outer(Coeffs::zero()) == Coeffs::zero(),
        Coeffs::zero().outer(c) == Coeffs::zero(),
        c.geometric(Coeffs::zero()) == Coeffs::zero(),
        Coeffs::zero().geometric(c) == Coeffs::zero(),
        c.inner(Coeffs::zero()) == Coeffs::zero(),
        Coeffs::zero().inner(c) == Coeffs::zero(),
        c.regressive(Coeffs::zero()) == Coeffs::zero(),
        Coeffs::zero().regressive(c) == Coeffs::zero(),
{
    broadcast use vstd::arithmetic::mul::lemma_mul_by_zero_is_zero;

}

} // verus!
