//! Exact bounded multiplication, the one arithmetic helper every product
//! formula is built from.

use vstd::prelude::*;

use crate::values::COMPONENT_LIMIT;

verus! {

/// The largest magnitude a single term product can reach:
/// `COMPONENT_LIMIT * COMPONENT_LIMIT`.
pub const TERM_LIMIT: i64 = 0x400_0000_0000_0000;

/// Multiplies two bounded components exactly.
///
/// The result is the mathematical product, and it is small enough that a
/// sum of sixteen such terms still fits in an `i64`.
pub(crate) fn term(x: i64, y: i64) -> (r: i64)
    requires
        -COMPONENT_LIMIT <= x <= COMPONENT_LIMIT,
        -COMPONENT_LIMIT <= y <= COMPONENT_LIMIT,
    ensures
        r == x * y,
        -TERM_LIMIT <= r <= TERM_LIMIT,
{
    proof {
        assert(-(TERM_LIMIT as int) <= (x as int) * (y as int) <= TERM_LIMIT as int)
            by (nonlinear_arith)
            requires
                -(COMPONENT_LIMIT as int) <= x as int <= COMPONENT_LIMIT as int,
                -(COMPONENT_LIMIT as int) <= y as int <= COMPONENT_LIMIT as int,
                COMPONENT_LIMIT as int * COMPONENT_LIMIT as int == TERM_LIMIT as int,
        ;
    }
    x * y
}

} // verus!
