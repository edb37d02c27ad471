//! Truncating fixed-point arithmetic helpers shared by the oracle and
//! pricing modules.

use vstd::arithmetic::div_mod::{lemma_div_nonincreasing, lemma_div_pos_is_pos};
use vstd::prelude::*;

verus! {

/// Truncating (round-toward-zero) integer division: the semantics of `/` on
/// `i128` values, written over mathematical integers. The shape matches the
/// case split used by the standard library's checked division, so results of
/// `checked_div` line up with it definitionally.
pub open spec fn tdiv(x: int, d: int) -> int {
    if x == 0 {
        0
    } else if x > 0 && d > 0 {
        x / d
    } else if x < 0 && d < 0 {
        (x * -1) / (d * -1)
    } else if x < 0 {
        ((x * -1) / d) * -1
    } else {
        (x / (d * -1)) * -1
    }
}

/// Whether a mathematical integer fits in `i128`.
pub open spec fn in_i128(x: int) -> bool {
    i128::MIN <= x <= i128::MAX
}

/// Truncating division never grows the magnitude of the dividend, so for a
/// positive divisor the quotient sits between 0 and the dividend.
pub proof fn lemma_tdiv_magnitude(x: int, d: int)
    requires
        d >= 1,
    ensures
        x >= 0 ==> 0 <= tdiv(x, d) <= x,
        x < 0 ==> x <= tdiv(x, d) <= 0,
{
    if x == 0 {
    } else if x > 0 {
        lemma_div_pos_is_pos(x, d);
        lemma_div_nonincreasing(x, d);
    } else {
        lemma_div_pos_is_pos(x * -1, d);
        lemma_div_nonincreasing(x * -1, d);
    }
}

/// Truncating division by a positive divisor, total over all `i128`
/// dividends: the quotient always fits back in `i128`.
pub fn div_trunc(x: i128, d: i128) -> (r: i128)
    requires
        d >= 1,
    ensures
        r as int == tdiv(x as int, d as int),
{
    proof {
        lemma_tdiv_magnitude(x as int, d as int);
    }
    let q = x.checked_div(d);
    q.unwrap()
}

} // verus!
