//! Rounded integer division, the one arithmetic primitive behind the
//! register computations: a real-valued quotient rounded to the nearest
//! integer, with halves rounding up.

use vstd::prelude::*;
use vstd::arithmetic::div_mod::{
    lemma_div_is_ordered, lemma_div_multiples_vanish_fancy, lemma_div_pos_is_pos,
    lemma_fundamental_div_mod, lemma_mod_bound,
};

verus! {

/// The quotient `a / d` rounded to the nearest integer, halves rounding up.
/// Meaningful for `a >= 0` and `d >= 1`.
pub open spec fn rounded_div(a: int, d: int) -> int {
    (2 * a + d) / (2 * d)
}

/// The rounded quotient is off from the exact quotient by at most one half:
/// `2*a - d <= 2*d*rounded_div(a, d) <= 2*a + d`.
pub proof fn lemma_rounded_div_close(a: int, d: int)
    requires
        0 <= a,
        1 <= d,
    ensures
        2 * d * rounded_div(a, d) <= 2 * a + d,
        2 * a - d <= 2 * d * rounded_div(a, d),
{
    lemma_fundamental_div_mod(2 * a + d, 2 * d);
    lemma_mod_bound(2 * a + d, 2 * d);
}

/// Rounding to the nearest integer never yields a negative quotient.
pub proof fn lemma_rounded_div_nonneg(a: int, d: int)
    requires
        0 <= a,
        1 <= d,
    ensures
        0 <= rounded_div(a, d),
{
    lemma_div_pos_is_pos(2 * a + d, 2 * d);
}

/// The rounded quotient grows with the dividend.
pub proof fn lemma_rounded_div_ordered(a1: int, a2: int, d: int)
    requires
        0 <= a1 <= a2,
        1 <= d,
    ensures
        rounded_div(a1, d) <= rounded_div(a2, d),
{
    lemma_div_is_ordered(2 * a1 + d, 2 * a2 + d, 2 * d);
}

/// Dividing by at least one and rounding cannot exceed the dividend.
pub proof fn lemma_rounded_div_le_dividend(a: int, d: int)
    requires
        0 <= a,
        1 <= d,
    ensures
        rounded_div(a, d) <= a,
{
    lemma_rounded_div_close(a, d);
    let q = rounded_div(a, d);
    assert(q <= a) by (nonlinear_arith)
        requires
            2 * d * q <= 2 * a + d,
            0 <= a,
            1 <= d,
    ;
}

/// A whole multiple of the divisor rounds back exactly.
pub proof fn lemma_rounded_div_of_multiple(x: int, d: int)
    requires
        0 <= x,
        1 <= d,
    ensures
        rounded_div(x * d, d) == x,
{
    lemma_div_multiples_vanish_fancy(x, d, 2 * d);
    assert(2 * (x * d) == (2 * d) * x) by (nonlinear_arith);
}

} // verus!
