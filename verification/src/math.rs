//! Round-to-nearest integer division, the arithmetic core of both the
//! aspect-ratio height computation and the luminance-to-ramp quantization.

use vstd::prelude::*;

verus! {

/// `n / d` rounded to the nearest integer, ties rounding up.
///
/// For `n >= 0` and `d > 0` this is the mathematical `round(n / d)` with
/// halves rounded away from zero.
pub open spec fn round_div(n: int, d: int) -> int {
    (2 * n + d) / (2 * d)
}

/// Rounded division is monotone in the numerator.
pub proof fn lemma_round_div_ordered(n1: int, n2: int, d: int)
    requires
        n1 <= n2,
        0 < d,
    ensures
        round_div(n1, d) <= round_div(n2, d),
{
    vstd::arithmetic::div_mod::lemma_div_is_ordered(2 * n1 + d, 2 * n2 + d, 2 * d);
}

/// An exact multiple of the divisor rounds to its quotient.
pub proof fn lemma_round_div_exact(q: int, d: int)
    requires
        0 < d,
    ensures
        round_div(q * d, d) == q,
{
    assert(2 * (q * d) + d == q * (2 * d) + d) by (nonlinear_arith);
    vstd::arithmetic::div_mod::lemma_fundamental_div_mod_converse(q * (2 * d) + d, 2 * d, q, d);
}

/// A numerator between `0` and `q * d` rounds to a value between `0` and `q`.
pub proof fn lemma_round_div_bounds(n: int, d: int, q: int)
    requires
        0 < d,
        0 <= n <= q * d,
    ensures
        0 <= round_div(n, d) <= q,
{
    lemma_round_div_exact(0, d);
    lemma_round_div_ordered(0, n, d);
    lemma_round_div_exact(q, d);
    lemma_round_div_ordered(n, q * d, d);
}

} // verus!
