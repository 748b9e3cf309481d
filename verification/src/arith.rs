//! Facts about integer division that the fixed-point proofs share.

use vstd::prelude::*;

verus! {

/// Floor division splits a number into a multiple of the divisor and a
/// remainder below it.
pub proof fn lemma_div_bounds(x: int, d: int)
    requires
        0 <= x,
        0 < d,
    ensures
        0 <= x / d,
        (x / d) * d <= x < (x / d) * d + d,
        x == (x / d) * d + x % d,
        0 <= x % d < d,
{
    vstd::arithmetic::div_mod::lemma_fundamental_div_mod(x, d);
    vstd::arithmetic::div_mod::lemma_mod_bound(x, d);
    vstd::arithmetic::div_mod::lemma_div_pos_is_pos(x, d);
    vstd::arithmetic::mul::lemma_mul_is_commutative(d, x / d);
}

/// A number is at most the quotient `m / d` exactly when its product with
/// `d` is at most `m`.
pub proof fn lemma_le_quotient(a: int, d: int, m: int)
    requires
        0 <= a,
        0 <= m,
        0 < d,
    ensures
        a <= m / d <==> a * d <= m,
{
    lemma_div_bounds(m, d);
    let q = m / d;
    if a <= q {
        assert(a * d <= q * d) by (nonlinear_arith)
            requires
                0 <= a <= q,
                0 < d,
        ;
    } else {
        assert(a * d >= (q + 1) * d) by (nonlinear_arith)
            requires
                a >= q + 1,
                0 < d,
        ;
        assert((q + 1) * d == q * d + d) by (nonlinear_arith);
    }
}

/// The quotient of `x` by `d` is the one number `q` with
/// `q * d <= x < q * d + d`.
pub proof fn lemma_quotient_unique(x: int, d: int, q: int)
    requires
        0 < d,
        q * d <= x < q * d + d,
    ensures
        x / d == q,
        x % d == x - q * d,
{
    vstd::arithmetic::div_mod::lemma_fundamental_div_mod_converse(x, d, q, x - q * d);
}

/// Cancelling a positive factor on both sides of a strict inequality.
pub proof fn lemma_cancel_lt(x: int, y: int, d: int)
    requires
        0 < d,
        x * d < y * d,
    ensures
        x < y,
{
    assert(x < y) by (nonlinear_arith)
        requires
            0 < d,
            x * d < y * d,
    ;
}

} // verus!
