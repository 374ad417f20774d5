//! Small helpers for Q12 fixed-point arithmetic.
//!
//! Spec-mode division on `int` is Euclidean, which for a positive divisor is
//! exactly floor division — the same thing an arithmetic right shift by 12
//! computes on a two's-complement machine. The executable helper below
//! performs that floor division explicitly, using only divisions with
//! nonnegative dividends, so its result lines up with the spec semantics.

use vstd::prelude::*;

verus! {

/// Floor division of a Q12-scaled quantity by 2^12 (the scaling factor),
/// i.e. the arithmetic right shift by 12 that the Q12 format calls for.
pub fn div_floor_q12(x: i64) -> (r: i64)
    requires
        -0x4000_0000_0000_0000 <= x <= 0x4000_0000_0000_0000,
    ensures
        r == x as int / 4096,
{
    if x >= 0 {
        x / 4096
    } else {
        let m: i64 = -x;
        let q: i64 = (m + 4095) / 4096;
        proof {
            lemma_neg_div_is_neg_ceil(m as int);
        }
        -q
    }
}

/// For m > 0: the floor of -m/4096 is the negated ceiling of m/4096.
proof fn lemma_neg_div_is_neg_ceil(m: int)
    requires
        m > 0,
    ensures
        (-m) / 4096 == -((m + 4095) / 4096),
{
    let q = m / 4096;
    let r = m % 4096;
    vstd::arithmetic::div_mod::lemma_fundamental_div_mod(m, 4096);
    if r == 0 {
        vstd::arithmetic::div_mod::lemma_fundamental_div_mod_converse(-m, 4096, -q, 0);
        vstd::arithmetic::div_mod::lemma_fundamental_div_mod_converse(m + 4095, 4096, q, 4095);
    } else {
        vstd::arithmetic::div_mod::lemma_fundamental_div_mod_converse(-m, 4096, -q - 1, 4096 - r);
        vstd::arithmetic::div_mod::lemma_fundamental_div_mod_converse(m + 4095, 4096, q + 1, r - 1);
    }
}

/// Floor division is monotone across different positive denominators:
/// if the exact quotients are ordered (witnessed by cross multiplication),
/// so are the floored ones.
pub proof fn lemma_div_cross_monotone(n1: int, d1: int, n2: int, d2: int)
    requires
        0 <= n1,
        0 < d1,
        0 < d2,
        n1 * d2 <= n2 * d1,
    ensures
        n1 / d1 <= n2 / d2,
{
    let q1 = n1 / d1;
    vstd::arithmetic::div_mod::lemma_fundamental_div_mod(n1, d1);
    vstd::arithmetic::div_mod::lemma_mod_pos_bound(n1, d1);
    assert(q1 * d1 <= n1);
    assert((q1 * d1) * d2 <= n1 * d2) by (nonlinear_arith)
        requires
            q1 * d1 <= n1,
            d2 > 0,
    ;
    assert((q1 * d2) * d1 <= n2 * d1) by (nonlinear_arith)
        requires
            (q1 * d1) * d2 <= n1 * d2,
            n1 * d2 <= n2 * d1,
    ;
    assert(d2 * q1 <= n2) by (nonlinear_arith)
        requires
            (q1 * d2) * d1 <= n2 * d1,
            d1 > 0,
    ;
    vstd::arithmetic::div_mod::lemma_div_is_ordered(d2 * q1, n2, d2);
    vstd::arithmetic::div_mod::lemma_div_multiples_vanish(q1, d2);
}

} // verus!
