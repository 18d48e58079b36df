//! Fixed-point scalars.
//!
//! A scalar is an `i64` holding `value * SCALE`, so one raw unit is
//! one millionth.  All rounding is truncation toward zero, the same
//! direction Rust's integer division rounds; `tdiv` is that division
//! as a mathematical function, and the lemmas here bound it.

use vstd::prelude::*;
use vstd::arithmetic::div_mod::lemma_div_is_ordered;
use vstd::arithmetic::div_mod::lemma_div_is_ordered_by_denominator;
use vstd::arithmetic::div_mod::lemma_div_pos_is_pos;

verus! {

/// Raw units per whole unit: a scalar `s` stands for the real `s / SCALE`.
pub const SCALE: i64 = 1_000_000;

/// Truncating division: rounds toward zero, as Rust's `/` does on
/// machine integers.  Meaningful for `b > 0` only.
pub open spec fn tdiv(a: int, b: int) -> int
    recommends
        b > 0,
{
    if a >= 0 {
        a / b
    } else {
        -((-a) / b)
    }
}

/// Fixed-point product of two raw scalars.
pub open spec fn sfx_mul(a: int, b: int) -> int {
    tdiv(a * b, SCALE as int)
}

/// Fixed-point quotient of two raw scalars.  Meaningful for `b > 0`.
pub open spec fn sfx_div(a: int, b: int) -> int {
    tdiv(a * SCALE, b)
}

/// A nonnegative numerator over a positive divisor keeps its bound:
/// the quotient lies between 0 and `amax / bmin`.
pub proof fn lemma_div_frac_bound(a: int, b: int, amax: int, bmin: int)
    requires
        0 <= a <= amax,
        1 <= bmin <= b,
    ensures
        0 <= a / b <= amax / bmin,
{
    lemma_div_pos_is_pos(a, b);
    lemma_div_is_ordered_by_denominator(a, bmin, b);
    lemma_div_is_ordered(a, amax, bmin);
}

/// Truncating division shrinks magnitudes: `|tdiv(a, b)| <= amax / bmin`
/// whenever `|a| <= amax` and `b >= bmin >= 1`.
pub proof fn lemma_tdiv_frac_bound(a: int, b: int, amax: int, bmin: int)
    requires
        -amax <= a <= amax,
        0 <= amax,
        1 <= bmin <= b,
    ensures
        -(amax / bmin) <= tdiv(a, b) <= amax / bmin,
{
    if a >= 0 {
        lemma_div_frac_bound(a, b, amax, bmin);
    } else {
        lemma_div_frac_bound(-a, b, amax, bmin);
    }
}

/// Truncating division is monotone in the numerator for a positive divisor.
pub proof fn lemma_tdiv_ordered(a1: int, a2: int, b: int)
    requires
        a1 <= a2,
        1 <= b,
    ensures
        tdiv(a1, b) <= tdiv(a2, b),
{
    if a1 >= 0 {
        lemma_div_is_ordered(a1, a2, b);
    } else if a2 < 0 {
        lemma_div_is_ordered(-a2, -a1, b);
    } else {
        lemma_div_pos_is_pos(-a1, b);
        lemma_div_pos_is_pos(a2, b);
    }
}

/// A product of bounded factors is bounded by the product of the bounds.
pub proof fn lemma_mul_abs_bound(a: int, b: int, am: int, bm: int)
    by (nonlinear_arith)
    requires
        -am <= a <= am,
        -bm <= b <= bm,
        0 <= am,
        0 <= bm,
    ensures
        -(am * bm) <= a * b <= am * bm,
{
}

/// Widening product: two `i64` factors always fit an `i128`.
pub fn mul_wide(a: i64, b: i64) -> (r: i128)
    ensures
        r == a * b,
{
    proof {
        lemma_mul_abs_bound(a as int, b as int, 0x8000_0000_0000_0000, 0x8000_0000_0000_0000);
    }
    (a as i128) * (b as i128)
}

/// Truncating division on wide scalars, for a positive divisor.
pub fn tdiv_wide(a: i128, b: i128) -> (r: i128)
    requires
        1 <= b,
        -i128::MAX <= a,
    ensures
        r == tdiv(a as int, b as int),
{
    if a >= 0 {
        let q: u128 = (a as u128) / (b as u128);
        proof {
            lemma_div_frac_bound(a as int, b as int, i128::MAX as int, 1);
            vstd::arithmetic::div_mod::lemma_div_basics(i128::MAX as int);
        }
        q as i128
    } else {
        let m: u128 = (-a) as u128;
        let q: u128 = m / (b as u128);
        proof {
            lemma_div_frac_bound(m as int, b as int, i128::MAX as int, 1);
            vstd::arithmetic::div_mod::lemma_div_basics(i128::MAX as int);
        }
        -(q as i128)
    }
}

} // verus!
