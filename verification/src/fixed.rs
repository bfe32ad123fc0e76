//! Fixed-point decimals: every amount, rate and factor is a signed count of
//! millionths, so 0.045 is 45_000 micros and $220,000 is 220_000_000_000 micros.
//! All derived quantities round toward zero; [`trunc_div`] is that rounding,
//! and the contracts of the whole crate are stated over it.

use vstd::prelude::*;
use vstd::arithmetic::div_mod::{lemma_div_is_ordered, lemma_div_nonincreasing, lemma_div_pos_is_pos};

verus! {

/// Number of fixed-point units in one whole: values are counts of millionths.
pub const MICRO: i128 = 1_000_000;

/// A fixed-point decimal: `micros` counts millionths of a unit.
#[derive(Clone, Copy, Debug, PartialEq, Eq, Structural)]
pub struct Fixed {
    pub micros: i128,
}

impl Fixed {
    /// Wrap a raw count of millionths.
    pub fn from_micros(micros: i128) -> (r: Fixed)
        ensures
            r.micros == micros,
    {
        Fixed { micros }
    }

    /// The fixed-point value equal to the whole number `units`.
    pub fn from_int(units: i64) -> (r: Fixed)
        ensures
            r.micros == units * MICRO,
    {
        Fixed { micros: (units as i128) * MICRO }
    }
}

/// Division rounding toward zero (the rounding of Rust's `/` on integers),
/// defined for positive divisors. Spec-level `/` is Euclidean, hence the
/// sign split.
pub open spec fn trunc_div(a: int, d: int) -> int {
    if a >= 0 {
        a / d
    } else {
        -((-a) / d)
    }
}

/// `a * b / d`, rounded toward zero.
pub open spec fn mul_div(a: int, b: int, d: int) -> int {
    trunc_div(a * b, d)
}

/// Rounding toward zero never increases the magnitude: |trunc_div(a, d)| <= |a|.
pub proof fn lemma_trunc_div_bound(a: int, d: int)
    requires
        d > 0,
    ensures
        a >= 0 ==> 0 <= trunc_div(a, d) <= a,
        a < 0 ==> a <= trunc_div(a, d) <= 0,
{
    if a >= 0 {
        lemma_div_pos_is_pos(a, d);
        lemma_div_nonincreasing(a, d);
    } else {
        lemma_div_pos_is_pos(-a, d);
        lemma_div_nonincreasing(-a, d);
    }
}

/// A numerator within `bq * d` of zero has a quotient within `bq` of zero.
pub proof fn lemma_trunc_div_quotient_bound(a: int, d: int, bq: int)
    requires
        d > 0,
        0 <= bq,
        -(bq * d) <= a <= bq * d,
    ensures
        -bq <= trunc_div(a, d) <= bq,
{
    if a >= 0 {
        lemma_div_pos_is_pos(a, d);
        lemma_div_is_ordered(a, bq * d, d);
        vstd::arithmetic::div_mod::lemma_div_by_multiple(bq, d);
    } else {
        lemma_div_pos_is_pos(-a, d);
        lemma_div_is_ordered(-a, bq * d, d);
        vstd::arithmetic::div_mod::lemma_div_by_multiple(bq, d);
    }
}

/// Rounding toward zero is monotone in the numerator.
pub proof fn lemma_trunc_div_monotone(a1: int, a2: int, d: int)
    requires
        d > 0,
        a1 <= a2,
    ensures
        trunc_div(a1, d) <= trunc_div(a2, d),
{
    if a1 >= 0 {
        lemma_div_is_ordered(a1, a2, d);
    } else if a2 >= 0 {
        lemma_div_pos_is_pos(-a1, d);
        lemma_div_pos_is_pos(a2, d);
    } else {
        lemma_div_is_ordered(-a2, -a1, d);
    }
}

/// Computes `a * b / d` rounded toward zero, exactly as [`mul_div`] states,
/// by working on magnitudes so that no signed division is needed.
pub(crate) fn mul_div_trunc(a: i128, b: i128, d: i128) -> (r: i128)
    requires
        d > 0,
        a != i128::MIN,
        b != i128::MIN,
        -(i128::MAX as int) <= a * b <= i128::MAX as int,
    ensures
        r == mul_div(a as int, b as int, d as int),
{
    let neg: bool = (a < 0) != (b < 0);
    let aa: u128 = (if a < 0 { -a } else { a }) as u128;
    let bb: u128 = (if b < 0 { -b } else { b }) as u128;
    assert(aa * bb == (if a * b >= 0 { a * b } else { -(a * b) })) by (nonlinear_arith)
        requires
            aa == (if a < 0 { -(a as int) } else { a as int }),
            bb == (if b < 0 { -(b as int) } else { b as int }),
    ;
    let prod: u128 = aa * bb;
    let q: u128 = prod / (d as u128);
    assert(q <= prod) by {
        lemma_div_nonincreasing(prod as int, d as int);
    }
    let qi: i128 = q as i128;
    if neg {
        assert(a * b <= 0) by (nonlinear_arith)
            requires
                (a < 0) != (b < 0),
        ;
        -qi
    } else {
        assert(a * b >= 0) by (nonlinear_arith)
            requires
                (a < 0) == (b < 0),
        ;
        qi
    }
}

} // verus!
