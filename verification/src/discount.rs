//! The discount factor `(1 + rate)^(days / 365)` in fixed-point arithmetic.
//!
//! The factor is carried at scale [`POW_SCALE`] (1.0 is 10^12). Powers are the
//! recursive [`factor_pow`], each multiplication rounded down. The fractional
//! exponent comes from the 365th root: [`root365`]`(x)` is the greatest
//! nonnegative `y` with `factor_pow(y, 365) <= x`, and the denominator of the
//! present-value formula for a payout after `d` days is `factor_pow(root365(x), d)`.

use vstd::prelude::*;
use vstd::arithmetic::div_mod::{
    lemma_div_is_ordered, lemma_div_multiples_vanish, lemma_div_nonincreasing,
    lemma_div_pos_is_pos,
};
use crate::fixed::mul_div_trunc;

verus! {

/// Scale of the discount factor fixed point: 1.0 is 10^12.
pub const POW_SCALE: i128 = 1_000_000_000_000;

/// Largest factor argument the executable root and power functions accept;
/// keeps every intermediate product within `i128`.
pub const FACTOR_ARG_MAX: i128 = 200_000_000_000_000_000;

/// Fixed-point power at scale [`POW_SCALE`]: `y^n`, each multiplication
/// rounded down. For `y >= 0` every value is nonnegative, so the Euclidean
/// division here is the rounding the executable code performs.
pub open spec fn factor_pow(y: int, n: nat) -> int
    decreases n,
{
    if n == 0 {
        POW_SCALE as int
    } else {
        factor_pow(y, (n - 1) as nat) * y / (POW_SCALE as int)
    }
}

/// A fixed-point power of a nonnegative base is nonnegative.
pub proof fn lemma_factor_pow_nonneg(y: int, n: nat)
    requires
        0 <= y,
    ensures
        0 <= factor_pow(y, n),
    decreases n,
{
    if n > 0 {
        lemma_factor_pow_nonneg(y, (n - 1) as nat);
        assert(0 <= factor_pow(y, (n - 1) as nat) * y) by (nonlinear_arith)
            requires
                0 <= factor_pow(y, (n - 1) as nat),
                0 <= y,
        ;
        lemma_div_pos_is_pos(factor_pow(y, (n - 1) as nat) * y, POW_SCALE as int);
    }
}

/// The power of zero: the scale for the empty power, zero afterwards.
pub proof fn lemma_factor_pow_zero(n: nat)
    ensures
        factor_pow(0, n) == if n == 0 { POW_SCALE as int } else { 0 },
    decreases n,
{
    if n > 0 {
        lemma_factor_pow_zero((n - 1) as nat);
    }
}

/// The fixed-point power is monotone in the base.
pub proof fn lemma_factor_pow_base_mono(y1: int, y2: int, n: nat)
    requires
        0 <= y1 <= y2,
    ensures
        factor_pow(y1, n) <= factor_pow(y2, n),
    decreases n,
{
    if n > 0 {
        let p1 = factor_pow(y1, (n - 1) as nat);
        let p2 = factor_pow(y2, (n - 1) as nat);
        lemma_factor_pow_base_mono(y1, y2, (n - 1) as nat);
        lemma_factor_pow_nonneg(y1, (n - 1) as nat);
        assert(p1 * y1 <= p2 * y2) by (nonlinear_arith)
            requires
                0 <= p1 <= p2,
                0 <= y1 <= y2,
        ;
        lemma_div_is_ordered(p1 * y1, p2 * y2, POW_SCALE as int);
    }
}

/// The power of the scale itself stays the scale: 1.0^n is 1.0.
pub proof fn lemma_factor_pow_scale(n: nat)
    ensures
        factor_pow(POW_SCALE as int, n) == POW_SCALE as int,
    decreases n,
{
    if n > 0 {
        lemma_factor_pow_scale((n - 1) as nat);
        lemma_div_multiples_vanish(POW_SCALE as int, POW_SCALE as int);
    }
}

/// For a base at or above the scale (a factor of at least 1.0) the power is
/// monotone in the exponent.
pub proof fn lemma_factor_pow_exp_mono(y: int, m: nat, n: nat)
    requires
        POW_SCALE as int <= y,
        m <= n,
    ensures
        factor_pow(y, m) <= factor_pow(y, n),
    decreases n - m,
{
    if m < n {
        let p = factor_pow(y, (n - 1) as nat);
        lemma_factor_pow_exp_mono(y, m, (n - 1) as nat);
        lemma_factor_pow_nonneg(y, (n - 1) as nat);
        assert(p * POW_SCALE as int <= p * y) by (nonlinear_arith)
            requires
                0 <= p,
                POW_SCALE as int <= y,
        ;
        lemma_div_is_ordered(p * POW_SCALE as int, p * y, POW_SCALE as int);
        lemma_div_multiples_vanish(p, POW_SCALE as int);
        assert(p * POW_SCALE as int == POW_SCALE as int * p) by (nonlinear_arith);
    }
}

/// For a base at or below the scale (a factor of at most 1.0) the power is
/// antitone in the exponent; in particular it never exceeds the scale.
pub proof fn lemma_factor_pow_exp_anti(y: int, m: nat, n: nat)
    requires
        0 <= y <= POW_SCALE as int,
        m <= n,
    ensures
        factor_pow(y, n) <= factor_pow(y, m),
    decreases n - m,
{
    if m < n {
        let p = factor_pow(y, (n - 1) as nat);
        lemma_factor_pow_exp_anti(y, m, (n - 1) as nat);
        lemma_factor_pow_nonneg(y, (n - 1) as nat);
        assert(p * y <= p * POW_SCALE as int) by (nonlinear_arith)
            requires
                0 <= p,
                0 <= y <= POW_SCALE as int,
        ;
        lemma_div_is_ordered(p * y, p * POW_SCALE as int, POW_SCALE as int);
        lemma_div_multiples_vanish(p, POW_SCALE as int);
        assert(p * POW_SCALE as int == POW_SCALE as int * p) by (nonlinear_arith);
    }
}

/// For a base at or above the scale, the first power is the base itself, so
/// every later power is at least the base.
pub proof fn lemma_factor_pow_ge_base(y: int, n: nat)
    requires
        POW_SCALE as int <= y,
        1 <= n,
    ensures
        y <= factor_pow(y, n),
{
    lemma_div_multiples_vanish(y, POW_SCALE as int);
    assert(factor_pow(y, 1) == y) by {
        reveal_with_fuel(factor_pow, 2);
    }
    lemma_factor_pow_exp_mono(y, 1, n);
}

/// The 365th-root property: `r` is the greatest nonnegative base whose 365th
/// fixed-point power does not exceed `x`.
pub open spec fn is_root365(x: int, r: int) -> bool {
    &&& 0 <= r
    &&& factor_pow(r, 365) <= x
    &&& x < factor_pow(r + 1, 365)
}

/// The fixed-point 365th root of `x`.
pub open spec fn root365(x: int) -> int {
    choose|r: int| is_root365(x, r)
}

/// At most one integer has the root property.
pub proof fn lemma_root365_unique(x: int, r1: int, r2: int)
    requires
        is_root365(x, r1),
        is_root365(x, r2),
    ensures
        r1 == r2,
{
    if r1 < r2 {
        lemma_factor_pow_base_mono(r1 + 1, r2, 365);
    }
    if r2 < r1 {
        lemma_factor_pow_base_mono(r2 + 1, r1, 365);
    }
}

proof fn lemma_root365_exists_from(x: int, k: int, bound: int)
    requires
        0 <= k,
        0 <= bound,
        factor_pow(k, 365) <= x,
        x < factor_pow(bound, 365),
    ensures
        is_root365(x, root365(x)),
    decreases bound - k,
{
    assert(k < bound) by {
        if bound <= k {
            lemma_factor_pow_base_mono(bound, k, 365);
        }
    }
    if x < factor_pow(k + 1, 365) {
        assert(is_root365(x, k));
    } else {
        lemma_root365_exists_from(x, k + 1, bound);
    }
}

/// For every nonnegative `x` the root exists, so `root365(x)` has the property.
pub proof fn lemma_root365_exists(x: int)
    requires
        0 <= x,
    ensures
        is_root365(x, root365(x)),
{
    let bound = if x >= POW_SCALE as int { x + 1 } else { POW_SCALE as int + 1 };
    lemma_factor_pow_zero(365);
    lemma_factor_pow_ge_base(bound, 365);
    lemma_root365_exists_from(x, 0, bound);
}

/// The root of a factor of at least 1.0 is itself at least 1.0.
pub proof fn lemma_root365_ge_scale(x: int)
    requires
        POW_SCALE as int <= x,
    ensures
        POW_SCALE as int <= root365(x),
{
    lemma_root365_exists(x);
    let r = root365(x);
    if r < POW_SCALE as int {
        lemma_factor_pow_base_mono(r + 1, POW_SCALE as int, 365);
        lemma_factor_pow_scale(365);
    }
}

/// Decides whether `factor_pow(y, 365) <= x` without overflowing: once a
/// partial power of a base above the scale exceeds `x` it can only grow.
fn factor_pow365_leq(y: i128, x: i128) -> (b: bool)
    requires
        0 <= y <= FACTOR_ARG_MAX as int + 1,
        0 <= x <= FACTOR_ARG_MAX as int,
    ensures
        b == (factor_pow(y as int, 365) <= x as int),
{
    if y >= POW_SCALE {
        if x < POW_SCALE {
            proof {
                lemma_factor_pow_exp_mono(y as int, 0, 365);
            }
            return false;
        }
        let mut p: i128 = POW_SCALE;
        let mut k: u32 = 0;
        while k < 365
            invariant
                k <= 365,
                POW_SCALE <= y <= FACTOR_ARG_MAX as int + 1,
                POW_SCALE <= x <= FACTOR_ARG_MAX as int,
                0 <= p <= x,
                p == factor_pow(y as int, k as nat),
            decreases 365 - k,
        {
            proof {
                assert(p * y <= i128::MAX as int) by (nonlinear_arith)
                    requires
                        0 <= p <= FACTOR_ARG_MAX as int,
                        0 <= y <= FACTOR_ARG_MAX as int + 1,
                ;
            }
            let p2 = mul_div_trunc(p, y, POW_SCALE);
            proof {
                lemma_div_pos_is_pos(p * y, POW_SCALE as int);
            }
            if p2 > x {
                proof {
                    lemma_factor_pow_exp_mono(y as int, (k + 1) as nat, 365);
                }
                return false;
            }
            p = p2;
            k = k + 1;
        }
        p <= x
    } else {
        let mut p: i128 = POW_SCALE;
        let mut k: u32 = 0;
        while k < 365
            invariant
                k <= 365,
                0 <= y < POW_SCALE,
                0 <= p <= POW_SCALE,
                p == factor_pow(y as int, k as nat),
            decreases 365 - k,
        {
            proof {
                assert(p * y <= i128::MAX as int) by (nonlinear_arith)
                    requires
                        0 <= p <= POW_SCALE,
                        0 <= y < POW_SCALE,
                ;
            }
            let p2 = mul_div_trunc(p, y, POW_SCALE);
            proof {
                lemma_div_pos_is_pos(p * y, POW_SCALE as int);
                assert(p * y <= p * POW_SCALE as int) by (nonlinear_arith)
                    requires
                        0 <= p,
                        0 <= y <= POW_SCALE,
                ;
                lemma_div_is_ordered(p * y, p * POW_SCALE as int, POW_SCALE as int);
                lemma_div_multiples_vanish(p as int, POW_SCALE as int);
                assert(p * POW_SCALE as int == POW_SCALE as int * p) by (nonlinear_arith);
            }
            p = p2;
            k = k + 1;
        }
        p <= x
    }
}

/// Finds [`root365`]`(x)` by binary search over the monotone fixed-point power.
pub(crate) fn root365_find(x: i128) -> (r: i128)
    requires
        0 <= x <= FACTOR_ARG_MAX as int,
    ensures
        r == root365(x as int),
        is_root365(x as int, r as int),
        0 <= r <= FACTOR_ARG_MAX,
{
    let mut lo: i128 = 0;
    let mut hi: i128 = if x >= POW_SCALE { x + 1 } else { POW_SCALE + 1 };
    proof {
        lemma_factor_pow_zero(365);
        lemma_factor_pow_ge_base(hi as int, 365);
    }
    while hi - lo > 1
        invariant
            0 <= lo < hi <= FACTOR_ARG_MAX as int + 1,
            0 <= x <= FACTOR_ARG_MAX as int,
            factor_pow(lo as int, 365) <= x as int,
            (x as int) < factor_pow(hi as int, 365),
        decreases hi - lo,
    {
        let mid: i128 = lo + (((hi - lo) as u128) / 2u128) as i128;
        if factor_pow365_leq(mid, x) {
            lo = mid;
        } else {
            hi = mid;
        }
    }
    proof {
        assert(is_root365(x as int, lo as int));
        lemma_root365_exists(x as int);
        lemma_root365_unique(x as int, lo as int, root365(x as int));
    }
    lo
}

/// Computes `factor_pow(y, days)` for a base that is known to be a 365th
/// root: its 365th power, hence every partial power, stays within bounds.
pub(crate) fn factor_pow_exec(y: i128, days: u32, x: Ghost<int>) -> (p: i128)
    requires
        days <= 365,
        0 <= y <= FACTOR_ARG_MAX as int,
        0 <= x@ <= FACTOR_ARG_MAX as int,
        factor_pow(y as int, 365) <= x@,
    ensures
        p == factor_pow(y as int, days as nat),
        0 <= p <= if y >= POW_SCALE { x@ } else { POW_SCALE as int },
{
    let mut p: i128 = POW_SCALE;
    let mut k: u32 = 0;
    proof {
        if y >= POW_SCALE {
            lemma_factor_pow_exp_mono(y as int, 0, 365);
        }
    }
    while k < days
        invariant
            k <= days <= 365,
            0 <= y <= FACTOR_ARG_MAX as int,
            0 <= x@ <= FACTOR_ARG_MAX as int,
            factor_pow(y as int, 365) <= x@,
            p == factor_pow(y as int, k as nat),
            0 <= p <= if y >= POW_SCALE { x@ } else { POW_SCALE as int },
        decreases days - k,
    {
        proof {
            assert(p * y <= i128::MAX as int) by (nonlinear_arith)
                requires
                    0 <= p <= FACTOR_ARG_MAX as int,
                    0 <= y <= FACTOR_ARG_MAX as int,
            ;
        }
        let p2 = mul_div_trunc(p, y, POW_SCALE);
        proof {
            lemma_div_pos_is_pos(p * y, POW_SCALE as int);
            if y >= POW_SCALE {
                lemma_factor_pow_exp_mono(y as int, (k + 1) as nat, 365);
            } else {
                lemma_factor_pow_exp_anti(y as int, 0, (k + 1) as nat);
            }
        }
        p = p2;
        k = k + 1;
    }
    p
}

} // verus!
