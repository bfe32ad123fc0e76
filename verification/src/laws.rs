//! Laws of the valuation model that relate several functions: key uniqueness
//! of the result set, and the monotonicity of the present value in payout
//! timing and in investor activation.

use vstd::prelude::*;
use vstd::arithmetic::div_mod::lemma_div_is_ordered_by_denominator;
use crate::discount::{
    lemma_factor_pow_exp_mono, lemma_root365_exists, lemma_root365_ge_scale, root365, POW_SCALE,
};
use crate::fixed::{lemma_trunc_div_bound, lemma_trunc_div_monotone, MICRO};
use crate::model::{LiftScenario, PayoutScenario, ValuationInputs, VolatilityScenario};
use crate::valuation::{
    lift_at, payout_at, row_index_of, spec_base, spec_denominator, spec_pv, spec_row_denominator,
    spec_row_pv, volatility_at,
};

verus! {

/// Distinct rows of the 48-row result set carry distinct scenario keys, so
/// the (payout, volatility, lift-or-none) triple is unique across the set.
pub proof fn lemma_row_keys_distinct(i: int, j: int)
    requires
        0 <= i < 48,
        0 <= j < 48,
        i != j,
    ensures
        !(payout_at(i) == payout_at(j) && volatility_at(i) == volatility_at(j) && lift_at(i)
            == lift_at(j)),
{
    crate::valuation::lemma_row_keys_unique(i);
    crate::valuation::lemma_row_keys_unique(j);
}

/// For a nonnegative cash flow and a nonnegative discount rate the present
/// value never increases with the payout delay: a longer wait is worth at
/// most as much.
pub proof fn lemma_pv_nonincreasing_in_time(
    cash_flow_micros: int,
    rate_micros: int,
    days1: nat,
    days2: nat,
)
    requires
        0 <= cash_flow_micros,
        0 <= rate_micros,
        days1 <= days2,
    ensures
        0 < spec_denominator(rate_micros, days1) <= spec_denominator(rate_micros, days2),
        spec_pv(cash_flow_micros, spec_denominator(rate_micros, days2)) <= spec_pv(
            cash_flow_micros,
            spec_denominator(rate_micros, days1),
        ),
{
    let base = spec_base(rate_micros);
    assert(base >= POW_SCALE as int) by (nonlinear_arith)
        requires
            base == POW_SCALE as int + rate_micros * MICRO as int,
            0 <= rate_micros,
    ;
    lemma_root365_exists(base);
    lemma_root365_ge_scale(base);
    let root = root365(base);
    lemma_factor_pow_exp_mono(root, 0, days1);
    lemma_factor_pow_exp_mono(root, days1, days2);
    let den1 = spec_denominator(rate_micros, days1);
    let den2 = spec_denominator(rate_micros, days2);
    assert(0 <= cash_flow_micros * POW_SCALE as int) by (nonlinear_arith)
        requires
            0 <= cash_flow_micros,
    ;
    lemma_div_is_ordered_by_denominator(cash_flow_micros * POW_SCALE as int, den1, den2);
}

/// With a nonnegative lift per investor and a nonnegative RPM, the present
/// value never decreases with the activation factor: a higher lift scenario
/// is worth at least as much, holding payout and volatility fixed.
pub proof fn lemma_pv_nondecreasing_in_activation(
    inputs: ValuationInputs,
    payout: PayoutScenario,
    volatility: VolatilityScenario,
    lower: LiftScenario,
    higher: LiftScenario,
)
    requires
        0 <= inputs.lift_per_investor.micros,
        0 <= inputs.rpm.micros,
        lower.spec_activation_micros() <= higher.spec_activation_micros(),
        spec_row_denominator(inputs, payout, volatility) > 0,
    ensures
        spec_row_pv(inputs, payout, volatility, Some(lower)) <= spec_row_pv(
            inputs,
            payout,
            volatility,
            Some(higher),
        ),
{
    let count = inputs.investor_count as int;
    let lift = inputs.lift_per_investor.micros as int;
    let rpm = inputs.rpm.micros as int;
    let s = count * lift;
    let a1 = lower.spec_activation_micros();
    let a2 = higher.spec_activation_micros();
    assert(0 <= count * lift) by (nonlinear_arith)
        requires
            0 <= count,
            0 <= lift,
    ;
    assert(s * a1 <= s * a2) by (nonlinear_arith)
        requires
            0 <= s,
            a1 <= a2,
    ;
    assert(0 <= s * a1) by (nonlinear_arith)
        requires
            0 <= s,
            0 <= a1,
    ;
    lemma_trunc_div_monotone(s * a1, s * a2, MICRO as int);
    lemma_trunc_div_bound(s * a1, MICRO as int);
    let aud1 = crate::model::spec_additional_audience(count, lift, a1);
    let aud2 = crate::model::spec_additional_audience(count, lift, a2);
    assert(aud1 * (rpm * 3) <= aud2 * (rpm * 3)) by (nonlinear_arith)
        requires
            aud1 <= aud2,
            0 <= rpm,
    ;
    assert(0 <= aud1 * (rpm * 3)) by (nonlinear_arith)
        requires
            0 <= aud1,
            0 <= rpm,
    ;
    lemma_trunc_div_monotone(aud1 * (rpm * 3), aud2 * (rpm * 3), 1000 * MICRO as int);
    let cf1 = crate::valuation::spec_cash_flow(inputs, Some(lower));
    let cf2 = crate::valuation::spec_cash_flow(inputs, Some(higher));
    assert(cf1 * POW_SCALE as int <= cf2 * POW_SCALE as int) by (nonlinear_arith)
        requires
            cf1 <= cf2,
    ;
    lemma_trunc_div_monotone(
        cf1 * POW_SCALE as int,
        cf2 * POW_SCALE as int,
        spec_row_denominator(inputs, payout, volatility),
    );
}

} // verus!
