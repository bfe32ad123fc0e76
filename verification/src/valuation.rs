//! Core valuation logic: validation, the present-value formula, the 48-row
//! scenario matrix and its summary statistics.

use vstd::prelude::*;
use crate::discount::{
    factor_pow, factor_pow_exec, lemma_root365_exists, root365, root365_find, POW_SCALE,
};
use crate::error::ModelError;
use crate::fixed::{
    lemma_trunc_div_quotient_bound, mul_div, mul_div_trunc, trunc_div, Fixed, MICRO,
};
use crate::model::{
    lemma_quarterly_lift_bound, spec_quarterly_lift, DiscountRateComponents, DiscountRateTable,
    LiftAssumptions, LiftScenario, PayoutScenario, ReportData, SummaryStatistics, ValuationInputs,
    ValuationResult, VolatilityScenario, MONEY_ABS_MAX, RATE_INPUT_ABS_MAX,
};

verus! {

/// Largest cash-flow magnitude (in micros) the present-value function accepts;
/// keeps `cash_flow * POW_SCALE` within `i128`.
pub const CASH_FLOW_ABS_MAX: i128 = 100_000_000_000_000_000_000_000_000;

/// Largest discount-rate magnitude (in micros) the present-value function
/// accepts; keeps the factor base within the root search's range.
pub const RATE_ABS_MAX: i128 = 100_000_000_000;

/// Bound on the adjusted baseline produced from in-range inputs.
pub const ADJUSTED_ABS_BOUND: i128 = 2_000_000_000_000_000_000;

/// The adjusted baseline in micros: the raw forecast times one plus the
/// platform adjustment factor, rounded toward zero.
pub open spec fn spec_adjusted_baseline(raw_micros: int, adjustment_micros: int) -> int {
    mul_div(raw_micros, MICRO as int + adjustment_micros, MICRO as int)
}

/// The total discount rate of a volatility scenario, in micros.
pub open spec fn spec_rate_micros(inputs: ValuationInputs, volatility: VolatilityScenario) -> int {
    inputs.risk_free_rate.micros + volatility.spec_premium_micros()
        + inputs.platform_risk_premium.micros
}

/// The factor base at scale [`POW_SCALE`]: one plus the discount rate.
pub open spec fn spec_base(rate_micros: int) -> int {
    POW_SCALE as int + rate_micros * MICRO as int
}

/// The denominator of the present-value formula: the discount factor
/// `(1 + rate)^(days/365)` at scale [`POW_SCALE`]. A zero base (a rate of
/// exactly -1) gives a zero denominator unless the delay itself is zero.
pub open spec fn spec_denominator(rate_micros: int, days: nat) -> int {
    let base = spec_base(rate_micros);
    if base <= 0 {
        if days == 0 {
            POW_SCALE as int
        } else {
            0
        }
    } else {
        factor_pow(root365(base), days)
    }
}

/// The present value in micros for a nonzero denominator: the cash flow
/// divided by the discount factor, rounded toward zero.
pub open spec fn spec_pv(cash_flow_micros: int, den: int) -> int {
    trunc_div(cash_flow_micros * POW_SCALE as int, den)
}

/// Calculate the adjusted baseline revenue after platform adjustment:
/// `raw_forecast * (1 + adjustment_factor)`.
pub fn calculate_adjusted_baseline(raw_forecast: Fixed, adjustment_factor: Fixed) -> (r: Fixed)
    requires
        -MONEY_ABS_MAX <= raw_forecast.micros <= MONEY_ABS_MAX,
        -RATE_INPUT_ABS_MAX <= adjustment_factor.micros <= RATE_INPUT_ABS_MAX,
    ensures
        r.micros == spec_adjusted_baseline(raw_forecast.micros as int, adjustment_factor.micros as int),
        -ADJUSTED_ABS_BOUND <= r.micros <= ADJUSTED_ABS_BOUND,
{
    proof {
        lemma_adjusted_baseline_bound(raw_forecast.micros as int, adjustment_factor.micros as int);
        assert(-(i128::MAX as int) <= raw_forecast.micros * (MICRO + adjustment_factor.micros)
            <= i128::MAX as int) by (nonlinear_arith)
            requires
                -MONEY_ABS_MAX <= raw_forecast.micros <= MONEY_ABS_MAX,
                -RATE_INPUT_ABS_MAX <= adjustment_factor.micros <= RATE_INPUT_ABS_MAX,
        ;
    }
    Fixed { micros: mul_div_trunc(raw_forecast.micros, MICRO + adjustment_factor.micros, MICRO) }
}

/// From in-range inputs the adjusted baseline stays within
/// [`ADJUSTED_ABS_BOUND`].
pub proof fn lemma_adjusted_baseline_bound(raw: int, adjustment: int)
    requires
        -MONEY_ABS_MAX <= raw <= MONEY_ABS_MAX,
        -RATE_INPUT_ABS_MAX <= adjustment <= RATE_INPUT_ABS_MAX,
    ensures
        -ADJUSTED_ABS_BOUND <= spec_adjusted_baseline(raw, adjustment) <= ADJUSTED_ABS_BOUND,
{
    assert(-(ADJUSTED_ABS_BOUND * MICRO as int) <= raw * (MICRO as int + adjustment)
        <= ADJUSTED_ABS_BOUND * MICRO as int) by (nonlinear_arith)
        requires
            -MONEY_ABS_MAX <= raw <= MONEY_ABS_MAX,
            -RATE_INPUT_ABS_MAX <= adjustment <= RATE_INPUT_ABS_MAX,
    ;
    lemma_trunc_div_quotient_bound(raw * (MICRO as int + adjustment), MICRO as int,
        ADJUSTED_ABS_BOUND as int);
}

/// Calculate the discount rate components for a given volatility scenario.
pub fn calculate_discount_rate(
    inputs: &ValuationInputs,
    volatility_scenario: VolatilityScenario,
) -> (r: DiscountRateComponents)
    ensures
        r.risk_free_rate == inputs.risk_free_rate,
        r.volatility_premium.micros == volatility_scenario.spec_premium_micros(),
        r.platform_risk_premium == inputs.platform_risk_premium,
{
    DiscountRateComponents {
        risk_free_rate: inputs.risk_free_rate,
        volatility_premium: volatility_scenario.premium(),
        platform_risk_premium: inputs.platform_risk_premium,
    }
}

/// Calculate present value using the discounted cash flow formula
/// `PV = cash_flow / (1 + rate)^(days/365)`.
///
/// A rate below -1 is a domain error, and so is a zero denominator (a rate of
/// exactly -1 with a positive delay, or a factor so small it rounds to zero);
/// every other in-range input yields the exact fixed-point present value.
pub fn calculate_present_value(cash_flow: Fixed, discount_rate: Fixed, days: u32) -> (r: Result<
    Fixed,
    ModelError,
>)
    requires
        -CASH_FLOW_ABS_MAX <= cash_flow.micros <= CASH_FLOW_ABS_MAX,
        -RATE_ABS_MAX <= discount_rate.micros <= RATE_ABS_MAX,
        days <= 365,
    ensures
        discount_rate.micros < -MICRO ==> (r matches Err(e)
            && e.is_calculation_error("Discount rate would result in division by zero or negative denominator"@)),
        discount_rate.micros >= -MICRO && spec_denominator(discount_rate.micros as int, days as nat)
            == 0 ==> (r matches Err(e)
            && e.is_calculation_error("Present value calculation resulted in division by zero"@)),
        discount_rate.micros >= -MICRO && spec_denominator(discount_rate.micros as int, days as nat)
            != 0 ==> (r matches Ok(pv) && pv.micros == spec_pv(
            cash_flow.micros as int,
            spec_denominator(discount_rate.micros as int, days as nat),
        )),
{
    if discount_rate.micros < -MICRO {
        return Err(ModelError::CalculationError(
            "Discount rate would result in division by zero or negative denominator".to_owned(),
        ));
    }
    let base: i128 = POW_SCALE + discount_rate.micros * MICRO;
    let den: i128 = if base == 0 {
        if days == 0 {
            POW_SCALE
        } else {
            0
        }
    } else {
        let root = root365_find(base);
        factor_pow_exec(root, days, Ghost(base as int))
    };
    proof {
        if base > 0 {
            lemma_root365_exists(base as int);
        }
        assert(den == spec_denominator(discount_rate.micros as int, days as nat));
    }
    if den == 0 {
        return Err(ModelError::CalculationError(
            "Present value calculation resulted in division by zero".to_owned(),
        ));
    }
    proof {
        assert(-(i128::MAX as int) <= cash_flow.micros * POW_SCALE <= i128::MAX as int)
            by (nonlinear_arith)
            requires
                -CASH_FLOW_ABS_MAX <= cash_flow.micros <= CASH_FLOW_ABS_MAX,
        ;
    }
    Ok(Fixed { micros: mul_div_trunc(cash_flow.micros, POW_SCALE, den) })
}

/// The payout scenario of row `i` of the 48-row result set: rows come in
/// blocks of 12 (baseline first, then one block per lift scenario), each block
/// payout-major and volatility-minor.
pub open spec fn payout_at(i: int) -> PayoutScenario {
    let j = if i < 12 { i } else { (i - 12) % 12 };
    if j / 4 == 0 {
        PayoutScenario::Day60
    } else if j / 4 == 1 {
        PayoutScenario::Day90
    } else {
        PayoutScenario::Day120
    }
}

/// The volatility scenario of row `i` of the 48-row result set.
pub open spec fn volatility_at(i: int) -> VolatilityScenario {
    let j = if i < 12 { i } else { (i - 12) % 12 };
    if j % 4 == 0 {
        VolatilityScenario::Low
    } else if j % 4 == 1 {
        VolatilityScenario::Typical
    } else if j % 4 == 2 {
        VolatilityScenario::High
    } else {
        VolatilityScenario::Extreme
    }
}

/// The lift scenario of row `i` of the 48-row result set; the first 12 rows
/// are the baseline.
pub open spec fn lift_at(i: int) -> Option<LiftScenario> {
    if i < 12 {
        None
    } else if (i - 12) / 12 == 0 {
        Some(LiftScenario::Low)
    } else if (i - 12) / 12 == 1 {
        Some(LiftScenario::Medium)
    } else {
        Some(LiftScenario::High)
    }
}

/// The unique row index of a scenario key.
pub open spec fn row_index_of(
    payout: PayoutScenario,
    volatility: VolatilityScenario,
    lift: Option<LiftScenario>,
) -> int {
    let pi = match payout {
        PayoutScenario::Day60 => 0int,
        PayoutScenario::Day90 => 1int,
        PayoutScenario::Day120 => 2int,
    };
    let vi = match volatility {
        VolatilityScenario::Low => 0int,
        VolatilityScenario::Typical => 1int,
        VolatilityScenario::High => 2int,
        VolatilityScenario::Extreme => 3int,
    };
    match lift {
        None => pi * 4 + vi,
        Some(l) => 12 + (match l {
            LiftScenario::Low => 0int,
            LiftScenario::Medium => 1int,
            LiftScenario::High => 2int,
        }) * 12 + pi * 4 + vi,
    }
}

/// Every scenario key appears in the result set: decoding the key's index
/// gives the key back, so the 48 rows cover all 3 x 4 baseline and 3 x 3 x 4
/// lifted combinations.
pub proof fn lemma_row_keys_cover(
    payout: PayoutScenario,
    volatility: VolatilityScenario,
    lift: Option<LiftScenario>,
)
    ensures
        0 <= row_index_of(payout, volatility, lift) < 48,
        payout_at(row_index_of(payout, volatility, lift)) == payout,
        volatility_at(row_index_of(payout, volatility, lift)) == volatility,
        lift_at(row_index_of(payout, volatility, lift)) == lift,
{
}

/// No scenario key appears twice: each row index encodes its own key, so the
/// keys of distinct rows differ.
pub proof fn lemma_row_keys_unique(i: int)
    requires
        0 <= i < 48,
    ensures
        row_index_of(payout_at(i), volatility_at(i), lift_at(i)) == i,
{
}

/// The cash flow of a row: the adjusted baseline, plus the quarterly lift
/// revenue for lifted rows.
pub open spec fn spec_cash_flow(inputs: ValuationInputs, lift: Option<LiftScenario>) -> int {
    let adjusted = spec_adjusted_baseline(
        inputs.raw_forecast.micros as int,
        inputs.platform_adjustment_factor.micros as int,
    );
    match lift {
        None => adjusted,
        Some(l) => adjusted + spec_quarterly_lift(
            inputs.investor_count as int,
            inputs.lift_per_investor.micros as int,
            inputs.rpm.micros as int,
            l.spec_activation_micros(),
        ),
    }
}

/// The denominator of a row: the discount factor of its volatility's total
/// rate over its payout delay.
pub open spec fn spec_row_denominator(
    inputs: ValuationInputs,
    payout: PayoutScenario,
    volatility: VolatilityScenario,
) -> int {
    spec_denominator(spec_rate_micros(inputs, volatility), payout.spec_days() as nat)
}

/// The row's present value cannot be computed: its rate is below -1, or its
/// denominator is zero.
pub open spec fn spec_row_fails(
    inputs: ValuationInputs,
    payout: PayoutScenario,
    volatility: VolatilityScenario,
) -> bool {
    ||| spec_rate_micros(inputs, volatility) < -(MICRO as int)
    ||| spec_row_denominator(inputs, payout, volatility) == 0
}

/// The present value (in micros) of a row that does not fail.
pub open spec fn spec_row_pv(
    inputs: ValuationInputs,
    payout: PayoutScenario,
    volatility: VolatilityScenario,
    lift: Option<LiftScenario>,
) -> int {
    spec_pv(spec_cash_flow(inputs, lift), spec_row_denominator(inputs, payout, volatility))
}

/// Row `i` of the result set as computed from the inputs.
pub open spec fn expected_row(inputs: ValuationInputs, i: int) -> ValuationResult {
    ValuationResult {
        present_value: Fixed {
            micros: spec_row_pv(inputs, payout_at(i), volatility_at(i), lift_at(i)) as i128,
        },
        payout_scenario: payout_at(i),
        volatility_scenario: volatility_at(i),
        lift_scenario: lift_at(i),
    }
}

/// The present value of the first row at or after position `i` that carries
/// the key, if any.
pub open spec fn spec_find_from(
    rows: Seq<ValuationResult>,
    payout: PayoutScenario,
    volatility: VolatilityScenario,
    lift: Option<LiftScenario>,
    i: int,
) -> Option<Fixed>
    decreases rows.len() - i,
{
    if i < 0 || i >= rows.len() {
        None
    } else if rows[i].has_key(payout, volatility, lift) {
        Some(rows[i].present_value)
    } else {
        spec_find_from(rows, payout, volatility, lift, i + 1)
    }
}

/// The present value of the first row carrying the key, if any.
pub open spec fn spec_find(
    rows: Seq<ValuationResult>,
    payout: PayoutScenario,
    volatility: VolatilityScenario,
    lift: Option<LiftScenario>,
) -> Option<Fixed> {
    spec_find_from(rows, payout, volatility, lift, 0)
}

/// Find the present value of the first row with the given scenario key.
pub fn find_value(
    rows: &Vec<ValuationResult>,
    payout: PayoutScenario,
    volatility: VolatilityScenario,
    lift: Option<LiftScenario>,
) -> (r: Option<Fixed>)
    ensures
        r == spec_find(rows@, payout, volatility, lift),
{
    let mut i: usize = 0;
    while i < rows.len()
        invariant
            0 <= i <= rows@.len(),
            spec_find(rows@, payout, volatility, lift) == spec_find_from(
                rows@,
                payout,
                volatility,
                lift,
                i as int,
            ),
        decreases rows@.len() - i,
    {
        let row = &rows[i];
        let lift_eq = match (row.lift_scenario, lift) {
            (None, None) => true,
            (Some(a), Some(b)) => a == b,
            _ => false,
        };
        if row.payout_scenario == payout && row.volatility_scenario == volatility && lift_eq {
            return Some(row.present_value);
        }
        i = i + 1;
    }
    None
}

/// In the full result set the first row with a key is the one at the key's
/// index, so every fixed-key lookup of the summary statistics succeeds.
pub proof fn lemma_find_in_catalog(
    rows: Seq<ValuationResult>,
    inputs: ValuationInputs,
    payout: PayoutScenario,
    volatility: VolatilityScenario,
    lift: Option<LiftScenario>,
)
    requires
        rows.len() == 48,
        forall|k: int| 0 <= k < 48 ==> #[trigger] rows[k] == expected_row(inputs, k),
    ensures
        spec_find(rows, payout, volatility, lift) == Some(
            rows[row_index_of(payout, volatility, lift)].present_value,
        ),
{
    lemma_row_keys_cover(payout, volatility, lift);
    lemma_find_in_catalog_from(rows, inputs, payout, volatility, lift, 0);
}

/// Largest present-value magnitude (in micros) an exact percentage impact can
/// be computed from; keeps the scaled difference within `i128`.
pub const IMPACT_VALUE_ABS_MAX: i128 = 500_000_000_000_000_000_000_000_000_000;

/// Division rounding toward zero, for any nonzero divisor.
pub open spec fn trunc_div_any(a: int, d: int) -> int {
    if d > 0 {
        trunc_div(a, d)
    } else {
        trunc_div(-a, -d)
    }
}

/// A percentage impact: `(a - b) / reference * 100`, rounded toward zero.
pub open spec fn spec_impact(a: int, b: int, reference: int) -> int {
    trunc_div_any((a - b) * (100 * MICRO as int), reference)
}

/// Both values of an impact pair are small enough for the exact percentage.
pub open spec fn impact_in_range(a: int, b: int) -> bool {
    &&& -IMPACT_VALUE_ABS_MAX <= a <= IMPACT_VALUE_ABS_MAX
    &&& -IMPACT_VALUE_ABS_MAX <= b <= IMPACT_VALUE_ABS_MAX
}

/// Computes the percentage impact `(a - b) / reference * 100`; the callers
/// have already rejected a zero reference and out-of-range values.
fn impact_pct(a: Fixed, b: Fixed, reference: Fixed) -> (r: Fixed)
    requires
        reference.micros != 0,
        -IMPACT_VALUE_ABS_MAX <= reference.micros <= IMPACT_VALUE_ABS_MAX,
        impact_in_range(a.micros as int, b.micros as int),
    ensures
        r.micros == spec_impact(a.micros as int, b.micros as int, reference.micros as int),
{
    let diff: i128 = a.micros - b.micros;
    if reference.micros > 0 {
        Fixed { micros: mul_div_trunc(diff, 100 * MICRO, reference.micros) }
    } else {
        Fixed { micros: mul_div_trunc(-diff, 100 * MICRO, -reference.micros) }
    }
}

/// The first failure the summary derivation meets, in evaluation order, or
/// none: a missing fixed-key row, then for each impact pair a zero reference
/// or an out-of-range value. The guarded impact pairs come in the order
/// volatility, lift, payout, each after its own lookups.
pub open spec fn spec_summary_error(rows: Seq<ValuationResult>) -> Option<Seq<char>> {
    let central = spec_find(rows, PayoutScenario::Day90, VolatilityScenario::Typical, Some(LiftScenario::Medium));
    let lv = spec_find(rows, PayoutScenario::Day90, VolatilityScenario::Low, Some(LiftScenario::Medium));
    let ev = spec_find(rows, PayoutScenario::Day90, VolatilityScenario::Extreme, Some(LiftScenario::Medium));
    let ll = spec_find(rows, PayoutScenario::Day90, VolatilityScenario::Typical, Some(LiftScenario::Low));
    let hl = spec_find(rows, PayoutScenario::Day90, VolatilityScenario::Typical, Some(LiftScenario::High));
    let d60 = spec_find(rows, PayoutScenario::Day60, VolatilityScenario::Typical, Some(LiftScenario::Medium));
    let d120 = spec_find(rows, PayoutScenario::Day120, VolatilityScenario::Typical, Some(LiftScenario::Medium));
    if central is None {
        Some("Could not find value for scenario combo"@)
    } else if lv is None {
        Some("Could not find value for scenario combo"@)
    } else if ev is None {
        Some("Could not find value for scenario combo"@)
    } else if lv->Some_0.micros == 0 {
        Some("Summary impact reference value is zero"@)
    } else if !impact_in_range(lv->Some_0.micros as int, ev->Some_0.micros as int) {
        Some("Summary impact value out of range"@)
    } else if ll is None {
        Some("Could not find value for scenario combo"@)
    } else if hl is None {
        Some("Could not find value for scenario combo"@)
    } else if ll->Some_0.micros == 0 {
        Some("Summary impact reference value is zero"@)
    } else if !impact_in_range(hl->Some_0.micros as int, ll->Some_0.micros as int) {
        Some("Summary impact value out of range"@)
    } else if d60 is None {
        Some("Could not find value for scenario combo"@)
    } else if d120 is None {
        Some("Could not find value for scenario combo"@)
    } else if d60->Some_0.micros == 0 {
        Some("Summary impact reference value is zero"@)
    } else if !impact_in_range(d60->Some_0.micros as int, d120->Some_0.micros as int) {
        Some("Summary impact value out of range"@)
    } else {
        None
    }
}

/// Calculate summary statistics over the result set: the global extremes, the
/// central estimate, and the three percentage impacts, each from its pair of
/// fixed-key rows.
pub fn calculate_summary_statistics(
    all_valuations: &Vec<ValuationResult>,
    adjusted_baseline: Fixed,
) -> (r: Result<SummaryStatistics, ModelError>)
    ensures
        spec_summary_error(all_valuations@) matches Some(m) ==> (r matches Err(e)
            && e.is_calculation_error(m)),
        spec_summary_error(all_valuations@) is None ==> (r matches Ok(s) && {
            let rows = all_valuations@;
            let lv = spec_find(rows, PayoutScenario::Day90, VolatilityScenario::Low, Some(LiftScenario::Medium))->Some_0;
            let ev = spec_find(rows, PayoutScenario::Day90, VolatilityScenario::Extreme, Some(LiftScenario::Medium))->Some_0;
            let ll = spec_find(rows, PayoutScenario::Day90, VolatilityScenario::Typical, Some(LiftScenario::Low))->Some_0;
            let hl = spec_find(rows, PayoutScenario::Day90, VolatilityScenario::Typical, Some(LiftScenario::High))->Some_0;
            let d60 = spec_find(rows, PayoutScenario::Day60, VolatilityScenario::Typical, Some(LiftScenario::Medium))->Some_0;
            let d120 = spec_find(rows, PayoutScenario::Day120, VolatilityScenario::Typical, Some(LiftScenario::Medium))->Some_0;
            &&& Some(s.central_estimate) == spec_find(rows, PayoutScenario::Day90, VolatilityScenario::Typical, Some(LiftScenario::Medium))
            &&& s.volatility_impact.micros == spec_impact(lv.micros as int, ev.micros as int, lv.micros as int)
            &&& s.lift_impact.micros == spec_impact(hl.micros as int, ll.micros as int, ll.micros as int)
            &&& s.payout_impact.micros == spec_impact(d60.micros as int, d120.micros as int, d60.micros as int)
            &&& s.best_volatility == VolatilityScenario::Low
            &&& s.worst_volatility == VolatilityScenario::Extreme
            &&& s.adjusted_baseline == adjusted_baseline
            &&& exists|w: int| 0 <= w < rows.len() && s.min_valuation == (#[trigger] rows[w]).present_value
            &&& forall|k: int| 0 <= k < rows.len() ==> s.min_valuation.micros <= (#[trigger] rows[k]).present_value.micros
            &&& exists|w: int| 0 <= w < rows.len() && s.max_valuation == (#[trigger] rows[w]).present_value
            &&& forall|k: int| 0 <= k < rows.len() ==> s.max_valuation.micros >= (#[trigger] rows[k]).present_value.micros
        }),
{
    let central_estimate = match find_value(
        all_valuations,
        PayoutScenario::Day90,
        VolatilityScenario::Typical,
        Some(LiftScenario::Medium),
    ) {
        Some(v) => v,
        None => {
            return Err(ModelError::CalculationError(
                "Could not find value for scenario combo".to_owned(),
            ));
        },
    };
    let low_vol_value = match find_value(
        all_valuations,
        PayoutScenario::Day90,
        VolatilityScenario::Low,
        Some(LiftScenario::Medium),
    ) {
        Some(v) => v,
        None => {
            return Err(ModelError::CalculationError(
                "Could not find value for scenario combo".to_owned(),
            ));
        },
    };
    let extreme_vol_value = match find_value(
        all_valuations,
        PayoutScenario::Day90,
        VolatilityScenario::Extreme,
        Some(LiftScenario::Medium),
    ) {
        Some(v) => v,
        None => {
            return Err(ModelError::CalculationError(
                "Could not find value for scenario combo".to_owned(),
            ));
        },
    };
    if low_vol_value.micros == 0 {
        return Err(ModelError::CalculationError(
            "Summary impact reference value is zero".to_owned(),
        ));
    }
    if low_vol_value.micros < -IMPACT_VALUE_ABS_MAX || low_vol_value.micros > IMPACT_VALUE_ABS_MAX
        || extreme_vol_value.micros < -IMPACT_VALUE_ABS_MAX
        || extreme_vol_value.micros > IMPACT_VALUE_ABS_MAX {
        return Err(ModelError::CalculationError("Summary impact value out of range".to_owned()));
    }
    let volatility_impact = impact_pct(low_vol_value, extreme_vol_value, low_vol_value);

    let low_lift_value = match find_value(
        all_valuations,
        PayoutScenario::Day90,
        VolatilityScenario::Typical,
        Some(LiftScenario::Low),
    ) {
        Some(v) => v,
        None => {
            return Err(ModelError::CalculationError(
                "Could not find value for scenario combo".to_owned(),
            ));
        },
    };
    let high_lift_value = match find_value(
        all_valuations,
        PayoutScenario::Day90,
        VolatilityScenario::Typical,
        Some(LiftScenario::High),
    ) {
        Some(v) => v,
        None => {
            return Err(ModelError::CalculationError(
                "Could not find value for scenario combo".to_owned(),
            ));
        },
    };
    if low_lift_value.micros == 0 {
        return Err(ModelError::CalculationError(
            "Summary impact reference value is zero".to_owned(),
        ));
    }
    if high_lift_value.micros < -IMPACT_VALUE_ABS_MAX || high_lift_value.micros > IMPACT_VALUE_ABS_MAX
        || low_lift_value.micros < -IMPACT_VALUE_ABS_MAX
        || low_lift_value.micros > IMPACT_VALUE_ABS_MAX {
        return Err(ModelError::CalculationError("Summary impact value out of range".to_owned()));
    }
    let lift_impact = impact_pct(high_lift_value, low_lift_value, low_lift_value);

    let day60_value = match find_value(
        all_valuations,
        PayoutScenario::Day60,
        VolatilityScenario::Typical,
        Some(LiftScenario::Medium),
    ) {
        Some(v) => v,
        None => {
            return Err(ModelError::CalculationError(
                "Could not find value for scenario combo".to_owned(),
            ));
        },
    };
    let day120_value = match find_value(
        all_valuations,
        PayoutScenario::Day120,
        VolatilityScenario::Typical,
        Some(LiftScenario::Medium),
    ) {
        Some(v) => v,
        None => {
            return Err(ModelError::CalculationError(
                "Could not find value for scenario combo".to_owned(),
            ));
        },
    };
    if day60_value.micros == 0 {
        return Err(ModelError::CalculationError(
            "Summary impact reference value is zero".to_owned(),
        ));
    }
    if day60_value.micros < -IMPACT_VALUE_ABS_MAX || day60_value.micros > IMPACT_VALUE_ABS_MAX
        || day120_value.micros < -IMPACT_VALUE_ABS_MAX
        || day120_value.micros > IMPACT_VALUE_ABS_MAX {
        return Err(ModelError::CalculationError("Summary impact value out of range".to_owned()));
    }
    let payout_impact = impact_pct(day60_value, day120_value, day60_value);

    let mut min_valuation: Fixed = all_valuations[0].present_value;
    let mut max_valuation: Fixed = all_valuations[0].present_value;
    let mut i: usize = 1;
    while i < all_valuations.len()
        invariant
            1 <= i <= all_valuations@.len(),
            exists|w: int| 0 <= w < i && min_valuation == (#[trigger] all_valuations@[w]).present_value,
            forall|k: int| 0 <= k < i ==> min_valuation.micros <= (#[trigger] all_valuations@[k]).present_value.micros,
            exists|w: int| 0 <= w < i && max_valuation == (#[trigger] all_valuations@[w]).present_value,
            forall|k: int| 0 <= k < i ==> max_valuation.micros >= (#[trigger] all_valuations@[k]).present_value.micros,
        decreases all_valuations@.len() - i,
    {
        let pv = all_valuations[i].present_value;
        if pv.micros < min_valuation.micros {
            min_valuation = pv;
        }
        if pv.micros > max_valuation.micros {
            max_valuation = pv;
        }
        i = i + 1;
    }

    Ok(SummaryStatistics {
        min_valuation,
        max_valuation,
        central_estimate,
        best_volatility: VolatilityScenario::Low,
        worst_volatility: VolatilityScenario::Extreme,
        volatility_impact,
        lift_impact,
        payout_impact,
        adjusted_baseline,
    })
}

/// The discount-rate components of a volatility scenario, from the inputs.
pub open spec fn spec_components(
    inputs: ValuationInputs,
    volatility: VolatilityScenario,
) -> DiscountRateComponents {
    DiscountRateComponents {
        risk_free_rate: inputs.risk_free_rate,
        volatility_premium: Fixed { micros: volatility.spec_premium_micros() as i128 },
        platform_risk_premium: inputs.platform_risk_premium,
    }
}

/// The first impact guard the summary derivation of a full result set trips,
/// or none: over the full 48-row set every fixed-key lookup succeeds, so only
/// a zero reference or an out-of-range pair can fail.
pub open spec fn spec_impact_guard_error(inputs: ValuationInputs) -> Option<Seq<char>> {
    let lv = spec_row_pv(inputs, PayoutScenario::Day90, VolatilityScenario::Low, Some(LiftScenario::Medium));
    let ev = spec_row_pv(inputs, PayoutScenario::Day90, VolatilityScenario::Extreme, Some(LiftScenario::Medium));
    let ll = spec_row_pv(inputs, PayoutScenario::Day90, VolatilityScenario::Typical, Some(LiftScenario::Low));
    let hl = spec_row_pv(inputs, PayoutScenario::Day90, VolatilityScenario::Typical, Some(LiftScenario::High));
    let d60 = spec_row_pv(inputs, PayoutScenario::Day60, VolatilityScenario::Typical, Some(LiftScenario::Medium));
    let d120 = spec_row_pv(inputs, PayoutScenario::Day120, VolatilityScenario::Typical, Some(LiftScenario::Medium));
    if lv == 0 {
        Some("Summary impact reference value is zero"@)
    } else if !impact_in_range(lv, ev) {
        Some("Summary impact value out of range"@)
    } else if ll == 0 {
        Some("Summary impact reference value is zero"@)
    } else if !impact_in_range(hl, ll) {
        Some("Summary impact value out of range"@)
    } else if d60 == 0 {
        Some("Summary impact reference value is zero"@)
    } else if !impact_in_range(d60, d120) {
        Some("Summary impact value out of range"@)
    } else {
        None
    }
}

/// Calculate valuations for all scenario combinations and return
/// comprehensive report data.
///
/// The inputs are validated first; a valid run either fails on a present-value
/// domain error (some scenario's rate below -1 or a zero denominator) or on an
/// impact guard, or yields the full 48-row result set with its summary, every
/// row's value pinned to the fixed-point formula.
pub fn calculate_full_valuation(inputs: &ValuationInputs) -> (r: Result<ReportData, ModelError>)
    requires
        inputs.in_range(),
    ensures
        inputs.raw_forecast.micros <= 0 ==> (r matches Err(e) && e.is_invalid_input(
            "Raw forecast must be positive"@,
        )),
        inputs.raw_forecast.micros > 0 && inputs.baseline_audience.micros <= 0 ==> (r matches Err(e)
            && e.is_invalid_input("Baseline audience must be positive"@)),
        inputs.raw_forecast.micros > 0 && inputs.baseline_audience.micros > 0
            && inputs.rpm.micros <= 0 ==> (r matches Err(e) && e.is_invalid_input(
            "RPM must be positive"@,
        )),
        inputs.valid() && (exists|p: PayoutScenario, v: VolatilityScenario|
            spec_row_fails(*inputs, p, v)) ==> (r matches Err(e) && e is CalculationError),
        inputs.valid() && spec_rate_micros(*inputs, VolatilityScenario::Low) < -(MICRO as int)
            ==> (r matches Err(e) && e.is_calculation_error(
            "Discount rate would result in division by zero or negative denominator"@,
        )),
        inputs.valid() && !(exists|p: PayoutScenario, v: VolatilityScenario|
            spec_row_fails(*inputs, p, v)) ==> (match spec_impact_guard_error(*inputs) {
            Some(m) => r matches Err(e) && e.is_calculation_error(m),
            None => r is Ok,
        }),
        r matches Ok(data) ==> ({
            let rows = data.all_valuations@;
            &&& data.inputs == *inputs
            &&& rows.len() == 48
            &&& (forall|k: int| 0 <= k < 48 ==> (#[trigger] rows[k]) == expected_row(*inputs, k))
            &&& (forall|k: int|
                0 <= k < 48 ==> (#[trigger] rows[k]).present_value.micros == spec_row_pv(
                    *inputs,
                    payout_at(k),
                    volatility_at(k),
                    lift_at(k),
                ))
            &&& (forall|v: VolatilityScenario| #[trigger]
                data.discount_rates.spec_get(v) == spec_components(*inputs, v))
            &&& data.summary.adjusted_baseline.micros == spec_adjusted_baseline(
                inputs.raw_forecast.micros as int,
                inputs.platform_adjustment_factor.micros as int,
            )
            &&& data.summary.central_estimate.micros == spec_row_pv(
                *inputs,
                PayoutScenario::Day90,
                VolatilityScenario::Typical,
                Some(LiftScenario::Medium),
            )
            &&& data.summary.volatility_impact.micros == spec_impact(
                spec_row_pv(*inputs, PayoutScenario::Day90, VolatilityScenario::Low, Some(LiftScenario::Medium)),
                spec_row_pv(*inputs, PayoutScenario::Day90, VolatilityScenario::Extreme, Some(LiftScenario::Medium)),
                spec_row_pv(*inputs, PayoutScenario::Day90, VolatilityScenario::Low, Some(LiftScenario::Medium)),
            )
            &&& data.summary.lift_impact.micros == spec_impact(
                spec_row_pv(*inputs, PayoutScenario::Day90, VolatilityScenario::Typical, Some(LiftScenario::High)),
                spec_row_pv(*inputs, PayoutScenario::Day90, VolatilityScenario::Typical, Some(LiftScenario::Low)),
                spec_row_pv(*inputs, PayoutScenario::Day90, VolatilityScenario::Typical, Some(LiftScenario::Low)),
            )
            &&& data.summary.payout_impact.micros == spec_impact(
                spec_row_pv(*inputs, PayoutScenario::Day60, VolatilityScenario::Typical, Some(LiftScenario::Medium)),
                spec_row_pv(*inputs, PayoutScenario::Day120, VolatilityScenario::Typical, Some(LiftScenario::Medium)),
                spec_row_pv(*inputs, PayoutScenario::Day60, VolatilityScenario::Typical, Some(LiftScenario::Medium)),
            )
            &&& data.summary.best_volatility == VolatilityScenario::Low
            &&& data.summary.worst_volatility == VolatilityScenario::Extreme
            &&& (exists|w: int|
                0 <= w < 48 && data.summary.min_valuation == (#[trigger] rows[w]).present_value)
            &&& (forall|k: int|
                0 <= k < 48 ==> data.summary.min_valuation.micros <= (#[trigger] rows[k]).present_value.micros)
            &&& (exists|w: int|
                0 <= w < 48 && data.summary.max_valuation == (#[trigger] rows[w]).present_value)
            &&& (forall|k: int|
                0 <= k < 48 ==> data.summary.max_valuation.micros >= (#[trigger] rows[k]).present_value.micros)
            &&& data.lift_assumptions.baseline_audience == inputs.baseline_audience
            &&& data.lift_assumptions.rpm == inputs.rpm
            &&& data.lift_assumptions.investor_count == inputs.investor_count
            &&& data.lift_assumptions.lift_per_investor == inputs.lift_per_investor
        }),
{
    if inputs.raw_forecast.micros <= 0 {
        return Err(ModelError::InvalidInput("Raw forecast must be positive".to_owned()));
    }
    if inputs.baseline_audience.micros <= 0 {
        return Err(ModelError::InvalidInput("Baseline audience must be positive".to_owned()));
    }
    if inputs.rpm.micros <= 0 {
        return Err(ModelError::InvalidInput("RPM must be positive".to_owned()));
    }

    let adjusted_baseline = calculate_adjusted_baseline(
        inputs.raw_forecast,
        inputs.platform_adjustment_factor,
    );

    let discount_rates = DiscountRateTable {
        low: calculate_discount_rate(inputs, VolatilityScenario::Low),
        typical: calculate_discount_rate(inputs, VolatilityScenario::Typical),
        high: calculate_discount_rate(inputs, VolatilityScenario::High),
        extreme: calculate_discount_rate(inputs, VolatilityScenario::Extreme),
    };

    let mut all_valuations: Vec<ValuationResult> = Vec::new();
    let mut i: u32 = 0;
    while i < 48
        invariant
            inputs.in_range(),
            inputs.valid(),
            adjusted_baseline.micros == spec_adjusted_baseline(
                inputs.raw_forecast.micros as int,
                inputs.platform_adjustment_factor.micros as int,
            ),
            -ADJUSTED_ABS_BOUND <= adjusted_baseline.micros <= ADJUSTED_ABS_BOUND,
            forall|v: VolatilityScenario| #[trigger]
                discount_rates.spec_get(v) == spec_components(*inputs, v),
            i <= 48,
            all_valuations@.len() == i as int,
            forall|k: int| 0 <= k < i ==> (#[trigger] all_valuations@[k]) == expected_row(*inputs, k),
            forall|k: int|
                0 <= k < i ==> (#[trigger] all_valuations@[k]).present_value.micros == spec_row_pv(
                    *inputs,
                    payout_at(k),
                    volatility_at(k),
                    lift_at(k),
                ),
            forall|k: int| 0 <= k < i ==> !spec_row_fails(*inputs, payout_at(k), volatility_at(k)),
        decreases 48 - i,
    {
        let j: u32 = if i < 12 {
            i
        } else {
            (i - 12) % 12
        };
        let payout: PayoutScenario = if j / 4 == 0 {
            PayoutScenario::Day60
        } else if j / 4 == 1 {
            PayoutScenario::Day90
        } else {
            PayoutScenario::Day120
        };
        let volatility: VolatilityScenario = if j % 4 == 0 {
            VolatilityScenario::Low
        } else if j % 4 == 1 {
            VolatilityScenario::Typical
        } else if j % 4 == 2 {
            VolatilityScenario::High
        } else {
            VolatilityScenario::Extreme
        };
        let lift: Option<LiftScenario> = if i < 12 {
            None
        } else if (i - 12) / 12 == 0 {
            Some(LiftScenario::Low)
        } else if (i - 12) / 12 == 1 {
            Some(LiftScenario::Medium)
        } else {
            Some(LiftScenario::High)
        };
        proof {
            assert(payout == payout_at(i as int));
            assert(volatility == volatility_at(i as int));
            assert(lift == lift_at(i as int));
        }
        let components = discount_rates.get(volatility);
        let discount_rate = components.total_rate();
        let cash_flow: Fixed = match lift {
            None => adjusted_baseline,
            Some(l) => {
                let lift_amount = l.quarterly_lift(
                    inputs.investor_count,
                    inputs.lift_per_investor,
                    inputs.rpm,
                );
                proof {
                    lemma_quarterly_lift_bound(
                        inputs.investor_count as int,
                        inputs.lift_per_investor.micros as int,
                        inputs.rpm.micros as int,
                        l.spec_activation_micros(),
                    );
                }
                Fixed { micros: adjusted_baseline.micros + lift_amount.micros }
            },
        };
        let days = payout.days();
        let present_value = match calculate_present_value(cash_flow, discount_rate, days) {
            Ok(pv) => pv,
            Err(e) => {
                proof {
                    assert(spec_row_fails(*inputs, payout, volatility));
                    if i > 0 {
                        assert(!spec_row_fails(*inputs, payout_at(0), volatility_at(0)));
                    }
                }
                return Err(e);
            },
        };
        all_valuations.push(
            ValuationResult {
                present_value,
                payout_scenario: payout,
                volatility_scenario: volatility,
                lift_scenario: lift,
            },
        );
        i = i + 1;
    }

    proof {
        assert forall|p: PayoutScenario, v: VolatilityScenario| !spec_row_fails(
            *inputs,
            p,
            v,
        ) by {
            lemma_row_keys_cover(p, v, None::<LiftScenario>);
            assert(!spec_row_fails(*inputs, payout_at(row_index_of(p, v, None::<LiftScenario>)),
                volatility_at(row_index_of(p, v, None::<LiftScenario>))));
        }
        assert(!spec_row_fails(*inputs, PayoutScenario::Day60, VolatilityScenario::Low));
        lemma_summary_matches_guard(all_valuations@, *inputs);
    }

    let lift_assumptions = LiftAssumptions {
        baseline_audience: inputs.baseline_audience,
        rpm: inputs.rpm,
        investor_count: inputs.investor_count,
        lift_per_investor: inputs.lift_per_investor,
    };

    let summary = match calculate_summary_statistics(&all_valuations, adjusted_baseline) {
        Ok(s) => s,
        Err(e) => {
            return Err(e);
        },
    };

    Ok(
        ReportData {
            inputs: *inputs,
            all_valuations,
            discount_rates,
            summary,
            lift_assumptions,
        },
    )
}

/// Over the full result set the summary's failure condition reduces to the
/// impact guards alone, and each fixed-key lookup yields the key's row value.
proof fn lemma_summary_matches_guard(rows: Seq<ValuationResult>, inputs: ValuationInputs)
    requires
        rows.len() == 48,
        forall|k: int| 0 <= k < 48 ==> (#[trigger] rows[k]) == expected_row(inputs, k),
        forall|k: int|
            0 <= k < 48 ==> (#[trigger] rows[k]).present_value.micros == spec_row_pv(
                inputs,
                payout_at(k),
                volatility_at(k),
                lift_at(k),
            ),
    ensures
        spec_summary_error(rows) == spec_impact_guard_error(inputs),
        spec_find(rows, PayoutScenario::Day90, VolatilityScenario::Typical, Some(LiftScenario::Medium))
            matches Some(f) && f.micros == spec_row_pv(inputs, PayoutScenario::Day90, VolatilityScenario::Typical, Some(LiftScenario::Medium)),
        spec_find(rows, PayoutScenario::Day90, VolatilityScenario::Low, Some(LiftScenario::Medium))
            matches Some(f) && f.micros == spec_row_pv(inputs, PayoutScenario::Day90, VolatilityScenario::Low, Some(LiftScenario::Medium)),
        spec_find(rows, PayoutScenario::Day90, VolatilityScenario::Extreme, Some(LiftScenario::Medium))
            matches Some(f) && f.micros == spec_row_pv(inputs, PayoutScenario::Day90, VolatilityScenario::Extreme, Some(LiftScenario::Medium)),
        spec_find(rows, PayoutScenario::Day90, VolatilityScenario::Typical, Some(LiftScenario::Low))
            matches Some(f) && f.micros == spec_row_pv(inputs, PayoutScenario::Day90, VolatilityScenario::Typical, Some(LiftScenario::Low)),
        spec_find(rows, PayoutScenario::Day90, VolatilityScenario::Typical, Some(LiftScenario::High))
            matches Some(f) && f.micros == spec_row_pv(inputs, PayoutScenario::Day90, VolatilityScenario::Typical, Some(LiftScenario::High)),
        spec_find(rows, PayoutScenario::Day60, VolatilityScenario::Typical, Some(LiftScenario::Medium))
            matches Some(f) && f.micros == spec_row_pv(inputs, PayoutScenario::Day60, VolatilityScenario::Typical, Some(LiftScenario::Medium)),
        spec_find(rows, PayoutScenario::Day120, VolatilityScenario::Typical, Some(LiftScenario::Medium))
            matches Some(f) && f.micros == spec_row_pv(inputs, PayoutScenario::Day120, VolatilityScenario::Typical, Some(LiftScenario::Medium)),
{
    lemma_find_at_key(rows, inputs, PayoutScenario::Day90, VolatilityScenario::Typical, Some(LiftScenario::Medium));
    lemma_find_at_key(rows, inputs, PayoutScenario::Day90, VolatilityScenario::Low, Some(LiftScenario::Medium));
    lemma_find_at_key(rows, inputs, PayoutScenario::Day90, VolatilityScenario::Extreme, Some(LiftScenario::Medium));
    lemma_find_at_key(rows, inputs, PayoutScenario::Day90, VolatilityScenario::Typical, Some(LiftScenario::Low));
    lemma_find_at_key(rows, inputs, PayoutScenario::Day90, VolatilityScenario::Typical, Some(LiftScenario::High));
    lemma_find_at_key(rows, inputs, PayoutScenario::Day60, VolatilityScenario::Typical, Some(LiftScenario::Medium));
    lemma_find_at_key(rows, inputs, PayoutScenario::Day120, VolatilityScenario::Typical, Some(LiftScenario::Medium));
}

/// Over the full result set the lookup of any key yields the key's row value.
proof fn lemma_find_at_key(
    rows: Seq<ValuationResult>,
    inputs: ValuationInputs,
    payout: PayoutScenario,
    volatility: VolatilityScenario,
    lift: Option<LiftScenario>,
)
    requires
        rows.len() == 48,
        forall|k: int| 0 <= k < 48 ==> (#[trigger] rows[k]) == expected_row(inputs, k),
        forall|k: int|
            0 <= k < 48 ==> (#[trigger] rows[k]).present_value.micros == spec_row_pv(
                inputs,
                payout_at(k),
                volatility_at(k),
                lift_at(k),
            ),
    ensures
        spec_find(rows, payout, volatility, lift) matches Some(f) && f.micros == spec_row_pv(
            inputs,
            payout,
            volatility,
            lift,
        ),
{
    lemma_find_in_catalog(rows, inputs, payout, volatility, lift);
    lemma_row_keys_cover(payout, volatility, lift);
}

proof fn lemma_find_in_catalog_from(
    rows: Seq<ValuationResult>,
    inputs: ValuationInputs,
    payout: PayoutScenario,
    volatility: VolatilityScenario,
    lift: Option<LiftScenario>,
    k: int,
)
    requires
        rows.len() == 48,
        forall|j: int| 0 <= j < 48 ==> #[trigger] rows[j] == expected_row(inputs, j),
        0 <= k <= row_index_of(payout, volatility, lift) < 48,
    ensures
        spec_find_from(rows, payout, volatility, lift, k) == Some(
            rows[row_index_of(payout, volatility, lift)].present_value,
        ),
    decreases row_index_of(payout, volatility, lift) - k,
{
    let idx = row_index_of(payout, volatility, lift);
    lemma_row_keys_cover(payout, volatility, lift);
    if k == idx {
        assert(rows[idx].has_key(payout, volatility, lift));
    } else {
        lemma_row_keys_unique(k);
        assert(!rows[k].has_key(payout, volatility, lift));
        lemma_find_in_catalog_from(rows, inputs, payout, volatility, lift, k + 1);
    }
}

} // verus!

