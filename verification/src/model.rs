//! Core data model: the closed scenario catalogs, the caller's inputs, and the
//! shapes of the computed results.

use vstd::prelude::*;
use crate::fixed::{mul_div, mul_div_trunc, Fixed, MICRO};

verus! {

/// Largest magnitude (in micros) accepted for a money-like input:
/// the raw forecast and the baseline audience.
pub const MONEY_ABS_MAX: i128 = 10_000_000_000_000_000;

/// Largest magnitude (in micros) accepted for a rate or factor input:
/// the risk-free rate, the platform risk premium and the adjustment factor.
pub const RATE_INPUT_ABS_MAX: i128 = 100_000_000;

/// Largest magnitude (in micros) accepted for a per-unit input:
/// the RPM and the lift per investor.
pub const PER_UNIT_ABS_MAX: i128 = 1_000_000_000_000;

/// Bound on the quarterly lift revenue produced from in-range inputs.
pub const QUARTERLY_ABS_BOUND: i128 = 30_000_000_000_000_000_000_000_000;

/// Payout timing scenarios representing different payment delays.
#[derive(Debug, Copy, Clone, PartialEq, Eq, Hash, Structural)]
pub enum PayoutScenario {
    /// Payment after 60 days.
    Day60,
    /// Payment after 90 days.
    Day90,
    /// Payment after 120 days.
    Day120,
}

impl PayoutScenario {
    /// The payment delay in days.
    pub open spec fn spec_days(self) -> int {
        match self {
            PayoutScenario::Day60 => 60,
            PayoutScenario::Day90 => 90,
            PayoutScenario::Day120 => 120,
        }
    }

    /// Returns all payout scenarios in order.
    pub fn all() -> (r: Vec<PayoutScenario>)
        ensures
            r@ =~= seq![PayoutScenario::Day60, PayoutScenario::Day90, PayoutScenario::Day120],
    {
        vec![PayoutScenario::Day60, PayoutScenario::Day90, PayoutScenario::Day120]
    }

    /// Get the time period in years for DCF calculation, as a fixed-point
    /// fraction of a 365-day year rounded toward zero. The engine itself
    /// exponentiates by the day count, so this value is for display.
    pub fn years(&self) -> (r: Fixed)
        ensures
            r.micros == self.spec_days() * MICRO as int / 365,
    {
        match self {
            PayoutScenario::Day60 => Fixed { micros: 164_383 },
            PayoutScenario::Day90 => Fixed { micros: 246_575 },
            PayoutScenario::Day120 => Fixed { micros: 328_767 },
        }
    }

    /// Get days as integer.
    pub fn days(&self) -> (d: u32)
        ensures
            d == self.spec_days(),
    {
        match self {
            PayoutScenario::Day60 => 60,
            PayoutScenario::Day90 => 90,
            PayoutScenario::Day120 => 120,
        }
    }
}

/// Market volatility scenarios affecting the risk premium.
#[derive(Debug, Copy, Clone, PartialEq, Eq, Hash, Structural)]
pub enum VolatilityScenario {
    /// Low market volatility.
    Low,
    /// Typical market conditions.
    Typical,
    /// High market volatility.
    High,
    /// Extreme market conditions.
    Extreme,
}

impl VolatilityScenario {
    /// The volatility premium in micros: 0.05, 0.10, 0.20 or 0.30.
    pub open spec fn spec_premium_micros(self) -> int {
        match self {
            VolatilityScenario::Low => 50_000,
            VolatilityScenario::Typical => 100_000,
            VolatilityScenario::High => 200_000,
            VolatilityScenario::Extreme => 300_000,
        }
    }

    /// Returns all volatility scenarios in order.
    pub fn all() -> (r: Vec<VolatilityScenario>)
        ensures
            r@ =~= seq![
                VolatilityScenario::Low,
                VolatilityScenario::Typical,
                VolatilityScenario::High,
                VolatilityScenario::Extreme,
            ],
    {
        vec![
            VolatilityScenario::Low,
            VolatilityScenario::Typical,
            VolatilityScenario::High,
            VolatilityScenario::Extreme,
        ]
    }

    /// Get the volatility premium for this scenario.
    pub fn premium(&self) -> (r: Fixed)
        ensures
            r.micros == self.spec_premium_micros(),
    {
        match self {
            VolatilityScenario::Low => Fixed { micros: 50_000 },
            VolatilityScenario::Typical => Fixed { micros: 100_000 },
            VolatilityScenario::High => Fixed { micros: 200_000 },
            VolatilityScenario::Extreme => Fixed { micros: 300_000 },
        }
    }

    /// Get the volatility percentage for display: the premium times 100.
    pub fn percentage(&self) -> (r: Fixed)
        ensures
            r.micros == self.spec_premium_micros() * 100,
    {
        match self {
            VolatilityScenario::Low => Fixed { micros: 5_000_000 },
            VolatilityScenario::Typical => Fixed { micros: 10_000_000 },
            VolatilityScenario::High => Fixed { micros: 20_000_000 },
            VolatilityScenario::Extreme => Fixed { micros: 30_000_000 },
        }
    }
}

/// Investor participation lift scenarios, each an activation factor.
#[derive(Debug, Copy, Clone, PartialEq, Eq, Hash, Structural)]
pub enum LiftScenario {
    /// Low investor activation (50% of potential).
    Low,
    /// Medium / expected investor activation (100% of potential).
    Medium,
    /// High investor activation / viral effects (150% of potential).
    High,
}

/// The additional monthly audience in micros: investor count times lift per
/// investor, scaled by the activation factor.
pub open spec fn spec_additional_audience(
    investor_count: int,
    lift_per_investor_micros: int,
    activation_micros: int,
) -> int {
    mul_div(investor_count * lift_per_investor_micros, activation_micros, MICRO as int)
}

/// The quarterly lift revenue in micros: the additional audience, times the
/// RPM per thousand audience members, times three months per quarter.
pub open spec fn spec_quarterly_lift(
    investor_count: int,
    lift_per_investor_micros: int,
    rpm_micros: int,
    activation_micros: int,
) -> int {
    mul_div(
        spec_additional_audience(investor_count, lift_per_investor_micros, activation_micros),
        rpm_micros * 3,
        1000 * MICRO as int,
    )
}

proof fn lemma_scaled_lift_bound(count: int, lift: int)
    by (nonlinear_arith)
    requires
        0 <= count <= u32::MAX as int,
        -PER_UNIT_ABS_MAX <= lift <= PER_UNIT_ABS_MAX,
    ensures
        -(u32::MAX as int) * PER_UNIT_ABS_MAX <= count * lift <= (u32::MAX as int)
            * PER_UNIT_ABS_MAX,
{
}

proof fn lemma_additional_audience_bound(count: int, lift: int, act: int)
    requires
        0 <= count <= u32::MAX as int,
        -PER_UNIT_ABS_MAX <= lift <= PER_UNIT_ABS_MAX,
        0 <= act <= 1_500_000,
    ensures
        -2 * (u32::MAX as int) * PER_UNIT_ABS_MAX <= spec_additional_audience(count, lift, act)
            <= 2 * (u32::MAX as int) * PER_UNIT_ABS_MAX,
{
    lemma_scaled_lift_bound(count, lift);
    let s = count * lift;
    let bq = 2 * (u32::MAX as int) * PER_UNIT_ABS_MAX;
    assert(-(bq * MICRO as int) <= s * act <= bq * MICRO as int) by (nonlinear_arith)
        requires
            -(u32::MAX as int) * PER_UNIT_ABS_MAX <= s <= (u32::MAX as int) * PER_UNIT_ABS_MAX,
            0 <= act <= 1_500_000,
            bq == 2 * (u32::MAX as int) * PER_UNIT_ABS_MAX,
    ;
    crate::fixed::lemma_trunc_div_quotient_bound(s * act, MICRO as int, bq);
}

/// From in-range inputs the quarterly lift revenue stays within
/// [`QUARTERLY_ABS_BOUND`].
pub proof fn lemma_quarterly_lift_bound(count: int, lift: int, rpm: int, act: int)
    requires
        0 <= count <= u32::MAX as int,
        -PER_UNIT_ABS_MAX <= lift <= PER_UNIT_ABS_MAX,
        -PER_UNIT_ABS_MAX <= rpm <= PER_UNIT_ABS_MAX,
        0 <= act <= 1_500_000,
    ensures
        -QUARTERLY_ABS_BOUND <= spec_quarterly_lift(count, lift, rpm, act)
            <= QUARTERLY_ABS_BOUND,
{
    lemma_additional_audience_bound(count, lift, act);
    let aud = spec_additional_audience(count, lift, act);
    assert(-(QUARTERLY_ABS_BOUND * (1000 * MICRO as int)) <= aud * (rpm * 3)
        <= QUARTERLY_ABS_BOUND * (1000 * MICRO as int)) by (nonlinear_arith)
        requires
            -2 * (u32::MAX as int) * PER_UNIT_ABS_MAX <= aud <= 2 * (u32::MAX as int)
                * PER_UNIT_ABS_MAX,
            -PER_UNIT_ABS_MAX <= rpm <= PER_UNIT_ABS_MAX,
    ;
    crate::fixed::lemma_trunc_div_quotient_bound(
        aud * (rpm * 3),
        1000 * MICRO as int,
        QUARTERLY_ABS_BOUND as int,
    );
}

impl LiftScenario {
    /// The activation factor in micros: 0.5, 1.0 or 1.5.
    pub open spec fn spec_activation_micros(self) -> int {
        match self {
            LiftScenario::Low => 500_000,
            LiftScenario::Medium => 1_000_000,
            LiftScenario::High => 1_500_000,
        }
    }

    /// Returns all lift scenarios.
    pub fn all() -> (r: Vec<LiftScenario>)
        ensures
            r@ =~= seq![LiftScenario::Low, LiftScenario::Medium, LiftScenario::High],
    {
        vec![LiftScenario::Low, LiftScenario::Medium, LiftScenario::High]
    }

    /// Get the activation factor for this scenario.
    pub fn activation_factor(&self) -> (r: Fixed)
        ensures
            r.micros == self.spec_activation_micros(),
    {
        match self {
            LiftScenario::Low => Fixed { micros: 500_000 },
            LiftScenario::Medium => Fixed { micros: 1_000_000 },
            LiftScenario::High => Fixed { micros: 1_500_000 },
        }
    }

    /// Calculate the additional monthly audience based on investor drivers.
    pub fn additional_audience(&self, investor_count: u32, lift_per_investor: Fixed) -> (r: Fixed)
        requires
            -PER_UNIT_ABS_MAX <= lift_per_investor.micros <= PER_UNIT_ABS_MAX,
        ensures
            r.micros == spec_additional_audience(
                investor_count as int,
                lift_per_investor.micros as int,
                self.spec_activation_micros(),
            ),
    {
        proof {
            lemma_scaled_lift_bound(investor_count as int, lift_per_investor.micros as int);
        }
        let scaled: i128 = (investor_count as i128) * lift_per_investor.micros;
        let act = self.activation_factor();
        proof {
            assert(-(i128::MAX as int) <= scaled * act.micros <= i128::MAX as int)
                by (nonlinear_arith)
                requires
                    -(u32::MAX as int) * PER_UNIT_ABS_MAX <= scaled <= (u32::MAX as int)
                        * PER_UNIT_ABS_MAX,
                    0 <= act.micros <= 1_500_000,
            ;
        }
        Fixed { micros: mul_div_trunc(scaled, act.micros, MICRO) }
    }

    /// Get the quarterly lift dollar amount: audience times RPM per thousand,
    /// times three months.
    pub fn quarterly_lift(&self, investor_count: u32, lift_per_investor: Fixed, rpm: Fixed) -> (r:
        Fixed)
        requires
            -PER_UNIT_ABS_MAX <= lift_per_investor.micros <= PER_UNIT_ABS_MAX,
            -PER_UNIT_ABS_MAX <= rpm.micros <= PER_UNIT_ABS_MAX,
        ensures
            r.micros == spec_quarterly_lift(
                investor_count as int,
                lift_per_investor.micros as int,
                rpm.micros as int,
                self.spec_activation_micros(),
            ),
    {
        let audience = self.additional_audience(investor_count, lift_per_investor);
        proof {
            lemma_additional_audience_bound(
                investor_count as int,
                lift_per_investor.micros as int,
                self.spec_activation_micros(),
            );
            assert(-(i128::MAX as int) <= audience.micros * (rpm.micros * 3) <= i128::MAX as int)
                by (nonlinear_arith)
                requires
                    -2 * (u32::MAX as int) * PER_UNIT_ABS_MAX <= audience.micros <= 2 * (
                    u32::MAX as int) * PER_UNIT_ABS_MAX,
                    -3 * PER_UNIT_ABS_MAX <= rpm.micros * 3 <= 3 * PER_UNIT_ABS_MAX,
            ;
        }
        Fixed { micros: mul_div_trunc(audience.micros, rpm.micros * 3, 1000 * MICRO) }
    }
}

/// Input parameters for valuation calculations. All decimals are fixed-point
/// (0.045 for 4.5%).
#[derive(Debug, Copy, Clone)]
pub struct ValuationInputs {
    /// Publisher's raw quarterly revenue forecast.
    pub raw_forecast: Fixed,
    /// Risk-free rate (as decimal, e.g., 0.045 for 4.5%).
    pub risk_free_rate: Fixed,
    /// Platform risk premium (as decimal).
    pub platform_risk_premium: Fixed,
    /// Platform adjustment factor (as decimal, negative for reduction).
    pub platform_adjustment_factor: Fixed,
    /// Baseline monthly audience for lift calculations.
    pub baseline_audience: Fixed,
    /// Revenue per thousand impressions (RPM) for lift calculations.
    pub rpm: Fixed,
    /// Investor count for lift calculations.
    pub investor_count: u32,
    /// Lift per investor for lift calculations.
    pub lift_per_investor: Fixed,
}

impl ValuationInputs {
    /// Every field is within the magnitude the fixed-point arithmetic admits.
    pub open spec fn in_range(self) -> bool {
        &&& -MONEY_ABS_MAX <= self.raw_forecast.micros <= MONEY_ABS_MAX
        &&& -RATE_INPUT_ABS_MAX <= self.risk_free_rate.micros <= RATE_INPUT_ABS_MAX
        &&& -RATE_INPUT_ABS_MAX <= self.platform_risk_premium.micros <= RATE_INPUT_ABS_MAX
        &&& -RATE_INPUT_ABS_MAX <= self.platform_adjustment_factor.micros <= RATE_INPUT_ABS_MAX
        &&& -MONEY_ABS_MAX <= self.baseline_audience.micros <= MONEY_ABS_MAX
        &&& -PER_UNIT_ABS_MAX <= self.rpm.micros <= PER_UNIT_ABS_MAX
        &&& -PER_UNIT_ABS_MAX <= self.lift_per_investor.micros <= PER_UNIT_ABS_MAX
    }

    /// The positivity constraints validated at entry.
    pub open spec fn valid(self) -> bool {
        &&& self.raw_forecast.micros > 0
        &&& self.baseline_audience.micros > 0
        &&& self.rpm.micros > 0
    }
}

/// Components used to calculate the discount rate.
#[derive(Debug, Copy, Clone, PartialEq, Eq, Structural)]
pub struct DiscountRateComponents {
    /// Base risk-free rate.
    pub risk_free_rate: Fixed,
    /// Premium based on market volatility.
    pub volatility_premium: Fixed,
    /// Premium for platform and publisher risk.
    pub platform_risk_premium: Fixed,
}

impl DiscountRateComponents {
    /// The sum of the three components, in micros.
    pub open spec fn spec_total_rate(self) -> int {
        self.risk_free_rate.micros + self.volatility_premium.micros
            + self.platform_risk_premium.micros
    }

    /// Calculate the total discount rate: the simple sum of the components.
    pub fn total_rate(&self) -> (r: Fixed)
        requires
            -RATE_INPUT_ABS_MAX <= self.risk_free_rate.micros <= RATE_INPUT_ABS_MAX,
            -RATE_INPUT_ABS_MAX <= self.volatility_premium.micros <= RATE_INPUT_ABS_MAX,
            -RATE_INPUT_ABS_MAX <= self.platform_risk_premium.micros <= RATE_INPUT_ABS_MAX,
        ensures
            r.micros == self.spec_total_rate(),
    {
        Fixed {
            micros: self.risk_free_rate.micros + self.volatility_premium.micros
                + self.platform_risk_premium.micros,
        }
    }
}

/// Discount rates for each volatility scenario.
#[derive(Debug, Copy, Clone)]
pub struct DiscountRateTable {
    /// Components under low volatility.
    pub low: DiscountRateComponents,
    /// Components under typical volatility.
    pub typical: DiscountRateComponents,
    /// Components under high volatility.
    pub high: DiscountRateComponents,
    /// Components under extreme volatility.
    pub extreme: DiscountRateComponents,
}

impl DiscountRateTable {
    /// The entry of the given volatility scenario.
    pub open spec fn spec_get(self, volatility: VolatilityScenario) -> DiscountRateComponents {
        match volatility {
            VolatilityScenario::Low => self.low,
            VolatilityScenario::Typical => self.typical,
            VolatilityScenario::High => self.high,
            VolatilityScenario::Extreme => self.extreme,
        }
    }

    /// Look up the components of a volatility scenario.
    pub fn get(&self, volatility: VolatilityScenario) -> (r: DiscountRateComponents)
        ensures
            r == self.spec_get(volatility),
    {
        match volatility {
            VolatilityScenario::Low => self.low,
            VolatilityScenario::Typical => self.typical,
            VolatilityScenario::High => self.high,
            VolatilityScenario::Extreme => self.extreme,
        }
    }
}

/// Result of a single valuation calculation: one row of the result set,
/// uniquely keyed by (payout, volatility, lift-or-none).
#[derive(Debug, Copy, Clone)]
pub struct ValuationResult {
    /// Calculated present value.
    pub present_value: Fixed,
    /// Payout timing scenario used.
    pub payout_scenario: PayoutScenario,
    /// Volatility scenario used.
    pub volatility_scenario: VolatilityScenario,
    /// Lift scenario used; none for the baseline.
    pub lift_scenario: Option<LiftScenario>,
}

impl ValuationResult {
    /// The row carries exactly this scenario key.
    pub open spec fn has_key(
        self,
        payout: PayoutScenario,
        volatility: VolatilityScenario,
        lift: Option<LiftScenario>,
    ) -> bool {
        &&& self.payout_scenario == payout
        &&& self.volatility_scenario == volatility
        &&& self.lift_scenario == lift
    }
}

/// Summary statistics for the executive summary.
#[derive(Debug, Copy, Clone)]
pub struct SummaryStatistics {
    /// Minimum valuation across all scenarios.
    pub min_valuation: Fixed,
    /// Maximum valuation across all scenarios.
    pub max_valuation: Fixed,
    /// Central estimate (typical volatility, 90 days, medium lift).
    pub central_estimate: Fixed,
    /// Best case volatility scenario.
    pub best_volatility: VolatilityScenario,
    /// Worst case volatility scenario.
    pub worst_volatility: VolatilityScenario,
    /// Impact of volatility change (as percentage).
    pub volatility_impact: Fixed,
    /// Impact of lift change from low to high (as percentage).
    pub lift_impact: Fixed,
    /// Impact of payout cycle extension from 60 to 120 days (as percentage).
    pub payout_impact: Fixed,
    /// Adjusted baseline revenue.
    pub adjusted_baseline: Fixed,
}

/// Assumptions for the lift model, echoed for reporting.
#[derive(Debug, Copy, Clone)]
pub struct LiftAssumptions {
    /// Base monthly audience.
    pub baseline_audience: Fixed,
    /// Revenue per thousand impressions.
    pub rpm: Fixed,
    /// Number of investors.
    pub investor_count: u32,
    /// Lift per investor.
    pub lift_per_investor: Fixed,
}

/// Comprehensive data structure containing all report data.
#[derive(Debug, Clone)]
pub struct ReportData {
    /// Original inputs.
    pub inputs: ValuationInputs,
    /// A unified list of all valuation results across all scenarios.
    pub all_valuations: Vec<ValuationResult>,
    /// Discount rates for each volatility scenario.
    pub discount_rates: DiscountRateTable,
    /// Summary statistics.
    pub summary: SummaryStatistics,
    /// Lift model assumptions.
    pub lift_assumptions: LiftAssumptions,
}

} // verus!
