use tokval::error::ModelError;
use tokval::fixed::Fixed;
use tokval::model::{LiftScenario, PayoutScenario, ValuationInputs, VolatilityScenario};
use tokval::valuation::{
    calculate_adjusted_baseline, calculate_discount_rate, calculate_full_valuation,
    calculate_present_value,
};

fn as_f64(v: Fixed) -> f64 {
    (v.micros as f64) / 1_000_000.0
}

/// Creates a default, valid set of inputs for use in tests.
fn get_default_inputs() -> ValuationInputs {
    ValuationInputs {
        raw_forecast: Fixed::from_int(220_000),
        risk_free_rate: Fixed::from_micros(45_000),
        platform_risk_premium: Fixed::from_micros(120_000),
        platform_adjustment_factor: Fixed::from_micros(-91_000),
        baseline_audience: Fixed::from_int(1_000_000),
        rpm: Fixed::from_int(15),
        investor_count: 1000,
        lift_per_investor: Fixed::from_int(10),
    }
}

#[test]
fn test_adjusted_baseline_calculation() {
    let baseline = calculate_adjusted_baseline(
        Fixed::from_int(100_000),
        Fixed::from_micros(-91_000),
    );
    assert!((as_f64(baseline) - 90_900.0).abs() < 0.01);
}

#[test]
fn test_present_value_calculation() {
    // Known values for a full year.
    let pv_full_year = calculate_present_value(
        Fixed::from_int(100_000),
        Fixed::from_micros(100_000),
        365,
    )
    .unwrap();
    assert!((as_f64(pv_full_year) - 90_909.09).abs() < 0.01);

    // 90 days, with the expected value of the precise calculation.
    let pv_90_days = calculate_present_value(
        Fixed::from_int(100_000),
        Fixed::from_micros(100_000),
        90,
    )
    .unwrap();
    assert!((as_f64(pv_90_days) - 97_677.29).abs() < 0.01);
}

#[test]
fn test_additional_audience_calculation() {
    let investor_count = 1000;
    let lift_per_investor = Fixed::from_int(10);

    // Medium scenario has an activation factor of 1.0:
    // 1000 investors * 10 lift/investor * 1.0 factor = 10,000.
    let medium_lift_audience =
        LiftScenario::Medium.additional_audience(investor_count, lift_per_investor);
    assert_eq!(medium_lift_audience.micros, 10_000_000_000);

    // High scenario has an activation factor of 1.5:
    // 1000 investors * 10 lift/investor * 1.5 factor = 15,000.
    let high_lift_audience =
        LiftScenario::High.additional_audience(investor_count, lift_per_investor);
    assert_eq!(high_lift_audience.micros, 15_000_000_000);
}

#[test]
fn test_quarterly_lift_revenue_calculation() {
    let investor_count = 1000;
    let lift_per_investor = Fixed::from_int(10);
    let rpm = Fixed::from_int(20);

    // Medium lift (activation factor 1.0):
    // audience 10,000; revenue (10,000 / 1000) * $20 RPM * 3 months = $600.
    let medium_lift_revenue =
        LiftScenario::Medium.quarterly_lift(investor_count, lift_per_investor, rpm);
    assert_eq!(medium_lift_revenue.micros, 600_000_000);

    // Low lift (activation factor 0.5):
    // audience 5,000; revenue (5,000 / 1000) * $20 RPM * 3 months = $300.
    let low_lift_revenue =
        LiftScenario::Low.quarterly_lift(investor_count, lift_per_investor, rpm);
    assert_eq!(low_lift_revenue.micros, 300_000_000);
}

#[test]
fn test_full_valuation_with_custom_lift_drivers() {
    let mut inputs = get_default_inputs();
    inputs.rpm = Fixed::from_int(25);
    inputs.investor_count = 2000;
    inputs.lift_per_investor = Fixed::from_int(15);

    let report_data = calculate_full_valuation(&inputs).unwrap();

    // 1. The report's assumptions reflect the custom inputs.
    assert!((as_f64(report_data.lift_assumptions.rpm) - 25.0).abs() < 1e-9);
    assert_eq!(report_data.lift_assumptions.investor_count, 2000);
    assert!((as_f64(report_data.lift_assumptions.lift_per_investor) - 15.0).abs() < 1e-9);

    // 2. Manually compute the central estimate: Medium lift, Typical
    // volatility, 90-day payout.
    // Expected audience: 2000 * 15 * 1.0 = 30,000.
    // Expected revenue: (30,000 / 1000) * $25 RPM * 3 months = $2,250.
    let expected_lift = LiftScenario::Medium.quarterly_lift(
        inputs.investor_count,
        inputs.lift_per_investor,
        inputs.rpm,
    );
    assert!((as_f64(expected_lift) - 2_250.0).abs() < 1e-9);

    let adjusted_baseline = calculate_adjusted_baseline(
        inputs.raw_forecast,
        inputs.platform_adjustment_factor,
    );
    let expected_lifted_revenue = Fixed::from_micros(adjusted_baseline.micros + expected_lift.micros);

    let components = calculate_discount_rate(&inputs, VolatilityScenario::Typical);
    let discount_rate = components.total_rate();
    let days = PayoutScenario::Day90.days();

    let expected_pv =
        calculate_present_value(expected_lifted_revenue, discount_rate, days).unwrap();

    // 3. The central estimate matches the manual calculation.
    let central_estimate = report_data.summary.central_estimate;
    assert!((as_f64(central_estimate) - as_f64(expected_pv)).abs() < 0.01);
    assert_eq!(central_estimate.micros, expected_pv.micros);
}

#[test]
fn test_present_value_rate_below_minus_one_fails() {
    let r = calculate_present_value(Fixed::from_int(100_000), Fixed::from_micros(-1_000_001), 90);
    match r {
        Err(ModelError::CalculationError(m)) => assert_eq!(
            m,
            "Discount rate would result in division by zero or negative denominator"
        ),
        _ => panic!("expected a calculation error"),
    }
}

#[test]
fn test_present_value_rate_of_exactly_minus_one() {
    // A rate of exactly -1 gives a zero denominator for any positive delay.
    let r = calculate_present_value(Fixed::from_int(100_000), Fixed::from_micros(-1_000_000), 90);
    match r {
        Err(ModelError::CalculationError(m)) => {
            assert_eq!(m, "Present value calculation resulted in division by zero")
        }
        _ => panic!("expected a calculation error"),
    }
    // With no delay at all the factor is 1 and the cash flow comes back whole.
    let pv = calculate_present_value(Fixed::from_int(100_000), Fixed::from_micros(-1_000_000), 0)
        .unwrap();
    assert_eq!(pv.micros, 100_000_000_000);
}

#[test]
fn test_present_value_negative_cash_flow_is_not_an_error() {
    let pv = calculate_present_value(Fixed::from_int(-100_000), Fixed::from_micros(100_000), 365)
        .unwrap();
    assert!((as_f64(pv) + 90_909.09).abs() < 0.01);
}

#[test]
fn test_present_value_zero_days_returns_cash_flow() {
    let pv = calculate_present_value(Fixed::from_int(12_345), Fixed::from_micros(200_000), 0)
        .unwrap();
    assert_eq!(pv.micros, 12_345_000_000);
}
