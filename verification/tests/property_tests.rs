use tokval::error::ModelError;
use tokval::fixed::Fixed;
use tokval::model::{LiftScenario, PayoutScenario, ValuationInputs, VolatilityScenario};
use tokval::valuation::{calculate_full_valuation, calculate_summary_statistics, find_value};

fn default_inputs() -> ValuationInputs {
    ValuationInputs {
        raw_forecast: Fixed::from_int(220_000),
        risk_free_rate: Fixed::from_micros(45_000),
        platform_risk_premium: Fixed::from_micros(120_000),
        platform_adjustment_factor: Fixed::from_micros(-91_000),
        baseline_audience: Fixed::from_int(1_000_000),
        rpm: Fixed::from_int(15),
        investor_count: 1000,
        lift_per_investor: Fixed::from_int(10),
    }
}

#[test]
fn result_set_has_48_unique_covering_keys() {
    let report = calculate_full_valuation(&default_inputs()).unwrap();
    let rows = &report.all_valuations;
    assert_eq!(rows.len(), 48);

    // All keys are pairwise distinct.
    for i in 0..rows.len() {
        for j in 0..rows.len() {
            if i != j {
                let same = rows[i].payout_scenario == rows[j].payout_scenario
                    && rows[i].volatility_scenario == rows[j].volatility_scenario
                    && rows[i].lift_scenario == rows[j].lift_scenario;
                assert!(!same, "rows {} and {} share a key", i, j);
            }
        }
    }

    // Every combination is covered: 3 x 4 baseline and 3 x 3 x 4 lifted.
    let payouts = PayoutScenario::all();
    let volatilities = VolatilityScenario::all();
    let lifts = LiftScenario::all();
    for p in payouts.iter() {
        for v in volatilities.iter() {
            assert!(find_value(rows, *p, *v, None).is_some());
            for l in lifts.iter() {
                assert!(find_value(rows, *p, *v, Some(*l)).is_some());
            }
        }
    }
}

#[test]
fn adjusted_baseline_round_trip_example() {
    // raw_forecast 220,000 with adjustment factor -0.091 gives
    // 220,000 * 0.909 = 199,980.0 exactly.
    let report = calculate_full_valuation(&default_inputs()).unwrap();
    assert_eq!(report.summary.adjusted_baseline.micros, 199_980_000_000);
}

#[test]
fn total_rate_is_sum_of_components_for_all_volatilities() {
    let report = calculate_full_valuation(&default_inputs()).unwrap();
    let expected = [
        (VolatilityScenario::Low, 215_000),
        (VolatilityScenario::Typical, 265_000),
        (VolatilityScenario::High, 365_000),
        (VolatilityScenario::Extreme, 465_000),
    ];
    for (volatility, total_micros) in expected.iter() {
        let components = report.discount_rates.get(*volatility);
        assert_eq!(components.total_rate().micros, *total_micros);
        assert_eq!(
            components.total_rate().micros,
            components.risk_free_rate.micros + components.volatility_premium.micros
                + components.platform_risk_premium.micros
        );
    }
}

#[test]
fn pv_nonincreasing_in_payout_delay() {
    let report = calculate_full_valuation(&default_inputs()).unwrap();
    let rows = &report.all_valuations;
    let volatilities = VolatilityScenario::all();
    for v in volatilities.iter() {
        let d60 = find_value(rows, PayoutScenario::Day60, *v, None).unwrap();
        let d90 = find_value(rows, PayoutScenario::Day90, *v, None).unwrap();
        let d120 = find_value(rows, PayoutScenario::Day120, *v, None).unwrap();
        assert!(d60.micros >= d90.micros);
        assert!(d90.micros >= d120.micros);
    }
}

#[test]
fn pv_nondecreasing_in_activation_factor() {
    let report = calculate_full_valuation(&default_inputs()).unwrap();
    let rows = &report.all_valuations;
    let payouts = PayoutScenario::all();
    let volatilities = VolatilityScenario::all();
    for p in payouts.iter() {
        for v in volatilities.iter() {
            let low = find_value(rows, *p, *v, Some(LiftScenario::Low)).unwrap();
            let medium = find_value(rows, *p, *v, Some(LiftScenario::Medium)).unwrap();
            let high = find_value(rows, *p, *v, Some(LiftScenario::High)).unwrap();
            assert!(low.micros <= medium.micros);
            assert!(medium.micros <= high.micros);
        }
    }
}

#[test]
fn min_and_max_bound_every_row() {
    let report = calculate_full_valuation(&default_inputs()).unwrap();
    let summary = &report.summary;
    let mut seen_min = false;
    let mut seen_max = false;
    for row in report.all_valuations.iter() {
        assert!(summary.min_valuation.micros <= row.present_value.micros);
        assert!(summary.max_valuation.micros >= row.present_value.micros);
        seen_min = seen_min || summary.min_valuation.micros == row.present_value.micros;
        seen_max = seen_max || summary.max_valuation.micros == row.present_value.micros;
    }
    assert!(seen_min && seen_max);
    assert_eq!(summary.best_volatility, VolatilityScenario::Low);
    assert_eq!(summary.worst_volatility, VolatilityScenario::Extreme);
}

#[test]
fn invalid_raw_forecast_fails_fast() {
    let mut inputs = default_inputs();
    inputs.raw_forecast = Fixed::from_int(0);
    match calculate_full_valuation(&inputs) {
        Err(ModelError::InvalidInput(m)) => assert_eq!(m, "Raw forecast must be positive"),
        _ => panic!("expected an input error"),
    }
    inputs.raw_forecast = Fixed::from_int(-5);
    match calculate_full_valuation(&inputs) {
        Err(ModelError::InvalidInput(m)) => assert_eq!(m, "Raw forecast must be positive"),
        _ => panic!("expected an input error"),
    }
}

#[test]
fn invalid_baseline_audience_fails_fast() {
    let mut inputs = default_inputs();
    inputs.baseline_audience = Fixed::from_int(0);
    match calculate_full_valuation(&inputs) {
        Err(ModelError::InvalidInput(m)) => assert_eq!(m, "Baseline audience must be positive"),
        _ => panic!("expected an input error"),
    }
}

#[test]
fn invalid_rpm_fails_fast() {
    let mut inputs = default_inputs();
    inputs.rpm = Fixed::from_micros(-1);
    match calculate_full_valuation(&inputs) {
        Err(ModelError::InvalidInput(m)) => assert_eq!(m, "RPM must be positive"),
        _ => panic!("expected an input error"),
    }
}

#[test]
fn total_rate_below_minus_one_is_a_calculation_error() {
    let mut inputs = default_inputs();
    // risk_free -0.7 and platform premium -0.5: even with the low volatility
    // premium of 0.05 the total rate is -1.15.
    inputs.risk_free_rate = Fixed::from_micros(-700_000);
    inputs.platform_risk_premium = Fixed::from_micros(-500_000);
    match calculate_full_valuation(&inputs) {
        Err(ModelError::CalculationError(m)) => assert_eq!(
            m,
            "Discount rate would result in division by zero or negative denominator"
        ),
        _ => panic!("expected a calculation error"),
    }
}

#[test]
fn zero_lift_drivers_still_produce_a_full_result() {
    let mut inputs = default_inputs();
    inputs.investor_count = 0;
    inputs.lift_per_investor = Fixed::from_int(0);
    let report = calculate_full_valuation(&inputs).unwrap();
    assert_eq!(report.all_valuations.len(), 48);
    // With no lift at all, the lifted rows equal their baseline rows.
    let payouts = PayoutScenario::all();
    let volatilities = VolatilityScenario::all();
    for p in payouts.iter() {
        for v in volatilities.iter() {
            let base = find_value(&report.all_valuations, *p, *v, None).unwrap();
            for l in LiftScenario::all().iter() {
                let lifted = find_value(&report.all_valuations, *p, *v, Some(*l)).unwrap();
                assert_eq!(base.micros, lifted.micros);
            }
        }
    }
}

#[test]
fn zero_valued_rows_make_the_impact_reference_zero() {
    let mut inputs = default_inputs();
    // An adjustment factor of exactly -1 wipes out the baseline, and without
    // lift drivers every present value is zero, so the volatility-impact
    // reference is zero.
    inputs.platform_adjustment_factor = Fixed::from_micros(-1_000_000);
    inputs.investor_count = 0;
    match calculate_full_valuation(&inputs) {
        Err(ModelError::CalculationError(m)) => {
            assert_eq!(m, "Summary impact reference value is zero")
        }
        _ => panic!("expected a calculation error"),
    }
}

#[test]
fn summary_over_missing_rows_is_a_calculation_error() {
    let rows: Vec<tokval::model::ValuationResult> = Vec::new();
    match calculate_summary_statistics(&rows, Fixed::from_int(0)) {
        Err(ModelError::CalculationError(m)) => {
            assert_eq!(m, "Could not find value for scenario combo")
        }
        _ => panic!("expected a calculation error"),
    }
}
