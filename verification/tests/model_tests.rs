use tokval::fixed::Fixed;
use tokval::model::{
    DiscountRateComponents, LiftScenario, PayoutScenario, ValuationResult, VolatilityScenario,
};
use tokval::valuation::find_value;

#[test]
fn payout_catalog_is_fixed() {
    let all = PayoutScenario::all();
    assert_eq!(
        all,
        vec![PayoutScenario::Day60, PayoutScenario::Day90, PayoutScenario::Day120]
    );
    assert_eq!(PayoutScenario::Day60.days(), 60);
    assert_eq!(PayoutScenario::Day90.days(), 90);
    assert_eq!(PayoutScenario::Day120.days(), 120);
    // The displayed year fractions: days / 365, rounded toward zero.
    assert_eq!(PayoutScenario::Day60.years().micros, 164_383);
    assert_eq!(PayoutScenario::Day90.years().micros, 246_575);
    assert_eq!(PayoutScenario::Day120.years().micros, 328_767);
}

#[test]
fn volatility_catalog_is_fixed() {
    let all = VolatilityScenario::all();
    assert_eq!(
        all,
        vec![
            VolatilityScenario::Low,
            VolatilityScenario::Typical,
            VolatilityScenario::High,
            VolatilityScenario::Extreme,
        ]
    );
    assert_eq!(VolatilityScenario::Low.premium().micros, 50_000);
    assert_eq!(VolatilityScenario::Typical.premium().micros, 100_000);
    assert_eq!(VolatilityScenario::High.premium().micros, 200_000);
    assert_eq!(VolatilityScenario::Extreme.premium().micros, 300_000);
    // The display percentage is the premium times 100.
    assert_eq!(VolatilityScenario::Low.percentage().micros, 5_000_000);
    assert_eq!(VolatilityScenario::Extreme.percentage().micros, 30_000_000);
}

#[test]
fn lift_catalog_is_fixed() {
    let all = LiftScenario::all();
    assert_eq!(
        all,
        vec![LiftScenario::Low, LiftScenario::Medium, LiftScenario::High]
    );
    assert_eq!(LiftScenario::Low.activation_factor().micros, 500_000);
    assert_eq!(LiftScenario::Medium.activation_factor().micros, 1_000_000);
    assert_eq!(LiftScenario::High.activation_factor().micros, 1_500_000);
}

#[test]
fn total_rate_sums_exactly() {
    let components = DiscountRateComponents {
        risk_free_rate: Fixed::from_micros(45_000),
        volatility_premium: Fixed::from_micros(100_000),
        platform_risk_premium: Fixed::from_micros(120_000),
    };
    assert_eq!(components.total_rate().micros, 265_000);
}

#[test]
fn find_value_returns_first_match_or_none() {
    let mk = |payout, volatility, lift, micros| ValuationResult {
        present_value: Fixed::from_micros(micros),
        payout_scenario: payout,
        volatility_scenario: volatility,
        lift_scenario: lift,
    };
    let rows = vec![
        mk(PayoutScenario::Day60, VolatilityScenario::Low, None, 10),
        mk(PayoutScenario::Day90, VolatilityScenario::Typical, Some(LiftScenario::Medium), 20),
        mk(PayoutScenario::Day90, VolatilityScenario::Typical, Some(LiftScenario::Medium), 30),
    ];
    let hit = find_value(
        &rows,
        PayoutScenario::Day90,
        VolatilityScenario::Typical,
        Some(LiftScenario::Medium),
    );
    assert_eq!(hit.unwrap().micros, 20);
    let baseline_hit = find_value(&rows, PayoutScenario::Day60, VolatilityScenario::Low, None);
    assert_eq!(baseline_hit.unwrap().micros, 10);
    let miss = find_value(&rows, PayoutScenario::Day120, VolatilityScenario::Low, None);
    assert!(miss.is_none());
}

#[test]
fn fixed_constructors_scale_to_micros() {
    assert_eq!(Fixed::from_int(3).micros, 3_000_000);
    assert_eq!(Fixed::from_int(-2).micros, -2_000_000);
    assert_eq!(Fixed::from_micros(42).micros, 42);
}
