use metering::decimal::Dec;
use metering::imbalance::{checked_compute_imbalance, compute_imbalance};

fn d(num: i64, scale: u32) -> Dec {
    Dec::new(num, scale)
}

#[test]
fn over_consumption_is_a_mindermenge() {
    let s = compute_imbalance(d(1050, 0), d(1000, 0));
    assert_eq!(s.minder_kwh, d(50, 0));
    assert_eq!(s.mehr_kwh, Dec::zero());
    assert_eq!(s.delta_kwh, d(50, 0));
    assert!(s.is_minder());
    assert!(!s.is_mehr());
}

#[test]
fn under_consumption_is_a_mehrmenge() {
    let s = compute_imbalance(d(950, 0), d(1000, 0));
    assert_eq!(s.mehr_kwh, d(50, 0));
    assert_eq!(s.minder_kwh, Dec::zero());
    assert_eq!(s.delta_kwh, d(-50, 0));
    assert!(s.is_mehr());
    assert!(!s.is_minder());
}

#[test]
fn balanced_period() {
    let s = compute_imbalance(d(1000, 0), d(1000, 0));
    assert!(s.is_balanced());
    assert_eq!(s.magnitude_kwh(), Dec::zero());
    assert_eq!(s.delta_pct(), Some(Dec::zero()));
}

#[test]
fn delta_pct_calculation() {
    // 50 kWh excess on 1000 contracted = 5%
    let s = compute_imbalance(d(1050, 0), d(1000, 0));
    assert_eq!(s.delta_pct(), Some(d(5, 0)));
}

#[test]
fn delta_pct_zero_contracted() {
    let s = compute_imbalance(d(100, 0), Dec::zero());
    assert_eq!(s.delta_pct(), None);
}

#[test]
fn mess_zv_mehr_minder_mutually_exclusive() {
    for (actual, contracted) in [(d(900, 0), d(1000, 0)), (d(1100, 0), d(1000, 0)), (d(1000, 0), d(1000, 0))] {
        let s = compute_imbalance(actual, contracted);
        assert!(!(s.is_mehr() && s.is_minder()), "mehr and minder cannot both be true");
    }
}

// ── further cases ─────────────────────────────────────────────────────────────

#[test]
fn magnitude_and_percentage_of_a_shortfall() {
    let s = compute_imbalance(d(9505, 1), d(1000, 0));
    assert_eq!(s.delta_kwh, d(-495, 1));
    assert_eq!(s.magnitude_kwh(), d(495, 1));
    assert_eq!(s.delta_pct(), Some(d(-495, 2)));
    assert_eq!(s.checked_delta_pct(), Some(Some(d(-495, 2))));
}

#[test]
fn an_overflowing_delta_is_reported() {
    let huge = Dec::from_i128_with_scale(79_228_162_514_264_337_593_543_950_335, 0);
    assert!(checked_compute_imbalance(huge, d(-1, 0)).is_none());
    assert_eq!(checked_compute_imbalance(d(1050, 0), d(1000, 0)).map(|s| s.minder_kwh), Some(d(50, 0)));
}
