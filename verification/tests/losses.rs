use metering::decimal::Dec;
use metering::losses::{checked_network_losses, network_losses};

fn d(num: i64, scale: u32) -> Dec {
    Dec::new(num, scale)
}

#[test]
fn a_typical_distribution_grid_shows_single_digit_losses() {
    // 1 GWh fed in, 955 MWh delivered → 4.5 % losses.
    let l = network_losses(d(1_000_000, 0), d(955_000, 0));
    assert_eq!(l.verlust_kwh, d(45_000, 0));
    assert_eq!(l.verlust_prozent, Some(d(450, 2)));
}

#[test]
fn negative_balance_signals_a_metering_coverage_gap() {
    let l = network_losses(d(100, 0), d(120, 0));
    assert_eq!(l.verlust_kwh, d(-20, 0));
    assert_eq!(l.verlust_prozent, Some(d(-2000, 2)));
}

#[test]
fn zero_infeed_yields_no_percentage() {
    let l = network_losses(Dec::zero(), d(10, 0));
    assert_eq!(l.verlust_prozent, None);
}

// ── further cases ─────────────────────────────────────────────────────────────

#[test]
fn the_share_is_rounded_half_away_from_zero() {
    // 1/3 of the infeed lost: 33.333… % → 33.33 %; 2/3: 66.67 %.
    assert_eq!(network_losses(d(3, 0), d(2, 0)).verlust_prozent, Some(d(3333, 2)));
    assert_eq!(network_losses(d(3, 0), d(1, 0)).verlust_prozent, Some(d(6667, 2)));
    // 0.125 % rounds to 0.13 %, away from zero.
    assert_eq!(network_losses(d(800, 0), d(799, 0)).verlust_prozent, Some(d(13, 2)));
}

#[test]
fn an_overflowing_balance_is_reported() {
    let huge = Dec::from_i128_with_scale(79_228_162_514_264_337_593_543_950_335, 0);
    assert!(checked_network_losses(huge, d(-1, 0)).is_none());
    assert!(checked_network_losses(d(100, 0), d(120, 0)).is_some());
}
