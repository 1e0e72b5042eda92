use metering::decimal::Dec;
use metering::demand::{DemandInterval, DemandWindow};
use metering::interval::{MeterInterval, QualityFlag};

fn d(num: i64, scale: u32) -> Dec {
    Dec::new(num, scale)
}

/// 2026-01-01 00:00 UTC.
const BASE: i64 = 1_767_225_600;

#[test]
fn energy_to_demand_kw_15min() {
    // 15 kWh in 15 min = 15 / 0.25h = 60 kW
    assert_eq!(DemandInterval::energy_to_demand_kw(d(15, 0), 900), d(60, 0));
}

#[test]
fn energy_to_demand_kw_hourly() {
    // 10 kWh in 1 hour = 10 kW
    assert_eq!(DemandInterval::energy_to_demand_kw(d(10, 0), 3600), d(10, 0));
}

#[test]
fn peak_kw_returns_maximum() {
    let mut window = DemandWindow::new();
    for (i, kw) in [d(30, 0), d(48, 0), d(35, 0), d(22, 0)].iter().enumerate() {
        let from = BASE + i as i64 * 900;
        window.push(DemandInterval { from, to: from + 900, demand_kw: *kw, obis_code: None });
    }
    // § 12 StromNZV: peak = maximum 15-min average demand
    assert_eq!(window.peak_kw(), Some(d(48, 0)));
    assert_eq!(window.len(), 4);
}

#[test]
fn from_intervals_15min_conversion() {
    let intervals = vec![MeterInterval {
        from: BASE,
        to: BASE + 900,
        value: d(12, 0), // 12 kWh in 15 min = 48 kW
        quality: QualityFlag::Measured,
        obis_code: None,
    }];
    let window = DemandWindow::from_intervals(&intervals, 900);
    assert_eq!(window.peak_kw(), Some(d(48, 0)));
}

#[test]
fn empty_window_returns_none() {
    let window = DemandWindow::new();
    assert!(window.peak_kw().is_none());
    assert!(window.average_kw().is_none());
    assert!(window.is_empty());
}

// ── further cases ─────────────────────────────────────────────────────────────

#[test]
fn a_zero_length_interval_has_zero_demand() {
    assert_eq!(DemandInterval::energy_to_demand_kw(d(12, 0), 0), Dec::zero());
}

#[test]
fn the_peak_interval_is_the_last_of_equal_highest() {
    let mut window = DemandWindow::new();
    for (i, kw) in [d(48, 0), d(30, 0), d(480, 1), d(22, 0)].iter().enumerate() {
        let from = BASE + i as i64 * 900;
        window.push(DemandInterval { from, to: from + 900, demand_kw: *kw, obis_code: None });
    }
    let peak = window.peak_interval().expect("non-empty");
    assert_eq!(peak.from, BASE + 2 * 900);
    // The value keeps the first of the equal highest, as Decimal::max does.
    assert_eq!(window.peak_kw().unwrap().scale(), 0);
    assert_eq!(window.average_kw(), Some(d(37, 0)));
    assert_eq!(window.checked_average_kw(), Some(Some(d(37, 0))));
}

#[test]
fn an_overflowing_conversion_is_reported() {
    let huge = Dec::from_i128_with_scale(79_228_162_514_264_337_593_543_950_335, 0);
    assert_eq!(DemandInterval::checked_energy_to_demand_kw(huge, 900), None);
    assert_eq!(DemandInterval::checked_energy_to_demand_kw(d(12, 0), 900), Some(d(48, 0)));
    let intervals = vec![MeterInterval {
        from: BASE,
        to: BASE + 900,
        value: huge,
        quality: QualityFlag::Measured,
        obis_code: None,
    }];
    assert!(DemandWindow::checked_from_intervals(&intervals, 900).is_none());
}
