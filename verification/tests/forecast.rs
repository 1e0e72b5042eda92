use std::collections::BTreeMap;

use metering::calendar::{day_start_utc, intervals_in_day, CalendarDate};
use metering::decimal::Dec;
use metering::forecast::{project_annual_consumption, try_project_annual_consumption, AnnualForecast};
use metering::interval::{MeterInterval, QualityFlag};
use metering::resolution::IntervalResolution;

fn d(num: i64, scale: u32) -> Dec {
    Dec::new(num, scale)
}

fn date(year: i32, month: u8, day: u8) -> CalendarDate {
    CalendarDate::new(year, month, day).unwrap()
}

fn make_iv(from: i64, kwh: Dec) -> MeterInterval {
    MeterInterval { from, to: from + 900, value: kwh, quality: QualityFlag::Measured, obis_code: None }
}

/// `n` days of quarter-hours from local midnight on `start`, `kwh` each.
fn aligned_days(start: CalendarDate, days: i64, kwh: Dec) -> Vec<MeterInterval> {
    let base = day_start_utc(start);
    (0..days * 96).map(|i| make_iv(base + 900 * i, kwh)).collect()
}

fn to_f64(x: Dec) -> f64 {
    x.mantissa() as f64 / 10f64.powi(x.scale() as i32)
}

/// The 95 % half-width from the daily sums: `1.96 · √(σ² (Y²/n + Y)) · factor`.
fn half_width(intervals: &[MeterInterval], factor: Dec, year_days: u16) -> Option<Dec> {
    let mut daily: BTreeMap<CalendarDate, Dec> = BTreeMap::new();
    for iv in intervals.iter().filter(|iv| iv.quality.is_billable()) {
        let e = daily.entry(iv.berlin_day()).or_insert(Dec::zero());
        *e = e.checked_add(&iv.value).unwrap();
    }
    if daily.len() < 2 {
        return None;
    }
    let values: Vec<f64> = daily.values().map(|v| to_f64(*v)).collect();
    let n = values.len() as f64;
    let mean = values.iter().sum::<f64>() / n;
    let variance = values.iter().map(|v| (v - mean).powi(2)).sum::<f64>() / (n - 1.0);
    let y = f64::from(year_days);
    let half = 1.96 * (variance * (y * y / n + y)).sqrt() * to_f64(factor).abs();
    let dec = rust_decimal::Decimal::try_from(half).ok()?.round_dp(3);
    Some(Dec::from_i128_with_scale(dec.mantissa(), dec.scale()))
}

/// The projection with its prediction interval, as a caller forms it.
fn project(intervals: &[MeterInterval], prior: Option<&[MeterInterval]>) -> Option<AnnualForecast> {
    let plain = project_annual_consumption(intervals, prior, None)?;
    let half = half_width(intervals, plain.seasonal_factor, plain.target_year_days);
    project_annual_consumption(intervals, prior, half)
}

#[test]
fn a_flat_fortnight_projects_the_flat_year() {
    let intervals = aligned_days(date(2026, 1, 1), 14, d(1, 0));
    let f = project(&intervals, None).unwrap();
    assert_eq!(f.observed_days, 14);
    assert_eq!(f.daily_average_kwh(), d(96, 0));
    assert_eq!(f.projected_annual, d(96 * 365, 0));
    assert!(!f.seasonal_correction_applied);
    assert_eq!(f.seasonal_factor, Dec::one());
}

#[test]
fn insufficient_data_returns_none() {
    assert!(project(&[], None).is_none());
    let one = vec![make_iv(day_start_utc(date(2026, 1, 1)), d(1, 0))];
    assert!(project(&one, None).is_none());
    assert!(project(&aligned_days(date(2026, 1, 1), 6, d(1, 0)), None).is_none());
    assert!(project(&aligned_days(date(2026, 1, 1), 7, d(1, 0)), None).is_some());
}

#[test]
fn projection_scales_to_the_real_year_length() {
    let common = project(&aligned_days(date(2026, 1, 1), 14, d(1, 0)), None).unwrap();
    let leap = project(&aligned_days(date(2028, 1, 1), 14, d(1, 0)), None).unwrap();
    assert_eq!(common.target_year_days, 365);
    assert_eq!(leap.target_year_days, 366);
    assert_eq!(
        leap.projected_annual.checked_sub(&common.projected_annual),
        Some(d(96, 0)),
        "the difference is exactly one day"
    );
}

#[test]
fn observation_window_spanning_dst_counts_calendar_days() {
    let calendar_days = |start: CalendarDate, days: i64| {
        let base = day_start_utc(start);
        let count: u32 = (0..days)
            .map(|k| intervals_in_day(start.checked_add_days(k).unwrap(), IntervalResolution::QuarterHour).unwrap())
            .sum();
        (0..i64::from(count)).map(|i| make_iv(base + 900 * i, d(1, 0))).collect::<Vec<_>>()
    };
    let across_dst = calendar_days(date(2026, 3, 23), 14);
    let ordinary = calendar_days(date(2026, 6, 1), 14);
    assert_eq!(across_dst.len() + 4, ordinary.len());

    let a = project(&across_dst, None).unwrap();
    let b = project(&ordinary, None).unwrap();
    assert_eq!(a.observed_days, 14, "fourteen calendar days, not thirteen");
    assert_eq!(b.observed_days, 14);

    let ratio = a.projected_annual.checked_div(&b.projected_annual).unwrap();
    assert!(
        ratio.gt(&d(997, 3)) && ratio.lt(&Dec::one()),
        "projections must differ only by the lost hour, got {}",
        ratio.to_string()
    );
}

fn alternating(days: i64, high: Dec) -> Vec<MeterInterval> {
    let base = day_start_utc(date(2026, 1, 1));
    (0..days * 96)
        .map(|i| make_iv(base + 900 * i, if (i / 96) % 2 == 0 { d(10, 1) } else { high }))
        .collect()
}

#[test]
fn bounds_bracket_the_projection() {
    let f = project(&alternating(14, d(14, 1)), None).unwrap();
    let lower = f.confidence_lower.unwrap();
    let upper = f.confidence_upper.unwrap();
    assert!(lower.lt(&f.projected_annual) && f.projected_annual.lt(&upper));
    assert!(lower.ge(&Dec::zero()), "lower bound clamped at zero");
}

#[test]
fn constant_consumption_has_a_zero_width_interval() {
    let f = project(&aligned_days(date(2026, 1, 1), 14, d(10, 1)), None).unwrap();
    assert_eq!(f.confidence_lower, Some(f.projected_annual));
    assert_eq!(f.confidence_upper, Some(f.projected_annual));
}

#[test]
fn the_interval_includes_the_estimation_error() {
    let f = project(&alternating(14, d(20, 1)), None).unwrap();
    let half = to_f64(f.confidence_upper.unwrap().checked_sub(&f.projected_annual).unwrap());
    let sigma = 49.9_f64;
    let y = 365.0_f64;
    let old = 1.96 * sigma * y.sqrt();
    let new = 1.96 * (sigma * sigma * (y * y / 14.0 + y)).sqrt();
    assert!((half - new).abs() / new < 0.05, "half-width {half:.0} should be near {new:.0}");
    assert!(half > old * 4.0, "the corrected interval must be several times the old one");
}

#[test]
fn a_longer_window_narrows_the_interval() {
    let short = project(&alternating(14, d(20, 1)), None).unwrap();
    let long = project(&alternating(120, d(20, 1)), None).unwrap();
    let width = |f: &AnnualForecast| f.confidence_upper.unwrap().checked_sub(&f.confidence_lower.unwrap()).unwrap();
    assert!(width(&long).lt(&width(&short)), "120 days must give a tighter interval than 14");
}

#[test]
fn seasonal_correction_scales_a_winter_window_down() {
    let base = day_start_utc(date(2025, 1, 1));
    let prior: Vec<_> = (0..365 * 96)
        .map(|i| make_iv(base + 900 * i, if i < 31 * 96 { d(2, 0) } else { d(1, 0) }))
        .collect();
    let observed = aligned_days(date(2026, 1, 5), 14, d(2, 0));
    let uncorrected = project(&observed, None).unwrap();
    let corrected = project(&observed, Some(&prior)).unwrap();

    assert!(corrected.seasonal_correction_applied);
    assert!(
        corrected.seasonal_factor.gt(&d(15, 1)) && corrected.seasonal_factor.lt(&d(2, 0)),
        "January runs hot relative to the year: {}",
        corrected.seasonal_factor.to_string()
    );
    assert!(corrected.projected_annual.gt(&uncorrected.projected_annual), "the factor scales the projection");
}

#[test]
fn a_partial_prior_year_is_measured_over_its_own_span() {
    let prior = aligned_days(date(2025, 1, 1), 180, d(1, 0));
    let observed = aligned_days(date(2026, 2, 1), 14, d(1, 0));
    let f = project(&observed, Some(&prior)).unwrap();
    assert_eq!(f.seasonal_factor, Dec::one(), "a flat reference is seasonally neutral over any span");
    assert!(f.seasonal_correction_applied, "the correction ran and found the window neutral");
}

#[test]
fn no_prior_overlap_leaves_the_projection_uncorrected() {
    let prior = aligned_days(date(2025, 8, 1), 30, d(5, 0));
    let observed = aligned_days(date(2026, 1, 5), 14, d(1, 0));
    let f = project(&observed, Some(&prior)).unwrap();
    assert!(!f.seasonal_correction_applied);
    assert_eq!(f.seasonal_factor, Dec::one());
}

#[test]
fn non_billable_intervals_do_not_contribute() {
    let mut intervals = aligned_days(date(2026, 1, 1), 14, d(1, 0));
    for iv in intervals.iter_mut().take(96) {
        iv.quality = QualityFlag::Faulty;
    }
    let f = project(&intervals, None).unwrap();
    assert_eq!(f.observed, Dec::from_u64(13 * 96), "the faulty day is excluded from the sum");
    assert_eq!(f.observed_days, 14, "but the window is still fourteen days");
}

#[test]
fn the_note_says_what_the_interval_does_not_model() {
    let note = AnnualForecast::prediction_interval_note();
    assert!(note.contains("autocorrelated"), "{note}");
}

#[test]
fn try_project_refuses_unsupported_instants() {
    let far = vec![make_iv(300_000_000_000, d(1, 0))];
    assert_eq!(try_project_annual_consumption(&far, None, None), None);
    let fine = aligned_days(date(2026, 1, 1), 14, d(1, 0));
    let f = try_project_annual_consumption(&fine, None, Some(d(10, 0))).unwrap().unwrap();
    assert_eq!(f.confidence_upper, Some(d(96 * 365 + 10, 0)));
    assert_eq!(f.confidence_lower, Some(d(96 * 365 - 10, 0)));
}
