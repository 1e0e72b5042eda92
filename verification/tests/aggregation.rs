use metering::aggregation::{aggregate, billable_daily_sums, checked_aggregate, AggregationConfig, BillingPeriod};
use metering::decimal::Dec;
use metering::interval::{MeterInterval, QualityFlag};

fn d(num: i64, scale: u32) -> Dec {
    Dec::new(num, scale)
}

/// 2026-01-01 00:00 UTC.
const BASE: i64 = 1_767_225_600;
const MIN: i64 = 60;

fn iv(from: i64, kwh: Dec) -> MeterInterval {
    MeterInterval { from, to: from + 15 * MIN, value: kwh, quality: QualityFlag::Measured, obis_code: None }
}

/// The share of the period covered by billable intervals, in percent.
fn coverage_pct(p: &BillingPeriod) -> f64 {
    if p.period_secs <= 0 {
        if p.covered_secs > 0 { 100.0 } else { 0.0 }
    } else {
        ((p.covered_secs as f64 / p.period_secs as f64) * 100.0).clamp(0.0, 100.0)
    }
}

#[test]
fn spitzenleistung_max_15min() {
    let intervals = vec![
        iv(BASE, d(25, 1)),             // 10 kW
        iv(BASE + 15 * MIN, d(50, 1)),  // 20 kW — peak
        iv(BASE + 30 * MIN, d(10, 1)),  // 4 kW
    ];
    let period = aggregate(&intervals, &AggregationConfig::rlm());
    assert_eq!(period.spitzenleistung_kw, Some(d(20, 0)));
}

#[test]
fn arbeitsmenge_sum_only_billable() {
    let mut intervals = vec![iv(BASE, d(20, 1)), iv(BASE + 15 * MIN, d(30, 1))];
    intervals[1].quality = QualityFlag::Estimated;
    let period = aggregate(&intervals, &AggregationConfig::rlm());
    assert_eq!(period.arbeitsmenge, d(50, 1));

    let mut faulty_intervals = vec![iv(BASE, d(20, 1)), iv(BASE + 15 * MIN, d(30, 1))];
    faulty_intervals[1].quality = QualityFlag::Faulty;
    let faulty_period = aggregate(&faulty_intervals, &AggregationConfig::rlm());
    assert_eq!(faulty_period.arbeitsmenge, d(20, 1));
    assert_eq!(faulty_period.excluded_count, 1);
}

#[test]
fn slp_no_spitzenleistung() {
    let intervals = vec![iv(BASE, d(240, 1))];
    let period = aggregate(&intervals, &AggregationConfig::arbeitsmenge_only());
    assert_eq!(period.spitzenleistung_kw, None);
    assert_eq!(period.arbeitsmenge, d(240, 1));
}

#[test]
fn empty_intervals() {
    let period = aggregate(&[], &AggregationConfig::rlm());
    assert_eq!(period.arbeitsmenge, Dec::zero());
    assert_eq!(period.spitzenleistung_kw, None);
    assert_eq!(period.billable_count, 0);
    assert_eq!(coverage_pct(&period), 0.0);
}

#[test]
fn spitzenleistung_mess_zv_definition() {
    let base = BASE + 151 * 86_400 + 10 * 3_600; // 2026-06-01 10:00 UTC
    let intervals = vec![iv(base, d(35, 1)), iv(base + 15 * MIN, d(10, 1))];
    let period = aggregate(&intervals, &AggregationConfig::rlm());
    assert_eq!(period.spitzenleistung_kw, Some(d(14, 0)));
}

#[test]
fn aggregation_is_order_independent() {
    let ordered: Vec<MeterInterval> = [d(25, 1), d(50, 1), d(10, 1), d(325, 2)]
        .into_iter()
        .enumerate()
        .map(|(i, value)| iv(BASE + i as i64 * 15 * MIN, value))
        .collect();
    let mut shuffled = ordered.clone();
    shuffled.reverse();

    let a = aggregate(&ordered, &AggregationConfig::rlm());
    let b = aggregate(&shuffled, &AggregationConfig::rlm());
    assert_eq!(a, b);
    assert_eq!(a.spitzenleistung_at, Some(BASE + 15 * MIN));
}

#[test]
fn a_tied_peak_reports_the_earliest_interval() {
    let flat: Vec<MeterInterval> = (0..4).map(|i| iv(BASE + i * 15 * MIN, d(5, 0))).collect();
    let mut reversed = flat.clone();
    reversed.reverse();

    let forward = aggregate(&flat, &AggregationConfig::rlm());
    let backward = aggregate(&reversed, &AggregationConfig::rlm());
    assert_eq!(forward, backward);
    assert_eq!(
        forward.spitzenleistung_at,
        Some(BASE),
        "the first quarter-hour the peak was reached in, not the first listed"
    );
    assert_eq!(forward.spitzenleistung_kw, Some(d(20, 0)));
}

#[test]
fn coverage_is_measured_against_the_declared_period() {
    let intervals = vec![iv(BASE, d(1, 0)), iv(BASE + 30 * MIN, d(1, 0))];
    let own = aggregate(&intervals, &AggregationConfig::rlm());
    assert_eq!(own.covered_secs, 30 * MIN);
    assert_eq!(own.period_secs, 45 * MIN);
    let hour = aggregate(&intervals, &AggregationConfig::rlm().over_period(BASE, BASE + 60 * MIN));
    assert_eq!(hour.period_secs, 60 * MIN);
    assert_eq!(coverage_pct(&hour), 50.0);
    assert_eq!(AggregationConfig::default(), AggregationConfig::rlm());
}

#[test]
fn checked_aggregate_refuses_out_of_range_instants() {
    let far = MeterInterval { from: i64::MAX - 100, to: i64::MAX, ..iv(BASE, d(1, 0)) };
    assert_eq!(checked_aggregate(&[far], &AggregationConfig::rlm()), None);
    let fine = checked_aggregate(&[iv(BASE, d(1, 0))], &AggregationConfig::rlm()).unwrap();
    assert_eq!(fine.arbeitsmenge, d(1, 0));
    assert_eq!(fine.spitzenleistung_kw, Some(d(4, 0)));
}

#[test]
fn daily_sums_group_billable_values_by_berlin_day() {
    let mut faulty = iv(BASE + 60 * MIN, d(100, 0));
    faulty.quality = QualityFlag::Faulty;
    let intervals = vec![
        iv(BASE + 24 * 60 * MIN, d(10, 1)),        // 02:00 Berlin, 2 January
        iv(BASE, d(20, 1)),                        // 01:00 Berlin, 1 January
        faulty,                                    // excluded
        iv(BASE + (22 * 60 + 30) * MIN, d(5, 1)),  // 23:30 Berlin, 1 January
        iv(BASE + 23 * 60 * MIN, d(25, 2)),        // 00:00 Berlin, 2 January
    ];
    let sums = billable_daily_sums(&intervals).unwrap();
    assert_eq!(sums.len(), 2);
    assert_eq!((sums[0].0.year, sums[0].0.month, sums[0].0.day), (2026, 1, 1));
    assert_eq!(sums[0].1, d(25, 1));
    assert_eq!((sums[1].0.year, sums[1].0.month, sums[1].0.day), (2026, 1, 2));
    assert_eq!(sums[1].1, d(125, 2));
    assert_eq!(billable_daily_sums(&[]).unwrap().len(), 0);
    let max = Dec::from_i128_with_scale(79228162514264337593543950335, 0);
    assert_eq!(billable_daily_sums(&[iv(BASE, max), iv(BASE + 15 * MIN, max)]), None);
}
