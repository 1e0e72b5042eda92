use metering::decimal::Dec;
use metering::ids::{BdewCode, MaloId, MeloId};
use metering::interval::{MeterInterval, QualityFlag};
use metering::measurement_series::{MeasurementSeries, MeasurementSource, ProvenanceEventType};
use metering::obis::ObisCode;
use metering::resolution::IntervalResolution;

/// 2026-01-02 09:30 UTC.
const INGEST: i64 = 1_767_346_200;
/// 2026-01-01 00:00 UTC.
const JAN_1: i64 = 1_767_225_600;
/// 2026-06-01 00:00 UTC.
const JUN_1: i64 = 1_780_272_000;

fn make_interval(from: i64, kwh: Dec) -> MeterInterval {
    MeterInterval { from, to: from + 900, value: kwh, quality: QualityFlag::Measured, obis_code: None }
}

fn malo() -> MaloId {
    "51238696781".parse().unwrap()
}

fn mscons() -> MeasurementSource {
    let sender: BdewCode = "9900357000004".parse().unwrap();
    MeasurementSource::Mscons { pid: 13005, message_ref: None, sender_mp_id: sender }
}

#[test]
fn worst_quality_is_derived_from_the_intervals() {
    let mut intervals = vec![make_interval(JAN_1, Dec::new(10, 1)), make_interval(JAN_1 + 900, Dec::new(10, 1))];
    intervals[1].quality = QualityFlag::Estimated;

    let mut series = MeasurementSeries::new(malo(), Some(ObisCode::STROM_BEZUG_TOTAL()), intervals, mscons(), INGEST);
    assert_eq!(series.worst_quality(), QualityFlag::Estimated);
    assert_eq!(series.interval_count(), 2);

    series.intervals.push({
        let mut iv = make_interval(JAN_1 + 1800, Dec::new(10, 1));
        iv.quality = QualityFlag::Faulty;
        iv
    });
    assert_eq!(series.worst_quality(), QualityFlag::Faulty);
    assert!(series.has_unbillable_intervals());
}

#[test]
fn empty_series_has_unknown_worst_quality() {
    let series = MeasurementSeries::new(malo(), None, vec![], mscons(), INGEST);
    assert_eq!(series.worst_quality(), QualityFlag::Unknown);
    assert!(!series.has_unbillable_intervals(), "no intervals, no faults");
}

#[test]
fn construction_is_deterministic() {
    let intervals = vec![make_interval(JAN_1, Dec::new(10, 1))];
    let a = MeasurementSeries::new(malo(), None, intervals.clone(), mscons(), INGEST);
    let b = MeasurementSeries::new(malo(), None, intervals, mscons(), INGEST);
    assert_eq!(a, b, "equal inputs must give equal series");
    assert_eq!(a.provenance[0].occurred_at, INGEST);
    assert_eq!(a.provenance[0].event_type, ProvenanceEventType::Ingested);
}

#[test]
fn recorded_events_append_in_the_order_given() {
    let mut series = MeasurementSeries::new(malo(), None, vec![], mscons(), INGEST);
    let later = INGEST + 3 * 3600;
    series.record_event(ProvenanceEventType::QualityAssessed, "validator", later);
    series.record_event_with_note(ProvenanceEventType::Corrected, "ops-001", later + 3600, "Zählerwechsel nachgetragen");

    assert_eq!(series.provenance.len(), 3);
    assert_eq!(series.provenance[1].occurred_at, later);
    assert_eq!(series.provenance[1].actor, "validator");
    assert_eq!(series.provenance[2].note.as_deref(), Some("Zählerwechsel nachgetragen"));
}

#[test]
fn total_kwh_sums_billable_only() {
    let mut intervals = vec![make_interval(JAN_1, Dec::new(20, 1)), make_interval(JAN_1 + 900, Dec::new(10, 1))];
    intervals[1].quality = QualityFlag::Faulty; // not billable

    let series = MeasurementSeries::new(
        malo(),
        None,
        intervals,
        MeasurementSource::ManualEntry { operator_id: "ops-001".to_owned(), reason: "test".to_owned() },
        INGEST,
    );
    assert_eq!(series.total(), Dec::new(20, 1)); // only Measured interval
}

#[test]
fn period_bounds_from_intervals() {
    let intervals = vec![make_interval(JUN_1, Dec::new(10, 1)), make_interval(JUN_1 + 900, Dec::new(10, 1))];
    let series = MeasurementSeries::new(
        malo(),
        None,
        intervals,
        MeasurementSource::SmgwDirectPush { device_id: "SMGW-001".to_owned(), session_id: "sess-001".to_owned() },
        INGEST,
    );
    assert_eq!(series.period_from(), Some(JUN_1));
    assert_eq!(series.period_to(), Some(JUN_1 + 1800));
}

#[test]
fn empty_series_reports_correctly() {
    let series = MeasurementSeries::new(
        malo(),
        None,
        vec![],
        MeasurementSource::AutoSubstitute {
            method: "ZERO_FILL".to_owned(),
            reason: "NO_MEASUREMENT_AVAILABLE".to_owned(),
        },
        INGEST,
    );
    assert!(series.is_empty());
    assert_eq!(series.total(), Dec::zero());
    assert!(series.period_from().is_none());
}

#[test]
fn builders_set_optional_context() {
    let melo: MeloId = "DE00056266802AO6G56M11SN51G21M24S".parse().unwrap();
    let series = MeasurementSeries::new(malo(), None, vec![], mscons(), INGEST)
        .with_melo_id(melo)
        .with_resolution(IntervalResolution::Hour);
    assert_eq!(series.melo_id.as_ref().map(MeloId::as_str), Some("DE00056266802AO6G56M11SN51G21M24S"));
    assert_eq!(series.resolution, Some(IntervalResolution::Hour));
}

#[test]
fn source_labels_non_empty() {
    let sources = [
        mscons(),
        MeasurementSource::SmgwDirectPush { device_id: "d".into(), session_id: "s".into() },
        MeasurementSource::ManualEntry { operator_id: "o".into(), reason: "r".into() },
        MeasurementSource::AutoSubstitute { method: "LINEAR_INTERPOLATION".into(), reason: "METER_FAULT".into() },
        MeasurementSource::RetroactiveCorrection { correction_ref: "corr-2026-0001".to_owned(), corrected_by: "op".into() },
        MeasurementSource::VirtualMeter { rule: "SUM".into(), source_ids: vec![] },
        MeasurementSource::RedispatchImport { pid: 13022, activation_ref: None },
    ];
    for s in &sources {
        assert!(!s.label().is_empty());
    }
}

#[test]
fn obis_default_resolution_wires_into_series() {
    let series = MeasurementSeries::new(malo(), Some(ObisCode::STROM_BEZUG_TOTAL()), vec![], mscons(), INGEST);
    assert_eq!(series.resolution, Some(IntervalResolution::QuarterHour));
}

#[test]
fn the_ingest_event_is_attributed_to_the_source() {
    let series = MeasurementSeries::new(malo(), None, vec![], mscons(), INGEST);
    assert_eq!(series.provenance[0].actor, "MSCONS");
    assert_eq!(series.provenance[0].note, None);
    let huge = Dec::from_i128_with_scale(79_228_162_514_264_337_593_543_950_335, 0);
    let overflowing = MeasurementSeries::new(
        malo(),
        None,
        vec![make_interval(JAN_1, huge), make_interval(JAN_1 + 900, huge)],
        mscons(),
        INGEST,
    );
    assert_eq!(overflowing.checked_total(), None);
}
