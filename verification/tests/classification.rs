use metering::classification::{classify_messtyp_from_resolution, median_interval_seconds, Messtyp, SeriesOrigin};
use metering::decimal::Dec;
use metering::interval::{MeterInterval, QualityFlag};
use metering::resolution::IntervalResolution;

#[test]
fn imsys_supports_dynamic_tariff_enwg_41a() {
    assert!(Messtyp::IMsys.supports_dynamic_tariff());
    assert!(!Messtyp::Rlm.supports_dynamic_tariff());
    assert!(!Messtyp::Slp.supports_dynamic_tariff());
}

#[test]
fn spitzenleistung_needs_an_interval_series() {
    assert!(Messtyp::Rlm.supports_spitzenleistung());
    assert!(Messtyp::IMsys.supports_spitzenleistung());
    assert!(!Messtyp::Slp.supports_spitzenleistung());
}

#[test]
fn a_gateway_origin_outranks_the_interval_length() {
    let qh = Some(IntervalResolution::QuarterHour);
    assert_eq!(classify_messtyp_from_resolution(Some(SeriesOrigin::SmartMeterGateway), qh), Messtyp::IMsys);
    assert_eq!(classify_messtyp_from_resolution(Some(SeriesOrigin::Other), qh), Messtyp::Rlm);
    assert_eq!(
        classify_messtyp_from_resolution(Some(SeriesOrigin::SmartMeterGateway), Some(IntervalResolution::Day)),
        Messtyp::IMsys
    );
}

#[test]
fn coarse_or_missing_series_are_slp() {
    assert_eq!(classify_messtyp_from_resolution(None, Some(IntervalResolution::Day)), Messtyp::Slp);
    assert_eq!(classify_messtyp_from_resolution(None, None), Messtyp::Slp);
    assert_eq!(classify_messtyp_from_resolution(None, Some(IntervalResolution::Hour)), Messtyp::Rlm);
    assert_eq!(classify_messtyp_from_resolution(None, Some(IntervalResolution::HalfHour)), Messtyp::Rlm);
}

#[test]
fn messtyp_codes_round_trip() {
    for m in Messtyp::ALL {
        assert_eq!(m.as_str().parse::<Messtyp>().unwrap(), m);
    }
    assert_eq!(Messtyp::IMsys.as_str(), "I_MSYS");
    assert_eq!(" i_msys ".parse::<Messtyp>().unwrap(), Messtyp::IMsys);
    assert_eq!("SMART_METER_GATEWAY".parse::<SeriesOrigin>().unwrap(), SeriesOrigin::SmartMeterGateway);
    assert!("GATEWAY".parse::<SeriesOrigin>().is_err());
}

fn span(from: i64, secs: i64) -> MeterInterval {
    MeterInterval { from, to: from + secs, value: Dec::new(1, 0), quality: QualityFlag::Measured, obis_code: None }
}

#[test]
fn the_median_interval_length_ignores_gaps_and_odd_intervals() {
    let quarter: Vec<_> = (0..4).map(|i| span(1_767_225_600 + i * 900, 900)).collect();
    assert_eq!(median_interval_seconds(&quarter), Some(900));
    // sorted positive durations 900, 900, 1800, 3600: the one at index 2
    let mixed = vec![span(0, 900), span(900, 3600), span(4500, 0), span(4500, 900), span(5400, 1800)];
    assert_eq!(median_interval_seconds(&mixed), Some(1800));
    // an odd long interval does not move a series of quarter-hours
    let dst = vec![span(0, 900), span(900, 4500), span(5400, 900)];
    assert_eq!(median_interval_seconds(&dst), Some(900));
    assert_eq!(median_interval_seconds(&[span(0, 0), span(0, -60)]), None);
    assert_eq!(median_interval_seconds(&[]), None);
}
