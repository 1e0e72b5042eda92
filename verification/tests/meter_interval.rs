use metering::decimal::Dec;
use metering::interval::{Direction, MeasurementUnit, MeterInterval, QualityFlag};
use metering::obis::ObisCode;

fn d(num: i64, scale: u32) -> Dec {
    Dec::new(num, scale)
}

/// 2026-01-01 00:00 UTC.
const NEW_YEAR_2026: i64 = 1_767_225_600;

fn iv(from: i64, to: i64, value: Dec) -> MeterInterval {
    MeterInterval { from, to, value, quality: QualityFlag::Measured, obis_code: None }
}

#[test]
fn demand_kw_15min_interval() {
    let iv = iv(NEW_YEAR_2026, NEW_YEAR_2026 + 900, d(25, 1));
    // 2.5 kWh in 15 min = 10 kW
    assert_eq!(iv.demand_kw(), Some(d(10, 0)));
}

#[test]
fn demand_kw_hourly() {
    let iv = iv(NEW_YEAR_2026, NEW_YEAR_2026 + 3_600, d(50, 1));
    // 5.0 kWh in 60 min = 5 kW
    assert_eq!(iv.demand_kw(), Some(d(5, 0)));
}

#[test]
fn a_zero_length_interval_has_no_demand() {
    let iv = iv(NEW_YEAR_2026, NEW_YEAR_2026, d(1, 0));
    assert_eq!(iv.demand_kw(), None);
    assert_eq!(iv.checked_demand_kw(), Some(None));
    assert_eq!(iv.duration_secs(), 0);
}

#[test]
fn durations_are_whole_seconds_and_minutes() {
    let iv = iv(NEW_YEAR_2026, NEW_YEAR_2026 + 959, d(1, 0));
    assert_eq!(iv.duration_secs(), 959);
    assert_eq!(iv.duration_minutes(), 15);
    let backwards = MeterInterval { from: NEW_YEAR_2026 + 959, to: NEW_YEAR_2026, ..iv };
    assert_eq!(backwards.duration_minutes(), -15);
    assert_eq!(iv.berlin_day(), metering::calendar::CalendarDate::new(2026, 1, 1).unwrap());
}

#[test]
fn gigajoule_conversion_is_exact() {
    let gj = MeasurementUnit::parse_scaled("GJ").unwrap();
    assert_eq!(gj.unit, MeasurementUnit::KiloWattHour);
    assert!(!gj.is_canonical());

    // 3.6 GJ is exactly 1000 kWh — the identity that defines the factor.
    let kwh = gj.apply(d(36, 1));
    assert_eq!(kwh, d(1000, 0), "3.6 GJ must be exactly 1000 kWh");

    // 9 GJ is exactly 2500 kWh — no residue from the repeating factor.
    assert_eq!(gj.apply(d(9, 0)), d(2500, 0));
}

#[test]
fn unece_rec20_codes_do_not_follow_the_obvious_mnemonic() {
    let kwh = MeasurementUnit::KiloWattHour;

    let gv = MeasurementUnit::parse_scaled("GV").unwrap();
    assert_eq!((gv.unit, gv.num, gv.den), (kwh, 2_500, 9));

    let mj = MeasurementUnit::parse_scaled("3B").unwrap();
    assert_eq!((mj.unit, mj.num, mj.den), (kwh, 5, 18));
    assert_eq!(mj, MeasurementUnit::parse_scaled("MJ").unwrap());

    assert_eq!(MeasurementUnit::parse_scaled("MTQ").unwrap().unit, MeasurementUnit::CubicMetre);

    let jou = MeasurementUnit::parse_scaled("JOU").unwrap();
    assert_eq!(jou.apply(d(3_600_000, 0)), Dec::one());
}

#[test]
fn scaled_units_cover_the_real_device_population() {
    let cases = [
        ("MWh", d(5, 1), d(500, 0)),
        ("Wh", d(2500, 0), d(25, 1)),
        ("MJ", d(18, 0), d(5, 0)),
        ("l", d(1500, 0), d(15, 1)),
        ("kWh", d(42, 0), d(42, 0)),
    ];
    for (unit, input, expected) in cases {
        let scale = MeasurementUnit::parse_scaled(unit).unwrap_or_else(|| panic!("{unit} must parse"));
        assert_eq!(scale.apply(input), expected, "{input:?} {unit}");
        assert_eq!(scale.checked_apply(input), Some(expected));
    }
}

#[test]
fn interval_obis_code_is_typed() {
    let iv = MeterInterval {
        from: NEW_YEAR_2026,
        to: NEW_YEAR_2026 + 900,
        value: d(25, 1),
        quality: QualityFlag::Measured,
        obis_code: Some(ObisCode::STROM_BEZUG_HT()),
    };
    assert_eq!(iv.tariff_register(), Some(1));
    assert_eq!(iv.direction(), Some(Direction::Import));

    assert!("not an obis code".parse::<ObisCode>().is_err());
}
