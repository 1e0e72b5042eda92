use metering::conversion::{
    checked_gas_m3_to_kwh_hs, checked_hoehenzonen_luftdruck_mbar, checked_normalize_to_kwh,
    checked_warm_water_heat_kwh, checked_zustandszahl, gas_m3_to_kwh_hs, gas_m3_to_kwh_hs_rounded,
    hoehenzonen_luftdruck_mbar, normalize_to_kwh, warm_water_heat_kwh, warm_water_heat_kwh_unmetered,
    zustandszahl, ConversionError, G685FinalRounding, G685Rounding, GasConversionParams,
    WarmWaterAdjustments, ZustandszahlParams, ABRECHNUNGSTEMPERATUR_C, K_EINS_GRENZE_MBAR,
    NORMDRUCK_MBAR, NORMTEMPERATUR_K,
};
use metering::decimal::Dec;

fn d(num: i64, scale: u32) -> Dec {
    Dec::new(num, scale)
}

fn mul(a: Dec, b: Dec) -> Dec {
    a.checked_mul(&b).unwrap()
}

fn div(a: Dec, b: Dec) -> Dec {
    a.checked_div(&b).unwrap()
}

#[test]
fn gas_conversion_exact() {
    // 100 m³ × 10.55 kWh/m³ × 1.0 = 1055.00 kWh_Hs
    let kwh = gas_m3_to_kwh_hs(d(100, 0), d(1055, 2), d(10, 1));
    assert_eq!(kwh, d(105500, 2));
}

#[test]
fn gas_conversion_with_zustandszahl() {
    // 50 m³ × 10.80 kWh/m³ × 0.9800 = 529.20 kWh_Hs
    let kwh = gas_m3_to_kwh_hs(d(50, 0), d(1080, 2), d(9800, 4));
    assert_eq!(kwh, d(5292000, 4));
}

#[test]
fn gas_conversion_zero_volume() {
    assert_eq!(gas_m3_to_kwh_hs(d(0, 0), d(1055, 2), d(10, 1)), d(0, 0));
}

#[test]
fn the_normzustand_has_a_zustandszahl_of_exactly_one() {
    let at_norm = ZustandszahlParams::new(NORMDRUCK_MBAR(), d(0, 0), d(0, 0), Dec::one());
    assert_eq!(zustandszahl(&at_norm), Some(Dec::one()));
}

#[test]
fn the_g685_worked_example_reproduces() {
    let luftdruck = hoehenzonen_luftdruck_mbar(d(253, 0));
    assert_eq!(luftdruck, d(98564, 2));

    let params = ZustandszahlParams::niederdruck(luftdruck, d(22, 0)).expect("22 mbar is well below one bar");
    assert_eq!(params.absolutdruck_mbar(), d(100764, 2));
    assert_eq!(params.abrechnungstemperatur_c, ABRECHNUNGSTEMPERATUR_C());
    assert_eq!(params.kompressibilitaetszahl, Dec::one());

    let z = zustandszahl(&params).expect("a positive gas state");
    assert_eq!(z.round_dp(4), d(9427, 4));

    let kwh = gas_m3_to_kwh_hs_rounded(d(1874, 0), d(11316, 3), z, G685Rounding::default());
    assert_eq!(kwh.round_dp(2), d(1999107, 2));
}

#[test]
fn the_k_equals_one_shortcut_stops_at_one_bar() {
    assert!(ZustandszahlParams::niederdruck(d(101325, 2), d(9999, 1)).is_some());
    assert!(ZustandszahlParams::niederdruck(d(101325, 2), K_EINS_GRENZE_MBAR()).is_none());
    assert!(ZustandszahlParams::niederdruck(d(101325, 2), d(4000, 0)).is_none());
}

#[test]
fn an_impossible_gas_state_has_no_zustandszahl() {
    // Absolute zero: the division would be by zero.
    let frozen = ZustandszahlParams::new(d(101325, 2), d(0, 0), d(-27315, 2), Dec::one());
    assert_eq!(zustandszahl(&frozen), None);
    // Below absolute zero.
    let colder = ZustandszahlParams::new(d(101325, 2), d(0, 0), d(-300, 0), Dec::one());
    assert_eq!(zustandszahl(&colder), None);
    // A K-Zahl of zero or less is not a compressibility.
    let no_k = ZustandszahlParams::new(d(101325, 2), d(0, 0), d(15, 0), Dec::zero());
    assert_eq!(zustandszahl(&no_k), None);
    // A vacuum has no volume to convert.
    let vacuum = ZustandszahlParams::new(d(0, 0), d(0, 0), d(15, 0), Dec::one());
    assert_eq!(zustandszahl(&vacuum), None);
}

#[test]
fn a_higher_hoehenzone_has_a_smaller_zustandszahl() {
    let z_at = |h: Dec| {
        zustandszahl(
            &ZustandszahlParams::niederdruck(hoehenzonen_luftdruck_mbar(h), d(22, 0)).expect("niederdruck"),
        )
        .expect("a positive gas state")
    };
    assert!(z_at(d(0, 0)).gt(&z_at(d(253, 0))));
    assert!(z_at(d(253, 0)).gt(&z_at(d(1000, 0))));
}

#[test]
fn an_already_converted_volume_carries_no_zustandszahl() {
    let p = GasConversionParams::already_converted(d(112, 1));
    assert_eq!(p.zustandszahl, Dec::one());
    assert_eq!(p, GasConversionParams::new(d(112, 1), Dec::one()));

    // 100 m³ Normvolumen at 11.2 kWh/m³ is exactly 1 120 kWh…
    let normvolumen = gas_m3_to_kwh_hs(d(100, 0), p.hs_kwh_per_m3, p.zustandszahl);
    assert_eq!(normvolumen, d(11200, 1));
    // …and applying a 0.98 Zustandszahl on top of it loses 2 %.
    let doubled = gas_m3_to_kwh_hs(d(100, 0), d(112, 1), d(98, 2));
    assert!(doubled.lt(&normvolumen));
}

#[test]
fn metered_warm_water_follows_the_statutory_formula() {
    // 2.5 × 40 m³ × (60 − 10) = 5000 kWh
    assert_eq!(warm_water_heat_kwh(d(40, 0), d(60, 0), WarmWaterAdjustments::NONE()), d(5000, 0));
}

#[test]
fn at_and_below_cold_inlet_temperature() {
    assert_eq!(warm_water_heat_kwh(d(40, 0), d(10, 0), WarmWaterAdjustments::NONE()), Dec::zero());
    assert!(warm_water_heat_kwh(d(40, 0), d(5, 0), WarmWaterAdjustments::NONE()).lt(&Dec::zero()));
}

#[test]
fn adjustments_match_the_statutory_factors() {
    let v = d(40, 0);
    let t = d(60, 0);
    let base = d(5000, 0);

    let brennwert = WarmWaterAdjustments { brennwert_erdgas: true, ..WarmWaterAdjustments::NONE() };
    assert_eq!(warm_water_heat_kwh(v, t, brennwert), mul(base, d(111, 2)));

    let wp = WarmWaterAdjustments { monovalente_waermepumpe: true, ..WarmWaterAdjustments::NONE() };
    assert_eq!(warm_water_heat_kwh(v, t, wp), mul(base, d(30, 2)));

    // Eigenständige gewerbliche Wärmelieferung divides.
    let gewerblich =
        WarmWaterAdjustments { eigenstaendige_gewerbliche_waermelieferung: true, ..WarmWaterAdjustments::NONE() };
    assert_eq!(warm_water_heat_kwh(v, t, gewerblich), div(base, d(115, 2)));
}

#[test]
fn adjustments_compose() {
    let both = WarmWaterAdjustments {
        eigenstaendige_gewerbliche_waermelieferung: true,
        monovalente_waermepumpe: true,
        ..WarmWaterAdjustments::NONE()
    };
    let q = warm_water_heat_kwh(d(40, 0), d(60, 0), both);
    assert_eq!(q, mul(div(d(5000, 0), d(115, 2)), d(30, 2)));
}

#[test]
fn unmetered_fallback_uses_floor_area_and_takes_adjustments() {
    // 32 × 75 m² = 2400 kWh
    assert_eq!(warm_water_heat_kwh_unmetered(d(75, 0), WarmWaterAdjustments::NONE()), d(2400, 0));
    let brennwert = WarmWaterAdjustments { brennwert_erdgas: true, ..WarmWaterAdjustments::NONE() };
    assert_eq!(warm_water_heat_kwh_unmetered(d(75, 0), brennwert), mul(d(2400, 0), d(111, 2)));
}

#[test]
fn g685_rounded_matches_the_published_eneregio_example() {
    // 895 m³ × z 0,9543 × Hs 11,369 = 9.710 kWh, rounded to whole kWh.
    let kwh = gas_m3_to_kwh_hs_rounded(
        d(895, 0),
        d(11369, 3),
        d(9543, 4),
        G685Rounding { final_rounding: G685FinalRounding::WholeKwh, ..G685Rounding::default() },
    );
    assert_eq!(kwh, d(9710, 0));
}

#[test]
fn g685_input_rounding_is_kaufmaennisch() {
    // z given with 5 places rounds to 4 (0.95435 → 0.9544, away from zero).
    let kwh = gas_m3_to_kwh_hs_rounded(
        Dec::one(),
        d(100005, 4), // → 10.001 (3 dp)
        d(95435, 5),  // → 0.9544 (4 dp)
        G685Rounding::default(),
    );
    assert_eq!(kwh, mul(d(10001, 3), d(9544, 4)));
}

// ── further cases ─────────────────────────────────────────────────────────────

#[test]
fn normalize_handles_energy_volume_and_power() {
    let gas = GasConversionParams::new(d(1055, 2), d(98, 2));
    assert_eq!(normalize_to_kwh(d(100, 0), "m3", Some(&gas), None), Ok(d(1033900, 3)));
    // 3.6 GJ is exactly 1000 kWh.
    assert_eq!(normalize_to_kwh(d(36, 1), "GJ", None, None), Ok(d(1000, 0)));
    // 48 kW for 15 min = 12 kWh, in any casing and with surrounding space.
    assert_eq!(normalize_to_kwh(d(48, 0), " kW ", None, Some(900)), Ok(d(12, 0)));
    assert_eq!(normalize_to_kwh(d(48, 0), "KW", None, Some(900)), Ok(d(12, 0)));
    assert_eq!(normalize_to_kwh(d(5, 0), "MWh", None, None), Ok(d(5000, 0)));
    // 100 m³ Normvolumen at 11.2 kWh/m³.
    let p = GasConversionParams::already_converted(d(112, 1));
    assert_eq!(normalize_to_kwh(d(100, 0), "m3", Some(&p), None), Ok(d(1120, 0)));
}

#[test]
fn normalize_reports_each_error() {
    assert_eq!(
        normalize_to_kwh(d(1, 0), " furlong ", None, None),
        Err(ConversionError::UnknownUnit("furlong".to_string()))
    );
    assert_eq!(normalize_to_kwh(d(1, 0), "kvar", None, Some(900)), Err(ConversionError::UnknownUnit("kvar".to_string())));
    assert_eq!(normalize_to_kwh(d(100, 0), "m3", None, None), Err(ConversionError::MissingGasParameters));
    assert_eq!(normalize_to_kwh(d(48, 0), "kW", None, None), Err(ConversionError::MissingDuration));
    assert_eq!(normalize_to_kwh(d(48, 0), "kW", None, Some(0)), Err(ConversionError::MissingDuration));
    assert_eq!(normalize_to_kwh(d(48, 0), "kW", None, Some(-900)), Err(ConversionError::MissingDuration));
    assert_eq!(
        ConversionError::UnknownUnit("furlong".to_string()).to_string(),
        "unknown unit \"furlong\" — see MeasurementUnit::parse_scaled for the accepted set"
    );
}

#[test]
fn overflowing_conversions_are_reported_by_the_checked_forms() {
    let huge = Dec::from_i128_with_scale(79_228_162_514_264_337_593_543_950_335, 0);
    assert_eq!(checked_gas_m3_to_kwh_hs(huge, d(1055, 2), d(10, 1)), None);
    assert_eq!(checked_gas_m3_to_kwh_hs(d(100, 0), d(1055, 2), d(10, 1)), Some(d(1055, 0)));
    assert_eq!(checked_hoehenzonen_luftdruck_mbar(d(0, 0)), Some(d(1016, 0)));
    assert_eq!(checked_warm_water_heat_kwh(huge, d(60, 0), WarmWaterAdjustments::NONE()), None);
    assert_eq!(checked_normalize_to_kwh(huge, "kW", None, Some(900)), None);
    assert_eq!(checked_normalize_to_kwh(d(48, 0), "kW", None, Some(900)), Some(Ok(d(12, 0))));
    let at_norm = ZustandszahlParams::new(NORMDRUCK_MBAR(), d(0, 0), d(0, 0), Dec::one());
    assert_eq!(checked_zustandszahl(&at_norm), Some(Some(Dec::one())));
    assert_eq!(NORMTEMPERATUR_K(), d(27315, 2));
}
