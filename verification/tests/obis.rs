use metering::obis::ObisCode;
use metering::resolution::IntervalResolution;
use metering::resolution::IntervalResolution as R;

#[test]
fn parse_standard_strom_bezug() {
    let code: ObisCode = "1-0:1.8.0*255".parse().unwrap();
    assert_eq!(code, ObisCode::STROM_BEZUG_TOTAL());
    assert!(code.is_electricity());
    assert!(code.is_import(), "1-0:1.8.0 C=1,D=8 should be import");
    assert!(code.is_total_register());
    assert!(!code.is_export());
}

#[test]
fn parse_ht_register() {
    let code: ObisCode = "1-0:1.8.1*255".parse().unwrap();
    assert_eq!(code, ObisCode::STROM_BEZUG_HT());
    assert!(code.is_ht());
    assert!(!code.is_nt());
    assert_eq!(code.tariff_register(), Some(1));
}

#[test]
fn parse_without_storage_number() {
    let code: ObisCode = "1-0:2.8.0".parse().unwrap();
    assert_eq!(code.f, 255);
    assert_eq!(code.c, 2);
    assert_eq!(code.d, 8);
    assert!(code.is_export(), "1-0:2.8.0 should be Einspeisung/export (C=2, D=8)");
    assert!(code.is_einspeisung(), "should alias is_export()");
    assert_eq!(code, ObisCode::STROM_EINSPEISUNG_TOTAL());
}

#[test]
fn parse_gas_volume() {
    let code: ObisCode = "7-0:3.0.0*255".parse().unwrap();
    assert_eq!(code, ObisCode::GAS_VOLUME_M3());
    assert!(code.is_gas());
    assert!(!code.is_electricity());
}

#[test]
fn invalid_code_returns_error() {
    assert!("not-an-obis".parse::<ObisCode>().is_err());
    assert!("1-0:1.8".parse::<ObisCode>().is_err());
    assert!("".parse::<ObisCode>().is_err());
}

#[test]
fn constants_are_correct() {
    assert_eq!(ObisCode::STROM_BEZUG_TOTAL().to_string(), "1-0:1.8.0");
    assert_eq!(ObisCode::STROM_BEZUG_HT().to_string(), "1-0:1.8.1");
    assert_eq!(ObisCode::STROM_BEZUG_NT().to_string(), "1-0:1.8.2");
    assert_eq!(ObisCode::STROM_EINSPEISUNG_TOTAL().to_string(), "1-0:2.8.0");
    assert_eq!(ObisCode::GAS_VOLUME_M3().to_string(), "7-0:3.0.0");
}

#[test]
fn direction_is_group_c_across_every_messart() {
    for (code, what) in [
        ("1-0:1.8.0", "Zählerstand"),
        ("1-0:1.9.0", "Vorschub"),
        ("1-0:1.29.0", "Lastgang"),
        ("1-0:1.6.0", "Maximum"),
        ("1-0:1.8.1", "Zählerstand HT"),
    ] {
        let c: ObisCode = code.parse().unwrap();
        assert!(c.is_import(), "{code} ({what}) is Bezug");
        assert!(!c.is_export(), "{code} ({what}) is not Lieferung");
    }
    for (code, what) in [
        ("1-0:2.8.0", "Zählerstand"),
        ("1-0:2.9.0", "Vorschub"),
        ("1-0:2.29.0", "Lastgang"),
        ("1-0:2.6.0", "Maximum"),
    ] {
        let c: ObisCode = code.parse().unwrap();
        assert!(c.is_export(), "{code} ({what}) is Lieferung");
        assert!(c.is_einspeisung(), "{code} ({what}) aliases is_export");
        assert!(!c.is_import(), "{code} ({what}) is not Bezug");
    }
}

#[test]
fn messart_is_not_a_direction() {
    let vorschub: ObisCode = "1-0:1.9.0".parse().unwrap();
    assert!(vorschub.is_vorschub() && vorschub.is_import());
    let blind_vorschub: ObisCode = "1-0:3.9.0".parse().unwrap();
    assert!(blind_vorschub.is_vorschub());
    assert!(blind_vorschub.is_reactive());
    assert!(!blind_vorschub.is_export(), "D = 9 is Vorschub, not a reverse-direction flag");
}

#[test]
fn lastgang_and_maximum_are_different_registers() {
    let lastgang = ObisCode::STROM_BEZUG_LASTGANG();
    let maximum = ObisCode::STROM_BEZUG_MAXIMUM();
    assert_eq!(lastgang.to_string(), "1-0:1.29.0");
    assert_eq!(maximum.to_string(), "1-0:1.6.0");
    assert!(lastgang.is_lastgang() && !lastgang.is_maximum());
    assert!(maximum.is_maximum() && !maximum.is_lastgang());
    assert_ne!(lastgang, maximum);
    assert_eq!(lastgang.default_resolution(), Some(IntervalResolution::QuarterHour));
    assert_eq!(maximum.default_resolution(), None);
}

#[test]
fn every_reactive_quadrant_is_reactive() {
    for c in 3..=8u8 {
        let code: ObisCode = format!("1-0:{c}.8.0").parse().unwrap();
        assert!(code.is_reactive(), "1-0:{c}.8.0 is Blindarbeit");
        assert!(!code.is_import(), "Blindarbeit is not Wirkarbeit Bezug");
    }
    for named in [
        ObisCode::STROM_BLINDARBEIT_POSITIV(),
        ObisCode::STROM_BLINDARBEIT_NEGATIV(),
        ObisCode::STROM_BLINDARBEIT_Q1(),
        ObisCode::STROM_BLINDARBEIT_Q2(),
        ObisCode::STROM_BLINDARBEIT_Q3(),
        ObisCode::STROM_BLINDARBEIT_Q4(),
    ] {
        assert!(named.is_reactive(), "{}", named.to_string());
    }
    assert!(!ObisCode::STROM_BEZUG_TOTAL().is_reactive());
    assert!(!ObisCode::STROM_EINSPEISUNG_TOTAL().is_reactive());
}

#[test]
fn the_c_group_is_scoped_to_the_medium() {
    assert!(
        !ObisCode::GAS_VOLUME_M3().is_reactive(),
        "7-0:3.0.0 is a gas volume; C = 3 only means Blindleistung for A = 1"
    );
    assert!(ObisCode::GAS_VOLUME_M3().is_gas());
    assert!(!ObisCode::GAS_VOLUME_M3().is_import());
    assert!(!ObisCode::WAERME_ENERGY().is_import());
}

#[test]
fn fehlerregister_is_not_a_tariff() {
    let fehler: ObisCode = "1-0:1.8.63".parse().unwrap();
    assert!(fehler.is_fehlerregister());
    assert_eq!(fehler.tariff_register(), None);
    assert!(!fehler.is_total_register(), "E = 63 is not the total either");
    assert_eq!(fehler.default_resolution(), None, "a fault counter is not a time series");
    assert_eq!(ObisCode::STROM_BEZUG_HT().tariff_register(), Some(1));
    assert_eq!(ObisCode::STROM_BEZUG_NT().tariff_register(), Some(2));
    let t62: ObisCode = "1-0:1.8.62".parse().unwrap();
    assert_eq!(t62.tariff_register(), Some(62));
    assert!(!t62.is_fehlerregister());
    assert_eq!(ObisCode::STROM_BEZUG_TOTAL().tariff_register(), None);
}

const CANONICAL: &[&str] = &[
    "1-0:1.8.0",
    "1-0:1.8.1",
    "1-0:1.8.2",
    "1-0:2.8.0",
    "1-0:2.8.1",
    "1-0:2.8.2",
    "1-0:1.29.0",
    "1-0:3.8.0",
    "1-0:4.8.0",
    "1-0:12.7.0",
    "7-0:3.0.0",
    "6-0:1.0.0",
    "5-0:1.0.0",
    "8-0:1.0.0",
    "9-0:1.0.0",
    "4-0:1.0.0",
    "1-0:1.8.0*1",
    "1-0:1.8.0*0",
];

#[test]
fn canonical_strings_survive_a_round_trip() {
    for s in CANONICAL {
        let code: ObisCode = s.parse().unwrap_or_else(|e| panic!("{s}: {e:?}"));
        assert_eq!(&code.to_string(), s, "{s} is not string-stable");
    }
}

#[test]
fn both_spellings_are_one_value_and_one_string() {
    let typed: ObisCode = "1-0:1.8.0".parse().unwrap();
    let emitted: ObisCode = "1-0:1.8.0*255".parse().unwrap();
    assert_eq!(typed, emitted, "same channel, same value");
    assert_eq!(typed.to_string(), emitted.to_string(), "same channel, same key");
    assert_eq!(typed.to_string(), "1-0:1.8.0");
}

#[test]
fn lenient_spellings_normalise_onto_the_canonical_one() {
    for s in ["1-0:1.8.0", "1-0:1.8.0*255", "  1-0:1.8.0  ", "01-00:01.08.00", "1-0:01.8.0*0255"] {
        assert_eq!(
            ObisCode::normalize(s).unwrap_or_else(|e| panic!("{s}: {e:?}")),
            "1-0:1.8.0",
            "{s} must normalise onto the canonical spelling"
        );
    }
}

#[test]
fn normalize_is_idempotent() {
    for s in CANONICAL {
        let once = ObisCode::normalize(s).unwrap();
        assert_eq!(ObisCode::normalize(&once).unwrap(), once, "{s}");
    }
}

#[test]
fn full_form_is_available_and_parses_back() {
    let code = ObisCode::STROM_BEZUG_TOTAL();
    assert_eq!(code.to_full_string(), "1-0:1.8.0*255");
    assert_eq!(code.to_full_string(), "1-0:1.8.0*255");
    assert_eq!(code.to_full_string().parse::<ObisCode>().unwrap(), code);
}

#[test]
fn a_real_storage_group_is_never_elided() {
    let historical: ObisCode = "1-0:1.8.0*1".parse().unwrap();
    assert!(!historical.has_unused_storage());
    assert_eq!(historical.to_string(), "1-0:1.8.0*1");
    assert_ne!(historical, ObisCode::STROM_BEZUG_TOTAL());
    assert_ne!(historical.to_string(), ObisCode::STROM_BEZUG_TOTAL().to_string());
}

#[test]
fn signed_and_empty_groups_are_rejected() {
    for s in [
        "+1-0:1.8.0",
        "1-0:1.8.0*+255",
        "1--0:1.8.0",
        "1-0:1.8.",
        "1-0:.8.0",
        "1-0:1.8.0*",
        "1-0:1.8.0.5",
        "1 - 0 : 1.8.0",
        "1-0:1.8.0*256",
        "256-0:1.8.0",
    ] {
        assert!(s.parse::<ObisCode>().is_err(), "{s:?} must not parse");
    }
}

#[test]
fn ordering_is_by_value_group() {
    let mut codes = [
        ObisCode::GAS_VOLUME_M3(),
        ObisCode::STROM_BEZUG_NT(),
        ObisCode::STROM_BEZUG_TOTAL(),
        ObisCode::STROM_BEZUG_HT(),
    ];
    codes.sort();
    assert_eq!(
        codes,
        [
            ObisCode::STROM_BEZUG_TOTAL(),
            ObisCode::STROM_BEZUG_HT(),
            ObisCode::STROM_BEZUG_NT(),
            ObisCode::GAS_VOLUME_M3(),
        ]
    );
}

#[test]
fn medium_group_a_follows_the_dlms_media_list() {
    let hca: ObisCode = "4-0:1.0.0".parse().unwrap();
    let cooling: ObisCode = "5-0:1.0.0".parse().unwrap();
    let heat: ObisCode = "6-0:1.0.0".parse().unwrap();
    let gas: ObisCode = "7-0:3.0.0".parse().unwrap();
    let cold_water: ObisCode = "8-0:1.0.0".parse().unwrap();
    let hot_water: ObisCode = "9-0:1.0.0".parse().unwrap();
    assert!(hca.is_heat_cost_allocator());
    assert!(!hca.is_heat(), "an HCA measures Verbrauchseinheiten, not kWh");
    assert!(cooling.is_heat() && heat.is_heat());
    assert!(gas.is_gas() && !gas.is_heat());
    assert!(cold_water.is_water() && hot_water.is_water());
    assert!(!cold_water.is_heat(), "A=8 is cold water");
}

#[test]
fn named_constants_match_their_medium_predicate() {
    assert!(ObisCode::WAERME_ENERGY().is_heat(), "heat is medium 6");
    assert!(!ObisCode::WAERME_ENERGY().is_water());
    assert_eq!(ObisCode::WAERME_ENERGY().to_string(), "6-0:1.0.0");
    assert!(ObisCode::KAELTE_ENERGY().is_heat(), "cooling is medium 5");
    assert!(ObisCode::WASSER_KALT_VOLUME().is_water());
    assert!(!ObisCode::WASSER_KALT_VOLUME().is_heat());
    assert!(ObisCode::WASSER_WARM_VOLUME().is_water());
    assert!(ObisCode::GAS_VOLUME_M3().is_gas());
    assert!(ObisCode::STROM_BEZUG_TOTAL().is_electricity());
    assert_eq!(
        ObisCode::WAERME_ENERGY().default_resolution(),
        Some(IntervalResolution::Hour),
        "a heat meter is read hourly, not daily like a water submeter"
    );
    assert_eq!(ObisCode::WASSER_KALT_VOLUME().default_resolution(), Some(IntervalResolution::Day));
}

#[test]
fn water_defaults_to_daily_resolution() {
    let cold_water: ObisCode = "8-0:1.0.0".parse().unwrap();
    let heat: ObisCode = "6-0:1.0.0".parse().unwrap();
    assert_eq!(cold_water.default_resolution(), Some(IntervalResolution::Day));
    assert_eq!(heat.default_resolution(), Some(IntervalResolution::Hour));
}

fn code(s: &str) -> ObisCode {
    s.parse().unwrap_or_else(|_| panic!("{s} must parse"))
}

#[test]
fn a_register_that_is_not_a_series_has_no_resolution() {
    for s in ["1-0:1.6.0", "1-0:5.6.0", "1-0:1.9.0", "1-0:3.9.0", "1-0:1.7.0", "1-0:1.8.63", "4-0:1.0.0", "0-0:96.1.0"] {
        assert_eq!(code(s).default_resolution(), None, "{s}");
    }
}

#[test]
fn the_series_channels_carry_the_msbg_cadences() {
    for s in ["1-0:1.8.0", "1-0:2.8.2", "1-0:1.29.0", "1-0:8.8.0"] {
        assert_eq!(code(s).default_resolution(), Some(R::QuarterHour), "{s}");
    }
    for s in ["7-0:3.0.0", "7-0:13.2.0"] {
        assert_eq!(code(s).default_resolution(), Some(R::Hour), "{s}");
    }
    assert_eq!(ObisCode::WAERME_ENERGY().default_resolution(), Some(R::Hour), "a heat meter delivers hourly");
    assert_eq!(
        ObisCode::WASSER_KALT_VOLUME().default_resolution(),
        Some(R::Day),
        "water submetering is read daily at best"
    );
}

#[test]
fn a_gas_mittelwert_takes_its_period_from_value_group_e() {
    assert_eq!(code("7-0:54.0.16").default_resolution(), Some(R::Hour));
    assert_eq!(code("7-0:54.0.20").default_resolution(), Some(R::Day));
    assert_eq!(ObisCode::GAS_BRENNWERT_MONATSMITTEL().default_resolution(), Some(R::Month));
    assert_eq!(ObisCode::GAS_ZUSTANDSZAHL().default_resolution(), Some(R::Month));
    assert_eq!(code("7-0:54.0.5").default_resolution(), None);
}

#[test]
fn a_calendar_answer_never_claims_a_fixed_length() {
    for a in [0u8, 1, 4, 5, 6, 7, 8, 9] {
        for c in [1u8, 2, 3, 5, 8, 13, 52, 54, 99] {
            for d in [0u8, 2, 6, 7, 8, 9, 29] {
                for e in [0u8, 1, 16, 20, 22, 63] {
                    let code = ObisCode { a, b: 0, c, d, e, f: ObisCode::STORAGE_UNUSED };
                    if let Some(r) = code.default_resolution() {
                        assert_eq!(r.is_calendar(), matches!(r, R::Day | R::Month | R::Year), "{}", code.to_string());
                        assert!(!matches!(r, R::Custom(_)), "{} must not be Custom", code.to_string());
                    }
                }
            }
        }
    }
}
