use metering::decimal::Dec;
use metering::load_profile::{table_value, LoadProfile, SlpDayType};

#[test]
fn round_trip_all_profiles() {
    let profiles = [
        LoadProfile::H0,
        LoadProfile::G0,
        LoadProfile::G1,
        LoadProfile::G2,
        LoadProfile::G3,
        LoadProfile::G4,
        LoadProfile::G5,
        LoadProfile::G6,
        LoadProfile::L0,
        LoadProfile::L1,
        LoadProfile::L2,
        LoadProfile::P0,
        LoadProfile::GasHEF,
        LoadProfile::GasHMF,
        LoadProfile::GasHKO,
        LoadProfile::GasGKO,
        LoadProfile::GasGGA,
        LoadProfile::GasGMF,
    ];
    for p in &profiles {
        let s = p.as_str();
        let parsed = LoadProfile::parse(s).expect("should round-trip");
        assert_eq!(*p, parsed, "round-trip failed for {s}");
    }
}

#[test]
fn residential_classification() {
    assert!(LoadProfile::H0.is_residential());
    assert!(LoadProfile::GasHEF.is_residential());
    assert!(LoadProfile::GasHKO.is_residential());
    assert!(!LoadProfile::GasGMF.is_residential(), "GMF is haushaltsähnlich, not a household");
    assert!(!LoadProfile::G0.is_residential());
}

#[test]
fn commercial_classification() {
    for p in [
        LoadProfile::G0,
        LoadProfile::G1,
        LoadProfile::G2,
        LoadProfile::G3,
        LoadProfile::G4,
        LoadProfile::G5,
        LoadProfile::G6,
    ] {
        assert!(p.is_commercial(), "{} should be commercial", p.as_str());
    }
    assert!(!LoadProfile::H0.is_commercial());
}

#[test]
fn gas_classification() {
    let gas_codes = [
        "HEF", "HMF", "HKO", "GKO", "GHA", "GMK", "GBD", "GGA", "GBH", "GWA", "GGB", "GBA", "GPD", "GMF", "GHD",
    ];
    for p in LoadProfile::ALL {
        assert_eq!(p.is_gas(), gas_codes.contains(&p.as_str()), "{}", p.as_str());
    }
    assert_eq!(gas_codes.len(), 15, "the Leitfaden publishes fifteen");
    assert!(LoadProfile::GasHEF.is_gas());
    assert!(LoadProfile::GasGKO.is_gas());
    assert!(!LoadProfile::H0.is_gas());
    assert!(LoadProfile::GasGHD.is_gas());
    assert!(LoadProfile::GasGHD.is_commercial());
    assert!(LoadProfile::GasGHD.is_gas_aggregate());
    assert!(!LoadProfile::GasGKO.is_gas_aggregate());
}

#[test]
fn case_insensitive_parse() {
    assert_eq!(LoadProfile::parse("h0"), Some(LoadProfile::H0));
    assert_eq!(LoadProfile::parse("H0"), Some(LoadProfile::H0));
    assert_eq!(LoadProfile::parse("hef"), Some(LoadProfile::GasHEF));
    assert_eq!(LoadProfile::parse("EF"), Some(LoadProfile::GasHEF));
    assert_eq!(LoadProfile::parse("MF"), Some(LoadProfile::GasHMF));
    assert_eq!(LoadProfile::parse("GHD"), Some(LoadProfile::GasGHD));
    assert_eq!(LoadProfile::parse(" ghd "), Some(LoadProfile::GasGHD));
    assert_eq!(LoadProfile::GasGHD.as_str(), "GHD");
}

#[test]
fn unknown_profile_returns_none() {
    assert_eq!(LoadProfile::parse("X9"), None);
    assert_eq!(LoadProfile::parse(""), None);
}

#[test]
fn profiles_2025_round_trip_and_dynamization_flags() {
    for (code, dynamized) in [("H25", true), ("G25", false), ("L25", false), ("P25", true), ("S25", true)] {
        let p = LoadProfile::parse(code).expect(code);
        assert_eq!(p.as_str(), code);
        assert_eq!(p.requires_dynamization(), dynamized, "{code}");
    }
    assert!(LoadProfile::H0.requires_dynamization());
    assert!(!LoadProfile::G0.requires_dynamization());
    assert!(!LoadProfile::L0.requires_dynamization());
}

#[test]
fn load_profile_parsing_is_case_and_whitespace_insensitive() {
    for spelling in ["H0", "h0", " H0 ", "\th0\n"] {
        assert_eq!(LoadProfile::parse(spelling), Some(LoadProfile::H0), "{spelling:?}");
        assert_eq!(spelling.parse::<LoadProfile>().unwrap(), LoadProfile::H0);
    }
    assert_eq!(LoadProfile::parse(" hef "), Some(LoadProfile::GasHEF));
    assert!(LoadProfile::parse("X9").is_none(), "not a profile code");
}

#[test]
fn aliases_are_read_but_never_written() {
    assert!(!LoadProfile::codes().contains(&"EF"));
    assert!(!LoadProfile::codes().contains(&"MF"));
    assert_eq!(LoadProfile::GasHEF.to_string(), "HEF");
    let err = "X9".parse::<LoadProfile>().unwrap_err();
    assert_eq!(err.type_label(), "LoadProfile");
    assert_eq!(err.expected_values(), Some(LoadProfile::codes()));
}

#[test]
fn slp_day_type_codes() {
    assert_eq!(SlpDayType::SonnFeiertag.as_str(), "SONN_FEIERTAG");
    assert_eq!("werktag".parse::<SlpDayType>().unwrap(), SlpDayType::Werktag);
}

#[test]
fn dynamize_multiplies_and_rounds_half_even_to_three_places() {
    // 0.5 · 1.2345 = 0.61725, a midpoint at three places: half to even gives 0.617
    let v = metering::load_profile::dynamize(Dec::new(5, 1), Dec::new(12345, 4));
    assert_eq!(v, Some(Dec::new(617, 3)));
    // 2.5 · 1.0007 = 2.50175 → 2.502
    let w = metering::load_profile::dynamize(Dec::new(25, 1), Dec::new(10007, 4));
    assert_eq!(w, Some(Dec::new(2502, 3)));
    let max = Dec::from_i128_with_scale(79228162514264337593543950335, 0);
    assert_eq!(metering::load_profile::dynamize(max, Dec::new(2, 0)), None);
}

#[test]
fn table_value_dynamizes_only_where_the_profile_requires_it() {
    let raw = Dec::new(5, 1);
    let f = Some(Dec::new(12345, 4));
    assert_eq!(table_value(Some(LoadProfile::G0), raw, f), Some(Some(raw)));
    assert_eq!(table_value(Some(LoadProfile::H0), raw, f), Some(Some(Dec::new(617, 3))));
    assert_eq!(table_value(None, raw, f), Some(Some(Dec::new(617, 3))));
    assert_eq!(table_value(Some(LoadProfile::H25), raw, None), Some(None));
    assert_eq!(table_value(Some(LoadProfile::G0), raw, None), Some(Some(raw)));
}

#[test]
fn parsing_trims_unicode_white_space_too() {
    // no-break space before, em space and ideographic space after
    assert_eq!(LoadProfile::parse("\u{a0}h0\u{2003}\u{3000}"), Some(LoadProfile::H0));
    assert_eq!(LoadProfile::parse("\u{85}G0\u{2028}"), Some(LoadProfile::G0));
    // a zero-width space is not white space
    assert_eq!(LoadProfile::parse("\u{200b}H0"), None);
}
