use metering::interval::{MeasurementUnit, QualityFlag, Sparte};
use metering::load_profile::LoadProfile;

#[test]
fn quality_flag_billable() {
    assert!(QualityFlag::Measured.is_billable());
    assert!(QualityFlag::Substituted.is_billable());
    assert!(QualityFlag::Estimated.is_billable(), "Estimated must be billable");
    assert!(QualityFlag::Corrected.is_billable());
    assert!(QualityFlag::Preliminary.is_billable());
    assert!(!QualityFlag::Faulty.is_billable());
    assert!(!QualityFlag::Unknown.is_billable());
}

#[test]
fn severity_ranks_are_a_strict_total_order() {
    let ranks: Vec<u8> = QualityFlag::ALL.iter().map(|q| q.severity_rank()).collect();
    let unique: std::collections::BTreeSet<u8> = ranks.iter().copied().collect();
    assert_eq!(
        unique.len(),
        QualityFlag::ALL.len(),
        "every flag needs its own rank, or worse_of breaks ties by argument order: {ranks:?}"
    );
    for a in QualityFlag::ALL {
        for b in QualityFlag::ALL {
            assert_eq!(a.worse_of(b), b.worse_of(a), "{a:?} vs {b:?}");
        }
    }
    let set = QualityFlag::ALL;
    let mut reversed = set;
    reversed.reverse();
    assert_eq!(QualityFlag::worst_of(&set), QualityFlag::worst_of(&reversed));
    assert_eq!(QualityFlag::worst_of(&set), QualityFlag::Unknown);
    assert_eq!(QualityFlag::worst_of(&[]), QualityFlag::Unknown);
    assert_eq!(QualityFlag::Measured.severity_rank(), 0);
    assert!(
        QualityFlag::Corrected.severity_rank() < QualityFlag::Substituted.severity_rank(),
        "a corrected value has a measurement behind it; a substitute does not"
    );
}

#[test]
fn quality_flag_provisional() {
    assert!(QualityFlag::Estimated.is_provisional());
    assert!(QualityFlag::Preliminary.is_provisional());
    assert!(!QualityFlag::Measured.is_provisional());
    assert!(!QualityFlag::Substituted.is_provisional());
}

#[test]
fn measured_unit_is_what_the_register_counts() {
    assert_eq!(Sparte::Gas.measured_unit(), MeasurementUnit::CubicMetre);
    assert_eq!(Sparte::Wasser.measured_unit(), MeasurementUnit::CubicMetre);
    assert_eq!(Sparte::Waerme.measured_unit(), MeasurementUnit::KiloWattHour);
    assert_eq!(Sparte::Strom.measured_unit(), MeasurementUnit::KiloWattHour);
}

#[test]
fn billing_unit_diverges_from_measured_unit_only_for_gas() {
    for sparte in [Sparte::Strom, Sparte::Gas, Sparte::Waerme, Sparte::Wasser] {
        assert_eq!(sparte.requires_conversion(), sparte == Sparte::Gas, "{} conversion requirement", sparte.as_str());
        assert_eq!(
            sparte.measured_unit() != sparte.billing_unit(),
            sparte.requires_conversion(),
            "{}: requires_conversion must track the unit divergence",
            sparte.as_str()
        );
    }
    assert_eq!(Sparte::Wasser.billing_unit(), MeasurementUnit::CubicMetre);
    assert_eq!(Sparte::Gas.billing_unit(), MeasurementUnit::KiloWattHour);
}

#[test]
fn unit_parse_accepts_superscript_cubic_metre() {
    assert_eq!(MeasurementUnit::parse("m³"), Some(MeasurementUnit::CubicMetre));
    assert_eq!(MeasurementUnit::parse("m3"), Some(MeasurementUnit::CubicMetre));
    assert_eq!(MeasurementUnit::parse(" M3 "), Some(MeasurementUnit::CubicMetre));
    assert_eq!(MeasurementUnit::parse("kWh_th"), Some(MeasurementUnit::KiloWattHour));
    assert_eq!(MeasurementUnit::parse("furlong"), None);
}

#[test]
fn strict_parse_rejects_units_needing_rescaling() {
    assert_eq!(MeasurementUnit::parse("MWh"), None);
    assert_eq!(MeasurementUnit::parse("GJ"), None);
    assert_eq!(MeasurementUnit::parse("l"), None);
    assert!(MeasurementUnit::parse_scaled("MWh").is_some());
    assert!(MeasurementUnit::parse_scaled("GJ").is_some());
}

#[test]
fn labels_match_the_db_check_values() {
    assert_eq!(Sparte::Waerme.as_str(), "WAERME");
    assert_eq!(Sparte::Wasser.as_str(), "WASSER");
    assert_eq!(MeasurementUnit::KiloWattHour.as_str(), "KWH");
    assert_eq!(MeasurementUnit::CubicMetre.as_str(), "M3");
}

#[test]
fn every_variant_round_trips() {
    assert_eq!(Sparte::ALL.len(), Sparte::codes().len());
    for (v, code) in Sparte::ALL.iter().zip(Sparte::codes()) {
        assert_eq!(v.as_str(), *code);
        assert_eq!(v.to_string(), *code);
        assert_eq!(&v.to_string().parse::<Sparte>().unwrap(), v);
    }
    assert_eq!(QualityFlag::ALL.len(), QualityFlag::codes().len());
    for (v, code) in QualityFlag::ALL.iter().zip(QualityFlag::codes()) {
        assert_eq!(v.as_str(), *code);
        assert_eq!(v.to_string(), *code);
        assert_eq!(&v.to_string().parse::<QualityFlag>().unwrap(), v);
    }
    for (v, code) in MeasurementUnit::ALL.iter().zip(MeasurementUnit::codes()) {
        assert_eq!(v.as_str(), *code);
        assert_eq!(&v.to_string().parse::<MeasurementUnit>().unwrap(), v);
    }
}

#[test]
fn codes_are_unique_within_each_type() {
    for codes in [QualityFlag::codes(), Sparte::codes(), MeasurementUnit::codes()] {
        let unique: std::collections::BTreeSet<_> = codes.iter().collect();
        assert_eq!(unique.len(), codes.len(), "codes must be distinct: {codes:?}");
    }
}

#[test]
fn all_and_codes_stay_in_step() {
    assert_eq!(Sparte::ALL.len(), Sparte::codes().len());
    assert_eq!(QualityFlag::ALL.len(), QualityFlag::codes().len());
    assert_eq!(MeasurementUnit::ALL.len(), MeasurementUnit::codes().len());
    assert_eq!(LoadProfile::ALL.len(), LoadProfile::codes().len());
    for (v, code) in LoadProfile::ALL.iter().zip(LoadProfile::codes()) {
        assert_eq!(v.as_str(), *code, "{v:?}");
        assert_eq!(&code.parse::<LoadProfile>().unwrap(), v);
    }
}

#[test]
fn interval_parsing_is_case_and_whitespace_insensitive() {
    assert_eq!("  strom ".parse::<Sparte>().unwrap(), Sparte::Strom);
    assert_eq!("Measured".parse::<QualityFlag>().unwrap(), QualityFlag::Measured);
    assert_eq!("kWh".parse::<MeasurementUnit>().unwrap(), MeasurementUnit::KiloWattHour);
}

#[test]
fn unrecognised_codes_are_errors_not_defaults() {
    let err = "GARBAGE".parse::<QualityFlag>().unwrap_err();
    assert_eq!(err.type_label(), "QualityFlag");
    assert_eq!(err.input(), "GARBAGE");
    assert_eq!(err.expected_values(), Some(QualityFlag::codes()));
    assert!(err.to_string().contains("MEASURED"), "{err:?}");
    assert!("".parse::<Sparte>().is_err());
    assert!("KOHLE".parse::<Sparte>().is_err());
    assert!("MWh".parse::<MeasurementUnit>().is_err());
}
