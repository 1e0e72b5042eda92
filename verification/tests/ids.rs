use metering::ids::{BdewCode, CodeVergabestelle, Eic, EicType, MaloId, MaloIssuer, MeloId, Regelzone};

#[test]
fn the_anwendungshilfe_example_is_reproduced() {
    assert_eq!(MaloId::compute_check_digit("4137355924"), Some(1));
    let malo: MaloId = "41373559241".parse().unwrap();
    assert_eq!(malo.check_digit(), 1);
    assert_eq!(malo.issuer(), MaloIssuer::Bdew);
}

#[test]
fn the_scheme_is_not_luhn() {
    assert_eq!(MaloId::compute_check_digit("5123869678"), Some(1));
    assert!("51238696781".parse::<MaloId>().is_ok());
    assert!("51238696780".parse::<MaloId>().is_err());
}

#[test]
fn a_round_total_gives_check_digit_zero() {
    assert_eq!(MaloId::compute_check_digit("6200000000"), Some(0));
    assert!("62000000000".parse::<MaloId>().is_ok());
    assert_eq!(MaloId::compute_check_digit("1000000000"), Some(9));
    assert_eq!(MaloId::compute_check_digit("8642097531"), Some(2));
}

#[test]
fn issuer_follows_the_first_digit() {
    let dvgw: MaloId = {
        let check = MaloId::compute_check_digit("1234567890").unwrap();
        format!("1234567890{check}").parse().unwrap()
    };
    assert_eq!(dvgw.issuer(), MaloIssuer::Dvgw);
    let bdew: MaloId = "41373559241".parse().unwrap();
    assert_eq!(bdew.issuer(), MaloIssuer::Bdew);
}

#[test]
fn malformed_malo_ids_are_rejected() {
    for s in ["", "4137355924", "413735592411", "4137355924X", "41373559240", "01373559241", "41 37355924 1"] {
        assert!(s.parse::<MaloId>().is_err(), "{s:?} must not parse");
    }
    assert!("  41373559241  ".parse::<MaloId>().is_ok());
}

#[test]
fn malo_round_trips_and_orders() {
    let a: MaloId = "41373559241".parse().unwrap();
    assert_eq!(a.to_string().parse::<MaloId>().unwrap(), a);
    assert_eq!(a.to_string(), "41373559241");
    assert_eq!(format!("{:>13}", a.as_str()), "  41373559241", "padding is honoured");
    let err = "nope".parse::<MaloId>().unwrap_err();
    assert_eq!(err.type_label(), "MaloId");
    assert!(err.to_string().contains("check digit"), "{err:?}");
}

const MELO: &str = "DE00056266802AO6G56M11SN51G21M24S";

#[test]
fn a_real_shaped_melo_id_parses() {
    let melo: MeloId = MELO.parse().unwrap();
    assert_eq!(melo.as_str(), MELO);
    assert_eq!(melo.country(), "DE");
    assert_eq!(melo.netzbetreiber_nr(), "000562");
    assert_eq!(melo.to_string().parse::<MeloId>().unwrap(), melo);
}

#[test]
fn lowercase_normalises_to_uppercase() {
    let lower = MELO.to_lowercase();
    let melo: MeloId = lower.parse().unwrap();
    assert_eq!(melo.as_str(), MELO);
}

#[test]
fn malformed_melo_ids_are_rejected() {
    for s in [
        "",
        "DE0005626680",
        "DE00056266802AO6G56M11SN51G21M24S7",
        "D30005626680AO6G56M11SN51G21M24S5",
        "DEX0056266802AO6G56M11SN51G21M24S",
        "DE00056266802AO6G56M11SN51G21M2-S",
    ] {
        assert!(s.parse::<MeloId>().is_err(), "{s:?} must not parse");
    }
}

#[test]
fn the_published_eic_examples_are_reproduced() {
    for code in [
        "10X168Y4E6H0041Z",
        "10X---ENTSOE---L",
        "10YDE-VE-------2",
        "10YDE-ENBW-----N",
        "10YDE-RWENET---I",
        "10YDE-EON------1",
        "10Y1001A1001A83F",
    ] {
        let eic: Eic = code.parse().unwrap_or_else(|e| panic!("{code}: {e:?}"));
        assert_eq!(eic.as_str(), code);
        assert_eq!(Eic::compute_check_character(&code[..15]), Some(code.as_bytes()[15] as char));
    }
}

#[test]
fn the_object_type_is_the_third_character() {
    let area: Eic = "10YDE-VE-------2".parse().unwrap();
    assert_eq!(area.object_type(), Some(EicType::Area));
    assert_eq!(area.issuing_office(), "10");
    assert_eq!(area.check_character(), '2');
    let party: Eic = "10X---ENTSOE---L".parse().unwrap();
    assert_eq!(party.object_type(), Some(EicType::Party));
}

#[test]
fn a_corrupted_code_is_refused() {
    assert!("10YDE-VE-------3".parse::<Eic>().is_err(), "wrong check char");
    assert!("10YED-VE-------2".parse::<Eic>().is_err(), "transposition");
    assert!("10YDE-VE-------".parse::<Eic>().is_err(), "too short");
    assert!("10YDE-VE-------22".parse::<Eic>().is_err(), "too long");
    assert!("10YDE_VE-------2".parse::<Eic>().is_err(), "underscore");
}

#[test]
fn the_type_position_must_be_a_letter() {
    let body = "1010DE---------";
    let check = Eic::compute_check_character(body).unwrap();
    assert!(format!("{body}{check}").parse::<Eic>().is_err());
}

#[test]
fn lowercase_is_canonicalised() {
    let eic: Eic = "  10yde-ve-------2  ".parse().unwrap();
    assert_eq!(eic.to_string(), "10YDE-VE-------2");
}

#[test]
fn a_body_computing_to_the_minus_sign_has_no_check_character() {
    let body = "10X000000000002";
    assert_eq!(Eic::compute_check_character(body), None);
    assert!(format!("{body}-").parse::<Eic>().is_err());
}

#[test]
fn a_short_or_impure_body_has_no_check_character() {
    assert_eq!(Eic::compute_check_character("10X"), None);
    assert_eq!(Eic::compute_check_character("10x---entsoe---"), None);
}

#[test]
fn an_unknown_type_letter_is_not_a_parse_failure() {
    let body = "10Q---FUTURE---";
    let check = Eic::compute_check_character(body).unwrap();
    let eic: Eic = format!("{body}{check}").parse().unwrap();
    assert_eq!(eic.object_type(), None);
}

#[test]
fn every_control_area_code_is_a_valid_eic() {
    for zone in Regelzone::ALL {
        let eic = zone.control_area_eic();
        let text = eic.to_string();
        assert_eq!(text.parse::<Eic>(), Ok(eic.clone()), "{}: {text} does not round-trip", zone.as_str());
        assert_eq!(eic.object_type(), Some(EicType::Area));
        assert_eq!(eic.issuing_office(), "10", "the CIO, not the BDEW");
        assert!(!eic.is_german(), "a control area is a CIO code");
    }
    assert_eq!(Regelzone::FiftyHertz.control_area_eic().to_string(), "10YDE-VE-------2");
}

#[test]
fn the_regelzone_is_read_off_a_german_y_code() {
    let bg: Eic = "11YR-AMPRION-BG9".parse().unwrap();
    assert_eq!(bg.regelzone(), Some(Regelzone::Amprion));
    assert_eq!(bg.object_type(), Some(EicType::Area));
    assert!(bg.is_german());
    for (code, zone) in [
        ("11YN-TENNET--BGQ", Regelzone::TenneT),
        ("11YV-50HERTZ-BGX", Regelzone::FiftyHertz),
        ("11YW-TNGBW---BGW", Regelzone::TransnetBw),
    ] {
        let eic: Eic = code.parse().unwrap_or_else(|e| panic!("{code}: {e:?}"));
        assert_eq!(eic.regelzone(), Some(zone));
        assert_eq!(zone.eic_letter(), code.as_bytes()[3] as char);
    }
}

#[test]
fn only_a_german_area_code_has_a_regelzone() {
    let party: Eic = "11XSAP-AMPRION-B".parse().unwrap();
    assert_eq!(party.object_type(), Some(EicType::Party));
    assert_eq!(party.regelzone(), None, "an X code carries no Regelzone");
    assert_eq!(Regelzone::Amprion.control_area_eic().regelzone(), None);
}

#[test]
fn an_owned_string_converts_like_a_borrowed_one() {
    assert_eq!(
        MaloId::parse(&"51238696781".to_owned()).expect("a valid MaLo-ID"),
        "51238696781".parse::<MaloId>().expect("the same ID"),
    );
    assert_eq!(
        BdewCode::parse(&"9900987654321".to_owned()).expect("a valid code"),
        "9900987654321".parse::<BdewCode>().expect("the same code"),
    );
    assert_eq!(
        MeloId::parse(&"DE0001234567800000000000000012345".to_owned()).expect("a valid MeLo-ID"),
        "DE0001234567800000000000000012345".parse::<MeloId>().expect("the same ID"),
    );
    assert_eq!(
        Eic::parse(&"10X168Y4E6H0041Z".to_owned()).expect("a valid EIC"),
        "10X168Y4E6H0041Z".parse::<Eic>().expect("the same EIC"),
    );
    let err = MaloId::parse(&"nope".to_owned()).expect_err("not an ID");
    assert!(err.to_string().contains("MaloId"), "{err:?}");
}

#[test]
fn bdew_code_reports_its_check_digit_without_enforcing_it() {
    let nb: BdewCode = "9900987654321".parse().unwrap();
    assert_eq!(nb.vergabestelle(), CodeVergabestelle::BdewStrom);
    assert_eq!(nb.to_string(), "9900987654321");
    let check = BdewCode::compute_check_digit("990098765432").unwrap();
    let consistent: BdewCode = format!("990098765432{check}").parse().unwrap();
    assert!(consistent.has_bdew_check_digit());
    let other = (check + 1) % 10;
    let gln: BdewCode = format!("990098765432{other}").parse().unwrap();
    assert!(!gln.has_bdew_check_digit());
    let dvgw: BdewCode = "9800000000000".parse().unwrap();
    assert_eq!(dvgw.vergabestelle(), CodeVergabestelle::DvgwGas);
    let gs1: BdewCode = "4012345000009".parse().unwrap();
    assert_eq!(gs1.vergabestelle(), CodeVergabestelle::Gs1OrOther);
    assert!("990098765432".parse::<BdewCode>().is_err());
    assert!("99009876543X1".parse::<BdewCode>().is_err());
}

#[test]
fn a_plus_minus_five_in_an_even_position_goes_unnoticed() {
    let valid: MaloId = "41373559241".parse().unwrap();
    assert_eq!(valid.check_digit(), 1);
    assert!("46373559241".parse::<MaloId>().is_ok());
    assert!("42373559241".parse::<MaloId>().is_err());
}

#[test]
fn only_a_five_step_in_an_even_position_escapes_the_check_digit() {
    let base = "41373559241";
    let mut undetected = Vec::new();
    for p in 0..11 {
        for c in '0'..='9' {
            if base.chars().nth(p) == Some(c) {
                continue;
            }
            let altered: String =
                base.chars().enumerate().map(|(i, x)| if i == p { c } else { x }).collect();
            if altered.parse::<MaloId>().is_ok() {
                undetected.push(altered);
            }
        }
    }
    assert_eq!(
        undetected,
        vec!["46373559241", "41323559241", "41373059241", "41373554241", "41373559291"]
    );
}
