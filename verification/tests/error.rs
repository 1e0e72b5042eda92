use metering::error::ParseError;
use metering::interval::{QualityFlag, Sparte};
use metering::obis::ObisCode;
use metering::resolution::IntervalResolution;

#[test]
fn message_names_the_type_and_the_input() {
    let err = "KOHLE".parse::<Sparte>().unwrap_err();
    assert_eq!(err.type_label(), "Sparte");
    assert_eq!(err.input(), "KOHLE");
    let msg = err.to_string();
    assert!(msg.contains("Sparte"), "{msg}");
    assert!(msg.contains("KOHLE"), "{msg}");
    assert!(msg.contains("STROM"), "{msg}");
}

#[test]
fn closed_sets_expose_their_codes_and_formats_do_not() {
    let closed = "nope".parse::<QualityFlag>().unwrap_err();
    assert_eq!(closed.expected_values(), Some(QualityFlag::codes()));
    let shaped = "nope".parse::<ObisCode>().unwrap_err();
    assert_eq!(shaped.expected_values(), None);
    assert!(shaped.to_string().contains("A-B:C.D.E*F"), "{}", shaped.to_string());
    let iso = "nope".parse::<IntervalResolution>().unwrap_err();
    assert_eq!(iso.expected_values(), None);
    assert!(iso.to_string().contains("PT15M"), "{}", iso.to_string());
}

#[test]
fn every_parser_returns_the_same_error_type() {
    fn decode(s: &str, q: &str, o: &str, r: &str) -> Result<(), ParseError> {
        let _: Sparte = s.parse()?;
        let _: QualityFlag = q.parse()?;
        let _: ObisCode = o.parse()?;
        let _: IntervalResolution = r.parse()?;
        Ok(())
    }
    assert!(decode("GAS", "MEASURED", "7-0:3.0.0", "PT1H").is_ok());
    let err = decode("GAS", "MEASURED", "bad", "PT1H").unwrap_err();
    assert_eq!(err.type_label(), "ObisCode");
}

#[test]
fn the_message_quotes_the_input_and_lists_the_codes() {
    let err = "KOHLE".parse::<Sparte>().unwrap_err();
    assert_eq!(err.to_string(), "invalid Sparte \"KOHLE\": expected one of STROM, GAS, WAERME, WASSER");
    let shaped = "x".parse::<ObisCode>().unwrap_err();
    assert_eq!(
        shaped.to_string(),
        "invalid ObisCode \"x\": expected A-B:C.D.E*F, e.g. 1-0:1.8.0 (the *F suffix is optional)"
    );
}
