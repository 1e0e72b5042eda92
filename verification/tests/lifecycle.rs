use metering::calendar::CalendarDate;
use metering::decimal::Dec;
use metering::lifecycle::{MeterExchangeEvent, MeterLifecycleEventType, MeterStatus};

fn make_exchange() -> MeterExchangeEvent {
    MeterExchangeEvent {
        exchange_id: "EX-001".to_owned(),
        melo_id: "DE00056266802AO6G56M11SN51G21M24S".parse().unwrap(),
        old_meter_serial: "OLD-1234".to_owned(),
        old_final_reading: Dec::new(12500, 0),
        new_meter_serial: "NEW-5678".to_owned(),
        new_first_reading: Dec::zero(), // new meter starts at 0
        exchange_at: 1_781_510_400,     // 2026-06-15 08:00 UTC
        triggered_by_pid: Some(23003),
        insrpt_process_id: None,
        performed_by: Some("MSB-9900357000004".to_owned()),
    }
}

#[test]
fn the_exchange_day_is_derived_from_the_instant() {
    let mut ex = make_exchange();
    assert_eq!(ex.exchange_date(), CalendarDate::new(2026, 6, 15).unwrap());

    ex.exchange_at = 1_781_476_200; // 2026-06-14 22:30 UTC, 00:30 CEST on the 15th
    assert_eq!(ex.exchange_date(), CalendarDate::new(2026, 6, 15).unwrap(), "the Berlin calendar day, not the UTC one");
    assert_eq!(ex.exchange_at.div_euclid(86_400), 20_618, "the UTC day is the 14th");
}

#[test]
fn lifecycle_codes_round_trip() {
    assert_eq!(MeterStatus::ALL.len(), MeterStatus::codes().len());
    for (v, code) in MeterStatus::ALL.iter().zip(MeterStatus::codes()) {
        assert_eq!(v.as_str(), *code);
        assert_eq!(v.to_string(), *code);
        assert_eq!(&v.to_string().parse::<MeterStatus>().unwrap(), v);
    }
    assert_eq!(MeterLifecycleEventType::ALL.len(), MeterLifecycleEventType::codes().len());
    for (v, code) in MeterLifecycleEventType::ALL.iter().zip(MeterLifecycleEventType::codes()) {
        assert_eq!(v.as_str(), *code);
        assert_eq!(&v.to_string().parse::<MeterLifecycleEventType>().unwrap(), v);
    }

    assert_eq!(" active ".parse::<MeterStatus>().unwrap(), MeterStatus::Active);
    assert!("GARBAGE".parse::<MeterStatus>().is_err());
    assert!(MeterStatus::Active.is_in_service());
    assert!(!MeterStatus::Removed.is_in_service());

    // Only the three events that swap the physical register break the
    // difference a Lastgang is built from.
    assert!(MeterLifecycleEventType::Replaced.breaks_register_continuity());
    assert!(!MeterLifecycleEventType::Updated.breaks_register_continuity());
    assert!(!MeterLifecycleEventType::Recalibrated.breaks_register_continuity());
}
