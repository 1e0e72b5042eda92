use metering::calendar::CalendarDate;
use metering::decimal::Dec;
use metering::interval::Sparte;
use metering::measurement_point::{EnergyFlow, MarktRolle, MeasurementPoint};
use metering::obis::{ObisCode, RegisterUnit};

fn date(y: i32, m: u8, d: u8) -> CalendarDate {
    CalendarDate::new(y, m, d).unwrap()
}

fn bezug_point() -> MeasurementPoint {
    MeasurementPoint {
        malo_id: "51238696780".to_owned(),
        melo_id: Some("DE0012345678901234567890123456789".to_owned()),
        meter_serial: Some("MSN-001".to_owned()),
        obis_code: ObisCode::STROM_BEZUG_TOTAL(),
        sparte: Sparte::Strom,
        energy_flow: EnergyFlow::Consumption,
        accountable_role: MarktRolle::Lf,
        accountable_mp_id: "9900987654321".to_owned(),
        is_virtual: false,
        wandler_factor: Dec::one(),
        valid_from: date(2026, 1, 1),
        valid_to: None,
    }
}

#[test]
fn active_within_validity() {
    let mp = bezug_point();
    assert!(mp.is_active(date(2026, 6, 15)));
}

#[test]
fn inactive_before_valid_from() {
    let mp = bezug_point();
    assert!(!mp.is_active(date(2025, 12, 31)));
}

#[test]
fn inactive_after_valid_to() {
    let mut mp = bezug_point();
    mp.valid_to = Some(date(2026, 6, 30));
    assert!(!mp.is_active(date(2026, 7, 1)));
    assert!(mp.is_active(date(2026, 6, 30)));
}

#[test]
fn bezug_detection() {
    let mp = bezug_point();
    assert!(mp.is_bezug());
    assert!(!mp.is_einspeisung());
}

#[test]
fn einspeisung_detection() {
    let mut mp = bezug_point();
    mp.obis_code = ObisCode::STROM_EINSPEISUNG_TOTAL();
    mp.energy_flow = EnergyFlow::Generation;
    assert!(mp.is_einspeisung());
    assert!(!mp.is_bezug());
}

#[test]
fn gas_detection() {
    let mut mp = bezug_point();
    mp.sparte = Sparte::Gas;
    mp.obis_code = ObisCode::GAS_VOLUME_M3();
    assert!(mp.is_gas());
}

#[test]
fn virtual_meter_flag() {
    let mut mp = bezug_point();
    mp.is_virtual = true;
    assert!(mp.is_virtual);
}

#[test]
fn the_unit_is_derived_from_the_obis_code() {
    let mut mp = bezug_point();
    assert_eq!(mp.unit(), Some(RegisterUnit::KiloWattHour));

    mp.obis_code = ObisCode::STROM_BLINDARBEIT_Q1();
    assert_eq!(mp.unit(), Some(RegisterUnit::KiloVarHour));

    mp.obis_code = ObisCode::STROM_BEZUG_MAXIMUM();
    assert_eq!(mp.unit(), Some(RegisterUnit::KiloWatt));
    assert!(!mp.unit().unwrap().is_cumulative(), "a maximum is a power");

    mp.obis_code = ObisCode::GAS_VOLUME_M3();
    assert_eq!(mp.unit(), Some(RegisterUnit::CubicMetre));

    mp.obis_code = ObisCode::WAERME_ENERGY();
    assert_eq!(mp.unit(), Some(RegisterUnit::KiloWattHourThermal));
}

#[test]
fn the_merged_type_carries_the_register_facts() {
    let mut mp = bezug_point();
    mp.wandler_factor = Dec::new(100, 0);
    assert_eq!(mp.apply_wandler(Dec::new(1234, 0)), Dec::new(123400, 0));

    assert_eq!(mp.tariff_register(), None, "1-0:1.8.0 is the total");
    mp.obis_code = ObisCode::STROM_BEZUG_HT();
    assert_eq!(mp.tariff_register(), Some(1));
    mp.obis_code = ObisCode::STROM_BEZUG_NT();
    assert_eq!(mp.tariff_register(), Some(2));
}

#[test]
fn direction_predicates_are_mutually_exclusive() {
    let mut mp = bezug_point();
    // Master data and the OBIS code disagree on purpose.
    mp.energy_flow = EnergyFlow::Generation;
    mp.obis_code = ObisCode::STROM_BEZUG_TOTAL();
    assert!(mp.is_bezug(), "the metered code wins");
    assert!(!mp.is_einspeisung());

    // ...and where the code carries no direction, the master data decides.
    mp.obis_code = ObisCode::GAS_VOLUME_M3();
    assert!(!mp.is_bezug());
    assert!(mp.is_einspeisung());

    for flow in EnergyFlow::ALL {
        mp.energy_flow = flow;
        assert!(!(mp.is_bezug() && mp.is_einspeisung()), "{flow:?} must not be both");
    }
}

#[test]
fn reactive_registers_and_wandler_overflow() {
    let mut mp = bezug_point();
    assert!(!mp.is_reactive());
    mp.obis_code = ObisCode::STROM_BLINDARBEIT_Q1();
    assert!(mp.is_reactive());
    mp.wandler_factor = Dec::new(1000, 0);
    let huge = Dec::from_i128_with_scale(79_228_162_514_264_337_593_543_950_335, 0);
    assert_eq!(mp.checked_apply_wandler(huge), None);
    assert_eq!(mp.checked_apply_wandler(Dec::new(2, 0)), Some(Dec::new(2000, 0)));
}


#[test]
fn energy_flow_groups_storage_with_the_direction_it_acts_in() {
    assert!(EnergyFlow::Consumption.draws_from_grid());
    assert!(EnergyFlow::StorageCharge.draws_from_grid());
    assert!(EnergyFlow::Generation.feeds_grid());
    assert!(EnergyFlow::StorageDischarge.feeds_grid());
    assert!(!EnergyFlow::Bidirectional.draws_from_grid());
    assert!(!EnergyFlow::Bidirectional.feeds_grid());
    assert!(EnergyFlow::StorageCharge.is_storage());
    assert!(!EnergyFlow::Consumption.is_storage());
}

#[test]
fn markt_rolle_mscons_receiver() {
    assert!(MarktRolle::Lf.is_mscons_receiver());
    assert!(MarktRolle::Bkv.is_mscons_receiver());
    assert!(!MarktRolle::Nb.is_mscons_receiver());
    assert!(!MarktRolle::Msb.is_mscons_receiver());
}

#[test]
fn no_flow_both_draws_and_feeds() {
    for f in EnergyFlow::ALL {
        assert!(!(f.draws_from_grid() && f.feeds_grid()), "{f:?}");
        if f.is_storage() {
            assert!(f.draws_from_grid() != f.feeds_grid(), "{f:?}");
        }
    }
}

#[test]
fn abbreviations_are_the_bdew_ones() {
    assert_eq!(MarktRolle::Uenb.abbreviation(), "ÜNB");
    assert_eq!(MarktRolle::Direktvermarkter.abbreviation(), "DV");
    assert_eq!(MarktRolle::Msb.abbreviation(), "MSB");
}
