use metering::decimal::Dec;
use metering::para14a::{
    checked_mindestleistung_ems, gleichzeitigkeitsfaktor, mindestleistung_direktansteuerung, mindestleistung_ems,
    netzwirksamer_leistungsbezug, Para14aConfig, SteuVe, SteuVeFallgruppe as F, Verursachungsregel,
};

fn d(num: i64, scale: u32) -> Dec {
    Dec::new(num, scale)
}

fn cfg() -> Para14aConfig {
    Para14aConfig::default()
}

/// `a × b × c + e`, exactly.
fn mul(a: Dec, b: Dec) -> Dec {
    a.checked_mul(&b).unwrap()
}

fn add(a: Dec, b: Dec) -> Dec {
    a.checked_add(&b).unwrap()
}

#[test]
fn only_heat_pumps_and_cooling_scale_above_eleven_kilowatts() {
    for gruppe in [F::Ladepunkt, F::Stromspeicher] {
        let big = SteuVe::new(gruppe, d(50, 0));
        assert_eq!(mindestleistung_direktansteuerung(&big, &cfg()), Some(d(42, 1)), "{gruppe:?} must not scale");
    }
    for gruppe in [F::Waermepumpe, F::Raumkuehlung] {
        let big = SteuVe::new(gruppe, d(50, 0));
        assert_eq!(mindestleistung_direktansteuerung(&big, &cfg()), Some(d(200, 1)));
        let at = SteuVe::new(gruppe, d(11, 0));
        assert_eq!(mindestleistung_direktansteuerung(&at, &cfg()), Some(d(42, 1)));
    }
}

#[test]
fn a_device_below_the_threshold_is_not_a_steuve() {
    let tiny = SteuVe::new(F::Waermepumpe, d(3, 0));
    let boundary = SteuVe::new(F::Ladepunkt, d(42, 1));
    let real = SteuVe::new(F::Ladepunkt, d(11, 0));

    assert!(!tiny.is_steuerbar());
    assert!(!boundary.is_steuerbar(), "\"mehr als 4,2 kW\" is strict");
    assert!(real.is_steuerbar());

    assert_eq!(mindestleistung_direktansteuerung(&tiny, &cfg()), None);
    assert_eq!(mindestleistung_direktansteuerung(&boundary, &cfg()), None);

    assert_eq!(mindestleistung_ems(&[real, tiny], &cfg()), None);
    assert_eq!(mindestleistung_ems(&[real], &cfg()), Some(d(42, 1)), "the qualifying device alone still answers");
    assert_ne!(mindestleistung_ems(&[real, tiny], &cfg()), Some(d(756, 2)));
}

#[test]
fn the_flat_branch_matches_the_published_formula() {
    let f = d(42, 1);
    let cases = [
        (1usize, f),
        (2, add(f, mul(mul(d(1, 0), d(80, 2)), f))),
        (5, add(f, mul(mul(d(4, 0), d(65, 2)), f))),
        (9, add(f, mul(mul(d(8, 0), d(45, 2)), f))),
        (12, add(f, mul(mul(d(11, 0), d(45, 2)), f))),
    ];
    for (n, expected) in cases {
        let devices = vec![SteuVe::new(F::Ladepunkt, d(11, 0)); n];
        assert_eq!(mindestleistung_ems(&devices, &cfg()), Some(expected), "n = {n}");
    }
}

#[test]
fn the_scaled_branch_takes_the_maximum_of_the_two_group_sums() {
    let devices = [SteuVe::new(F::Waermepumpe, d(20, 0)), SteuVe::new(F::Raumkuehlung, d(15, 0))];
    let gzf = d(80, 2);
    let expected = add(d(80, 1), mul(mul(d(1, 0), gzf), d(42, 1)));
    assert_eq!(mindestleistung_ems(&devices, &cfg()), Some(expected));
    let wrong = add(d(140, 1), mul(mul(d(1, 0), gzf), d(42, 1)));
    assert_ne!(mindestleistung_ems(&devices, &cfg()), Some(wrong));
}

#[test]
fn the_sums_cover_the_whole_group_but_the_branch_needs_one_over_the_threshold() {
    let ungrouped = vec![SteuVe::new(F::Waermepumpe, d(5, 0)); 3];
    let flat = add(d(42, 1), mul(mul(d(2, 0), d(75, 2)), d(42, 1)));
    assert_eq!(mindestleistung_ems(&ungrouped, &cfg()), Some(flat));

    let grouped = [SteuVe::new(F::Waermepumpe, d(15, 0))];
    assert_eq!(mindestleistung_ems(&grouped, &cfg()), Some(d(60, 1)));

    let mixed = [SteuVe::new(F::Waermepumpe, d(20, 0)), SteuVe::new(F::Waermepumpe, d(5, 0))];
    let expected = add(mul(d(4, 1), d(25, 0)), mul(mul(d(1, 0), d(80, 2)), d(42, 1)));
    assert_eq!(mindestleistung_ems(&mixed, &cfg()), Some(expected));
}

#[test]
fn an_empty_set_has_no_floor() {
    assert_eq!(mindestleistung_ems(&[], &cfg()), None);
    assert_eq!(checked_mindestleistung_ems(&[], &cfg()), Some(None));
}

#[test]
fn the_gleichzeitigkeitsfaktor_table_is_the_published_one() {
    let published = [
        (2u32, d(80, 2)),
        (3, d(75, 2)),
        (4, d(70, 2)),
        (5, d(65, 2)),
        (6, d(60, 2)),
        (7, d(55, 2)),
        (8, d(50, 2)),
        (9, d(45, 2)),
    ];
    for (n, gzf) in published {
        assert_eq!(gleichzeitigkeitsfaktor(n), Some(gzf), "n = {n}");
    }
    for n in [10u32, 25, 1_000] {
        assert_eq!(gleichzeitigkeitsfaktor(n), Some(d(45, 2)), "n = {n}");
    }
    assert_eq!(gleichzeitigkeitsfaktor(0), None);
    assert_eq!(gleichzeitigkeitsfaktor(1), None);
}

#[test]
fn the_ems_floor_is_monotone_in_the_device_count() {
    let mut previous = Dec::zero();
    for n in 1..=12usize {
        let devices = vec![SteuVe::new(F::Ladepunkt, d(11, 0)); n];
        let floor = mindestleistung_ems(&devices, &cfg()).expect("non-empty");
        assert!(floor.ge(&previous), "n = {n}");
        assert!(floor.ge(&d(42, 1)), "n = {n}: below the single-device floor");
        previous = floor;
    }
}

#[test]
fn the_conservative_convention_never_understates_the_share() {
    let cases = [
        (d(10, 0), d(6, 0), d(8, 0)),
        (d(3, 0), d(6, 0), d(2, 0)),
        (d(0, 0), d(6, 0), d(8, 0)),
        (d(14, 0), d(6, 0), d(8, 0)),
    ];
    for (netz, steuve, uebrige) in cases {
        let a = netzwirksamer_leistungsbezug(netz, steuve, None, Verursachungsregel::SteuVeZuletzt).unwrap();
        let b = netzwirksamer_leistungsbezug(netz, steuve, Some(uebrige), Verursachungsregel::Anteilig).unwrap();
        assert!(a.ge(&b), "{netz:?}/{steuve:?}/{uebrige:?}");
        for share in [a, b] {
            assert!(share.le(&steuve) && share.le(&netz.max(Dec::zero())));
            assert!(share.ge(&Dec::zero()));
        }
    }
}

#[test]
fn an_exporting_installation_draws_nothing_from_the_grid() {
    assert_eq!(netzwirksamer_leistungsbezug(d(-4, 0), d(6, 0), None, Verursachungsregel::SteuVeZuletzt), Some(Dec::zero()));
    assert_eq!(netzwirksamer_leistungsbezug(d(-4, 0), d(6, 0), Some(d(8, 0)), Verursachungsregel::Anteilig), Some(Dec::zero()));
}

#[test]
fn pro_rata_refuses_to_guess_the_rest_of_the_installation() {
    assert_eq!(netzwirksamer_leistungsbezug(d(10, 0), d(6, 0), None, Verursachungsregel::Anteilig), None);
    assert_eq!(
        netzwirksamer_leistungsbezug(Dec::zero(), Dec::zero(), Some(Dec::zero()), Verursachungsregel::Anteilig),
        Some(Dec::zero()),
    );
}

#[test]
fn a_reduction_is_bounded_below_by_the_mindestleistung() {
    let devices = [SteuVe::new(F::Ladepunkt, d(11, 0)), SteuVe::new(F::Waermepumpe, d(20, 0))];
    let floor = mindestleistung_ems(&devices, &cfg()).unwrap();
    assert_eq!(floor, d(11360, 3));

    let drawn = netzwirksamer_leistungsbezug(d(31, 0), d(31, 0), None, Verursachungsregel::SteuVeZuletzt).unwrap();
    assert!(drawn.gt(&floor), "there is headroom to reduce");
    assert_eq!(drawn.checked_sub(&floor), Some(d(19640, 3)), "the abregelbare Leistung");
}

#[test]
fn the_worked_example_of_the_two_conventions() {
    let conservative = netzwirksamer_leistungsbezug(d(10, 0), d(6, 0), None, Verursachungsregel::SteuVeZuletzt);
    assert_eq!(conservative, Some(d(6, 0)));
    let pro_rata = netzwirksamer_leistungsbezug(d(10, 0), d(6, 0), Some(d(8, 0)), Verursachungsregel::Anteilig);
    assert!(pro_rata.unwrap().lt(&d(43, 1)));
    let wp = SteuVe::new(F::Waermepumpe, d(20, 0));
    assert_eq!(mindestleistung_direktansteuerung(&wp, &cfg()), Some(d(80, 1)));
    let plain = [SteuVe::new(F::Ladepunkt, d(11, 0)), SteuVe::new(F::Waermepumpe, d(9, 0)), SteuVe::new(F::Stromspeicher, d(10, 0))];
    assert_eq!(mindestleistung_ems(&plain, &cfg()), Some(d(10500, 3)));
}
