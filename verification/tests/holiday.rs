use metering::calendar::{CalendarDate, Weekday};
use metering::holiday::{easter_sunday, slp_day_type, Bundesland, Holiday};
use metering::load_profile::SlpDayType;

fn date(year: i32, month: u8, day: u8) -> CalendarDate {
    CalendarDate::new(year, month, day).expect("a real date")
}

#[test]
fn easter_matches_the_published_dates() {
    let cases = [
        (2020, date(2020, 4, 12)),
        (2021, date(2021, 4, 4)),
        (2022, date(2022, 4, 17)),
        (2023, date(2023, 4, 9)),
        (2024, date(2024, 3, 31)),
        (2025, date(2025, 4, 20)),
        (2026, date(2026, 4, 5)),
        (2027, date(2027, 3, 28)),
        (2028, date(2028, 4, 16)),
        (2030, date(2030, 4, 21)),
        (2038, date(2038, 4, 25)),
        (2285, date(2285, 3, 22)),
    ];
    for (year, expected) in cases {
        assert_eq!(easter_sunday(year), Some(expected), "Easter {year}");
    }
}

#[test]
fn easter_is_always_a_sunday_in_range() {
    for year in 1900..2200 {
        let e = easter_sunday(year).expect("in range");
        assert_eq!(e.weekday(), Weekday::Sunday, "{year}");
        assert!(
            !e.is_before(date(year, 3, 22)) && !date(year, 4, 25).is_before(e),
            "{year}: {e:?}"
        );
    }
}

#[test]
fn movable_feasts_2026() {
    assert_eq!(Holiday::Karfreitag.date_in(2026), Some(date(2026, 4, 3)));
    assert_eq!(Holiday::Ostermontag.date_in(2026), Some(date(2026, 4, 6)));
    assert_eq!(Holiday::ChristiHimmelfahrt.date_in(2026), Some(date(2026, 5, 14)));
    assert_eq!(Holiday::Pfingstmontag.date_in(2026), Some(date(2026, 5, 25)));
    assert_eq!(Holiday::Fronleichnam.date_in(2026), Some(date(2026, 6, 4)));
}

#[test]
fn buss_und_bettag_is_the_wednesday_before_the_23rd() {
    let cases = [
        (2022, date(2022, 11, 16)),
        (2023, date(2023, 11, 22)),
        (2024, date(2024, 11, 20)),
        (2025, date(2025, 11, 19)),
        (2026, date(2026, 11, 18)),
        (2027, date(2027, 11, 17)),
        (2028, date(2028, 11, 22)),
    ];
    for (year, expected) in cases {
        let d = Holiday::BussUndBettag.date_in(year).expect("in range");
        assert_eq!(d, expected, "Buß- und Bettag {year}");
        assert_eq!(d.weekday(), Weekday::Wednesday);
        assert!((16..=22).contains(&d.day), "{d:?} must fall in 16–22 Nov");
    }
}

#[test]
fn regional_holidays_are_regional() {
    let fronleichnam = date(2026, 6, 4);
    for land in [Bundesland::Bw, Bundesland::By, Bundesland::He, Bundesland::Nw, Bundesland::Rp, Bundesland::Sl] {
        assert!(land.is_holiday(fronleichnam), "{} observes Fronleichnam", land.as_str());
    }
    for land in [Bundesland::Be, Bundesland::Hh, Bundesland::Ni] {
        assert!(!land.is_holiday(fronleichnam), "{} does not", land.as_str());
    }
    let buss = date(2026, 11, 18);
    assert!(Bundesland::Sn.is_holiday(buss));
    assert_eq!(Bundesland::ALL.iter().filter(|l| l.is_holiday(buss)).count(), 1);
    let reformation = date(2026, 10, 31);
    assert_eq!(Bundesland::ALL.iter().filter(|l| l.is_holiday(reformation)).count(), 9);
}

#[test]
fn the_nationwide_nine_hold_everywhere() {
    for h in Holiday::NATIONWIDE {
        assert!(h.is_nationwide(), "{}", h.name());
        let d = h.date_in(2026).expect("in range");
        for land in Bundesland::ALL {
            assert!(land.is_holiday(d), "{} in {}", h.name(), land.as_str());
        }
    }
    for land in Bundesland::ALL {
        let n = land.holidays_in_year(2026).len();
        assert!(n >= 9, "{} has only {n} holidays", land.as_str());
    }
    assert_eq!(Bundesland::By.holidays_in_year(2026).len(), 12);
    assert_eq!(Bundesland::Be.holidays_in_year(2026).len(), 10);
}

#[test]
fn holidays_in_year_are_sorted() {
    let list = Bundesland::By.holidays_in_year(2026);
    assert!(list.windows(2).all(|w| w[0].0 <= w[1].0));
    assert_eq!(list.first().unwrap().1, Holiday::Neujahr);
    assert_eq!(list.last().unwrap().1, Holiday::ZweiterWeihnachtstag);
}

#[test]
fn slp_day_types_follow_the_land_calendar() {
    let fronleichnam = date(2026, 6, 4);
    assert_eq!(slp_day_type(fronleichnam, Bundesland::By), SlpDayType::SonnFeiertag);
    assert_eq!(
        slp_day_type(fronleichnam, Bundesland::Be),
        SlpDayType::Werktag,
        "a Berlin Fronleichnam is an ordinary Thursday"
    );
    assert_eq!(slp_day_type(date(2026, 6, 6), Bundesland::Be), SlpDayType::Samstag);
    assert_eq!(slp_day_type(date(2026, 6, 7), Bundesland::Be), SlpDayType::SonnFeiertag);
    assert_eq!(date(2026, 8, 15).weekday(), Weekday::Saturday);
    assert_eq!(slp_day_type(date(2026, 8, 15), Bundesland::Sl), SlpDayType::SonnFeiertag);
    assert_eq!(slp_day_type(date(2026, 8, 15), Bundesland::Nw), SlpDayType::Samstag);
    assert_eq!(slp_day_type(date(2026, 12, 24), Bundesland::Be), SlpDayType::Werktag);
}

#[test]
fn coinciding_holidays_are_both_reported() {
    let both: Vec<_> = Holiday::on(date(2008, 5, 1));
    assert_eq!(both, vec![Holiday::TagDerArbeit, Holiday::ChristiHimmelfahrt]);
    assert_eq!(Bundesland::Be.holiday(date(2008, 5, 1)), Some(Holiday::TagDerArbeit));
}

#[test]
fn bundesland_codes_round_trip() {
    assert_eq!(Bundesland::ALL.len(), Bundesland::codes().len());
    for (land, code) in Bundesland::ALL.iter().zip(Bundesland::codes()) {
        assert_eq!(land.as_str(), *code);
        assert_eq!(&land.to_string().parse::<Bundesland>().unwrap(), land);
        assert!(!land.name().is_empty());
    }
    let unique: std::collections::BTreeSet<_> = Bundesland::codes().iter().collect();
    assert_eq!(unique.len(), Bundesland::codes().len());
    assert_eq!("de-by".parse::<Bundesland>().unwrap(), Bundesland::By);
    assert_eq!("  ni ".parse::<Bundesland>().unwrap(), Bundesland::Ni);
    assert!("XX".parse::<Bundesland>().is_err());
}

#[test]
fn scope_accessors_agree() {
    for h in Holiday::ALL {
        assert!(!h.name().is_empty());
        assert!(h.date_in(2026).is_some(), "{}", h.name());
        for land in Bundesland::ALL {
            assert_eq!(h.applies_in(land), h.laender().contains(&land), "{}/{}", h.name(), land.as_str());
        }
        assert_eq!(h.is_nationwide(), Holiday::NATIONWIDE.contains(&h), "{} nationwide flag", h.name());
    }
}

#[test]
fn a_date_outside_the_supported_years_has_no_holiday() {
    assert_eq!(easter_sunday(10_000), None);
    assert_eq!(Holiday::Neujahr.date_in(-10_000), None);
    assert_eq!(Holiday::Neujahr.date_in(2026), Some(date(2026, 1, 1)));
    assert_eq!(Holiday::on(CalendarDate { year: 2026, month: 2, day: 30 }), Vec::<Holiday>::new());
}
