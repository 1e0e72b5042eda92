use metering::calendar::{
    day_end_utc, day_kind, day_length, day_start_utc, days_between, days_in_month, days_in_year,
    dst_transition_utc, gas_day_start_utc, intervals_between, intervals_in_day, intervals_in_month,
    intervals_in_year, is_leap_year, local_day, local_gas_day, local_month, local_year,
    month_end_utc, month_length, month_start_utc, shift_back_days, shift_back_one_year, to_berlin,
    year_end_utc, year_length, year_start_utc, CalendarDate, DayBoundary, DayKind, Weekday,
};
use metering::resolution::IntervalResolution;

fn date(year: i32, month: u8, day: u8) -> CalendarDate {
    CalendarDate::new(year, month, day).expect("a real date")
}

/// The Unix instant of a UTC wall-clock time.
fn utc(year: i64, month: i64, day: i64, hour: i64, minute: i64) -> i64 {
    let y = if month <= 2 { year - 1 } else { year };
    let era = y.div_euclid(400);
    let yoe = y - era * 400;
    let mp = if month <= 2 { month + 9 } else { month - 3 };
    let doy = (153 * mp + 2) / 5 + day - 1;
    let days = era * 146_097 + yoe * 365 + yoe / 4 - yoe / 100 + doy - 719_468;
    days * 86_400 + hour * 3_600 + minute * 60
}

fn next_day(d: CalendarDate) -> CalendarDate {
    d.checked_add_days(1).unwrap()
}

const HOUR: i64 = 3_600;

#[test]
fn dst_transition_days_are_23_and_25_hours() {
    assert_eq!(day_length(date(2026, 3, 29)) / 3600, 23);
    assert_eq!(day_length(date(2026, 7, 20)) / 3600, 24);
    assert_eq!(day_length(date(2026, 10, 25)) / 3600, 25);
    assert_eq!(intervals_in_day(date(2026, 3, 29), IntervalResolution::QuarterHour), Some(92));
    assert_eq!(intervals_in_day(date(2026, 10, 25), IntervalResolution::QuarterHour), Some(100));
    assert_eq!(intervals_in_day(date(2026, 7, 20), IntervalResolution::QuarterHour), Some(96));
    assert_eq!(day_kind(date(2026, 3, 29)), DayKind::ShortDay);
    assert_eq!(day_kind(date(2026, 10, 25)), DayKind::LongDay);
    assert_eq!(day_kind(date(2026, 7, 20)), DayKind::Normal);
    assert!(DayKind::ShortDay.is_dst_transition());
    assert!(!DayKind::Normal.is_dst_transition());
}

#[test]
fn dst_months_are_not_whole_days() {
    assert_eq!(intervals_in_month(date(2026, 3, 1), IntervalResolution::QuarterHour), Some(2_972));
    assert_eq!(intervals_in_month(date(2026, 10, 1), IntervalResolution::QuarterHour), Some(2_980));
    assert_eq!(month_length(date(2026, 3, 15)), 31 * 86_400 - 3_600);
    assert_eq!(intervals_in_month(date(2026, 2, 10), IntervalResolution::Day), Some(28));
    assert_eq!(intervals_in_month(date(2028, 2, 10), IntervalResolution::Day), Some(29));
}

#[test]
fn years_account_for_leap_days() {
    assert_eq!(days_in_year(2026), 365);
    assert_eq!(days_in_year(2028), 366);
    assert!(!is_leap_year(2026));
    assert!(is_leap_year(2028));
    assert!(is_leap_year(2000));
    assert!(!is_leap_year(1900));
    assert_eq!(intervals_in_year(2026, IntervalResolution::QuarterHour), Some(365 * 96));
    assert_eq!(intervals_in_year(2028, IntervalResolution::QuarterHour), Some(366 * 96));
    assert_eq!(intervals_in_year(2026, IntervalResolution::Day), Some(365));
    assert_eq!(intervals_in_year(2026, IntervalResolution::Month), Some(12));
    assert_eq!(year_length(2026), 365 * 86_400);
}

#[test]
fn day_boundaries_are_local_not_utc() {
    // 2026-01-15 00:00 CET is 2026-01-14 23:00 UTC.
    assert_eq!(day_start_utc(date(2026, 1, 15)), 1_768_431_600);
    // 2026-07-15 00:00 CEST is 2026-07-14 22:00 UTC.
    assert_eq!(day_start_utc(date(2026, 7, 15)), 1_784_066_400);
    assert_eq!(gas_day_start_utc(date(2026, 1, 15)), 1_768_453_200);
    assert_eq!(DayBoundary::Gastag.day_start_utc(date(2026, 1, 15)), 1_768_453_200);
}

#[test]
fn gas_days_run_0600_to_0600_and_tile() {
    let g = DayBoundary::Gastag;
    let d = date(2026, 3, 28);
    assert_eq!(g.day_end_utc(d), g.day_start_utc(date(2026, 3, 29)));
    assert_eq!(g.day_length(d) / 3600, 23, "the short Gastag is named after the Saturday");
    assert_eq!(g.intervals_in_day(date(2026, 10, 24), IntervalResolution::Hour), Some(25));
}

#[test]
fn coarse_resolutions_have_no_sub_day_count() {
    assert_eq!(intervals_in_day(date(2026, 1, 1), IntervalResolution::Month), None);
    assert_eq!(intervals_in_day(date(2026, 1, 1), IntervalResolution::Year), None);
    assert_eq!(intervals_in_day(date(2026, 1, 1), IntervalResolution::Day), Some(1));
    assert_eq!(intervals_in_month(date(2026, 1, 1), IntervalResolution::Year), None);
}

#[test]
fn uneven_resolutions_do_not_divide() {
    let seven_minutes = IntervalResolution::from_seconds(420).unwrap();
    assert_eq!(intervals_in_day(date(2026, 7, 20), seven_minutes), None);
    let five_minutes = IntervalResolution::from_seconds(300).unwrap();
    assert_eq!(intervals_in_day(date(2026, 7, 20), five_minutes), Some(288));
}

#[test]
fn weekdays_and_day_arithmetic() {
    assert_eq!(date(1970, 1, 1).weekday(), Weekday::Thursday);
    assert_eq!(date(2026, 6, 4).weekday(), Weekday::Thursday);
    assert_eq!(date(2024, 2, 28).checked_add_days(1), Some(date(2024, 2, 29)));
    assert_eq!(date(2025, 2, 28).checked_add_days(1), Some(date(2025, 3, 1)));
    assert_eq!(date(2026, 1, 1).checked_add_days(-1), Some(date(2025, 12, 31)));
    assert_eq!(date(9999, 12, 31).checked_add_days(1), None);
    assert_eq!(CalendarDate::new(2025, 2, 29), None);
    assert_eq!(CalendarDate::new(2026, 13, 1), None);
    assert_eq!(days_in_month(date(2024, 2, 1)), 29);
    assert!(date(2026, 1, 31).is_before(date(2026, 2, 1)));
}

/// Consecutive days must tile the timeline exactly, including across both
/// transitions — no gap, no overlap, no lost quarter-hour.
#[test]
fn days_tile_the_year_without_gaps() {
    let mut day = date(2026, 1, 1);
    let mut cursor = day_start_utc(day);
    let mut quarters = 0u32;
    while day.year == 2026 {
        assert_eq!(day_start_utc(day), cursor, "{day:?} must start where the previous ended");
        quarters += intervals_in_day(day, IntervalResolution::QuarterHour)
            .unwrap_or_else(|| panic!("{day:?} must divide into quarter-hours"));
        cursor = day_end_utc(day);
        day = next_day(day);
    }
    assert_eq!(cursor, year_end_utc(2026));
    assert_eq!(quarters, 365 * 96, "the transitions cancel over a full year");
}

#[test]
fn month_and_year_boundaries_are_local() {
    assert_eq!(month_start_utc(date(2026, 3, 17)), utc(2026, 2, 28, 23, 0), "March starts at 00:00 CET");
    assert_eq!(month_end_utc(date(2026, 3, 17)), utc(2026, 3, 31, 22, 0), "April starts at 00:00 CEST");
    assert_eq!(year_start_utc(2026), utc(2025, 12, 31, 23, 0));
    assert_eq!(
        local_month(utc(2026, 2, 28, 23, 30)),
        date(2026, 3, 1),
        "23:30 UTC on 28 Feb is already 1 March in Berlin"
    );
    assert_eq!(local_year(utc(2025, 12, 31, 23, 30)), 2026);
}

#[test]
fn intervals_between_is_fixed_resolution_only() {
    let from = utc(2026, 1, 1, 0, 0);
    let to = utc(2026, 1, 1, 6, 0);
    assert_eq!(intervals_between(from, to, IntervalResolution::QuarterHour), Some(24));
    assert_eq!(intervals_between(to, from, IntervalResolution::Hour), None);
    assert_eq!(intervals_between(from, to, IntervalResolution::Month), None);
}

#[test]
fn days_between_counts_calendar_days_not_durations() {
    let from = day_start_utc(date(2026, 3, 23));
    let to = day_start_utc(date(2026, 4, 6));
    assert_eq!((to - from) / 86_400, 13, "the naive count truncates");
    assert_eq!(days_between(from, to), 14, "fourteen calendar days");

    let autumn_from = day_start_utc(date(2026, 10, 19));
    let autumn_to = day_start_utc(date(2026, 11, 2));
    assert_eq!(days_between(autumn_from, autumn_to), 14);

    assert_eq!(
        days_between(utc(2026, 6, 1, 5, 0), utc(2026, 6, 8, 23, 0)),
        8,
        "23:00 UTC on the 8th is already the 9th in Berlin"
    );
    assert_eq!(days_between(to, from), -14);
}

#[test]
fn shifting_back_a_year_keeps_the_local_clock_time() {
    assert_eq!(shift_back_one_year(utc(2026, 7, 15, 10, 0)), utc(2025, 7, 15, 10, 0));

    let source = utc(2026, 1, 15, 23, 30);
    let winter = shift_back_one_year(source);
    assert_eq!(local_day(winter), date(2025, 1, 16));
    let (a, b) = (to_berlin(winter), to_berlin(source));
    assert_eq!((a.hour, a.minute, a.second), (b.hour, b.minute, b.second));

    let leap_day = day_start_utc(date(2028, 2, 29));
    assert_eq!(local_day(shift_back_one_year(leap_day)), date(2027, 2, 28));

    let after_leap = day_start_utc(date(2029, 1, 15));
    assert_eq!(
        local_day(shift_back_one_year(after_leap)),
        date(2028, 1, 15),
        "the calendar shift lands on the anniversary"
    );
    assert_eq!(
        local_day(after_leap - 365 * 86_400),
        date(2028, 1, 16),
        "the naive shift drifts by the leap day"
    );
}

#[test]
fn dst_transitions_are_located_to_the_instant() {
    for (day, expected) in [
        (date(2026, 3, 29), Some(utc(2026, 3, 29, 1, 0))),
        (date(2026, 10, 25), Some(utc(2026, 10, 25, 1, 0))),
        (date(2025, 10, 26), Some(utc(2025, 10, 26, 1, 0))),
        (date(2026, 7, 20), None),
        (date(2026, 1, 15), None),
    ] {
        assert_eq!(dst_transition_utc(day), expected, "{day:?}");
    }

    let t = dst_transition_utc(date(2026, 10, 25)).unwrap();
    let before = to_berlin(t - 30 * 60);
    let after = to_berlin(t + 30 * 60);
    assert_eq!(before.hour, 2);
    assert_eq!(after.hour, 2);
    assert_ne!(before.offset_seconds, after.offset_seconds);
}

#[test]
fn historical_transitions_come_from_the_tz_database() {
    assert_eq!(day_length(date(1980, 4, 6)) / HOUR, 23);
    assert_eq!(day_length(date(1980, 3, 30)) / HOUR, 24);
}

#[test]
fn shifting_back_days_keeps_the_local_clock_time() {
    let plain = utc(2026, 6, 17, 10, 0);
    assert_eq!(plain - shift_back_days(plain, 7), 168 * HOUR);

    let autumn = utc(2026, 10, 28, 11, 0);
    let back = shift_back_days(autumn, 7);
    assert_eq!(back, utc(2026, 10, 21, 10, 0));
    assert_eq!(autumn - back, 169 * HOUR);
    let (a, b) = (to_berlin(back), to_berlin(autumn));
    assert_eq!((a.hour, a.minute, a.second), (b.hour, b.minute, b.second));

    let spring = utc(2026, 4, 1, 10, 0);
    assert_eq!(spring - shift_back_days(spring, 7), 167 * HOUR);

    assert_eq!(shift_back_days(plain, 0), plain);
}

#[test]
fn a_skipped_local_time_is_pushed_forward_by_the_gap() {
    let back = shift_back_days(utc(2026, 3, 30, 0, 30), 1);
    assert_eq!(back, utc(2026, 3, 29, 1, 30));
    let local = to_berlin(back);
    assert_eq!(local.date, date(2026, 3, 29));
    assert_eq!(local.hour, 3);
    assert_eq!(local.minute, 30);

    let year = shift_back_one_year(utc(2027, 3, 29, 0, 30));
    assert_eq!(year, utc(2026, 3, 29, 1, 30));
    assert_eq!(to_berlin(year).hour, 3, "{year}");

    for minute in [0i64, 15, 30, 45] {
        let src = utc(2026, 3, 30, 0, 0) + minute * 60;
        let shifted = shift_back_days(src, 1);
        assert!(shifted < src, "the shift must go back a day");
        assert!(to_berlin(shifted).hour >= 2, "a skipped hour resolves forward, not back: {shifted}");
    }
}

#[test]
fn an_ambiguous_local_time_resolves_to_the_earlier_pass() {
    let back = shift_back_days(utc(2026, 10, 26, 1, 30), 1);
    assert_eq!(back, utc(2026, 10, 25, 0, 30));
    assert_eq!(to_berlin(back).offset_seconds, 7_200);
}

#[test]
fn day_boundaries_cut_the_same_day_two_ways() {
    let day = date(2026, 1, 15);
    assert_eq!(DayBoundary::Midnight.day_start_utc(day), utc(2026, 1, 14, 23, 0));
    assert_eq!(DayBoundary::Gastag.day_start_utc(day), utc(2026, 1, 15, 5, 0));
    assert_eq!(DayBoundary::default(), DayBoundary::Midnight);

    for boundary in DayBoundary::ALL {
        let mut cursor = boundary.day_start_utc(date(2026, 10, 23));
        let mut d = date(2026, 10, 23);
        while d.is_before(date(2026, 10, 28)) {
            assert_eq!(boundary.day_start_utc(d), cursor, "{boundary:?} {d:?}");
            assert_eq!(boundary.local_day(cursor), d, "{boundary:?} {d:?}");
            cursor = boundary.day_end_utc(d);
            d = next_day(d);
        }
    }

    assert_eq!(DayBoundary::Midnight.day_length(date(2026, 10, 25)) / HOUR, 25);
    assert_eq!(DayBoundary::Gastag.day_length(date(2026, 10, 24)) / HOUR, 25);
}

#[test]
fn the_berlin_day_of_an_instant_is_local() {
    assert_eq!(local_day(utc(2026, 7, 14, 23, 30)), date(2026, 7, 15));
    assert_eq!(local_gas_day(utc(2026, 7, 15, 4, 30)), date(2026, 7, 15));
    assert_eq!(local_gas_day(utc(2026, 7, 15, 3, 30)), date(2026, 7, 14));
    let t = to_berlin(utc(2026, 1, 1, 12, 34));
    assert_eq!((t.hour, t.minute, t.offset_seconds), (13, 34, 3_600));
}

#[test]
fn buckets_snap_onto_the_grid_or_the_calendar() {
    let ts = utc(2026, 6, 1, 12, 7);
    assert_eq!(
        DayBoundary::Midnight.bucket_bounds(ts, IntervalResolution::QuarterHour),
        (utc(2026, 6, 1, 12, 0), utc(2026, 6, 1, 12, 15))
    );
    assert_eq!(
        DayBoundary::Midnight.bucket_bounds(ts, IntervalResolution::Day),
        (utc(2026, 5, 31, 22, 0), utc(2026, 6, 1, 22, 0))
    );
    assert_eq!(
        DayBoundary::Gastag.bucket_bounds(ts, IntervalResolution::Month),
        (utc(2026, 6, 1, 4, 0), utc(2026, 7, 1, 4, 0))
    );
    let (from, to) = DayBoundary::Midnight.bilanzierungsmonat(2026, 3);
    assert_eq!(from, utc(2026, 2, 28, 23, 0));
    assert_eq!(to, utc(2026, 3, 31, 22, 0));
    assert_eq!((to - from) / HOUR, 31 * 24 - 1);
    let (gas_from, gas_to) = DayBoundary::Gastag.bilanzierungsmonat(2026, 3);
    assert_eq!(gas_from, utc(2026, 3, 1, 5, 0));
    assert_eq!(gas_to, utc(2026, 4, 1, 4, 0));
}

#[test]
fn the_first_supported_day_resolves_without_panicking() {
    let first = metering::calendar::CalendarDate::new(-9999, 1, 1).unwrap();
    // Berlin kept local mean time, +00:53:28, before 1893.
    assert_eq!(metering::calendar::day_start_utc(first), -377_705_116_800 - 3208);
    assert_eq!(metering::calendar::dst_transition_utc(first), None);
    let last = metering::calendar::CalendarDate::new(9999, 12, 31).unwrap();
    assert_eq!(metering::calendar::dst_transition_utc(last), None);
}
