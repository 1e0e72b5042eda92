//! The calendar the German market settles on: dates of the proleptic
//! Gregorian calendar ([`CalendarDate`]) with their weekdays and day
//! arithmetic, leap years and month lengths, the [`DayBoundary`] a metering
//! day begins at and the [`DayKind`] of a day with respect to DST.
//!
//! A date counts the days since 1970-01-01 ([`day_number`]); weekdays and
//! day arithmetic are read off that count, so "n days later" and "the same
//! weekday a week later" are statements about integers.

use time_tz::{Offset as _, PrimitiveDateTimeExt as _, TimeZone as _};
use vstd::prelude::*;
use vstd::arithmetic::div_mod::{lemma_fundamental_div_mod, lemma_fundamental_div_mod_converse};

use crate::error::{Expected, ParseError};
use crate::resolution::IntervalResolution;
use crate::text::{
    lemma_code_is_canonical, str_eq,
    to_uppercase, trim, trimmed, uppercased,
};

verus! {
/// Where a metering day begins, in Europe/Berlin local time.
#[derive(Debug, Default, Clone, Copy, PartialEq, Eq, Hash, Structural)]
pub enum DayBoundary {
    /// 00:00 Europe/Berlin — the Liefertag of the electricity market.
    #[default]
    Midnight,
    /// 06:00 Europe/Berlin — the Gastag of the gas market.
    Gastag,
}

impl DayBoundary {
    /// Every variant, in declaration order.
    pub const ALL: [Self; 2] = [Self::Midnight, Self::Gastag];

    /// Every code [`as_str`](Self::as_str) writes, in the order of `ALL`.
    pub fn codes() -> (r: &'static [&'static str])
        ensures
            Self::spec_is_codes(r@),
    {
        &["MIDNIGHT", "GASTAG"]
    }

    /// `c` lists the codes of `ALL`, in order.
    pub open spec fn spec_is_codes(c: Seq<&'static str>) -> bool {
        &&& c.len() == 2
        &&& c[0]@ == Self::Midnight.spec_as_str()
        &&& c[1]@ == Self::Gastag.spec_as_str()
    }

    pub open spec fn spec_as_str(self) -> Seq<char> {
        match self {
            Self::Midnight => "MIDNIGHT"@,
            Self::Gastag => "GASTAG"@,
        }
    }

    /// Stable DB/wire label; the `FromStr` input and the code `to_string` writes.
    pub fn as_str(self) -> (r: &'static str)
        ensures
            r@ == self.spec_as_str(),
    {
        match self {
            Self::Midnight => "MIDNIGHT",
            Self::Gastag => "GASTAG",
        }
    }

    /// The code as an owned string (what `Display` writes).
    pub fn to_string(&self) -> (r: String)
        ensures
            r@ == self.spec_as_str(),
    {
        self.as_str().to_owned()
    }

    /// The variant whose code is exactly `s`.
    pub open spec fn spec_from_code(s: Seq<char>) -> Option<Self> {
        if s == "MIDNIGHT"@ {
            Some(Self::Midnight)
        } else if s == "GASTAG"@ {
            Some(Self::Gastag)
        } else {
            None
        }
    }

    /// The variant whose code is exactly `s`, case and whitespace included.
    pub fn from_code(s: &str) -> (r: Option<Self>)
        ensures
            r == Self::spec_from_code(s@),
    {
        if str_eq(s, "MIDNIGHT") {
            Some(Self::Midnight)
        } else if str_eq(s, "GASTAG") {
            Some(Self::Gastag)
        } else {
            None
        }
    }

    /// What parsing `s` yields: surrounding whitespace is ignored and the
    /// comparison is case-insensitive.
    pub open spec fn spec_parse(s: Seq<char>) -> Option<Self> {
        let t = trimmed(s);
        let u = uppercased(t);
        Self::spec_from_code(u)
    }

    /// Parses a code, ignoring surrounding whitespace and case.
    pub fn parse_code(s: &str) -> (r: Result<Self, ParseError>)
        ensures
            match r {
                Ok(v) => Self::spec_parse(s@) == Some(v),
                Err(e) => {
                    &&& Self::spec_parse(s@).is_none()
                    &&& e.spec_type_label() == "DayBoundary"@
                    &&& e.spec_input() == s@
                    &&& e.spec_expected() matches Expected::OneOf(c) && Self::spec_is_codes(c@)
                },
            },
    {
        let t = trim(s);
        let u = to_uppercase(t);
        match Self::from_code(u.as_str()) {
            Some(v) => Ok(v),
            None => Err(ParseError::one_of("DayBoundary", s, Self::codes())),
        }
    }

    /// Parsing the code of a variant gives the variant back.
    pub proof fn lemma_parse_as_str(v: Self)
        ensures
            Self::spec_parse(v.spec_as_str()) == Some(v),
    {
        match v {
            Self::Midnight => {
                reveal_strlit("MIDNIGHT");
                lemma_code_is_canonical("MIDNIGHT"@);
            },
            Self::Gastag => {
                reveal_strlit("GASTAG");
                reveal_strlit("MIDNIGHT");
                lemma_code_is_canonical("GASTAG"@);
            },
        }
    }
}

impl std::str::FromStr for DayBoundary {
    type Err = ParseError;

    fn from_str(s: &str) -> (r: Result<DayBoundary, ParseError>)
        ensures
            match r {
                Ok(v) => Self::spec_parse(s@) == Some(v),
                Err(e) => {
                    &&& Self::spec_parse(s@).is_none()
                    &&& e.spec_type_label() == "DayBoundary"@
                    &&& e.spec_input() == s@
                    &&& e.spec_expected() matches Expected::OneOf(c) && Self::spec_is_codes(c@)
                },
            },
    {
        DayBoundary::parse_code(s)
    }
}

/// What kind of Berlin calendar day this is, with respect to DST.
#[derive(Debug, Clone, Copy, PartialEq, Eq, Hash, Structural)]
pub enum DayKind {
    /// An ordinary 24-hour day.
    Normal,
    /// Spring forward — the day is 23 hours long (last Sunday in March).
    ShortDay,
    /// Fall back — the day is 25 hours long (last Sunday in October).
    LongDay,
}

impl DayKind {
    /// Every kind, in declaration order.
    pub const ALL: [Self; 3] = [Self::Normal, Self::ShortDay, Self::LongDay];

    /// Every code [`as_str`](Self::as_str) writes, in the order of `ALL`.
    pub fn codes() -> (r: &'static [&'static str])
        ensures
            Self::spec_is_codes(r@),
    {
        &["NORMAL", "SHORT_DAY", "LONG_DAY"]
    }

    /// `c` lists the codes of `ALL`, in order.
    pub open spec fn spec_is_codes(c: Seq<&'static str>) -> bool {
        &&& c.len() == 3
        &&& c[0]@ == Self::Normal.spec_as_str()
        &&& c[1]@ == Self::ShortDay.spec_as_str()
        &&& c[2]@ == Self::LongDay.spec_as_str()
    }

    pub open spec fn spec_as_str(self) -> Seq<char> {
        match self {
            Self::Normal => "NORMAL"@,
            Self::ShortDay => "SHORT_DAY"@,
            Self::LongDay => "LONG_DAY"@,
        }
    }

    /// Stable DB/wire label; the `FromStr` input and the code `to_string` writes.
    pub fn as_str(self) -> (r: &'static str)
        ensures
            r@ == self.spec_as_str(),
    {
        match self {
            Self::Normal => "NORMAL",
            Self::ShortDay => "SHORT_DAY",
            Self::LongDay => "LONG_DAY",
        }
    }

    /// The code as an owned string (what `Display` writes).
    pub fn to_string(&self) -> (r: String)
        ensures
            r@ == self.spec_as_str(),
    {
        self.as_str().to_owned()
    }

    /// The variant whose code is exactly `s`.
    pub open spec fn spec_from_code(s: Seq<char>) -> Option<Self> {
        if s == "NORMAL"@ {
            Some(Self::Normal)
        } else if s == "SHORT_DAY"@ {
            Some(Self::ShortDay)
        } else if s == "LONG_DAY"@ {
            Some(Self::LongDay)
        } else {
            None
        }
    }

    /// The variant whose code is exactly `s`, case and whitespace included.
    pub fn from_code(s: &str) -> (r: Option<Self>)
        ensures
            r == Self::spec_from_code(s@),
    {
        if str_eq(s, "NORMAL") {
            Some(Self::Normal)
        } else if str_eq(s, "SHORT_DAY") {
            Some(Self::ShortDay)
        } else if str_eq(s, "LONG_DAY") {
            Some(Self::LongDay)
        } else {
            None
        }
    }

    /// What parsing `s` yields: surrounding whitespace is ignored and the
    /// comparison is case-insensitive.
    pub open spec fn spec_parse(s: Seq<char>) -> Option<Self> {
        let t = trimmed(s);
        let u = uppercased(t);
        Self::spec_from_code(u)
    }

    /// Parses a code, ignoring surrounding whitespace and case.
    pub fn parse_code(s: &str) -> (r: Result<Self, ParseError>)
        ensures
            match r {
                Ok(v) => Self::spec_parse(s@) == Some(v),
                Err(e) => {
                    &&& Self::spec_parse(s@).is_none()
                    &&& e.spec_type_label() == "DayKind"@
                    &&& e.spec_input() == s@
                    &&& e.spec_expected() matches Expected::OneOf(c) && Self::spec_is_codes(c@)
                },
            },
    {
        let t = trim(s);
        let u = to_uppercase(t);
        match Self::from_code(u.as_str()) {
            Some(v) => Ok(v),
            None => Err(ParseError::one_of("DayKind", s, Self::codes())),
        }
    }

    /// Parsing the code of a variant gives the variant back.
    pub proof fn lemma_parse_as_str(v: Self)
        ensures
            Self::spec_parse(v.spec_as_str()) == Some(v),
    {
        match v {
            Self::Normal => {
                reveal_strlit("NORMAL");
                lemma_code_is_canonical("NORMAL"@);
            },
            Self::ShortDay => {
                reveal_strlit("NORMAL");
                reveal_strlit("SHORT_DAY");
                lemma_code_is_canonical("SHORT_DAY"@);
            },
            Self::LongDay => {
                reveal_strlit("LONG_DAY");
                reveal_strlit("NORMAL");
                reveal_strlit("SHORT_DAY");
                lemma_code_is_canonical("LONG_DAY"@);
            },
        }
    }
}

impl std::str::FromStr for DayKind {
    type Err = ParseError;

    fn from_str(s: &str) -> (r: Result<DayKind, ParseError>)
        ensures
            match r {
                Ok(v) => Self::spec_parse(s@) == Some(v),
                Err(e) => {
                    &&& Self::spec_parse(s@).is_none()
                    &&& e.spec_type_label() == "DayKind"@
                    &&& e.spec_input() == s@
                    &&& e.spec_expected() matches Expected::OneOf(c) && Self::spec_is_codes(c@)
                },
            },
    {
        DayKind::parse_code(s)
    }
}

impl DayKind {
    /// `true` for the two DST transition days.
    pub fn is_dst_transition(self) -> (r: bool)
        ensures
            r == !(self is Normal),
    {
        !matches!(self, Self::Normal)
    }
}

// ── dates ───────────────────────────────────────────────────────────────────

/// The earliest year a date may have.
pub const MIN_YEAR: i32 = -9999;

/// The latest year a date may have.
pub const MAX_YEAR: i32 = 9999;

/// A Gregorian leap year: divisible by 4, and by 400 when divisible by 100.
pub open spec fn spec_is_leap_year(year: int) -> bool {
    (year % 4 == 0 && year % 100 != 0) || year % 400 == 0
}

/// Days in `month` of `year` (28–31).
pub open spec fn spec_days_in_month(year: int, month: int) -> int {
    if month == 2 {
        if spec_is_leap_year(year) {
            29
        } else {
            28
        }
    } else if month == 4 || month == 6 || month == 9 || month == 11 {
        30
    } else {
        31
    }
}

/// A day of the proleptic Gregorian calendar within the supported years.
pub open spec fn spec_is_valid_date(year: int, month: int, day: int) -> bool {
    &&& MIN_YEAR <= year <= MAX_YEAR
    &&& 1 <= month <= 12
    &&& 1 <= day <= spec_days_in_month(year, month)
}

/// The days before 1 March of `y` (counted from 1970-01-01), the year taken
/// to run from March to February.
pub open spec fn days_before_march(y: int) -> int {
    let era = y / 400;
    let yoe = y - era * 400;
    era * 146097 + yoe * 365 + yoe / 4 - yoe / 100 - 719468
}

/// The days from 1 March to the first of the month `mp` months later.
pub open spec fn march_offset(mp: int) -> int {
    (153 * mp + 2) / 5
}

/// The number of the day: days since 1970-01-01, negative before it.
pub open spec fn day_number(year: int, month: int, day: int) -> int {
    let y = if month <= 2 {
        year - 1
    } else {
        year
    };
    let mp = if month <= 2 {
        month + 9
    } else {
        month - 3
    };
    days_before_march(y) + march_offset(mp) + day - 1
}

/// The weekday of a day number, 0 = Monday … 6 = Sunday (1970-01-01 was a
/// Thursday).
pub open spec fn weekday_of_day_number(n: int) -> int {
    (n + 3) % 7
}

/// A day of the week.
#[derive(Debug, Clone, Copy, PartialEq, Eq, PartialOrd, Ord, Hash, Structural)]
pub enum Weekday {
    Monday,
    Tuesday,
    Wednesday,
    Thursday,
    Friday,
    Saturday,
    Sunday,
}

impl Weekday {
    /// Days from Monday: 0 = Monday … 6 = Sunday.
    pub open spec fn spec_number(self) -> int {
        match self {
            Self::Monday => 0,
            Self::Tuesday => 1,
            Self::Wednesday => 2,
            Self::Thursday => 3,
            Self::Friday => 4,
            Self::Saturday => 5,
            Self::Sunday => 6,
        }
    }

    /// The weekday `n` days from Monday.
    pub fn from_number_days_from_monday(n: u8) -> (r: Self)
        requires
            n < 7,
        ensures
            r.spec_number() == n,
    {
        match n {
            0 => Self::Monday,
            1 => Self::Tuesday,
            2 => Self::Wednesday,
            3 => Self::Thursday,
            4 => Self::Friday,
            5 => Self::Saturday,
            _ => Self::Sunday,
        }
    }
}

/// A date of the proleptic Gregorian calendar, held as its year, month and
/// day.
#[derive(Debug, Clone, Copy, PartialEq, Eq, PartialOrd, Ord, Hash, Structural)]
pub struct CalendarDate {
    pub year: i32,
    /// 1 = January … 12 = December.
    pub month: u8,
    pub day: u8,
}

/// `a` comes before `b`: by year, then month, then day.
pub open spec fn date_before(a: CalendarDate, b: CalendarDate) -> bool {
    a.year < b.year || (a.year == b.year && (a.month < b.month || (a.month == b.month && a.day < b.day)))
}

/// `time::Date::from_calendar_date`: whether the date exists in `time`'s
/// range, years -9999 to 9999.
#[verifier::external_body]
fn date_exists(year: i32, month: u8, day: u8) -> (r: bool)
    ensures
        r == spec_is_valid_date(year as int, month as int, day as int),
{
    match time::Month::try_from(month) {
        Ok(m) => time::Date::from_calendar_date(year, m, day).is_ok(),
        Err(_) => false,
    }
}

/// `time::Date::weekday`, as days from Monday: the weekday of the day the
/// date numbers.
#[verifier::external_body]
fn weekday_number(date: CalendarDate) -> (r: u8)
    requires
        date.spec_valid(),
    ensures
        r == weekday_of_day_number(date.spec_day_number()),
{
    let m = time::Month::try_from(date.month).unwrap();
    time::Date::from_calendar_date(date.year, m, date.day).unwrap().weekday().number_days_from_monday()
}

/// `time::Date::checked_add`: the date `days` days later, or `None` when it
/// leaves `time`'s range.
#[verifier::external_body]
fn date_plus_days(date: CalendarDate, days: i64) -> (r: Option<CalendarDate>)
    requires
        date.spec_valid(),
        -10_000_000 <= days <= 10_000_000,
    ensures
        match r {
            Some(e) => e.spec_valid() && e.spec_day_number() == date.spec_day_number() + days,
            None => !(CalendarDate::spec_min_day_number() <= date.spec_day_number() + days
                <= CalendarDate::spec_max_day_number()),
        },
{
    let m = time::Month::try_from(date.month).unwrap();
    let d = time::Date::from_calendar_date(date.year, m, date.day).unwrap();
    match d.checked_add(time::Duration::days(days)) {
        Some(e) => Some(CalendarDate { year: e.year(), month: e.month() as u8, day: e.day() }),
        None => None,
    }
}

impl CalendarDate {
    pub open spec fn spec_valid(self) -> bool {
        spec_is_valid_date(self.year as int, self.month as int, self.day as int)
    }

    pub open spec fn spec_day_number(self) -> int {
        day_number(self.year as int, self.month as int, self.day as int)
    }

    /// The number of -9999-01-01, the first supported day.
    pub open spec fn spec_min_day_number() -> int {
        day_number(MIN_YEAR as int, 1, 1)
    }

    /// The number of 9999-12-31, the last supported day.
    pub open spec fn spec_max_day_number() -> int {
        day_number(MAX_YEAR as int, 12, 31)
    }

    pub open spec fn spec_weekday(self) -> int {
        weekday_of_day_number(self.spec_day_number())
    }

    /// The date `year-month-day`, or `None` when no such day exists.
    pub fn new(year: i32, month: u8, day: u8) -> (r: Option<Self>)
        ensures
            match r {
                Some(d) => d.spec_valid() && d.year == year && d.month == month && d.day == day,
                None => !spec_is_valid_date(year as int, month as int, day as int),
            },
    {
        if date_exists(year, month, day) {
            Some(CalendarDate { year, month, day })
        } else {
            None
        }
    }

    /// The day of the week.
    pub fn weekday(self) -> (r: Weekday)
        requires
            self.spec_valid(),
        ensures
            r.spec_number() == self.spec_weekday(),
    {
        let n = weekday_number(self);
        Weekday::from_number_days_from_monday(n)
    }

    /// The date `days` days later (earlier when negative), or `None` when it
    /// leaves the supported years.
    pub fn checked_add_days(self, days: i64) -> (r: Option<Self>)
        requires
            self.spec_valid(),
        ensures
            match r {
                Some(e) => e.spec_valid() && e.spec_day_number() == self.spec_day_number() + days,
                None => !(Self::spec_min_day_number() <= self.spec_day_number() + days
                    <= Self::spec_max_day_number()),
            },
    {
        if days > 10_000_000 || days < -10_000_000 {
            proof {
                crate::holiday::lemma_valid_in_range(self);
                lemma_supported_day_numbers();
            }
            return None;
        }
        date_plus_days(self, days)
    }

    /// `true` when `self` comes strictly before `other`.
    pub fn is_before(self, other: Self) -> (r: bool)
        ensures
            r == date_before(self, other),
    {
        self.year < other.year || (self.year == other.year && (self.month < other.month || (self.month
            == other.month && self.day < other.day)))
    }
}

/// From one March to the next: 365 days, 366 when the later year is a leap
/// year.
pub proof fn lemma_march_step(y: int)
    ensures
        days_before_march(y + 1) == days_before_march(y) + 365 + (if spec_is_leap_year(y + 1) {
            1int
        } else {
            0int
        }),
{
    let era = y / 400;
    let yoe = y % 400;
    lemma_fundamental_div_mod(y, 400);
    assert(y == era * 400 + yoe);
    if yoe < 399 {
        lemma_fundamental_div_mod_converse(y + 1, 400, era, yoe + 1);
        let q4 = yoe / 4;
        lemma_fundamental_div_mod(yoe, 4);
        if yoe % 4 < 3 {
            lemma_fundamental_div_mod_converse(yoe + 1, 4, q4, yoe % 4 + 1);
        } else {
            lemma_fundamental_div_mod_converse(yoe + 1, 4, q4 + 1, 0);
        }
        let q100 = yoe / 100;
        lemma_fundamental_div_mod(yoe, 100);
        if yoe % 100 < 99 {
            lemma_fundamental_div_mod_converse(yoe + 1, 100, q100, yoe % 100 + 1);
        } else {
            lemma_fundamental_div_mod_converse(yoe + 1, 100, q100 + 1, 0);
        }
        lemma_fundamental_div_mod(yoe + 1, 4);
        lemma_fundamental_div_mod(yoe + 1, 100);
        lemma_fundamental_div_mod_converse(y + 1, 4, era * 100 + (yoe + 1) / 4, (yoe + 1) % 4);
        lemma_fundamental_div_mod_converse(y + 1, 100, era * 4 + (yoe + 1) / 100, (yoe + 1) % 100);
        assert(y - era * 400 == yoe);
        assert((y + 1) - era * 400 == yoe + 1);
    } else {
        lemma_fundamental_div_mod_converse(y + 1, 400, era + 1, 0);
        lemma_fundamental_div_mod_converse(y + 1, 4, era * 100 + 100, 0);
        lemma_fundamental_div_mod_converse(y + 1, 100, era * 4 + 4, 0);
        assert(y - era * 400 == 399);
        assert((y + 1) - (era + 1) * 400 == 0);
    }
}

/// The last day of a month is followed by the first of the next.
proof fn lemma_month_step(y: int, m: int)
    requires
        1 <= m <= 11,
    ensures
        day_number(y, m, spec_days_in_month(y, m)) + 1 == day_number(y, m + 1, 1),
{
    if m == 2 {
        lemma_march_step(y - 1);
    }
}

/// The last day of a year is followed by the first of the next.
proof fn lemma_year_step(y: int)
    ensures
        day_number(y, 12, 31) + 1 == day_number(y + 1, 1, 1),
{
}

/// Within a year, a later month starts after an earlier one ends.
proof fn lemma_months_increase(y: int, m1: int, m2: int)
    requires
        1 <= m1 < m2 <= 12,
    ensures
        day_number(y, m1, spec_days_in_month(y, m1)) < day_number(y, m2, 1),
    decreases m2 - m1,
{
    lemma_month_step(y, m1);
    if m1 + 1 < m2 {
        lemma_months_increase(y, m1 + 1, m2);
    }
}

/// Within a year, the day number grows with the date.
proof fn lemma_within_year(y: int, m1: int, d1: int, m2: int, d2: int)
    requires
        spec_is_valid_date(y, m1, d1),
        spec_is_valid_date(y, m2, d2),
        m1 < m2 || (m1 == m2 && d1 < d2),
    ensures
        day_number(y, m1, d1) < day_number(y, m2, d2),
{
    if m1 < m2 {
        lemma_months_increase(y, m1, m2);
    }
}

/// A later year starts after an earlier one ends.
proof fn lemma_years_increase(y1: int, y2: int)
    requires
        y1 < y2,
    ensures
        day_number(y1, 12, 31) < day_number(y2, 1, 1),
    decreases y2 - y1,
{
    lemma_year_step(y1);
    if y1 + 1 < y2 {
        lemma_months_increase(y1 + 1, 1, 12);
        lemma_years_increase(y1 + 1, y2);
    }
}

/// The day number grows with the date: a date before another has the
/// smaller number, so no two dates share one.
pub proof fn lemma_day_number_increases(a: CalendarDate, b: CalendarDate)
    requires
        a.spec_valid(),
        b.spec_valid(),
        date_before(a, b),
    ensures
        a.spec_day_number() < b.spec_day_number(),
{
    let (y1, m1, d1) = (a.year as int, a.month as int, a.day as int);
    let (y2, m2, d2) = (b.year as int, b.month as int, b.day as int);
    if y1 == y2 {
        lemma_within_year(y1, m1, d1, m2, d2);
    } else {
        if !(m1 == 12 && d1 == 31) {
            lemma_within_year(y1, m1, d1, 12, 31);
        }
        lemma_years_increase(y1, y2);
        if !(m2 == 1 && d2 == 1) {
            lemma_within_year(y2, 1, 1, m2, d2);
        }
    }
}

/// Two dates with one day number are one date.
pub proof fn lemma_day_number_injective(a: CalendarDate, b: CalendarDate)
    requires
        a.spec_valid(),
        b.spec_valid(),
        a.spec_day_number() == b.spec_day_number(),
    ensures
        a == b,
{
    if date_before(a, b) {
        lemma_day_number_increases(a, b);
    } else if date_before(b, a) {
        lemma_day_number_increases(b, a);
    }
}

// ── Europe/Berlin ───────────────────────────────────────────────────────────

/// How a Berlin wall-clock time maps onto the timeline: one offset, two (the
/// autumn hour that happens twice, earlier pass first), or none (the spring
/// hour that is skipped).
#[derive(Debug, Clone, Copy, PartialEq, Eq, Structural)]
pub enum LocalOffset {
    Unique(i32),
    Ambiguous(i32, i32),
    Skipped,
}

/// What the tz database says of the Berlin wall-clock time
/// `hour:minute:second` on the given day: the UTC offsets, in seconds, it can
/// have.
pub uninterp spec fn berlin_local_offset(
    year: int,
    month: int,
    day: int,
    hour: int,
    minute: int,
    second: int,
) -> LocalOffset;

/// The UTC offset, in seconds, in force in Berlin at the Unix instant
/// `unix_seconds`.
pub uninterp spec fn berlin_utc_offset(unix_seconds: int) -> int;

/// A UTC offset `time` can hold: less than 26 hours either way.
pub open spec fn is_offset(o: int) -> bool {
    -93600 < o < 93600
}

/// `time_tz`'s `assume_timezone` for Europe/Berlin: the offsets the local
/// time can have. A UTC offset is within ±25:59:59.
#[verifier::external_body]
fn berlin_assume(date: CalendarDate, hour: u8, minute: u8, second: u8) -> (r: LocalOffset)
    requires
        date.spec_valid(),
        hour < 24,
        minute < 60,
        second < 60,
    ensures
        r == berlin_local_offset(
            date.year as int,
            date.month as int,
            date.day as int,
            hour as int,
            minute as int,
            second as int,
        ),
        r matches LocalOffset::Unique(o) ==> is_offset(o as int),
        r matches LocalOffset::Ambiguous(a, b) ==> is_offset(a as int) && is_offset(b as int),
{
    let d = time::Date::from_calendar_date(date.year, time::Month::try_from(date.month).unwrap(), date.day).unwrap();
    let naive = time::PrimitiveDateTime::new(d, time::Time::from_hms(hour, minute, second).unwrap());
    match naive.assume_timezone(time_tz::timezones::db::europe::BERLIN) {
        time_tz::OffsetResult::Some(t) => LocalOffset::Unique(t.offset().whole_seconds()),
        time_tz::OffsetResult::Ambiguous(a, b) => LocalOffset::Ambiguous(a.offset().whole_seconds(), b.offset().whole_seconds()),
        time_tz::OffsetResult::None => LocalOffset::Skipped,
    }
}

/// `time_tz`'s `get_offset_utc` for Europe/Berlin, asked of the instant that
/// reads `hour:minute:second` on `date` at the UTC offset `offset` (seconds):
/// the offset, in seconds, in force in Berlin at that instant. The instant is
/// handed over in this local form because `time` builds an `OffsetDateTime`
/// from any valid date, time and offset, while a Unix timestamp it only takes
/// inside years ±9999 in UTC. A UTC offset is within ±25:59:59.
#[verifier::external_body]
fn berlin_offset_local(date: CalendarDate, hour: u8, minute: u8, second: u8, offset: i32) -> (r: i32)
    requires
        date.spec_valid(),
        hour < 24,
        minute < 60,
        second < 60,
        is_offset(offset as int),
    ensures
        r == berlin_utc_offset(
            date.spec_day_number() * 86400 + hour * 3600 + minute * 60 + second - offset,
        ),
        is_offset(r as int),
{
    let d = time::Date::from_calendar_date(date.year, time::Month::try_from(date.month).unwrap(), date.day).unwrap();
    let t = time::PrimitiveDateTime::new(d, time::Time::from_hms(hour, minute, second).unwrap())
        .assume_offset(time::UtcOffset::from_whole_seconds(offset).unwrap());
    time_tz::timezones::db::europe::BERLIN.get_offset_utc(&t).to_utc().whole_seconds()
}

/// The first second of the first supported day, -9999-01-01 00:00 UTC.
pub const FIRST_SUPPORTED_SECOND: i64 = -377_705_116_800;

/// The last second of the last supported day, 9999-12-31 23:59:59 UTC.
pub const LAST_SUPPORTED_SECOND: i64 = 253_402_300_799;

/// The instants [`berlin_offset_at`] can place on a supported day at some
/// UTC offset `time` holds.
pub open spec fn is_offset_instant(t: int) -> bool {
    FIRST_SUPPORTED_SECOND - 93599 <= t <= LAST_SUPPORTED_SECOND + 93599
}

/// The UTC offset, in seconds, in force in Berlin at the Unix instant
/// `unix_seconds`. Inside the supported days the instant is read as a UTC
/// wall clock; just before the first day it is the first day's midnight at a
/// positive offset, just after the last day that day's last second at a
/// negative one.
fn berlin_offset_at(unix_seconds: i64) -> (r: i32)
    requires
        is_offset_instant(unix_seconds as int),
    ensures
        r == berlin_utc_offset(unix_seconds as int),
        is_offset(r as int),
{
    proof {
        lemma_supported_day_numbers();
    }
    if unix_seconds < FIRST_SUPPORTED_SECOND {
        let first = CalendarDate { year: MIN_YEAR, month: 1, day: 1 };
        proof {
            assert(first.spec_day_number() == CalendarDate::spec_min_day_number());
        }
        berlin_offset_local(first, 0, 0, 0, (FIRST_SUPPORTED_SECOND - unix_seconds) as i32)
    } else if unix_seconds > LAST_SUPPORTED_SECOND {
        let last = CalendarDate { year: MAX_YEAR, month: 12, day: 31 };
        proof {
            assert(last.spec_day_number() == CalendarDate::spec_max_day_number());
        }
        berlin_offset_local(last, 23, 59, 59, (LAST_SUPPORTED_SECOND - unix_seconds) as i32)
    } else {
        let since: i64 = unix_seconds - FIRST_SUPPORTED_SECOND;
        let days: i64 = since / 86400;
        let secs: i64 = since % 86400;
        proof {
            assert(since == days * 86400 + secs) by (nonlinear_arith)
                requires
                    since >= 0,
                    days == since / 86400,
                    secs == since % 86400,
            ;
            assert(days <= 2932896 + 4371587) by (nonlinear_arith)
                requires
                    0 <= since <= 253_402_300_799 + 377_705_116_800,
                    days == since / 86400,
            ;
        }
        let date = date_of_day_number(days - 4_371_587);
        let hour = (secs / 3600) as u8;
        let minute = ((secs / 60) % 60) as u8;
        let second = (secs % 60) as u8;
        berlin_offset_local(date, hour, minute, second, 0)
    }
}

/// The offset that resolves the Berlin wall-clock time `secs` seconds after
/// midnight on `date`: the only one, the earlier pass of a repeated time, or
/// — inside a skipped hour — the offset in force a day earlier, which moves
/// the wall clock past the gap.
pub open spec fn spec_resolve_offset(date: CalendarDate, secs: int) -> int {
    match berlin_local_offset(
        date.year as int,
        date.month as int,
        date.day as int,
        secs / 3600,
        (secs / 60) % 60,
        secs % 60,
    ) {
        LocalOffset::Unique(o) => o as int,
        LocalOffset::Ambiguous(first, _) => first as int,
        LocalOffset::Skipped => berlin_utc_offset(date.spec_day_number() * 86400 + secs - 86400),
    }
}

/// The offset that resolves Berlin `hour`:00 on `date`.
pub open spec fn spec_local_offset(date: CalendarDate, hour: int) -> int {
    spec_resolve_offset(date, hour * 3600)
}

/// The Unix instant at which the Berlin wall-clock time `secs` seconds after
/// midnight on `date` occurs.
pub open spec fn spec_resolve_local(date: CalendarDate, secs: int) -> int {
    date.spec_day_number() * 86400 + secs - spec_resolve_offset(date, secs)
}

/// The Unix instant at which Berlin `hour`:00 on `date` occurs.
pub open spec fn spec_local_instant(date: CalendarDate, hour: int) -> int {
    spec_resolve_local(date, hour * 3600)
}

/// The offset resolving the Berlin wall-clock time `secs` seconds after
/// midnight on `date`.
fn resolve_offset(date: CalendarDate, secs: u32) -> (r: i32)
    requires
        date.spec_valid(),
        secs < 86400,
    ensures
        r == spec_resolve_offset(date, secs as int),
        is_offset(r as int),
{
    proof {
        crate::holiday::lemma_valid_in_range(date);
    }
    let hour = (secs / 3600) as u8;
    let minute = ((secs / 60) % 60) as u8;
    let second = (secs % 60) as u8;
    match berlin_assume(date, hour, minute, second) {
        LocalOffset::Unique(o) => o,
        LocalOffset::Ambiguous(first, _) => first,
        LocalOffset::Skipped => {
            let naive: i64 = day_number_of(date) * 86400 + secs as i64;
            berlin_offset_at(naive - 86400)
        },
    }
}

/// The offset resolving Berlin `hour`:00 on `date`.
fn local_offset(date: CalendarDate, hour: u8) -> (r: i32)
    requires
        date.spec_valid(),
        hour < 24,
    ensures
        r == spec_local_offset(date, hour as int),
        is_offset(r as int),
{
    resolve_offset(date, hour as u32 * 3600)
}

/// The day number of a valid date.
pub(crate) fn day_number_of(date: CalendarDate) -> (r: i64)
    requires
        date.spec_valid(),
    ensures
        r == date.spec_day_number(),
{
    let y0: i64 = if date.month <= 2 {
        date.year as i64 - 1
    } else {
        date.year as i64
    };
    let mp: i64 = if date.month <= 2 {
        date.month as i64 + 9
    } else {
        date.month as i64 - 3
    };
    let era = y0.checked_div_euclid(400).unwrap();
    let yoe = y0 - era * 400;
    let before = era * 146097 + yoe * 365 + yoe / 4 - yoe / 100 - 719468;
    before + (153 * mp + 2) / 5 + date.day as i64 - 1
}

/// The Unix instant (seconds) at which a Berlin calendar day begins, 00:00
/// local.
pub fn day_start_utc(day: CalendarDate) -> (r: i64)
    requires
        day.spec_valid(),
    ensures
        -377_800_000_000 <= r <= 253_403_000_000,
        r == spec_local_instant(day, 0),
        FIRST_SUPPORTED_SECOND - 93599 <= r <= LAST_SUPPORTED_SECOND - 86399 + 93599,
        day.spec_day_number() * 86400 - 93600 < r < day.spec_day_number() * 86400 + 93600,
{
    proof {
        crate::holiday::lemma_valid_in_range(day);
        lemma_supported_day_numbers();
    }
    day_number_of(day) * 86400 - local_offset(day, 0) as i64
}

/// The Unix instant at which a Gastag begins, 06:00 Berlin local.
pub fn gas_day_start_utc(day: CalendarDate) -> (r: i64)
    requires
        day.spec_valid(),
    ensures
        -377_800_000_000 <= r <= 253_403_000_000,
        r == spec_local_instant(day, 6),
        day.spec_day_number() * 86400 + 6 * 3600 - 93600 < r < day.spec_day_number() * 86400 + 6 * 3600 + 93600,
{
    proof {
        crate::holiday::lemma_valid_in_range(day);
        lemma_supported_day_numbers();
    }
    day_number_of(day) * 86400 + 6 * 3600 - local_offset(day, 6) as i64
}

/// The day after `d`, or `d` itself on the last supported day.
pub open spec fn spec_next_day(d: CalendarDate) -> CalendarDate {
    if (d.day as int) < spec_days_in_month(d.year as int, d.month as int) {
        CalendarDate { year: d.year, month: d.month, day: (d.day + 1) as u8 }
    } else if d.month < 12 {
        CalendarDate { year: d.year, month: (d.month + 1) as u8, day: 1 }
    } else if d.year < MAX_YEAR {
        CalendarDate { year: (d.year + 1) as i32, month: 1, day: 1 }
    } else {
        d
    }
}

/// The next day is valid and numbered one more, except on the last
/// supported day.
pub proof fn lemma_next_day(d: CalendarDate)
    requires
        d.spec_valid(),
    ensures
        spec_next_day(d).spec_valid(),
        d.spec_day_number() < CalendarDate::spec_max_day_number() ==> spec_next_day(d).spec_day_number()
            == d.spec_day_number() + 1,
        d.spec_day_number() == CalendarDate::spec_max_day_number() ==> spec_next_day(d) == d,
{
    let (y, m, dd) = (d.year as int, d.month as int, d.day as int);
    if dd < spec_days_in_month(y, m) {
    } else if m < 12 {
        lemma_month_step(y, m);
    } else if y < MAX_YEAR {
        lemma_year_step(y);
    } else {
        assert(d == CalendarDate { year: MAX_YEAR, month: 12, day: 31 });
    }
    if d.spec_day_number() < CalendarDate::spec_max_day_number() && y == MAX_YEAR && m == 12 && dd == 31 {
        assert(false);
    }
}

/// The Unix instant at which the Berlin calendar day `day` ends (exclusive):
/// the start of the next day, so consecutive days tile the timeline.
pub fn day_end_utc(day: CalendarDate) -> (r: i64)
    requires
        day.spec_valid(),
    ensures
        -377_800_000_000 <= r <= 253_403_000_000,
        r == spec_local_instant(spec_next_day(day), 0),
        FIRST_SUPPORTED_SECOND - 7199 <= r <= LAST_SUPPORTED_SECOND - 86399 + 93599,
{
    proof {
        lemma_next_day(day);
        crate::holiday::lemma_valid_in_range(day);
        lemma_supported_day_numbers();
        crate::holiday::lemma_valid_in_range(spec_next_day(day));
    }
    let next = match day.checked_add_days(1) {
        Some(n) => {
            proof {
                lemma_day_number_injective(n, spec_next_day(day));
            }
            n
        },
        None => day,
    };
    day_start_utc(next)
}

/// How long the Berlin calendar day lasts, in seconds: 23, 24 or 25 hours.
pub fn day_length(day: CalendarDate) -> (r: i64)
    requires
        day.spec_valid(),
    ensures
        r == spec_local_instant(spec_next_day(day), 0) - spec_local_instant(day, 0),
{
    proof {
        lemma_next_day(day);
        crate::holiday::lemma_valid_in_range(day);
        crate::holiday::lemma_valid_in_range(spec_next_day(day));
    }
    day_end_utc(day) - day_start_utc(day)
}

/// The Unix instant at which a Gastag ends (exclusive): 06:00 Berlin local
/// on the following day.
pub fn gas_day_end_utc(day: CalendarDate) -> (r: i64)
    requires
        day.spec_valid(),
    ensures
        -377_800_000_000 <= r <= 253_403_000_000,
        r == spec_local_instant(spec_next_day(day), 6),
{
    proof {
        lemma_next_day(day);
    }
    gas_day_start_utc(next_day_or_same(day))
}

/// The day after `day`, or `day` itself on the last supported day.
fn next_day_or_same(day: CalendarDate) -> (r: CalendarDate)
    requires
        day.spec_valid(),
    ensures
        r == spec_next_day(day),
{
    proof {
        lemma_next_day(day);
        crate::holiday::lemma_valid_in_range(day);
    }
    match day.checked_add_days(1) {
        Some(n) => {
            proof {
                lemma_day_number_injective(n, spec_next_day(day));
            }
            n
        },
        None => day,
    }
}

/// The first of the month containing `d`.
pub open spec fn spec_first_of_month(d: CalendarDate) -> CalendarDate {
    CalendarDate { year: d.year, month: d.month, day: 1 }
}

/// The first of the month after the one containing `d`, or `d` itself when
/// that leaves the supported years.
pub open spec fn spec_first_of_next_month(d: CalendarDate) -> CalendarDate {
    if d.month < 12 {
        CalendarDate { year: d.year, month: (d.month + 1) as u8, day: 1 }
    } else if d.year < MAX_YEAR {
        CalendarDate { year: (d.year + 1) as i32, month: 1, day: 1 }
    } else {
        d
    }
}

/// The first of the next month is the day after the last day of `d`'s
/// month: its day number is `d`'s, back to the first of the month, plus the
/// month's length. December rolls over into January of the next year.
pub proof fn lemma_first_of_next_month(d: CalendarDate)
    requires
        d.spec_valid(),
        !(d.year == MAX_YEAR && d.month == 12),
    ensures
        spec_first_of_next_month(d).spec_valid(),
        spec_first_of_next_month(d).spec_day_number() == d.spec_day_number() - d.day + spec_days_in_month(
            d.year as int,
            d.month as int,
        ) + 1,
        spec_first_of_next_month(d).spec_day_number() >= d.spec_day_number() - d.day + 29,
{
    let y = d.year as int;
    let m = d.month as int;
    if m < 12 {
        lemma_month_step(y, m);
    } else {
        lemma_year_step(y);
    }
}

/// 1 January of `year`, or the first supported day when `year` is out of
/// range.
pub open spec fn spec_jan_first(year: int) -> CalendarDate {
    if MIN_YEAR <= year <= MAX_YEAR {
        CalendarDate { year: year as i32, month: 1, day: 1 }
    } else {
        CalendarDate { year: MIN_YEAR, month: 1, day: 1 }
    }
}

fn first_of_month(d: CalendarDate) -> (r: CalendarDate)
    requires
        d.spec_valid(),
    ensures
        r == spec_first_of_month(d),
        r.spec_valid(),
{
    match CalendarDate::new(d.year, d.month, 1) {
        Some(f) => f,
        None => d,
    }
}

fn first_of_next_month(d: CalendarDate) -> (r: CalendarDate)
    requires
        d.spec_valid(),
    ensures
        r == spec_first_of_next_month(d),
        r.spec_valid(),
{
    let (year, month) = if d.month == 12 {
        (d.year + 1, 1u8)
    } else {
        (d.year, d.month + 1)
    };
    match CalendarDate::new(year, month, 1) {
        Some(f) => f,
        None => d,
    }
}

fn jan_first(year: i32) -> (r: CalendarDate)
    ensures
        r == spec_jan_first(year as int),
        r.spec_valid(),
{
    match CalendarDate::new(year, 1, 1) {
        Some(f) => f,
        None => CalendarDate { year: MIN_YEAR, month: 1, day: 1 },
    }
}

impl DayBoundary {
    /// The Berlin wall-clock hour the day begins at: 0 or 6.
    pub open spec fn spec_hour(self) -> int {
        match self {
            Self::Midnight => 0,
            Self::Gastag => 6,
        }
    }

    /// The Unix instant the day named `day` begins at.
    pub fn day_start_utc(self, day: CalendarDate) -> (r: i64)
        requires
            day.spec_valid(),
        ensures
            -377_800_000_000 <= r <= 253_403_000_000,
            r == spec_local_instant(day, self.spec_hour()),
            day.spec_day_number() * 86400 + self.spec_hour() * 3600 - 93600 < r < day.spec_day_number() * 86400
                + self.spec_hour() * 3600 + 93600,
    {
        match self {
            Self::Midnight => day_start_utc(day),
            Self::Gastag => gas_day_start_utc(day),
        }
    }

    /// The Unix instant the day named `day` ends at (exclusive).
    pub fn day_end_utc(self, day: CalendarDate) -> (r: i64)
        requires
            day.spec_valid(),
        ensures
            -377_800_000_000 <= r <= 253_403_000_000,
            r == spec_local_instant(spec_next_day(day), self.spec_hour()),
    {
        match self {
            Self::Midnight => day_end_utc(day),
            Self::Gastag => gas_day_end_utc(day),
        }
    }

    /// How long that day lasts, in seconds.
    pub fn day_length(self, day: CalendarDate) -> (r: i64)
        requires
            day.spec_valid(),
        ensures
            r == spec_local_instant(spec_next_day(day), self.spec_hour()) - spec_local_instant(day, self.spec_hour()),
    {
        self.day_end_utc(day) - self.day_start_utc(day)
    }

    /// Number of intervals of `resolution` in that day, or `None` when the
    /// resolution does not divide it evenly or is coarser than a day.
    pub fn intervals_in_day(self, day: CalendarDate, resolution: IntervalResolution) -> (r: Option<u32>)
        requires
            day.spec_valid(),
        ensures
            r == (match resolution {
                IntervalResolution::Day => Some(1u32),
                IntervalResolution::Month | IntervalResolution::Year => None,
                other => spec_divide(
                    spec_local_instant(spec_next_day(day), self.spec_hour()) - spec_local_instant(day, self.spec_hour()),
                    other,
                ),
            }),
    {
        match resolution {
            IntervalResolution::Day => Some(1),
            IntervalResolution::Month | IntervalResolution::Year => None,
            other => divide(self.day_length(day), other),
        }
    }

    /// The Unix instant the month containing `day` begins at.
    pub fn month_start_utc(self, day: CalendarDate) -> (r: i64)
        requires
            day.spec_valid(),
        ensures
            -377_800_000_000 <= r <= 253_403_000_000,
            r == spec_local_instant(spec_first_of_month(day), self.spec_hour()),
            spec_first_of_month(day).spec_day_number() * 86400 + self.spec_hour() * 3600 - 93600 < r
                < spec_first_of_month(day).spec_day_number() * 86400 + self.spec_hour() * 3600 + 93600,
    {
        self.day_start_utc(first_of_month(day))
    }

    /// The Unix instant the month containing `day` ends at (exclusive).
    pub fn month_end_utc(self, day: CalendarDate) -> (r: i64)
        requires
            day.spec_valid(),
        ensures
            -377_800_000_000 <= r <= 253_403_000_000,
            r == spec_local_instant(spec_first_of_next_month(day), self.spec_hour()),
            spec_first_of_next_month(day).spec_day_number() * 86400 + self.spec_hour() * 3600 - 93600 < r
                < spec_first_of_next_month(day).spec_day_number() * 86400 + self.spec_hour() * 3600 + 93600,
            !(day.year == MAX_YEAR && day.month == 12) ==> r > spec_first_of_month(day).spec_day_number()
                * 86400 + self.spec_hour() * 3600 + 93600,
    {
        proof {
            if !(day.year == MAX_YEAR && day.month == 12) {
                lemma_first_of_next_month(day);
            }
        }
        self.day_start_utc(first_of_next_month(day))
    }

    /// The Unix instant a year begins at.
    pub fn year_start_utc(self, year: i32) -> (r: i64)
        ensures
            -377_800_000_000 <= r <= 253_403_000_000,
            r == spec_local_instant(spec_jan_first(year as int), self.spec_hour()),
    {
        self.day_start_utc(jan_first(year))
    }

    /// The Unix instant a year ends at (exclusive).
    pub fn year_end_utc(self, year: i32) -> (r: i64)
        requires
            year < i32::MAX,
        ensures
            -377_800_000_000 <= r <= 253_403_000_000,
            r == spec_local_instant(spec_jan_first(year + 1), self.spec_hour()),
    {
        self.day_start_utc(jan_first(year + 1))
    }
}

/// `span / resolution` in whole intervals: `None` for a calendar resolution,
/// a negative span, a span the resolution does not divide, or a count beyond
/// `u32`.
pub open spec fn spec_divide(span: int, resolution: IntervalResolution) -> Option<u32> {
    match resolution.spec_fixed_seconds() {
        None => None,
        Some(secs) => if span < 0 || span % (secs as int) != 0 || span / (secs as int) > u32::MAX {
            None
        } else {
            Some((span / (secs as int)) as u32)
        },
    }
}

fn divide(span: i64, resolution: IntervalResolution) -> (r: Option<u32>)
    ensures
        r == spec_divide(span as int, resolution),
{
    let secs = match resolution.fixed_seconds() {
        Some(s) => s,
        None => return None,
    };
    if span < 0 {
        return None;
    }
    let span = span as u64;
    let secs = secs as u64;
    if span % secs != 0 {
        return None;
    }
    let n = span / secs;
    if n > u32::MAX as u64 {
        return None;
    }
    Some(n as u32)
}

/// How long the Berlin calendar month containing `day` lasts, in seconds.
pub fn month_length(day: CalendarDate) -> (r: i64)
    requires
        day.spec_valid(),
    ensures
        r == spec_local_instant(spec_first_of_next_month(day), 0) - spec_local_instant(spec_first_of_month(day), 0),
        !(day.year == MAX_YEAR && day.month == 12) ==> r > 0,
{
    DayBoundary::Midnight.month_end_utc(day) - DayBoundary::Midnight.month_start_utc(day)
}

/// How long a Berlin calendar year lasts, in seconds.
pub fn year_length(year: i32) -> (r: i64)
    requires
        year < i32::MAX,
    ensures
        r == spec_local_instant(spec_jan_first(year + 1), 0) - spec_local_instant(spec_jan_first(year as int), 0),
{
    DayBoundary::Midnight.year_end_utc(year) - DayBoundary::Midnight.year_start_utc(year)
}

/// Number of intervals of `resolution` in a Berlin calendar day: 96
/// quarter-hours on an ordinary day, 92 and 100 on the DST transition days;
/// `None` when the resolution does not divide the day or is coarser.
pub fn intervals_in_day(day: CalendarDate, resolution: IntervalResolution) -> (r: Option<u32>)
    requires
        day.spec_valid(),
    ensures
        r == (match resolution {
            IntervalResolution::Day => Some(1u32),
            IntervalResolution::Month | IntervalResolution::Year => None,
            other => spec_divide(spec_local_instant(spec_next_day(day), 0) - spec_local_instant(day, 0), other),
        }),
{
    DayBoundary::Midnight.intervals_in_day(day, resolution)
}

/// Number of intervals of `resolution` in the Berlin calendar month
/// containing `day`, DST transitions included.
pub fn intervals_in_month(day: CalendarDate, resolution: IntervalResolution) -> (r: Option<u32>)
    requires
        day.spec_valid(),
    ensures
        r == (match resolution {
            IntervalResolution::Day => Some(spec_days_in_month(day.year as int, day.month as int) as u32),
            IntervalResolution::Month => Some(1u32),
            IntervalResolution::Year => None,
            other => spec_divide(
                spec_local_instant(spec_first_of_next_month(day), 0) - spec_local_instant(spec_first_of_month(day), 0),
                other,
            ),
        }),
{
    match resolution {
        IntervalResolution::Day => Some(days_in_month(day) as u32),
        IntervalResolution::Month => Some(1),
        IntervalResolution::Year => None,
        other => divide(month_length(day), other),
    }
}

/// Number of intervals of `resolution` in a Berlin calendar year.
pub fn intervals_in_year(year: i32, resolution: IntervalResolution) -> (r: Option<u32>)
    requires
        year < i32::MAX,
    ensures
        r == (match resolution {
            IntervalResolution::Day => Some(if spec_is_leap_year(year as int) {
                366u32
            } else {
                365u32
            }),
            IntervalResolution::Month => Some(12u32),
            IntervalResolution::Year => Some(1u32),
            other => spec_divide(
                spec_local_instant(spec_jan_first(year + 1), 0) - spec_local_instant(spec_jan_first(year as int), 0),
                other,
            ),
        }),
{
    match resolution {
        IntervalResolution::Day => Some(days_in_year(year) as u32),
        IntervalResolution::Month => Some(12),
        IntervalResolution::Year => Some(1),
        other => divide(year_length(year), other),
    }
}

/// The kind of a day of `length` seconds: 23 whole hours is the
/// spring-forward day, 25 the fall-back day, anything else normal.
pub open spec fn spec_day_kind_of_length(length: int) -> DayKind {
    if 82800 <= length < 86400 {
        DayKind::ShortDay
    } else if 90000 <= length < 93600 {
        DayKind::LongDay
    } else {
        DayKind::Normal
    }
}

/// Classifies a Berlin calendar day by its length in whole hours.
pub fn day_kind(day: CalendarDate) -> (r: DayKind)
    requires
        day.spec_valid(),
    ensures
        r == spec_day_kind_of_length(spec_local_instant(spec_next_day(day), 0) - spec_local_instant(day, 0)),
{
    let length = day_length(day);
    if length >= 82800 && length < 86400 {
        DayKind::ShortDay
    } else if length >= 90000 && length < 93600 {
        DayKind::LongDay
    } else {
        DayKind::Normal
    }
}

/// A year whose 1 January and following 1 January have one UTC offset lasts
/// exactly its days: DST moves the clock there and back within it.
pub proof fn lemma_year_length(year: int)
    requires
        MIN_YEAR <= year < MAX_YEAR,
        spec_local_offset(spec_jan_first(year), 0) == spec_local_offset(spec_jan_first(year + 1), 0),
    ensures
        spec_local_instant(spec_jan_first(year + 1), 0) - spec_local_instant(spec_jan_first(year), 0) == 86400 * (
        if spec_is_leap_year(year) {
            366int
        } else {
            365int
        }),
{
    lemma_march_step(year - 1);
}

/// `true` when `year` is a Gregorian leap year.
#[verifier::spinoff_prover]
pub fn is_leap_year(year: i32) -> (r: bool)
    ensures
        r == spec_is_leap_year(year as int),
{
    // Shifted by a multiple of 400 years, which keeps every divisibility and
    // makes the value non-negative.
    let u: u64 = (year as i64 + 2_147_484_000) as u64;
    assert(u as int == year as int + 400 * 5_368_710);
    (u % 4 == 0 && u % 100 != 0) || u % 400 == 0
}

/// Days in a calendar year: 365, or 366 in a leap year.
pub fn days_in_year(year: i32) -> (r: u16)
    ensures
        r == (if spec_is_leap_year(year as int) {
            366int
        } else {
            365int
        }),
{
    if is_leap_year(year) {
        366
    } else {
        365
    }
}

/// Days in the month containing `day` (28–31).
pub fn days_in_month(day: CalendarDate) -> (r: u8)
    requires
        1 <= day.month <= 12,
    ensures
        r == spec_days_in_month(day.year as int, day.month as int),
{
    if day.month == 2 {
        if is_leap_year(day.year) {
            29
        } else {
            28
        }
    } else if day.month == 4 || day.month == 6 || day.month == 9 || day.month == 11 {
        30
    } else {
        31
    }
}

/// The Unix instant the Berlin calendar month containing `day` begins at.
pub fn month_start_utc(day: CalendarDate) -> (r: i64)
    requires
        day.spec_valid(),
    ensures
        r == spec_local_instant(spec_first_of_month(day), 0),
        spec_first_of_month(day).spec_day_number() * 86400 - 93600 < r < spec_first_of_month(day).spec_day_number()
            * 86400 + 93600,
{
    DayBoundary::Midnight.month_start_utc(day)
}

/// The Unix instant the Berlin calendar month containing `day` ends at
/// (exclusive).
pub fn month_end_utc(day: CalendarDate) -> (r: i64)
    requires
        day.spec_valid(),
    ensures
        r == spec_local_instant(spec_first_of_next_month(day), 0),
        !(day.year == MAX_YEAR && day.month == 12) ==> r > spec_first_of_month(day).spec_day_number() * 86400
            + 93600,
{
    DayBoundary::Midnight.month_end_utc(day)
}

/// The Unix instant a Berlin calendar year begins at.
pub fn year_start_utc(year: i32) -> (r: i64)
    ensures
        r == spec_local_instant(spec_jan_first(year as int), 0),
{
    DayBoundary::Midnight.year_start_utc(year)
}

/// The Unix instant a Berlin calendar year ends at (exclusive).
pub fn year_end_utc(year: i32) -> (r: i64)
    requires
        year < i32::MAX,
    ensures
        r == spec_local_instant(spec_jan_first(year + 1), 0),
{
    DayBoundary::Midnight.year_end_utc(year)
}

// ── instants → Berlin calendar periods ───────────────────────────────────────

/// An instant whose Berlin calendar day is a supported date.
pub open spec fn is_supported_instant(t: int) -> bool {
    -377_705_000_000 <= t <= 253_402_000_000
}

/// `true` when `t` is an instant whose Berlin calendar day this library
/// resolves: the guard a caller tests before the functions that require it.
pub fn supports_instant(t: i64) -> (r: bool)
    ensures
        r == is_supported_instant(t as int),
{
    -377_705_000_000 <= t && t <= 253_402_000_000
}

/// The Berlin wall clock at instant `t`, as seconds since 1970-01-01 00:00
/// local.
pub open spec fn spec_berlin_seconds(t: int) -> int {
    t + berlin_utc_offset(t)
}

/// The number of the Berlin calendar day instant `t` falls on.
pub open spec fn spec_local_day_number(t: int) -> int {
    spec_berlin_seconds(t) / 86400
}

/// Seconds past Berlin midnight at instant `t`.
pub open spec fn spec_local_seconds(t: int) -> int {
    spec_berlin_seconds(t) % 86400
}

/// The supported date numbered `n`.
pub open spec fn spec_date_numbered(n: int) -> CalendarDate {
    choose|d: CalendarDate| d.spec_valid() && d.spec_day_number() == n
}

/// A Berlin wall-clock reading: the local date and time, and the UTC offset
/// in force.
#[derive(Debug, Clone, Copy, PartialEq, Eq, Structural)]
pub struct BerlinTime {
    pub date: CalendarDate,
    pub hour: u8,
    pub minute: u8,
    pub second: u8,
    /// Seconds east of UTC: 3600 in winter, 7200 in summer.
    pub offset_seconds: i32,
}

impl BerlinTime {
    /// Seconds past local midnight.
    pub open spec fn spec_seconds_of_day(self) -> int {
        self.hour * 3600 + self.minute * 60 + self.second
    }
}

/// 1970-01-01, day number zero.
fn epoch() -> (r: CalendarDate)
    ensures
        r.spec_valid(),
        r.spec_day_number() == 0,
{
    CalendarDate { year: 1970, month: 1, day: 1 }
}

/// The supported dates run from day -4371587 to day 2932896.
proof fn lemma_supported_day_numbers()
    ensures
        CalendarDate::spec_min_day_number() == -4371587,
        CalendarDate::spec_max_day_number() == 2932896,
{
    assert(CalendarDate::spec_min_day_number() == -4371587);
    assert(CalendarDate::spec_max_day_number() == 2932896);
}

/// The date numbered `n`.
fn date_of_day_number(n: i64) -> (r: CalendarDate)
    requires
        CalendarDate::spec_min_day_number() <= n <= CalendarDate::spec_max_day_number(),
    ensures
        r.spec_valid(),
        r.spec_day_number() == n,
        r == spec_date_numbered(n as int),
{
    proof {
        lemma_supported_day_numbers();
    }
    match epoch().checked_add_days(n) {
        Some(d) => {
            proof {
                let c = spec_date_numbered(n as int);
                assert(c.spec_valid() && c.spec_day_number() == n);
                lemma_day_number_injective(d, c);
            }
            d
        },
        None => {
            proof {
                assert(false);
            }
            epoch()
        },
    }
}

/// Convert a UTC instant to Europe/Berlin local time.
pub fn to_berlin(instant: i64) -> (r: BerlinTime)
    requires
        is_supported_instant(instant as int),
    ensures
        r.date.spec_valid(),
        r.date == spec_date_numbered(spec_local_day_number(instant as int)),
        r.date.spec_day_number() == spec_local_day_number(instant as int),
        r.hour < 24 && r.minute < 60 && r.second < 60,
        r.spec_seconds_of_day() == spec_local_seconds(instant as int),
        r.offset_seconds == berlin_utc_offset(instant as int),
        is_offset(r.offset_seconds as int),
{
    let off = berlin_offset_at(instant);
    let local: i64 = instant + off as i64;
    let n: i64 = local.checked_div_euclid(86400).unwrap();
    let secs: i64 = local - n * 86400;
    proof {
        lemma_supported_day_numbers();
        lemma_fundamental_div_mod(local as int, 86400);
        assert(0 <= secs < 86400);
        let h = secs / 3600;
        let m = (secs / 60) % 60;
        let s = secs % 60;
        assert(h * 3600 + m * 60 + s == secs) by (nonlinear_arith)
            requires
                0 <= secs < 86400,
                h == secs / 3600,
                m == (secs / 60) % 60,
                s == secs % 60,
        ;
    }
    let date = date_of_day_number(n);
    BerlinTime {
        date,
        hour: (secs / 3600) as u8,
        minute: ((secs / 60) % 60) as u8,
        second: (secs % 60) as u8,
        offset_seconds: off,
    }
}

/// The Berlin calendar day an instant falls on: the grouping key for daily
/// aggregation (the UTC date misbooks the first hour or two of every German
/// day).
pub fn local_day(instant: i64) -> (r: CalendarDate)
    requires
        is_supported_instant(instant as int),
    ensures
        r.spec_valid(),
        r == spec_date_numbered(spec_local_day_number(instant as int)),
        r.spec_day_number() == spec_local_day_number(instant as int),
{
    to_berlin(instant).date
}

/// The Berlin calendar month an instant falls in, as its first day.
pub fn local_month(instant: i64) -> (r: CalendarDate)
    requires
        is_supported_instant(instant as int),
    ensures
        r.spec_valid(),
        r == spec_first_of_month(spec_date_numbered(spec_local_day_number(instant as int))),
{
    first_of_month(local_day(instant))
}

/// The Berlin calendar year an instant falls in.
pub fn local_year(instant: i64) -> (r: i32)
    requires
        is_supported_instant(instant as int),
    ensures
        r == spec_date_numbered(spec_local_day_number(instant as int)).year,
{
    local_day(instant).year
}

/// The number of the Gastag instant `t` falls in: the Berlin day, or the day
/// before it until 06:00 local.
pub open spec fn spec_gas_day_number(t: int) -> int {
    if spec_local_seconds(t) < 21600 && spec_local_day_number(t) > CalendarDate::spec_min_day_number() {
        spec_local_day_number(t) - 1
    } else {
        spec_local_day_number(t)
    }
}

/// The Gastag an instant belongs to: the Berlin day, or the previous one
/// before 06:00 local.
pub fn local_gas_day(instant: i64) -> (r: CalendarDate)
    requires
        is_supported_instant(instant as int),
    ensures
        r.spec_valid(),
        r == spec_date_numbered(spec_gas_day_number(instant as int)),
{
    let local = to_berlin(instant);
    if local.hour < 6 {
        proof {
            lemma_supported_day_numbers();
        }
        let dn: i64 = day_number_of(local.date);
        if dn > -4371587 {
            date_of_day_number(dn - 1)
        } else {
            local.date
        }
    } else {
        local.date
    }
}

impl DayBoundary {
    /// The number of the day instant `t` belongs to under this boundary.
    pub open spec fn spec_day_number_at(self, t: int) -> int {
        match self {
            Self::Midnight => spec_local_day_number(t),
            Self::Gastag => spec_gas_day_number(t),
        }
    }

    /// The day an instant belongs to under this boundary.
    pub fn local_day(self, instant: i64) -> (r: CalendarDate)
        requires
            is_supported_instant(instant as int),
        ensures
            r.spec_valid(),
            r == spec_date_numbered(self.spec_day_number_at(instant as int)),
    {
        match self {
            Self::Midnight => local_day(instant),
            Self::Gastag => local_gas_day(instant),
        }
    }

    /// The month an instant belongs to under this boundary, as its first day.
    pub fn local_month(self, instant: i64) -> (r: CalendarDate)
        requires
            is_supported_instant(instant as int),
        ensures
            r.spec_valid(),
            r == spec_first_of_month(spec_date_numbered(self.spec_day_number_at(instant as int))),
    {
        first_of_month(self.local_day(instant))
    }

    /// The year an instant belongs to under this boundary.
    pub fn local_year(self, instant: i64) -> (r: i32)
        requires
            is_supported_instant(instant as int),
        ensures
            r == spec_date_numbered(self.spec_day_number_at(instant as int)).year,
    {
        self.local_day(instant).year
    }

    /// The day named `day` as a half-open range `[start, end)` of Unix
    /// instants.
    pub fn day_range_utc(self, day: CalendarDate) -> (r: (i64, i64))
        requires
            day.spec_valid(),
        ensures
            r.0 == spec_local_instant(day, self.spec_hour()),
            r.1 == spec_local_instant(spec_next_day(day), self.spec_hour()),
    {
        (self.day_start_utc(day), self.day_end_utc(day))
    }

    /// The month containing `day` as a half-open range of Unix instants.
    pub fn month_range_utc(self, day: CalendarDate) -> (r: (i64, i64))
        requires
            day.spec_valid(),
        ensures
            r.0 == spec_local_instant(spec_first_of_month(day), self.spec_hour()),
            r.1 == spec_local_instant(spec_first_of_next_month(day), self.spec_hour()),
            !(day.year == MAX_YEAR && day.month == 12) ==> r.0 < r.1,
    {
        (self.month_start_utc(day), self.month_end_utc(day))
    }

    /// The year `year` as a half-open range of Unix instants.
    pub fn year_range_utc(self, year: i32) -> (r: (i64, i64))
        requires
            year < i32::MAX,
        ensures
            r.0 == spec_local_instant(spec_jan_first(year as int), self.spec_hour()),
            r.1 == spec_local_instant(spec_jan_first(year + 1), self.spec_hour()),
    {
        (self.year_start_utc(year), self.year_end_utc(year))
    }

    /// The Bilanzierungsmonat `month` (1–12) of `year` as a half-open range of
    /// Unix instants: from its first day to the first of the next month, both
    /// cut on this boundary. A year outside the supported range names the
    /// month of the first supported day.
    pub fn bilanzierungsmonat(self, year: i32, month: u8) -> (r: (i64, i64))
        requires
            1 <= month <= 12,
        ensures
            ({
                let first = if spec_is_valid_date(year as int, month as int, 1) {
                    CalendarDate { year, month, day: 1 }
                } else {
                    CalendarDate { year: MIN_YEAR, month: 1, day: 1 }
                };
                &&& r.0 == spec_local_instant(first, self.spec_hour())
                &&& r.1 == spec_local_instant(spec_first_of_next_month(first), self.spec_hour())
                &&& !(first.year == MAX_YEAR && first.month == 12) ==> r.0 < r.1
            }),
    {
        let first = match CalendarDate::new(year, month, 1) {
            Some(d) => d,
            None => CalendarDate { year: MIN_YEAR, month: 1, day: 1 },
        };
        proof {
            assert(spec_is_valid_date(MIN_YEAR as int, 1, 1));
            assert(spec_first_of_month(first) == first);
        }
        (self.day_start_utc(first), self.month_end_utc(first))
    }

    /// The half-open bucket `[start, end)` of `resolution` that contains
    /// `ts`: the Berlin day, month or year cut on this boundary, or the
    /// fixed-length slot of the Unix timeline.
    pub fn bucket_bounds(self, ts: i64, resolution: IntervalResolution) -> (r: (i64, i64))
        requires
            is_supported_instant(ts as int),
        ensures
            ({
                let day = spec_date_numbered(self.spec_day_number_at(ts as int));
                match resolution {
                    IntervalResolution::Day => r.0 == spec_local_instant(day, self.spec_hour())
                        && r.1 == spec_local_instant(spec_next_day(day), self.spec_hour()),
                    IntervalResolution::Month => r.0 == spec_local_instant(
                        spec_first_of_month(day),
                        self.spec_hour(),
                    ) && r.1 == spec_local_instant(spec_first_of_next_month(day), self.spec_hour()),
                    IntervalResolution::Year => r.0 == spec_local_instant(
                        spec_jan_first(day.year as int),
                        self.spec_hour(),
                    ) && r.1 == spec_local_instant(spec_jan_first(day.year + 1), self.spec_hour()),
                    _ => resolution.spec_fixed_seconds() matches Some(s) && r.0 == (ts as int / s as int)
                        * s && r.1 == r.0 + s,
                }
            }),
    {
        match resolution {
            IntervalResolution::Day => self.day_range_utc(self.local_day(ts)),
            IntervalResolution::Month => self.month_range_utc(self.local_day(ts)),
            IntervalResolution::Year => {
                let day = self.local_day(ts);
                self.year_range_utc(day.year)
            },
            _ => {
                let secs = match resolution.fixed_seconds() {
                    Some(s) => s,
                    None => {
                        proof {
                            assert(false);
                        }
                        return (ts, ts + 1);
                    },
                };
                let s = secs as i64;
                proof {
                    lemma_fundamental_div_mod(ts as int, s as int);
                    assert(0 <= (ts as int) % (s as int) < s);
                    assert((ts as int) / (s as int) * (s as int) == (s as int) * ((ts as int) / (s as int)))
                        by (nonlinear_arith);
                    assert(-377_800_000_000 <= (ts as int) / (s as int) <= 253_403_000_000) by (nonlinear_arith)
                        requires
                            s >= 1,
                            -377_705_000_000 <= ts <= 253_402_000_000,
                            (ts as int) == (s as int) * ((ts as int) / (s as int)) + (ts as int) % (s as int),
                            0 <= (ts as int) % (s as int) < s,
                    ;
                }
                let q = ts.checked_div_euclid(s).unwrap();
                let snapped = q * s;
                (snapped, snapped + s)
            },
        }
    }
}

/// Number of intervals of `resolution` between two Unix instants: `None`
/// when `to < from`, when the span is not a whole multiple of the
/// resolution, or when the resolution has no fixed length.
pub fn intervals_between(from: i64, to: i64, resolution: IntervalResolution) -> (r: Option<u32>)
    requires
        i64::MIN <= to - from <= i64::MAX,
    ensures
        r == (if to < from {
            None
        } else {
            spec_divide(to - from, resolution)
        }),
{
    if to < from {
        return None;
    }
    divide(to - from, resolution)
}

/// Whole Berlin calendar days between two instants: the difference of their
/// local day numbers, not their duration over 86 400 s.
pub fn days_between(from: i64, to: i64) -> (r: i64)
    requires
        is_supported_instant(from as int),
        is_supported_instant(to as int),
    ensures
        r == spec_local_day_number(to as int) - spec_local_day_number(from as int),
        -8_000_000 <= r <= 8_000_000,
{
    proof {
        lemma_supported_day_numbers();
    }
    let a = local_day(from);
    let b = local_day(to);
    proof {
        crate::holiday::lemma_valid_in_range(a);
        crate::holiday::lemma_valid_in_range(b);
    }
    day_number_of(b) - day_number_of(a)
}

/// The Unix instant of the Berlin wall-clock time `secs` seconds after
/// midnight on `date`: the earlier pass of a repeated time, and a skipped
/// time pushed forward by the gap.
fn resolve_local(date: CalendarDate, secs: u32) -> (r: i64)
    requires
        date.spec_valid(),
        secs < 86400,
    ensures
        r == spec_resolve_local(date, secs as int),
        date.spec_day_number() * 86400 + secs - 93600 < r < date.spec_day_number() * 86400 + secs + 93600,
{
    proof {
        crate::holiday::lemma_valid_in_range(date);
        lemma_supported_day_numbers();
    }
    day_number_of(date) * 86400 + secs as i64 - resolve_offset(date, secs) as i64
}

/// The same Berlin wall-clock time `days` calendar days earlier; the instant
/// itself when that day is out of range.
pub fn shift_back_days(instant: i64, days: i64) -> (r: i64)
    requires
        is_supported_instant(instant as int),
        -106_751_991_167_300 <= days <= 106_751_991_167_300,
    ensures
        ({
            let target = spec_local_day_number(instant as int) - days;
            r == if CalendarDate::spec_min_day_number() <= target <= CalendarDate::spec_max_day_number() {
                spec_resolve_local(spec_date_numbered(target), spec_local_seconds(instant as int))
            } else {
                instant as int
            }
        }),
{
    proof {
        lemma_supported_day_numbers();
    }
    let local = to_berlin(instant);
    if days > 10_000_000 || days < -10_000_000 {
        return instant;
    }
    match local.date.checked_add_days(-days) {
        Some(date) => {
            proof {
                let c = spec_date_numbered(date.spec_day_number());
                assert(c.spec_valid() && c.spec_day_number() == date.spec_day_number());
                lemma_day_number_injective(date, c);
            }
            let secs: u32 = local.hour as u32 * 3600 + local.minute as u32 * 60 + local.second as u32;
            resolve_local(date, secs)
        },
        None => instant,
    }
}

/// The date one year before the Berlin day numbered `n`: same month and day,
/// 29 February becoming 28 February.
pub open spec fn spec_year_earlier(n: int) -> CalendarDate {
    let d = spec_date_numbered(n);
    let y = d.year - 1;
    let day = if d.day <= spec_days_in_month(y, d.month as int) {
        d.day as int
    } else {
        spec_days_in_month(y, d.month as int)
    };
    CalendarDate { year: y as i32, month: d.month, day: day as u8 }
}

/// The same Berlin wall-clock time one year before instant `t`, or `t`
/// itself when that year is out of range.
pub open spec fn spec_shift_back_one_year(t: int) -> int {
    let target = spec_year_earlier(spec_local_day_number(t));
    if target.spec_valid() {
        spec_resolve_local(target, spec_local_seconds(t))
    } else {
        t
    }
}

/// The same month and day a year earlier is 365 or 366 days earlier.
proof fn lemma_same_day_a_year_earlier(y: int, m: int, d: int)
    requires
        1 <= m <= 12,
    ensures
        365 <= day_number(y, m, d) - day_number(y - 1, m, d) <= 366,
{
    if m <= 2 {
        lemma_march_step(y - 2);
    } else {
        lemma_march_step(y - 1);
    }
}

/// The same Berlin wall-clock time one year earlier: same month and day
/// (29 February maps to 28 February) and the same local time of day; the
/// instant itself when that year is out of range.
pub fn shift_back_one_year(instant: i64) -> (r: i64)
    requires
        is_supported_instant(instant as int),
    ensures
        r == spec_shift_back_one_year(instant as int),
        instant - 367 * 86400 - 200_000 <= r <= instant + 200_000,
{
    let local = to_berlin(instant);
    let date = local.date;
    let target_year = date.year - 1;
    let last = days_in_month(CalendarDate { year: target_year, month: date.month, day: 1 });
    let day = if date.day <= last {
        date.day
    } else {
        last
    };
    match CalendarDate::new(target_year, date.month, day) {
        Some(shifted) => {
            let secs: u32 = local.hour as u32 * 3600 + local.minute as u32 * 60 + local.second as u32;
            proof {
                lemma_same_day_a_year_earlier(date.year as int, date.month as int, date.day as int);
                assert(date.day - 1 <= day <= date.day);
                lemma_fundamental_div_mod(instant + local.offset_seconds, 86400);
            }
            resolve_local(shifted, secs)
        },
        None => instant,
    }
}

/// The first whole-hour step from `start` before `end` at which the Berlin
/// offset changes, as `start + k × 3600`.
pub open spec fn is_first_offset_change(start: int, end: int, k: int) -> bool {
    &&& k >= 1
    &&& start + (k - 1) * 3600 < end
    &&& berlin_utc_offset(start + k * 3600) != berlin_utc_offset(start + (k - 1) * 3600)
    &&& forall|j: int|
        1 <= j < k ==> #[trigger] berlin_utc_offset(start + j * 3600) == berlin_utc_offset(
            start + (j - 1) * 3600,
        )
}

/// The instant the UTC offset changes on a Berlin calendar day; `None` on an
/// ordinary day. Transitions fall on whole hours, so stepping hours from the
/// day's start finds it exactly.
pub fn dst_transition_utc(day: CalendarDate) -> (r: Option<i64>)
    requires
        day.spec_valid(),
    ensures
        ({
            let start = spec_local_instant(day, 0);
            let end = spec_local_instant(spec_next_day(day), 0);
            match r {
                Some(t) => berlin_utc_offset(end - 1) != berlin_utc_offset(start) && exists|k: int|
                    #[trigger] is_first_offset_change(start, end, k) && t == start + k * 3600,
                None => berlin_utc_offset(end - 1) == berlin_utc_offset(start) || forall|k: int|
                    k >= 1 && start + (k - 1) * 3600 < end ==> berlin_utc_offset(start + k * 3600)
                        == berlin_utc_offset(#[trigger] (start + (k - 1) * 3600)),
            }
        }),
{
    proof {
        crate::holiday::lemma_valid_in_range(day);
        crate::holiday::lemma_valid_in_range(spec_next_day(day));
        lemma_next_day(day);
        lemma_supported_day_numbers();
    }
    let start = day_start_utc(day);
    let end = day_end_utc(day);
    let first = berlin_offset_at(start);
    if berlin_offset_at(end - 1) == first {
        return None;
    }
    let mut cursor = start;
    let mut k: i64 = 0;
    while cursor < end
        invariant
            cursor == start + k * 3600,
            k >= 0,
            FIRST_SUPPORTED_SECOND - 93599 <= start,
            end <= LAST_SUPPORTED_SECOND - 86399 + 93599,
            start == spec_local_instant(day, 0),
            end == spec_local_instant(spec_next_day(day), 0),
            berlin_utc_offset(end - 1) != berlin_utc_offset(start as int),
            forall|j: int|
                1 <= j <= k ==> #[trigger] berlin_utc_offset(start + j * 3600) == berlin_utc_offset(
                    start + (j - 1) * 3600,
                ),
        decreases end + 3600 - cursor,
    {
        let next = cursor + 3600;
        if berlin_offset_at(next) != berlin_offset_at(cursor) {
            proof {
                assert(is_first_offset_change(start as int, end as int, k + 1));
            }
            return Some(next);
        }
        cursor = next;
        k = k + 1;
    }
    proof {
        assert forall|j: int| j >= 1 && start + (j - 1) * 3600 < end implies berlin_utc_offset(
            start + j * 3600,
        ) == berlin_utc_offset(#[trigger] (start + (j - 1) * 3600)) by {
            assert(1 <= j <= k);
        }
    }
    None
}

} // verus!
