//! [`IntervalResolution`]: the grid a series is delivered on, written as an
//! ISO 8601 duration.
//!
//! Day, month and year are calendar lengths — a Berlin day is 23, 24 or 25
//! hours — so they have no fixed number of seconds.

use vstd::prelude::*;

use crate::error::{Expected, ParseError};
use crate::text::{str_eq, to_uppercase, trim, trimmed, uppercased};

verus! {

/// A custom fixed interval length in seconds.
///
/// Opaque, so that a length with a name (900 s is `PT15M`) cannot also be
/// spelled as a custom one.
#[derive(Debug, Clone, Copy, PartialEq, Eq, Hash, Structural)]
pub struct CustomSeconds {
    secs: u32,
}

impl CustomSeconds {
    pub closed spec fn spec_get(self) -> u32 {
        self.secs
    }

    #[verifier::type_invariant]
    spec fn is_nonzero(self) -> bool {
        self.secs != 0
    }

    /// A custom length, or `None` for zero and for the lengths that have a
    /// name of their own (900, 1800 and 3600 seconds).
    pub fn new(secs: u32) -> (r: Option<Self>)
        ensures
            r matches Some(c) ==> c.spec_get() == secs,
            r is Some <==> (secs != 0 && secs != 900 && secs != 1800 && secs != 3600),
    {
        if secs == 0 || secs == 900 || secs == 1800 || secs == 3600 {
            None
        } else {
            Some(CustomSeconds { secs })
        }
    }

    /// The length in seconds, never zero.
    pub fn get(self) -> (r: u32)
        ensures
            r == self.spec_get(),
            r != 0,
    {
        proof {
            use_type_invariant(&self);
        }
        self.secs
    }
}

/// The grid an interval series is delivered on.
#[derive(Debug, Clone, Copy, PartialEq, Eq, Hash, Structural)]
pub enum IntervalResolution {
    /// 15 minutes, `PT15M` — the electricity settlement grid.
    QuarterHour,
    /// 30 minutes, `PT30M`.
    HalfHour,
    /// One hour, `PT1H` — the gas settlement grid.
    Hour,
    /// One Berlin calendar day, `P1D`.
    Day,
    /// One Berlin calendar month, `P1M`.
    Month,
    /// One Berlin calendar year, `P1Y`.
    Year,
    /// Any other fixed length, `PT<n>S`.
    Custom(CustomSeconds),
}

/// The shape the parser accepts, as rendered in a [`ParseError`].
pub const RESOLUTION_FORMAT: &'static str = "an ISO 8601 duration: PT15M, PT30M, PT1H, P1D, P1M or P1Y";

impl IntervalResolution {
    /// `true` for the calendar lengths — day, month and year.
    pub fn is_calendar(self) -> (r: bool)
        ensures
            r == (self is Day || self is Month || self is Year),
    {
        match self {
            Self::Day | Self::Month | Self::Year => true,
            _ => false,
        }
    }

    pub open spec fn spec_fixed_seconds(self) -> Option<u32> {
        match self {
            Self::QuarterHour => Some(900),
            Self::HalfHour => Some(1800),
            Self::Hour => Some(3600),
            Self::Custom(c) => Some(c.spec_get()),
            _ => None,
        }
    }

    /// The length in seconds, `None` for a calendar length.
    pub fn fixed_seconds(self) -> (r: Option<u32>)
        ensures
            r == self.spec_fixed_seconds(),
            r is None <==> self.is_calendar_spec(),
            r matches Some(s) ==> s != 0,
    {
        match self {
            Self::QuarterHour => Some(900),
            Self::HalfHour => Some(1800),
            Self::Hour => Some(3600),
            Self::Custom(c) => Some(c.get()),
            _ => None,
        }
    }

    pub open spec fn is_calendar_spec(self) -> bool {
        self is Day || self is Month || self is Year
    }

    /// The resolution of a fixed length: the named one where there is one,
    /// otherwise a custom length. `None` for zero.
    pub fn from_seconds(secs: u32) -> (r: Option<Self>)
        ensures
            secs == 0 ==> r is None,
            secs != 0 ==> (r matches Some(v) && v.spec_fixed_seconds() == Some(secs)),
    {
        if secs == 900 {
            Some(Self::QuarterHour)
        } else if secs == 1800 {
            Some(Self::HalfHour)
        } else if secs == 3600 {
            Some(Self::Hour)
        } else {
            match CustomSeconds::new(secs) {
                Some(c) => Some(Self::Custom(c)),
                None => None,
            }
        }
    }

    /// The named resolution an upper-case ISO spelling stands for.
    pub open spec fn spec_from_name(u: Seq<char>) -> Option<Self> {
        if u == "PT15M"@ {
            Some(Self::QuarterHour)
        } else if u == "PT30M"@ {
            Some(Self::HalfHour)
        } else if u == "PT1H"@ {
            Some(Self::Hour)
        } else if u == "P1D"@ {
            Some(Self::Day)
        } else if u == "P1M"@ {
            Some(Self::Month)
        } else if u == "P1Y"@ {
            Some(Self::Year)
        } else {
            None
        }
    }

    fn from_name(u: &str) -> (r: Option<Self>)
        ensures
            r == Self::spec_from_name(u@),
    {
        if str_eq(u, "PT15M") {
            Some(Self::QuarterHour)
        } else if str_eq(u, "PT30M") {
            Some(Self::HalfHour)
        } else if str_eq(u, "PT1H") {
            Some(Self::Hour)
        } else if str_eq(u, "P1D") {
            Some(Self::Day)
        } else if str_eq(u, "P1M") {
            Some(Self::Month)
        } else if str_eq(u, "P1Y") {
            Some(Self::Year)
        } else {
            None
        }
    }

    /// What parsing `s` yields: one of the six names, case-insensitively and
    /// ignoring surrounding whitespace.
    pub open spec fn spec_parse(s: Seq<char>) -> Option<Self> {
        Self::spec_from_name(uppercased(trimmed(s)))
    }

    /// Parses an ISO 8601 duration name.
    pub fn parse_iso(s: &str) -> (r: Result<Self, ParseError>)
        ensures
            match r {
                Ok(v) => Self::spec_parse(s@) == Some(v),
                Err(e) => {
                    &&& Self::spec_parse(s@).is_none()
                    &&& e.spec_type_label() == "IntervalResolution"@
                    &&& e.spec_input() == s@
                    &&& e.spec_expected() == Expected::Format(RESOLUTION_FORMAT)
                },
            },
    {
        let t = trim(s);
        let u = to_uppercase(t);
        match Self::from_name(u.as_str()) {
            Some(v) => Ok(v),
            None => Err(ParseError::format("IntervalResolution", s, RESOLUTION_FORMAT)),
        }
    }
}

impl std::str::FromStr for IntervalResolution {
    type Err = ParseError;

    fn from_str(s: &str) -> (r: Result<IntervalResolution, ParseError>)
        ensures
            match r {
                Ok(v) => Self::spec_parse(s@) == Some(v),
                Err(e) => {
                    &&& Self::spec_parse(s@).is_none()
                    &&& e.spec_type_label() == "IntervalResolution"@
                    &&& e.spec_input() == s@
                    &&& e.spec_expected() == Expected::Format(RESOLUTION_FORMAT)
                },
            },
    {
        IntervalResolution::parse_iso(s)
    }
}

} // verus!
