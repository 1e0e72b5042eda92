//! Meter lifecycle events: installation, exchange and retirement
//! ([`MeterStatus`], [`MeterLifecycleEventType`], [`MeterLifecycleEvent`],
//! [`MeterExchangeEvent`]).
//!
//! When a meter is replaced mid-period two readings exist, the old meter's
//! last and the new meter's first; a [`MeterExchangeEvent`] anchors both to
//! one instant, from which the Berlin calendar day is derived.

use vstd::prelude::*;

use crate::calendar::{is_supported_instant, spec_local_day_number, CalendarDate};
use crate::decimal::Dec;
use crate::error::{Expected, ParseError};
use crate::ids::MeloId;
use crate::obis::ObisCode;
use crate::text::{
    lemma_code_is_canonical, str_eq,
    to_uppercase, trim, trimmed, uppercased,
};

verus! {
/// Status of a physical meter at a delivery point.
#[derive(Debug, Default, Clone, Copy, PartialEq, Eq, Hash, Structural)]
pub enum MeterStatus {
    /// Meter is installed and in service.
    #[default]
    Active,
    /// Meter has been removed / decommissioned.
    Removed,
    /// Meter is installed but not yet commissioned.
    Pending,
    /// Meter was tested in lab; now deployed to a MeLo.
    Deployed,
}

impl MeterStatus {
    /// Every variant, in declaration order.
    pub const ALL: [Self; 4] = [Self::Active, Self::Removed, Self::Pending, Self::Deployed];

    /// Every code [`as_str`](Self::as_str) writes, in the order of `ALL`.
    pub fn codes() -> (r: &'static [&'static str])
        ensures
            Self::spec_is_codes(r@),
    {
        &["ACTIVE", "REMOVED", "PENDING", "DEPLOYED"]
    }

    /// `c` lists the codes of `ALL`, in order.
    pub open spec fn spec_is_codes(c: Seq<&'static str>) -> bool {
        &&& c.len() == 4
        &&& c[0]@ == Self::Active.spec_as_str()
        &&& c[1]@ == Self::Removed.spec_as_str()
        &&& c[2]@ == Self::Pending.spec_as_str()
        &&& c[3]@ == Self::Deployed.spec_as_str()
    }

    pub open spec fn spec_as_str(self) -> Seq<char> {
        match self {
            Self::Active => "ACTIVE"@,
            Self::Removed => "REMOVED"@,
            Self::Pending => "PENDING"@,
            Self::Deployed => "DEPLOYED"@,
        }
    }

    /// Stable DB/wire label; the `FromStr` input and the code `to_string` writes.
    pub fn as_str(self) -> (r: &'static str)
        ensures
            r@ == self.spec_as_str(),
    {
        match self {
            Self::Active => "ACTIVE",
            Self::Removed => "REMOVED",
            Self::Pending => "PENDING",
            Self::Deployed => "DEPLOYED",
        }
    }

    /// The code as an owned string (what `Display` writes).
    pub fn to_string(&self) -> (r: String)
        ensures
            r@ == self.spec_as_str(),
    {
        self.as_str().to_owned()
    }

    /// The variant whose code is exactly `s`.
    pub open spec fn spec_from_code(s: Seq<char>) -> Option<Self> {
        if s == "ACTIVE"@ {
            Some(Self::Active)
        } else if s == "REMOVED"@ {
            Some(Self::Removed)
        } else if s == "PENDING"@ {
            Some(Self::Pending)
        } else if s == "DEPLOYED"@ {
            Some(Self::Deployed)
        } else {
            None
        }
    }

    /// The variant whose code is exactly `s`, case and whitespace included.
    pub fn from_code(s: &str) -> (r: Option<Self>)
        ensures
            r == Self::spec_from_code(s@),
    {
        if str_eq(s, "ACTIVE") {
            Some(Self::Active)
        } else if str_eq(s, "REMOVED") {
            Some(Self::Removed)
        } else if str_eq(s, "PENDING") {
            Some(Self::Pending)
        } else if str_eq(s, "DEPLOYED") {
            Some(Self::Deployed)
        } else {
            None
        }
    }

    /// What parsing `s` yields: surrounding whitespace is ignored and the
    /// comparison is case-insensitive.
    pub open spec fn spec_parse(s: Seq<char>) -> Option<Self> {
        let t = trimmed(s);
        let u = uppercased(t);
        Self::spec_from_code(u)
    }

    /// Parses a code, ignoring surrounding whitespace and case.
    pub fn parse_code(s: &str) -> (r: Result<Self, ParseError>)
        ensures
            match r {
                Ok(v) => Self::spec_parse(s@) == Some(v),
                Err(e) => {
                    &&& Self::spec_parse(s@).is_none()
                    &&& e.spec_type_label() == "MeterStatus"@
                    &&& e.spec_input() == s@
                    &&& e.spec_expected() matches Expected::OneOf(c) && Self::spec_is_codes(c@)
                },
            },
    {
        let t = trim(s);
        let u = to_uppercase(t);
        match Self::from_code(u.as_str()) {
            Some(v) => Ok(v),
            None => Err(ParseError::one_of("MeterStatus", s, Self::codes())),
        }
    }

    /// Parsing the code of a variant gives the variant back.
    pub proof fn lemma_parse_as_str(v: Self)
        ensures
            Self::spec_parse(v.spec_as_str()) == Some(v),
    {
        match v {
            Self::Active => {
                reveal_strlit("ACTIVE");
                lemma_code_is_canonical("ACTIVE"@);
            },
            Self::Removed => {
                reveal_strlit("ACTIVE");
                reveal_strlit("REMOVED");
                lemma_code_is_canonical("REMOVED"@);
            },
            Self::Pending => {
                reveal_strlit("ACTIVE");
                reveal_strlit("PENDING");
                reveal_strlit("REMOVED");
                lemma_code_is_canonical("PENDING"@);
                assert("PENDING"@[0] != "REMOVED"@[0]);
            },
            Self::Deployed => {
                reveal_strlit("ACTIVE");
                reveal_strlit("DEPLOYED");
                reveal_strlit("PENDING");
                reveal_strlit("REMOVED");
                lemma_code_is_canonical("DEPLOYED"@);
            },
        }
    }
}

impl std::str::FromStr for MeterStatus {
    type Err = ParseError;

    fn from_str(s: &str) -> (r: Result<MeterStatus, ParseError>)
        ensures
            match r {
                Ok(v) => Self::spec_parse(s@) == Some(v),
                Err(e) => {
                    &&& Self::spec_parse(s@).is_none()
                    &&& e.spec_type_label() == "MeterStatus"@
                    &&& e.spec_input() == s@
                    &&& e.spec_expected() matches Expected::OneOf(c) && Self::spec_is_codes(c@)
                },
            },
    {
        MeterStatus::parse_code(s)
    }
}

impl MeterStatus {
    /// `true` when the meter can currently produce readings: only an
    /// active meter can.
    pub fn is_in_service(self) -> (r: bool)
        ensures
            r == (self is Active),
    {
        matches!(self, Self::Active)
    }
}

/// Type of lifecycle event affecting a physical meter.
#[derive(Debug, Clone, Copy, PartialEq, Eq, Hash, Structural)]
pub enum MeterLifecycleEventType {
    /// Initial installation at a delivery point.
    Installed,
    /// Meter replaced with a new unit at the same delivery point.
    Replaced,
    /// Meter removed without replacement (end of supply).
    Removed,
    /// Meter firmware or calibration updated (SMGW update, new Eichung).
    Updated,
    /// Meter sealed / calibration renewed (Eichung, §28 MessEG).
    Recalibrated,
}

impl MeterLifecycleEventType {
    /// Every variant, in declaration order.
    pub const ALL: [Self; 5] = [Self::Installed, Self::Replaced, Self::Removed, Self::Updated, Self::Recalibrated];

    /// Every code [`as_str`](Self::as_str) writes, in the order of `ALL`.
    pub fn codes() -> (r: &'static [&'static str])
        ensures
            Self::spec_is_codes(r@),
    {
        &["INSTALLED", "REPLACED", "REMOVED", "UPDATED", "RECALIBRATED"]
    }

    /// `c` lists the codes of `ALL`, in order.
    pub open spec fn spec_is_codes(c: Seq<&'static str>) -> bool {
        &&& c.len() == 5
        &&& c[0]@ == Self::Installed.spec_as_str()
        &&& c[1]@ == Self::Replaced.spec_as_str()
        &&& c[2]@ == Self::Removed.spec_as_str()
        &&& c[3]@ == Self::Updated.spec_as_str()
        &&& c[4]@ == Self::Recalibrated.spec_as_str()
    }

    pub open spec fn spec_as_str(self) -> Seq<char> {
        match self {
            Self::Installed => "INSTALLED"@,
            Self::Replaced => "REPLACED"@,
            Self::Removed => "REMOVED"@,
            Self::Updated => "UPDATED"@,
            Self::Recalibrated => "RECALIBRATED"@,
        }
    }

    /// Stable DB/wire label; the `FromStr` input and the code `to_string` writes.
    pub fn as_str(self) -> (r: &'static str)
        ensures
            r@ == self.spec_as_str(),
    {
        match self {
            Self::Installed => "INSTALLED",
            Self::Replaced => "REPLACED",
            Self::Removed => "REMOVED",
            Self::Updated => "UPDATED",
            Self::Recalibrated => "RECALIBRATED",
        }
    }

    /// The code as an owned string (what `Display` writes).
    pub fn to_string(&self) -> (r: String)
        ensures
            r@ == self.spec_as_str(),
    {
        self.as_str().to_owned()
    }

    /// The variant whose code is exactly `s`.
    pub open spec fn spec_from_code(s: Seq<char>) -> Option<Self> {
        if s == "INSTALLED"@ {
            Some(Self::Installed)
        } else if s == "REPLACED"@ {
            Some(Self::Replaced)
        } else if s == "REMOVED"@ {
            Some(Self::Removed)
        } else if s == "UPDATED"@ {
            Some(Self::Updated)
        } else if s == "RECALIBRATED"@ {
            Some(Self::Recalibrated)
        } else {
            None
        }
    }

    /// The variant whose code is exactly `s`, case and whitespace included.
    pub fn from_code(s: &str) -> (r: Option<Self>)
        ensures
            r == Self::spec_from_code(s@),
    {
        if str_eq(s, "INSTALLED") {
            Some(Self::Installed)
        } else if str_eq(s, "REPLACED") {
            Some(Self::Replaced)
        } else if str_eq(s, "REMOVED") {
            Some(Self::Removed)
        } else if str_eq(s, "UPDATED") {
            Some(Self::Updated)
        } else if str_eq(s, "RECALIBRATED") {
            Some(Self::Recalibrated)
        } else {
            None
        }
    }

    /// What parsing `s` yields: surrounding whitespace is ignored and the
    /// comparison is case-insensitive.
    pub open spec fn spec_parse(s: Seq<char>) -> Option<Self> {
        let t = trimmed(s);
        let u = uppercased(t);
        Self::spec_from_code(u)
    }

    /// Parses a code, ignoring surrounding whitespace and case.
    pub fn parse_code(s: &str) -> (r: Result<Self, ParseError>)
        ensures
            match r {
                Ok(v) => Self::spec_parse(s@) == Some(v),
                Err(e) => {
                    &&& Self::spec_parse(s@).is_none()
                    &&& e.spec_type_label() == "MeterLifecycleEventType"@
                    &&& e.spec_input() == s@
                    &&& e.spec_expected() matches Expected::OneOf(c) && Self::spec_is_codes(c@)
                },
            },
    {
        let t = trim(s);
        let u = to_uppercase(t);
        match Self::from_code(u.as_str()) {
            Some(v) => Ok(v),
            None => Err(ParseError::one_of("MeterLifecycleEventType", s, Self::codes())),
        }
    }

    /// Parsing the code of a variant gives the variant back.
    pub proof fn lemma_parse_as_str(v: Self)
        ensures
            Self::spec_parse(v.spec_as_str()) == Some(v),
    {
        match v {
            Self::Installed => {
                reveal_strlit("INSTALLED");
                lemma_code_is_canonical("INSTALLED"@);
            },
            Self::Replaced => {
                reveal_strlit("INSTALLED");
                reveal_strlit("REPLACED");
                lemma_code_is_canonical("REPLACED"@);
            },
            Self::Removed => {
                reveal_strlit("INSTALLED");
                reveal_strlit("REMOVED");
                reveal_strlit("REPLACED");
                lemma_code_is_canonical("REMOVED"@);
            },
            Self::Updated => {
                reveal_strlit("INSTALLED");
                reveal_strlit("REMOVED");
                reveal_strlit("REPLACED");
                reveal_strlit("UPDATED");
                lemma_code_is_canonical("UPDATED"@);
                assert("UPDATED"@[0] != "REMOVED"@[0]);
            },
            Self::Recalibrated => {
                reveal_strlit("INSTALLED");
                reveal_strlit("RECALIBRATED");
                reveal_strlit("REMOVED");
                reveal_strlit("REPLACED");
                reveal_strlit("UPDATED");
                lemma_code_is_canonical("RECALIBRATED"@);
            },
        }
    }
}

impl std::str::FromStr for MeterLifecycleEventType {
    type Err = ParseError;

    fn from_str(s: &str) -> (r: Result<MeterLifecycleEventType, ParseError>)
        ensures
            match r {
                Ok(v) => Self::spec_parse(s@) == Some(v),
                Err(e) => {
                    &&& Self::spec_parse(s@).is_none()
                    &&& e.spec_type_label() == "MeterLifecycleEventType"@
                    &&& e.spec_input() == s@
                    &&& e.spec_expected() matches Expected::OneOf(c) && Self::spec_is_codes(c@)
                },
            },
    {
        MeterLifecycleEventType::parse_code(s)
    }
}

impl MeterLifecycleEventType {
    /// `true` when the event changes which physical register is counting, so
    /// a reading either side of it cannot be differenced against the other:
    /// installation, replacement and removal.
    pub fn breaks_register_continuity(self) -> (r: bool)
        ensures
            r == (self is Installed || self is Replaced || self is Removed),
    {
        matches!(self, Self::Installed | Self::Replaced | Self::Removed)
    }
}


/// A lifecycle event of a physical meter, kept as an append-only audit log.
#[derive(Debug, Clone, PartialEq, Eq)]
pub struct MeterLifecycleEvent {
    /// Unique event identifier.
    pub event_id: String,
    /// Meter serial number (Zählernummer).
    pub meter_serial: String,
    /// Messlokations-ID of the delivery point.
    pub melo_id: MeloId,
    /// Type of lifecycle event.
    pub event_type: MeterLifecycleEventType,
    /// When the event occurred, Unix seconds.
    pub occurred_at: i64,
    /// The meter reading at the event, in kWh; `None` where not applicable.
    pub reading: Option<Dec>,
    /// OBIS code of the reading.
    pub obis_code: Option<ObisCode>,
    /// Free-text reason or operator note.
    pub reason: Option<String>,
    /// BDEW PID that triggered the event (23003 for a Zählerwechsel).
    pub triggered_by_pid: Option<u32>,
}

/// A meter exchange: the old meter's final reading and the new meter's
/// first, anchored to one instant. The two registers are differenced
/// separately, since the new one starts over.
#[derive(Debug, Clone, PartialEq, Eq)]
pub struct MeterExchangeEvent {
    /// Unique exchange identifier.
    pub exchange_id: String,
    /// The MeLo where the exchange took place.
    pub melo_id: MeloId,
    /// Serial number of the removed meter.
    pub old_meter_serial: String,
    /// Final reading of the old meter, in kWh.
    pub old_final_reading: Dec,
    /// Serial number of the newly installed meter.
    pub new_meter_serial: String,
    /// First reading of the new meter, in kWh.
    pub new_first_reading: Dec,
    /// When the exchange took place, Unix seconds. The Berlin day is derived
    /// from it rather than stored beside it.
    pub exchange_at: i64,
    /// BDEW PID that triggered the exchange (typically 23003).
    pub triggered_by_pid: Option<u32>,
    /// INSRPT process ID that reported the exchange.
    pub insrpt_process_id: Option<String>,
    /// Technician or system that performed the exchange.
    pub performed_by: Option<String>,
}

impl MeterExchangeEvent {
    /// The Berlin calendar day the exchange falls on, for billing-period
    /// alignment: 22:30 UTC on 14 June is already 15 June in Berlin.
    pub fn exchange_date(&self) -> (r: CalendarDate)
        requires
            is_supported_instant(self.exchange_at as int),
        ensures
            r.spec_valid(),
            r.spec_day_number() == spec_local_day_number(self.exchange_at as int),
    {
        crate::calendar::local_day(self.exchange_at)
    }
}

} // verus!
