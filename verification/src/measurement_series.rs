//! Named, annotated measurement series: the intervals of one register with
//! where they came from ([`MeasurementSource`]) and what has happened to
//! them ([`ProvenanceEventType`]).
//!
//! § 60 Abs. 6 MsbG is a deletion duty, not a retention mandate: a provenance
//! trail is kept only as long as the values it explains, and anonymisation
//! is itself an event the trail records.

use vstd::prelude::*;

use crate::error::{Expected, ParseError};
use crate::text::{
    lemma_code_is_canonical, str_eq,
    to_uppercase, trim, trimmed, uppercased,
};
use crate::aggregation::{billable_values, is_billable_flag};
use crate::decimal::{running_sum, view_of, views, Dec};
use crate::forecast::{max_to, min_from};
use crate::ids::{BdewCode, MaloId, MeloId};
use crate::interval::{MeterInterval, QualityFlag};
use crate::obis::ObisCode;
use crate::resolution::IntervalResolution;

verus! {
/// The origin of a measurement series — how the data entered the system.
///
/// Provenance is not billability: whether a value may be billed is decided
/// by each interval's quality flag, never by where the series came from.
#[derive(Debug, Clone, PartialEq, Eq)]
pub enum MeasurementSource {
    /// Received via EDIFACT MSCONS: the Prüfidentifikator, the message reference
    /// and the Marktpartner-ID of the sending NB/MSB.
    Mscons {
        pid: u32,
        message_ref: Option<String>,
        sender_mp_id: BdewCode,
    },
    /// iMSys / SMGW direct push, bypassing the EDIFACT pipeline: the device and
    /// the session for idempotency.
    SmgwDirectPush {
        device_id: String,
        session_id: String,
    },
    /// Manual entry by an operator, with the reason.
    ManualEntry {
        operator_id: String,
        reason: String,
    },
    /// A substitute value generated by gap filling: the method and the reason,
    /// as their codes.
    AutoSubstitute {
        method: String,
        reason: String,
    },
    /// A retroactive correction: the caller's correction record and who applied it.
    RetroactiveCorrection {
        correction_ref: String,
        corrected_by: String,
    },
    /// Derived from other series by a virtual-meter rule (its code), with the
    /// MaLo / MeLo IDs that contributed.
    VirtualMeter {
        rule: String,
        source_ids: Vec<String>,
    },
    /// Redispatch 2.0 time-series import (PIDs 13020–13023, 13026).
    RedispatchImport {
        pid: u32,
        activation_ref: Option<String>,
    },
    /// A charging session's Charge Detail Record: one total for the session.
    ChargeDetailRecord {
        cdr_id: String,
        evse_id: Option<String>,
    },
    /// Clock-aligned meter values from a charge point (OCPP `MeterValues`).
    ClockAlignedMeterValue {
        transaction_id: String,
        evse_id: Option<String>,
    },
    /// A device's own log, with the register it names when known.
    DeviceLog {
        device_id: String,
        register: Option<String>,
    },
}

impl MeasurementSource {
    pub open spec fn spec_label(&self) -> Seq<char> {
        match self {
            Self::Mscons { .. } => "MSCONS"@,
            Self::SmgwDirectPush { .. } => "SMGW-Direktpush"@,
            Self::ManualEntry { .. } => "Manuelle Eingabe"@,
            Self::AutoSubstitute { .. } => "Automatischer Ersatzwert"@,
            Self::RetroactiveCorrection { .. } => "Nachträgliche Korrektur"@,
            Self::VirtualMeter { .. } => "Virtueller Zähler"@,
            Self::RedispatchImport { .. } => "Redispatch 2.0"@,
            Self::ChargeDetailRecord { .. } => "Ladevorgang (CDR)"@,
            Self::ClockAlignedMeterValue { .. } => "Ladepunkt-Zählwert"@,
            Self::DeviceLog { .. } => "Gerätelog"@,
        }
    }

    /// The source's human-readable label.
    pub fn label(&self) -> (r: &'static str)
        ensures
            r@ == self.spec_label(),
    {
        match self {
            Self::Mscons { .. } => "MSCONS",
            Self::SmgwDirectPush { .. } => "SMGW-Direktpush",
            Self::ManualEntry { .. } => "Manuelle Eingabe",
            Self::AutoSubstitute { .. } => "Automatischer Ersatzwert",
            Self::RetroactiveCorrection { .. } => "Nachträgliche Korrektur",
            Self::VirtualMeter { .. } => "Virtueller Zähler",
            Self::RedispatchImport { .. } => "Redispatch 2.0",
            Self::ChargeDetailRecord { .. } => "Ladevorgang (CDR)",
            Self::ClockAlignedMeterValue { .. } => "Ladepunkt-Zählwert",
            Self::DeviceLog { .. } => "Gerätelog",
        }
    }
}

/// What happened to a measurement series, as recorded in its provenance log.
#[derive(Debug, Clone, Copy, PartialEq, Eq, Hash, Structural)]
pub enum ProvenanceEventType {
    /// The series was received.
    Ingested,
    /// Its quality was assessed.
    QualityAssessed,
    /// A substitute value was generated.
    SubstituteGenerated,
    /// A value was corrected.
    Corrected,
    /// The series was archived.
    Archived,
    /// The series was anonymised.
    Anonymised,
}

impl ProvenanceEventType {
    /// Every variant, in declaration order.
    pub const ALL: [Self; 6] = [Self::Ingested, Self::QualityAssessed, Self::SubstituteGenerated, Self::Corrected, Self::Archived, Self::Anonymised];

    /// Every code [`as_str`](Self::as_str) writes, in the order of `ALL`.
    pub fn codes() -> (r: &'static [&'static str])
        ensures
            Self::spec_is_codes(r@),
    {
        &["INGESTED", "QUALITY_ASSESSED", "SUBSTITUTE_GENERATED", "CORRECTED", "ARCHIVED", "ANONYMISED"]
    }

    /// `c` lists the codes of `ALL`, in order.
    pub open spec fn spec_is_codes(c: Seq<&'static str>) -> bool {
        &&& c.len() == 6
        &&& c[0]@ == Self::Ingested.spec_as_str()
        &&& c[1]@ == Self::QualityAssessed.spec_as_str()
        &&& c[2]@ == Self::SubstituteGenerated.spec_as_str()
        &&& c[3]@ == Self::Corrected.spec_as_str()
        &&& c[4]@ == Self::Archived.spec_as_str()
        &&& c[5]@ == Self::Anonymised.spec_as_str()
    }

    pub open spec fn spec_as_str(self) -> Seq<char> {
        match self {
            Self::Ingested => "INGESTED"@,
            Self::QualityAssessed => "QUALITY_ASSESSED"@,
            Self::SubstituteGenerated => "SUBSTITUTE_GENERATED"@,
            Self::Corrected => "CORRECTED"@,
            Self::Archived => "ARCHIVED"@,
            Self::Anonymised => "ANONYMISED"@,
        }
    }

    /// Stable DB/wire label; the `FromStr` input and the code `to_string` writes.
    pub fn as_str(self) -> (r: &'static str)
        ensures
            r@ == self.spec_as_str(),
    {
        match self {
            Self::Ingested => "INGESTED",
            Self::QualityAssessed => "QUALITY_ASSESSED",
            Self::SubstituteGenerated => "SUBSTITUTE_GENERATED",
            Self::Corrected => "CORRECTED",
            Self::Archived => "ARCHIVED",
            Self::Anonymised => "ANONYMISED",
        }
    }

    /// The code as an owned string (what `Display` writes).
    pub fn to_string(&self) -> (r: String)
        ensures
            r@ == self.spec_as_str(),
    {
        self.as_str().to_owned()
    }

    /// The variant whose code is exactly `s`.
    pub open spec fn spec_from_code(s: Seq<char>) -> Option<Self> {
        if s == "INGESTED"@ {
            Some(Self::Ingested)
        } else if s == "QUALITY_ASSESSED"@ {
            Some(Self::QualityAssessed)
        } else if s == "SUBSTITUTE_GENERATED"@ {
            Some(Self::SubstituteGenerated)
        } else if s == "CORRECTED"@ {
            Some(Self::Corrected)
        } else if s == "ARCHIVED"@ {
            Some(Self::Archived)
        } else if s == "ANONYMISED"@ {
            Some(Self::Anonymised)
        } else {
            None
        }
    }

    /// The variant whose code is exactly `s`, case and whitespace included.
    pub fn from_code(s: &str) -> (r: Option<Self>)
        ensures
            r == Self::spec_from_code(s@),
    {
        if str_eq(s, "INGESTED") {
            Some(Self::Ingested)
        } else if str_eq(s, "QUALITY_ASSESSED") {
            Some(Self::QualityAssessed)
        } else if str_eq(s, "SUBSTITUTE_GENERATED") {
            Some(Self::SubstituteGenerated)
        } else if str_eq(s, "CORRECTED") {
            Some(Self::Corrected)
        } else if str_eq(s, "ARCHIVED") {
            Some(Self::Archived)
        } else if str_eq(s, "ANONYMISED") {
            Some(Self::Anonymised)
        } else {
            None
        }
    }

    /// What parsing `s` yields: surrounding whitespace is ignored and the
    /// comparison is case-insensitive.
    pub open spec fn spec_parse(s: Seq<char>) -> Option<Self> {
        let t = trimmed(s);
        let u = uppercased(t);
        Self::spec_from_code(u)
    }

    /// Parses a code, ignoring surrounding whitespace and case.
    pub fn parse_code(s: &str) -> (r: Result<Self, ParseError>)
        ensures
            match r {
                Ok(v) => Self::spec_parse(s@) == Some(v),
                Err(e) => {
                    &&& Self::spec_parse(s@).is_none()
                    &&& e.spec_type_label() == "ProvenanceEventType"@
                    &&& e.spec_input() == s@
                    &&& e.spec_expected() matches Expected::OneOf(c) && Self::spec_is_codes(c@)
                },
            },
    {
        let t = trim(s);
        let u = to_uppercase(t);
        match Self::from_code(u.as_str()) {
            Some(v) => Ok(v),
            None => Err(ParseError::one_of("ProvenanceEventType", s, Self::codes())),
        }
    }

    /// Parsing the code of a variant gives the variant back.
    pub proof fn lemma_parse_as_str(v: Self)
        ensures
            Self::spec_parse(v.spec_as_str()) == Some(v),
    {
        match v {
            Self::Ingested => {
                reveal_strlit("INGESTED");
                lemma_code_is_canonical("INGESTED"@);
            },
            Self::QualityAssessed => {
                reveal_strlit("INGESTED");
                reveal_strlit("QUALITY_ASSESSED");
                lemma_code_is_canonical("QUALITY_ASSESSED"@);
            },
            Self::SubstituteGenerated => {
                reveal_strlit("INGESTED");
                reveal_strlit("QUALITY_ASSESSED");
                reveal_strlit("SUBSTITUTE_GENERATED");
                lemma_code_is_canonical("SUBSTITUTE_GENERATED"@);
            },
            Self::Corrected => {
                reveal_strlit("CORRECTED");
                reveal_strlit("INGESTED");
                reveal_strlit("QUALITY_ASSESSED");
                reveal_strlit("SUBSTITUTE_GENERATED");
                lemma_code_is_canonical("CORRECTED"@);
            },
            Self::Archived => {
                reveal_strlit("ARCHIVED");
                reveal_strlit("CORRECTED");
                reveal_strlit("INGESTED");
                reveal_strlit("QUALITY_ASSESSED");
                reveal_strlit("SUBSTITUTE_GENERATED");
                lemma_code_is_canonical("ARCHIVED"@);
                assert("ARCHIVED"@[0] != "INGESTED"@[0]);
            },
            Self::Anonymised => {
                reveal_strlit("ANONYMISED");
                reveal_strlit("ARCHIVED");
                reveal_strlit("CORRECTED");
                reveal_strlit("INGESTED");
                reveal_strlit("QUALITY_ASSESSED");
                reveal_strlit("SUBSTITUTE_GENERATED");
                lemma_code_is_canonical("ANONYMISED"@);
            },
        }
    }
}

impl std::str::FromStr for ProvenanceEventType {
    type Err = ParseError;

    fn from_str(s: &str) -> (r: Result<ProvenanceEventType, ParseError>)
        ensures
            match r {
                Ok(v) => Self::spec_parse(s@) == Some(v),
                Err(e) => {
                    &&& Self::spec_parse(s@).is_none()
                    &&& e.spec_type_label() == "ProvenanceEventType"@
                    &&& e.spec_input() == s@
                    &&& e.spec_expected() matches Expected::OneOf(c) && Self::spec_is_codes(c@)
                },
            },
    {
        ProvenanceEventType::parse_code(s)
    }
}


/// One event in a series' provenance trail.
#[derive(Debug, Clone, PartialEq, Eq)]
pub struct ProvenanceEntry {
    /// When the event occurred, Unix seconds.
    pub occurred_at: i64,
    /// What happened.
    pub event_type: ProvenanceEventType,
    /// Who caused it: a user, a system or a process.
    pub actor: String,
    /// Free text.
    pub note: Option<String>,
}

/// The intervals of one register with the context that explains every
/// value: who measured it, how it was produced, and what has happened since.
#[derive(Debug, Clone, PartialEq, Eq)]
pub struct MeasurementSeries {
    /// The Marktlokation the series is billed against.
    pub malo_id: MaloId,
    /// The Messlokation, when known.
    pub melo_id: Option<MeloId>,
    /// The register's OBIS code, when known.
    pub obis_code: Option<ObisCode>,
    /// The expected interval length.
    pub resolution: Option<IntervalResolution>,
    /// Where the data came from.
    pub source: MeasurementSource,
    /// The intervals.
    pub intervals: Vec<MeterInterval>,
    /// The provenance trail, oldest first.
    pub provenance: Vec<ProvenanceEntry>,
}

/// The quality flags of a sequence of intervals.
pub open spec fn qualities(ivs: Seq<MeterInterval>) -> Seq<QualityFlag> {
    ivs.map_values(|iv: MeterInterval| iv.quality)
}

impl MeasurementSeries {
    /// A series whose provenance starts with one `Ingested` event at
    /// `ingested_at`, by the source's label; the resolution is the OBIS
    /// code's default.
    pub fn new(
        malo_id: MaloId,
        obis_code: Option<ObisCode>,
        intervals: Vec<MeterInterval>,
        source: MeasurementSource,
        ingested_at: i64,
    ) -> (r: Self)
        ensures
            r.malo_id == malo_id,
            r.melo_id is None,
            r.obis_code == obis_code,
            r.resolution == (match obis_code {
                Some(o) => o.spec_default_resolution(),
                None => None,
            }),
            r.source == source,
            r.intervals@ == intervals@,
            r.provenance@.len() == 1,
            r.provenance@[0].occurred_at == ingested_at,
            r.provenance@[0].event_type == ProvenanceEventType::Ingested,
            r.provenance@[0].actor@ == source.spec_label(),
            r.provenance@[0].note is None,
    {
        let resolution = match obis_code {
            Some(o) => o.default_resolution(),
            None => None,
        };
        let actor = source.label().to_owned();
        let mut provenance: Vec<ProvenanceEntry> = Vec::new();
        provenance.push(
            ProvenanceEntry {
                occurred_at: ingested_at,
                event_type: ProvenanceEventType::Ingested,
                actor,
                note: None,
            },
        );
        Self { malo_id, melo_id: None, obis_code, resolution, source, intervals, provenance }
    }

    /// The series with its Messlokation set.
    pub fn with_melo_id(self, melo_id: MeloId) -> (r: Self)
        ensures
            r == (Self { melo_id: Some(melo_id), ..self }),
    {
        Self { melo_id: Some(melo_id), ..self }
    }

    /// The series with its resolution set.
    pub fn with_resolution(self, resolution: IntervalResolution) -> (r: Self)
        ensures
            r == (Self { resolution: Some(resolution), ..self }),
    {
        Self { resolution: Some(resolution), ..self }
    }

    /// The worst quality flag of the intervals, `Unknown` for none: derived,
    /// so it cannot go stale against the intervals.
    pub fn worst_quality(&self) -> (r: QualityFlag)
        ensures
            r == QualityFlag::spec_worst_of(qualities(self.intervals@)),
    {
        let mut flags: Vec<QualityFlag> = Vec::new();
        let mut i: usize = 0;
        while i < self.intervals.len()
            invariant
                i <= self.intervals.len(),
                flags@ == qualities(self.intervals@.take(i as int)),
            decreases self.intervals.len() - i,
        {
            flags.push(self.intervals[i].quality);
            proof {
                assert(qualities(self.intervals@.take(i + 1)) =~= qualities(self.intervals@.take(i as int)).push(
                    self.intervals@[i as int].quality,
                ));
            }
            i = i + 1;
        }
        proof {
            assert(self.intervals@.take(i as int) =~= self.intervals@);
        }
        QualityFlag::worst_of(flags.as_slice())
    }

    /// `true` when any interval may not be billed.
    pub fn has_unbillable_intervals(&self) -> (r: bool)
        ensures
            r == exists|i: int| 0 <= i < self.intervals@.len() && !is_billable_flag(
                #[trigger] self.intervals@[i].quality,
            ),
    {
        let mut i: usize = 0;
        while i < self.intervals.len()
            invariant
                i <= self.intervals.len(),
                forall|k: int| 0 <= k < i ==> is_billable_flag(#[trigger] self.intervals@[k].quality),
            decreases self.intervals.len() - i,
        {
            if !self.intervals[i].quality.is_billable() {
                return true;
            }
            i = i + 1;
        }
        false
    }

    /// Number of intervals.
    pub fn interval_count(&self) -> (r: usize)
        ensures
            r == self.intervals@.len(),
    {
        self.intervals.len()
    }

    /// `true` when the series holds no interval.
    pub fn is_empty(&self) -> (r: bool)
        ensures
            r == (self.intervals@.len() == 0),
    {
        self.intervals.len() == 0
    }

    fn total_checked(&self) -> (r: Option<Dec>)
        ensures
            view_of(r) == running_sum(billable_values(self.intervals@)),
    {
        let mut values: Vec<Dec> = Vec::new();
        let mut i: usize = 0;
        while i < self.intervals.len()
            invariant
                i <= self.intervals.len(),
                views(values@) == billable_values(self.intervals@.take(i as int)),
            decreases self.intervals.len() - i,
        {
            let iv = self.intervals[i];
            proof {
                assert(self.intervals@.take(i + 1).drop_last() =~= self.intervals@.take(i as int));
            }
            if iv.quality.is_billable() {
                values.push(iv.value);
                proof {
                    assert(views(values@) =~= views(values@.drop_last()).push(iv.value@));
                }
            }
            i = i + 1;
        }
        proof {
            assert(self.intervals@.take(i as int) =~= self.intervals@);
        }
        Dec::checked_sum(values.as_slice())
    }

    /// The sum of the billable intervals' values, in order from zero.
    pub fn total(&self) -> (r: Dec)
        requires
            running_sum(billable_values(self.intervals@)) is Some,
        ensures
            Some(r@) == running_sum(billable_values(self.intervals@)),
    {
        match self.total_checked() {
            Some(t) => t,
            None => {
                proof {
                    assert(false);
                }
                Dec::zero()
            },
        }
    }

    /// [`total`](Self::total), or `None` where the sum overflows.
    pub fn checked_total(&self) -> (r: Option<Dec>)
        ensures
            view_of(r) == running_sum(billable_values(self.intervals@)),
    {
        if self.total_checked().is_some() {
            Some(self.total())
        } else {
            None
        }
    }

    /// The earliest interval start; `None` for no intervals.
    pub fn period_from(&self) -> (r: Option<i64>)
        ensures
            match r {
                Some(t) => min_from(self.intervals@) == Some(t as int),
                None => min_from(self.intervals@) is None,
            },
    {
        let mut acc: Option<i64> = None;
        let mut i: usize = 0;
        while i < self.intervals.len()
            invariant
                i <= self.intervals.len(),
                match acc {
                    Some(t) => min_from(self.intervals@.take(i as int)) == Some(t as int),
                    None => min_from(self.intervals@.take(i as int)) is None,
                },
            decreases self.intervals.len() - i,
        {
            let f = self.intervals[i].from;
            proof {
                assert(self.intervals@.take(i + 1).drop_last() =~= self.intervals@.take(i as int));
            }
            acc = match acc {
                Some(t) => Some(if f < t { f } else { t }),
                None => Some(f),
            };
            i = i + 1;
        }
        proof {
            assert(self.intervals@.take(i as int) =~= self.intervals@);
        }
        acc
    }

    /// The latest interval end; `None` for no intervals.
    pub fn period_to(&self) -> (r: Option<i64>)
        ensures
            match r {
                Some(t) => max_to(self.intervals@) == Some(t as int),
                None => max_to(self.intervals@) is None,
            },
    {
        let mut acc: Option<i64> = None;
        let mut i: usize = 0;
        while i < self.intervals.len()
            invariant
                i <= self.intervals.len(),
                match acc {
                    Some(t) => max_to(self.intervals@.take(i as int)) == Some(t as int),
                    None => max_to(self.intervals@.take(i as int)) is None,
                },
            decreases self.intervals.len() - i,
        {
            let t2 = self.intervals[i].to;
            proof {
                assert(self.intervals@.take(i + 1).drop_last() =~= self.intervals@.take(i as int));
            }
            acc = match acc {
                Some(t) => Some(if t2 > t { t2 } else { t }),
                None => Some(t2),
            };
            i = i + 1;
        }
        proof {
            assert(self.intervals@.take(i as int) =~= self.intervals@);
        }
        acc
    }

    /// Append a provenance event without a note.
    pub fn record_event(&mut self, event_type: ProvenanceEventType, actor: &str, occurred_at: i64)
        ensures
            final(self).provenance@.len() == old(self).provenance@.len() + 1,
            final(self).provenance@.drop_last() == old(self).provenance@,
            final(self).provenance@.last().occurred_at == occurred_at,
            final(self).provenance@.last().event_type == event_type,
            final(self).provenance@.last().actor@ == actor@,
            final(self).provenance@.last().note is None,
            final(self).intervals@ == old(self).intervals@,
            final(self).source == old(self).source,
    {
        self.provenance.push(ProvenanceEntry { occurred_at, event_type, actor: actor.to_owned(), note: None });
        proof {
            assert(self.provenance@.drop_last() =~= old(self).provenance@);
        }
    }

    /// Append a provenance event with a note.
    pub fn record_event_with_note(
        &mut self,
        event_type: ProvenanceEventType,
        actor: &str,
        occurred_at: i64,
        note: &str,
    )
        ensures
            final(self).provenance@.len() == old(self).provenance@.len() + 1,
            final(self).provenance@.drop_last() == old(self).provenance@,
            final(self).provenance@.last().occurred_at == occurred_at,
            final(self).provenance@.last().event_type == event_type,
            final(self).provenance@.last().actor@ == actor@,
            final(self).provenance@.last().note matches Some(n) && n@ == note@,
            final(self).intervals@ == old(self).intervals@,
            final(self).source == old(self).source,
    {
        self.provenance.push(
            ProvenanceEntry {
                occurred_at,
                event_type,
                actor: actor.to_owned(),
                note: Some(note.to_owned()),
            },
        );
        proof {
            assert(self.provenance@.drop_last() =~= old(self).provenance@);
        }
    }
}

} // verus!
