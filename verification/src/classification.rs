//! Metering-type classification: [`Messtyp`] and the [`SeriesOrigin`] that
//! settles it where the transport is decisive.

use vstd::prelude::*;

use crate::error::{Expected, ParseError};
use crate::text::{
    lemma_code_is_canonical, str_eq,
    to_uppercase, trim, trimmed, uppercased,
};
use crate::interval::{span_fits, MeterInterval};
use crate::resolution::IntervalResolution;

verus! {
/// Metering type (Messtyp).
#[derive(Debug, Clone, Copy, PartialEq, Eq, Hash, Structural)]
pub enum Messtyp {
    /// Standard load profile — daily or coarser aggregates, with no interval
    /// series to read a Viertelstundenleistung out of.
    Slp,
    /// Registrierende Lastgangmessung — an equidistant interval series,
    /// 15 to 60 minutes (§ 2 MsbG).
    Rlm,
    /// Intelligentes Messsystem — a metering system behind a Smart-Meter-
    /// Gateway (§ 2 Satz 1 Nr. 7 MsbG), delivering quarter-hour values.
    IMsys,
}

impl Messtyp {
    /// Every Messtyp, in declaration order.
    pub const ALL: [Self; 3] = [Self::Slp, Self::Rlm, Self::IMsys];

    /// Every code [`as_str`](Self::as_str) writes, in the order of `ALL`.
    pub fn codes() -> (r: &'static [&'static str])
        ensures
            Self::spec_is_codes(r@),
    {
        &["SLP", "RLM", "I_MSYS"]
    }

    /// `c` lists the codes of `ALL`, in order.
    pub open spec fn spec_is_codes(c: Seq<&'static str>) -> bool {
        &&& c.len() == 3
        &&& c[0]@ == Self::Slp.spec_as_str()
        &&& c[1]@ == Self::Rlm.spec_as_str()
        &&& c[2]@ == Self::IMsys.spec_as_str()
    }

    pub open spec fn spec_as_str(self) -> Seq<char> {
        match self {
            Self::Slp => "SLP"@,
            Self::Rlm => "RLM"@,
            Self::IMsys => "I_MSYS"@,
        }
    }

    /// Stable DB/wire label; the `FromStr` input and the code `to_string` writes.
    pub fn as_str(self) -> (r: &'static str)
        ensures
            r@ == self.spec_as_str(),
    {
        match self {
            Self::Slp => "SLP",
            Self::Rlm => "RLM",
            Self::IMsys => "I_MSYS",
        }
    }

    /// The code as an owned string (what `Display` writes).
    pub fn to_string(&self) -> (r: String)
        ensures
            r@ == self.spec_as_str(),
    {
        self.as_str().to_owned()
    }

    /// The variant whose code is exactly `s`.
    pub open spec fn spec_from_code(s: Seq<char>) -> Option<Self> {
        if s == "SLP"@ {
            Some(Self::Slp)
        } else if s == "RLM"@ {
            Some(Self::Rlm)
        } else if s == "I_MSYS"@ {
            Some(Self::IMsys)
        } else {
            None
        }
    }

    /// The variant whose code is exactly `s`, case and whitespace included.
    pub fn from_code(s: &str) -> (r: Option<Self>)
        ensures
            r == Self::spec_from_code(s@),
    {
        if str_eq(s, "SLP") {
            Some(Self::Slp)
        } else if str_eq(s, "RLM") {
            Some(Self::Rlm)
        } else if str_eq(s, "I_MSYS") {
            Some(Self::IMsys)
        } else {
            None
        }
    }

    /// What parsing `s` yields: surrounding whitespace is ignored and the
    /// comparison is case-insensitive.
    pub open spec fn spec_parse(s: Seq<char>) -> Option<Self> {
        let t = trimmed(s);
        let u = uppercased(t);
        Self::spec_from_code(u)
    }

    /// Parses a code, ignoring surrounding whitespace and case.
    pub fn parse_code(s: &str) -> (r: Result<Self, ParseError>)
        ensures
            match r {
                Ok(v) => Self::spec_parse(s@) == Some(v),
                Err(e) => {
                    &&& Self::spec_parse(s@).is_none()
                    &&& e.spec_type_label() == "Messtyp"@
                    &&& e.spec_input() == s@
                    &&& e.spec_expected() matches Expected::OneOf(c) && Self::spec_is_codes(c@)
                },
            },
    {
        let t = trim(s);
        let u = to_uppercase(t);
        match Self::from_code(u.as_str()) {
            Some(v) => Ok(v),
            None => Err(ParseError::one_of("Messtyp", s, Self::codes())),
        }
    }

    /// Parsing the code of a variant gives the variant back.
    pub proof fn lemma_parse_as_str(v: Self)
        ensures
            Self::spec_parse(v.spec_as_str()) == Some(v),
    {
        match v {
            Self::Slp => {
                reveal_strlit("SLP");
                lemma_code_is_canonical("SLP"@);
            },
            Self::Rlm => {
                reveal_strlit("RLM");
                reveal_strlit("SLP");
                lemma_code_is_canonical("RLM"@);
                assert("RLM"@[0] != "SLP"@[0]);
            },
            Self::IMsys => {
                reveal_strlit("I_MSYS");
                reveal_strlit("RLM");
                reveal_strlit("SLP");
                lemma_code_is_canonical("I_MSYS"@);
            },
        }
    }
}

impl std::str::FromStr for Messtyp {
    type Err = ParseError;

    fn from_str(s: &str) -> (r: Result<Messtyp, ParseError>)
        ensures
            match r {
                Ok(v) => Self::spec_parse(s@) == Some(v),
                Err(e) => {
                    &&& Self::spec_parse(s@).is_none()
                    &&& e.spec_type_label() == "Messtyp"@
                    &&& e.spec_input() == s@
                    &&& e.spec_expected() matches Expected::OneOf(c) && Self::spec_is_codes(c@)
                },
            },
    {
        Messtyp::parse_code(s)
    }
}

impl Messtyp {
    /// `true` when the Messtyp supports Spitzenleistung (peak demand)
    /// billing: RLM and iMSys.
    pub fn supports_spitzenleistung(&self) -> (r: bool)
        ensures
            r == (*self is Rlm || *self is IMsys),
    {
        matches!(self, Messtyp::Rlm | Messtyp::IMsys)
    }

    /// `true` when the Messtyp can serve a § 41a EnWG dynamic tariff, which
    /// needs the quarter-hour values a Smart-Meter-Gateway delivers.
    pub fn supports_dynamic_tariff(&self) -> (r: bool)
        ensures
            r == (*self is IMsys),
    {
        matches!(self, Messtyp::IMsys)
    }
}

/// How a series reached the system, where that settles the Messtyp on its
/// own: a series delivered through a Smart-Meter-Gateway is from an
/// intelligentes Messsystem by definition.
#[derive(Debug, Clone, Copy, PartialEq, Eq, Hash, Structural)]
pub enum SeriesOrigin {
    /// Delivered by a Smart-Meter-Gateway — directly, or over a CLS channel.
    SmartMeterGateway,
    /// Anything else: an MSCONS delivery, a manual entry, a file import.
    Other,
}

impl SeriesOrigin {
    /// Every variant, in declaration order.
    pub const ALL: [Self; 2] = [Self::SmartMeterGateway, Self::Other];

    /// Every code [`as_str`](Self::as_str) writes, in the order of `ALL`.
    pub fn codes() -> (r: &'static [&'static str])
        ensures
            Self::spec_is_codes(r@),
    {
        &["SMART_METER_GATEWAY", "OTHER"]
    }

    /// `c` lists the codes of `ALL`, in order.
    pub open spec fn spec_is_codes(c: Seq<&'static str>) -> bool {
        &&& c.len() == 2
        &&& c[0]@ == Self::SmartMeterGateway.spec_as_str()
        &&& c[1]@ == Self::Other.spec_as_str()
    }

    pub open spec fn spec_as_str(self) -> Seq<char> {
        match self {
            Self::SmartMeterGateway => "SMART_METER_GATEWAY"@,
            Self::Other => "OTHER"@,
        }
    }

    /// Stable DB/wire label; the `FromStr` input and the code `to_string` writes.
    pub fn as_str(self) -> (r: &'static str)
        ensures
            r@ == self.spec_as_str(),
    {
        match self {
            Self::SmartMeterGateway => "SMART_METER_GATEWAY",
            Self::Other => "OTHER",
        }
    }

    /// The code as an owned string (what `Display` writes).
    pub fn to_string(&self) -> (r: String)
        ensures
            r@ == self.spec_as_str(),
    {
        self.as_str().to_owned()
    }

    /// The variant whose code is exactly `s`.
    pub open spec fn spec_from_code(s: Seq<char>) -> Option<Self> {
        if s == "SMART_METER_GATEWAY"@ {
            Some(Self::SmartMeterGateway)
        } else if s == "OTHER"@ {
            Some(Self::Other)
        } else {
            None
        }
    }

    /// The variant whose code is exactly `s`, case and whitespace included.
    pub fn from_code(s: &str) -> (r: Option<Self>)
        ensures
            r == Self::spec_from_code(s@),
    {
        if str_eq(s, "SMART_METER_GATEWAY") {
            Some(Self::SmartMeterGateway)
        } else if str_eq(s, "OTHER") {
            Some(Self::Other)
        } else {
            None
        }
    }

    /// What parsing `s` yields: surrounding whitespace is ignored and the
    /// comparison is case-insensitive.
    pub open spec fn spec_parse(s: Seq<char>) -> Option<Self> {
        let t = trimmed(s);
        let u = uppercased(t);
        Self::spec_from_code(u)
    }

    /// Parses a code, ignoring surrounding whitespace and case.
    pub fn parse_code(s: &str) -> (r: Result<Self, ParseError>)
        ensures
            match r {
                Ok(v) => Self::spec_parse(s@) == Some(v),
                Err(e) => {
                    &&& Self::spec_parse(s@).is_none()
                    &&& e.spec_type_label() == "SeriesOrigin"@
                    &&& e.spec_input() == s@
                    &&& e.spec_expected() matches Expected::OneOf(c) && Self::spec_is_codes(c@)
                },
            },
    {
        let t = trim(s);
        let u = to_uppercase(t);
        match Self::from_code(u.as_str()) {
            Some(v) => Ok(v),
            None => Err(ParseError::one_of("SeriesOrigin", s, Self::codes())),
        }
    }

    /// Parsing the code of a variant gives the variant back.
    pub proof fn lemma_parse_as_str(v: Self)
        ensures
            Self::spec_parse(v.spec_as_str()) == Some(v),
    {
        match v {
            Self::SmartMeterGateway => {
                reveal_strlit("SMART_METER_GATEWAY");
                lemma_code_is_canonical("SMART_METER_GATEWAY"@);
            },
            Self::Other => {
                reveal_strlit("OTHER");
                reveal_strlit("SMART_METER_GATEWAY");
                lemma_code_is_canonical("OTHER"@);
            },
        }
    }
}

impl std::str::FromStr for SeriesOrigin {
    type Err = ParseError;

    fn from_str(s: &str) -> (r: Result<SeriesOrigin, ParseError>)
        ensures
            match r {
                Ok(v) => Self::spec_parse(s@) == Some(v),
                Err(e) => {
                    &&& Self::spec_parse(s@).is_none()
                    &&& e.spec_type_label() == "SeriesOrigin"@
                    &&& e.spec_input() == s@
                    &&& e.spec_expected() matches Expected::OneOf(c) && Self::spec_is_codes(c@)
                },
            },
    {
        SeriesOrigin::parse_code(s)
    }
}

/// The Messtyp the evidence gives: a gateway origin is iMSys whatever the
/// interval length; otherwise intervals of 15, 30 or 60 minutes are RLM and
/// anything coarser, or no usable series, is SLP.
pub open spec fn spec_classify(origin: Option<SeriesOrigin>, detected: Option<IntervalResolution>) -> Messtyp {
    if origin == Some(SeriesOrigin::SmartMeterGateway) {
        Messtyp::IMsys
    } else {
        match detected {
            Some(IntervalResolution::QuarterHour) | Some(IntervalResolution::HalfHour) | Some(
                IntervalResolution::Hour,
            ) => Messtyp::Rlm,
            _ => Messtyp::Slp,
        }
    }
}

/// Only a gateway origin makes an iMSys, whatever the interval length;
/// without one, a series of quarter-hours, half-hours or hours is RLM, and
/// anything coarser or no usable series at all is SLP.
pub proof fn lemma_classification(origin: Option<SeriesOrigin>, detected: Option<IntervalResolution>)
    ensures
        (spec_classify(origin, detected) == Messtyp::IMsys) <==> origin == Some(SeriesOrigin::SmartMeterGateway),
        origin != Some(SeriesOrigin::SmartMeterGateway) ==> ((spec_classify(origin, detected) == Messtyp::Rlm) <==> (
        detected == Some(IntervalResolution::QuarterHour) || detected == Some(IntervalResolution::HalfHour)
            || detected == Some(IntervalResolution::Hour))),
        origin != Some(SeriesOrigin::SmartMeterGateway) ==> ((spec_classify(origin, detected) == Messtyp::Slp) <==> !(
        detected == Some(IntervalResolution::QuarterHour) || detected == Some(IntervalResolution::HalfHour)
            || detected == Some(IntervalResolution::Hour))),
{
}

/// Classifies the Messtyp from how the series arrived and the interval
/// resolution detected in it (`None` when no usable series was found). The
/// gateway wins over the interval length.
pub fn classify_messtyp_from_resolution(origin: Option<SeriesOrigin>, detected: Option<IntervalResolution>) -> (r: Messtyp)
    ensures
        r == spec_classify(origin, detected),
{
    match origin {
        Some(SeriesOrigin::SmartMeterGateway) => {
            return Messtyp::IMsys;
        },
        _ => {},
    }
    match detected {
        Some(IntervalResolution::QuarterHour) | Some(IntervalResolution::HalfHour) | Some(IntervalResolution::Hour) => {
            Messtyp::Rlm
        },
        _ => Messtyp::Slp,
    }
}


// ── the median interval length ────────────────────────────────────────────────

/// The positive durations of the intervals, in seconds, in order.
pub open spec fn positive_durations(ivs: Seq<MeterInterval>) -> Seq<int>
    decreases ivs.len(),
{
    if ivs.len() == 0 {
        Seq::empty()
    } else {
        let p = positive_durations(ivs.drop_last());
        let d = ivs.last().to - ivs.last().from;
        if d > 0 {
            p.push(d)
        } else {
            p
        }
    }
}

/// How many of `s` are below `m`.
pub open spec fn count_below(s: Seq<int>, m: int) -> nat
    decreases s.len(),
{
    if s.len() == 0 {
        0
    } else {
        count_below(s.drop_last(), m) + if s.last() < m {
            1nat
        } else {
            0nat
        }
    }
}

/// How many of `s` are at most `m`.
pub open spec fn count_at_most(s: Seq<int>, m: int) -> nat
    decreases s.len(),
{
    if s.len() == 0 {
        0
    } else {
        count_at_most(s.drop_last(), m) + if s.last() <= m {
            1nat
        } else {
            0nat
        }
    }
}

/// `m` is the median of `s`: the element at index `len / 2` once `s` is
/// sorted ascending — fewer than that many lie below it, more than that many
/// are at most it.
pub open spec fn is_median(s: Seq<int>, m: int) -> bool {
    count_below(s, m) <= s.len() / 2 < count_at_most(s, m)
}

/// No element below `m`: none counts as below it.
proof fn lemma_none_below(s: Seq<int>, m: int)
    requires
        forall|i: int| 0 <= i < s.len() ==> m <= #[trigger] s[i],
    ensures
        count_below(s, m) == 0,
    decreases s.len(),
{
    if s.len() > 0 {
        lemma_none_below(s.drop_last(), m);
    }
}

/// Every element at most `m`: all count.
proof fn lemma_all_at_most(s: Seq<int>, m: int)
    requires
        forall|i: int| 0 <= i < s.len() ==> #[trigger] s[i] <= m,
    ensures
        count_at_most(s, m) == s.len(),
    decreases s.len(),
{
    if s.len() > 0 {
        lemma_all_at_most(s.drop_last(), m);
    }
}

/// With no element strictly between `a` and `b`, those below `b` are those
/// at most `a`.
proof fn lemma_gap(s: Seq<int>, a: int, b: int)
    requires
        a < b,
        forall|i: int| 0 <= i < s.len() ==> !(a < #[trigger] s[i] && s[i] < b),
    ensures
        count_below(s, b) == count_at_most(s, a),
    decreases s.len(),
{
    if s.len() > 0 {
        lemma_gap(s.drop_last(), a, b);
    }
}

/// Appending an interval appends its duration where that is positive.
proof fn lemma_durations_push(prefix: Seq<MeterInterval>, iv: MeterInterval)
    ensures
        positive_durations(prefix.push(iv)) == if iv.to - iv.from > 0 {
            positive_durations(prefix).push(iv.to - iv.from)
        } else {
            positive_durations(prefix)
        },
{
    assert(prefix.push(iv).drop_last() =~= prefix);
}

/// `x` is one of `keys`.
pub open spec fn is_key(keys: Seq<i64>, x: int) -> bool {
    exists|k: int| 0 <= k < keys.len() && keys[k] == x
}

/// The distinct positive durations of the intervals, ascending.
fn distinct_durations(intervals: &[MeterInterval]) -> (keys: Vec<i64>)
    requires
        forall|i: int| 0 <= i < intervals@.len() ==> span_fits(#[trigger] intervals@[i]),
    ensures
        forall|j: int, k: int| 0 <= j < k < keys@.len() ==> keys@[j] < keys@[k],
        forall|k: int|
            0 <= k < keys@.len() ==> positive_durations(intervals@).contains(#[trigger] keys@[k] as int),
        forall|i: int|
            0 <= i < positive_durations(intervals@).len() ==> is_key(keys@, #[trigger] positive_durations(intervals@)[i]),
{
    let ghost all = intervals@;
    let mut keys: Vec<i64> = Vec::new();
    let mut i: usize = 0;
    proof {
        assert(all.take(0) =~= Seq::<MeterInterval>::empty());
    }
    while i < intervals.len()
        invariant
            0 <= i <= intervals.len(),
            all == intervals@,
            forall|j: int| 0 <= j < all.len() ==> span_fits(#[trigger] all[j]),
            forall|j: int, k: int| 0 <= j < k < keys@.len() ==> keys@[j] < keys@[k],
            forall|k: int|
                0 <= k < keys@.len() ==> positive_durations(all.take(i as int)).contains(
                    #[trigger] keys@[k] as int,
                ),
            forall|x: int|
                0 <= x < positive_durations(all.take(i as int)).len() ==> is_key(keys@, #[trigger] positive_durations(all.take(i as int))[x]),
        decreases intervals.len() - i,
    {
        let iv = intervals[i];
        let ghost prefix = all.take(i as int);
        let ghost old_keys = keys@;
        proof {
            assert(all.take(i + 1) =~= prefix.push(iv));
            lemma_durations_push(prefix, iv);
            assert(span_fits(all[i as int]));
        }
        let d = iv.duration_secs();
        if d > 0 {
            let mut pos: usize = 0;
            while pos < keys.len() && keys[pos] < d
                invariant
                    0 <= pos <= keys@.len(),
                    keys@ == old_keys,
                    forall|k: int| 0 <= k < pos ==> #[trigger] old_keys[k] < d,
                decreases keys.len() - pos,
            {
                pos = pos + 1;
            }
            let ghost p = positive_durations(prefix);
            let ghost q = p.push(d as int);
            if pos < keys.len() && keys[pos] == d {
                proof {
                    assert forall|k: int| 0 <= k < keys@.len() implies q.contains(#[trigger] keys@[k] as int) by {
                        let x = choose|x: int| 0 <= x < p.len() && p[x] == keys@[k] as int;
                        assert(q[x] == p[x]);
                    }
                    assert forall|x: int| 0 <= x < q.len() implies is_key(keys@, #[trigger] q[x]) by {
                        if x == p.len() {
                            assert(keys@[pos as int] == q[x]);
                        } else {
                            assert(q[x] == p[x]);
                            assert(is_key(keys@, p[x]));
                        }
                    }
                }
            } else {
                keys.insert(pos, d);
                proof {
                    let nk = keys@;
                    assert forall|j: int, k: int| 0 <= j < k < nk.len() implies nk[j] < nk[k] by {
                        if k < pos {
                            assert(nk[j] == old_keys[j] && nk[k] == old_keys[k]);
                        } else if k == pos {
                            assert(nk[j] == old_keys[j]);
                        } else if j < pos {
                            assert(nk[j] == old_keys[j] && nk[k] == old_keys[k - 1]);
                            assert(old_keys[pos as int] <= old_keys[k - 1]);
                        } else if j == pos {
                            assert(nk[k] == old_keys[k - 1]);
                            assert(old_keys[pos as int] <= old_keys[k - 1]);
                        } else {
                            assert(nk[j] == old_keys[j - 1] && nk[k] == old_keys[k - 1]);
                        }
                    }
                    assert forall|k: int| 0 <= k < nk.len() implies q.contains(#[trigger] nk[k] as int) by {
                        if k == pos {
                            assert(q[p.len() as int] == d);
                        } else {
                            let ok = if k < pos { k } else { k - 1 };
                            assert(nk[k] == old_keys[ok]);
                            let x = choose|x: int| 0 <= x < p.len() && p[x] == old_keys[ok] as int;
                            assert(q[x] == p[x]);
                        }
                    }
                    assert forall|x: int| 0 <= x < q.len() implies is_key(nk, #[trigger] q[x]) by {
                        if x == p.len() {
                            assert(nk[pos as int] == q[x]);
                        } else {
                            assert(q[x] == p[x]);
                            assert(is_key(old_keys, p[x]));
                            let k = choose|k: int| 0 <= k < old_keys.len() && old_keys[k] == p[x];
                            if k < pos {
                                assert(nk[k] == old_keys[k]);
                            } else {
                                assert(nk[k + 1] == old_keys[k]);
                            }
                        }
                    }
                }
            }
        }
        i = i + 1;
    }
    proof {
        assert(all.take(intervals.len() as int) =~= all);
    }
    keys
}

/// How many positive durations are below `m`, and how many at most `m`.
fn count_durations(intervals: &[MeterInterval], m: i64) -> (r: (usize, usize))
    requires
        forall|i: int| 0 <= i < intervals@.len() ==> span_fits(#[trigger] intervals@[i]),
    ensures
        r.0 == count_below(positive_durations(intervals@), m as int),
        r.1 == count_at_most(positive_durations(intervals@), m as int),
{
    let ghost all = intervals@;
    let mut below: usize = 0;
    let mut at_most: usize = 0;
    let mut i: usize = 0;
    proof {
        assert(all.take(0) =~= Seq::<MeterInterval>::empty());
    }
    while i < intervals.len()
        invariant
            0 <= i <= intervals.len(),
            all == intervals@,
            forall|j: int| 0 <= j < all.len() ==> span_fits(#[trigger] all[j]),
            below == count_below(positive_durations(all.take(i as int)), m as int),
            at_most == count_at_most(positive_durations(all.take(i as int)), m as int),
            below <= i && at_most <= i,
        decreases intervals.len() - i,
    {
        let iv = intervals[i];
        let ghost prefix = all.take(i as int);
        proof {
            assert(all.take(i + 1) =~= prefix.push(iv));
            lemma_durations_push(prefix, iv);
            assert(span_fits(all[i as int]));
            let p = positive_durations(prefix);
            assert(p.push(iv.to - iv.from).drop_last() =~= p);
        }
        let d = iv.duration_secs();
        if d > 0 {
            if d < m {
                below = below + 1;
            }
            if d <= m {
                at_most = at_most + 1;
            }
        }
        i = i + 1;
    }
    proof {
        assert(all.take(intervals.len() as int) =~= all);
    }
    (below, at_most)
}

/// The median of the positive interval durations, in seconds: the duration
/// at index `n / 2` once the `n` positive durations are sorted ascending, so
/// that gaps and the odd short or long interval at a DST change do not move
/// it. `None` when no interval has a positive duration.
pub fn median_interval_seconds(intervals: &[MeterInterval]) -> (r: Option<i64>)
    requires
        forall|i: int| 0 <= i < intervals@.len() ==> span_fits(#[trigger] intervals@[i]),
    ensures
        r is None <==> positive_durations(intervals@).len() == 0,
        r matches Some(m) ==> is_median(positive_durations(intervals@), m as int),
{
    let ghost ds = positive_durations(intervals@);
    let keys = distinct_durations(intervals);
    if keys.len() == 0 {
        proof {
            if ds.len() > 0 {
                assert(is_key(keys@, ds[0]));
            }
        }
        return None;
    }
    let last = keys[keys.len() - 1];
    let (_, n) = count_durations(intervals, last);
    proof {
        assert forall|i: int| 0 <= i < ds.len() implies #[trigger] ds[i] <= last by {
            assert(is_key(keys@, ds[i]));
            let k = choose|k: int| 0 <= k < keys@.len() && keys@[k] == ds[i];
            if k < keys@.len() - 1 {
                assert(keys@[k] < keys@[keys@.len() - 1]);
            }
        }
        lemma_all_at_most(ds, last as int);
        assert forall|i: int| 0 <= i < ds.len() implies keys@[0] <= #[trigger] ds[i] by {
            assert(is_key(keys@, ds[i]));
            let k = choose|k: int| 0 <= k < keys@.len() && keys@[k] == ds[i];
            if k > 0 {
                assert(keys@[0] < keys@[k]);
            }
        }
        lemma_none_below(ds, keys@[0] as int);
        let x = choose|x: int| 0 <= x < ds.len() && ds[x] == keys@[0] as int;
    }
    let half = n / 2;
    let mut j: usize = 0;
    while j < keys.len()
        invariant
            0 <= j < keys@.len(),
            ds == positive_durations(intervals@),
            forall|i: int| 0 <= i < intervals@.len() ==> span_fits(#[trigger] intervals@[i]),
            forall|a: int, b: int| 0 <= a < b < keys@.len() ==> keys@[a] < keys@[b],
            forall|x: int| 0 <= x < ds.len() ==> is_key(keys@, #[trigger] ds[x]),
            n == ds.len(),
            n > 0,
            half == n / 2,
            count_at_most(ds, keys@[keys@.len() - 1] as int) == n,
            count_below(ds, keys@[j as int] as int) <= half,
        decreases keys.len() - j,
    {
        let (_, le) = count_durations(intervals, keys[j]);
        if le > half {
            return Some(keys[j]);
        }
        if j + 1 == keys.len() {
            proof {
                assert(false);
            }
            return None;
        }
        proof {
            let a = keys@[j as int] as int;
            let b = keys@[j + 1] as int;
            assert forall|i: int| 0 <= i < ds.len() implies !(a < #[trigger] ds[i] && ds[i] < b) by {
                assert(is_key(keys@, ds[i]));
            let k = choose|k: int| 0 <= k < keys@.len() && keys@[k] == ds[i];
                if k <= j {
                    if k < j {
                        assert(keys@[k] < keys@[j as int]);
                    }
                } else {
                    if k > j + 1 {
                        assert(keys@[j + 1] < keys@[k]);
                    }
                }
            }
            lemma_gap(ds, a, b);
        }
        j = j + 1;
    }
    proof {
        assert(false);
    }
    None
}

} // verus!
