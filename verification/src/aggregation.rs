//! Billing period aggregation: the Arbeitsmenge, the Spitzenleistung and the
//! coverage of a series of intervals.
//!
//! - **§ 17 Abs. 2 StromNEV**: the Jahreshöchstleistung is the highest
//!   average power over one metered interval, `max(kWh ÷ duration_h)`.
//! - Only **billable** intervals contribute: a `Faulty` reading must not set
//!   the Leistungspreis for a year.
//!
//! Every quantity here is a sum, a maximum, a count or a covered duration, so
//! no sort happens. A tied maximum is reported at its **earliest** interval
//! start, whatever order the series arrived in.

use vstd::prelude::*;

use crate::calendar::{day_number_of, is_supported_instant, local_day, spec_local_day_number, CalendarDate};
use crate::decimal::{
    Dec, abs_int, decimal_checked_add, max_scale_of, running_sum, sum_abs_units, sum_fits, sum_units, units_of, view_of,
};
use crate::interval::{MeterInterval, QualityFlag};

verus! {

/// Configuration for billing period aggregation.
#[derive(Debug, Clone, Copy, PartialEq, Eq)]
pub struct AggregationConfig {
    /// Compute the Spitzenleistung. Only meaningful for interval metering.
    pub include_spitzenleistung: bool,
    /// The period the series is supposed to cover, as a half-open range of
    /// Unix seconds. Without it, coverage is measured against the extent of
    /// the data itself, which only detects interior gaps.
    pub period: Option<(i64, i64)>,
}

impl AggregationConfig {
    /// Arbeitsmenge **and** Spitzenleistung — interval metering (RLM, iMSys).
    pub fn rlm() -> (r: Self)
        ensures
            r.include_spitzenleistung,
            r.period is None,
    {
        AggregationConfig { include_spitzenleistung: true, period: None }
    }

    /// Arbeitsmenge only — SLP, gas, and anything without a Leistungspreis.
    pub fn arbeitsmenge_only() -> (r: Self)
        ensures
            !r.include_spitzenleistung,
            r.period is None,
    {
        AggregationConfig { include_spitzenleistung: false, period: None }
    }

    /// Declare the period the series must cover (builder style).
    pub fn over_period(self, from: i64, to: i64) -> (r: Self)
        ensures
            r.include_spitzenleistung == self.include_spitzenleistung,
            r.period == Some((from, to)),
    {
        AggregationConfig { include_spitzenleistung: self.include_spitzenleistung, period: Some((from, to)) }
    }
}

impl Default for AggregationConfig {
    fn default() -> (r: Self)
        ensures
            r.include_spitzenleistung,
            r.period is None,
    {
        Self::rlm()
    }
}

/// Result of a billing period aggregation.
#[derive(Debug, Clone, PartialEq, Eq)]
pub struct BillingPeriod {
    /// Arbeitsmenge in kWh — the sum of the **billable** intervals.
    pub arbeitsmenge: Dec,
    /// Spitzenleistung in kW: the highest average power over one billable
    /// interval. `None` when disabled or nothing billable has a demand.
    pub spitzenleistung_kw: Option<Dec>,
    /// The start of the interval the Spitzenleistung was **first** reached in.
    pub spitzenleistung_at: Option<i64>,
    /// Number of intervals that contributed to the Arbeitsmenge.
    pub billable_count: usize,
    /// Number of intervals supplied but excluded as non-billable.
    pub excluded_count: usize,
    /// Seconds covered by billable intervals (negative spans count zero).
    pub covered_secs: i64,
    /// Seconds of the period coverage is measured against: the configured
    /// period, else the extent of the billable data, else zero.
    pub period_secs: i64,
}

pub open spec fn is_billable_flag(q: QualityFlag) -> bool {
    !(q == QualityFlag::Faulty || q == QualityFlag::Unknown)
}

/// The values of the billable intervals, in order.
pub open spec fn billable_values(ivs: Seq<MeterInterval>) -> Seq<(int, nat, bool)>
    decreases ivs.len(),
{
    if ivs.len() == 0 {
        Seq::empty()
    } else {
        let p = billable_values(ivs.drop_last());
        if is_billable_flag(ivs.last().quality) {
            p.push(ivs.last().value@)
        } else {
            p
        }
    }
}

/// Seconds covered by the billable intervals, a negative span counting zero.
pub open spec fn covered_secs(ivs: Seq<MeterInterval>) -> int
    decreases ivs.len(),
{
    if ivs.len() == 0 {
        0
    } else {
        let iv = ivs.last();
        covered_secs(ivs.drop_last()) + if is_billable_flag(iv.quality) && iv.to - iv.from > 0 {
            iv.to - iv.from
        } else {
            0
        }
    }
}

/// A prefix covers no more seconds than the whole sequence.
proof fn lemma_covered_prefix(s: Seq<MeterInterval>, j: int)
    requires
        0 <= j <= s.len(),
    ensures
        0 <= covered_secs(s.take(j)) <= covered_secs(s),
    decreases s.len(),
{
    if j == s.len() {
        assert(s.take(j) =~= s);
        if s.len() > 0 {
            lemma_covered_prefix(s.drop_last(), j - 1);
            assert(s.drop_last().take(j - 1) =~= s.drop_last());
        }
    } else {
        lemma_covered_prefix(s.drop_last(), j);
        assert(s.drop_last().take(j) =~= s.take(j));
    }
}

/// The earliest start among the billable intervals.
pub open spec fn earliest_from(ivs: Seq<MeterInterval>) -> Option<int>
    decreases ivs.len(),
{
    if ivs.len() == 0 {
        None
    } else {
        let p = earliest_from(ivs.drop_last());
        let iv = ivs.last();
        if !is_billable_flag(iv.quality) {
            p
        } else {
            match p {
                Some(e) => Some(if iv.from < e {
                    iv.from as int
                } else {
                    e
                }),
                None => Some(iv.from as int),
            }
        }
    }
}

/// The latest end among the billable intervals.
pub open spec fn latest_to(ivs: Seq<MeterInterval>) -> Option<int>
    decreases ivs.len(),
{
    if ivs.len() == 0 {
        None
    } else {
        let p = latest_to(ivs.drop_last());
        let iv = ivs.last();
        if !is_billable_flag(iv.quality) {
            p
        } else {
            match p {
                Some(l) => Some(if iv.to > l {
                    iv.to as int
                } else {
                    l
                }),
                None => Some(iv.to as int),
            }
        }
    }
}

/// `kw` at `from` replaces the peak `p`: there is none yet, `kw` is higher,
/// or it is equal and earlier.
pub open spec fn beats(kw: (int, nat, bool), from: int, p: Option<((int, nat, bool), int)>) -> bool {
    match p {
        None => true,
        Some(best) => units_of(kw) > units_of(best.0) || (units_of(kw) == units_of(best.0) && from
            < best.1),
    }
}

/// The Spitzenleistung and where it was first reached: the highest demand
/// among the billable intervals, ties going to the earliest start.
pub open spec fn peak(ivs: Seq<MeterInterval>, with_peak: bool) -> Option<((int, nat, bool), int)>
    decreases ivs.len(),
{
    if ivs.len() == 0 {
        None
    } else {
        let p = peak(ivs.drop_last(), with_peak);
        let iv = ivs.last();
        if with_peak && is_billable_flag(iv.quality) {
            match iv.spec_demand() {
                Some(Some(kw)) => if beats(kw, iv.from as int, p) {
                    Some((kw, iv.from as int))
                } else {
                    p
                },
                _ => p,
            }
        } else {
            p
        }
    }
}

/// The seconds coverage is measured against.
pub open spec fn period_secs(ivs: Seq<MeterInterval>, config: AggregationConfig) -> int {
    match config.period {
        Some((from, to)) => to - from,
        None => match (earliest_from(ivs), latest_to(ivs)) {
            (Some(f), Some(l)) => l - f,
            _ => 0,
        },
    }
}

/// Both ends of the interval are supported instants.
pub open spec fn interval_supported(iv: MeterInterval) -> bool {
    is_supported_instant(iv.from as int) && is_supported_instant(iv.to as int)
}

/// The covered seconds fit in an `i64`, every instant is supported, and
/// rust_decimal overflows nowhere in [`aggregate`].
pub open spec fn aggregation_defined(ivs: Seq<MeterInterval>, config: AggregationConfig) -> bool {
    &&& covered_secs(ivs) <= i64::MAX
    &&& forall|i: int| 0 <= i < ivs.len() ==> #[trigger] interval_supported(ivs[i])
    &&& config.period matches Some((from, to)) ==> is_supported_instant(from as int)
        && is_supported_instant(to as int)
    &&& running_sum(billable_values(ivs)) is Some
    &&& config.include_spitzenleistung ==> forall|i: int|
        0 <= i < ivs.len() && is_billable_flag(ivs[i].quality) ==> (#[trigger] ivs[i].spec_demand())
            is Some
}

/// `iv`'s demand does not exceed `kw`, and equals it only from `at` on.
pub open spec fn demand_at_most(iv: MeterInterval, kw: (int, nat, bool), at: int) -> bool {
    match iv.spec_demand() {
        Some(Some(k)) => units_of(k) < units_of(kw) || (units_of(k) == units_of(kw) && at <= iv.from),
        _ => true,
    }
}

/// `iv` has no demand to report.
pub open spec fn has_no_demand(iv: MeterInterval) -> bool {
    !(iv.spec_demand() matches Some(Some(_)))
}

/// The Spitzenleistung is a maximum: no billable interval has a higher
/// demand, none with an equal one starts earlier, and one of them reached it.
pub open spec fn is_peak_of(ivs: Seq<MeterInterval>, kw: (int, nat, bool), at: int) -> bool {
    &&& forall|i: int|
        0 <= i < ivs.len() && is_billable_flag(ivs[i].quality) ==> #[trigger] demand_at_most(
            ivs[i],
            kw,
            at,
        )
    &&& exists|i: int|
        0 <= i < ivs.len() && is_billable_flag(ivs[i].quality) && #[trigger] ivs[i].spec_demand()
            == Some(Some(kw)) && ivs[i].from == at
}

/// A peak that `peak` reports is the maximum it is named for; without one,
/// no billable interval has a demand.
pub proof fn lemma_peak_is_maximum(ivs: Seq<MeterInterval>)
    ensures
        peak(ivs, true) matches Some(p) ==> is_peak_of(ivs, p.0, p.1),
        peak(ivs, true) is None ==> forall|i: int|
            0 <= i < ivs.len() && is_billable_flag(ivs[i].quality) ==> #[trigger] has_no_demand(ivs[i]),
    decreases ivs.len(),
{
    if ivs.len() > 0 {
        let prefix = ivs.drop_last();
        let n = ivs.len() - 1;
        lemma_peak_is_maximum(prefix);
        assert forall|i: int| 0 <= i < n implies #[trigger] ivs[i] == prefix[i] by {}
        let p = peak(prefix, true);
        let iv = ivs[n];
        assert(iv == ivs.last());
        match peak(ivs, true) {
            Some(q) => {
                assert forall|i: int|
                    0 <= i < ivs.len() && is_billable_flag(ivs[i].quality) implies #[trigger] demand_at_most(
                    ivs[i],
                    q.0,
                    q.1,
                ) by {
                    if i < n {
                        assert(ivs[i] == prefix[i]);
                        if let Some(pp) = p {
                            assert(demand_at_most(prefix[i], pp.0, pp.1));
                        } else {
                            assert(has_no_demand(prefix[i]));
                        }
                    }
                }
                if p == Some(q) {
                    let j = choose|j: int|
                        0 <= j < prefix.len() && is_billable_flag(prefix[j].quality)
                            && #[trigger] prefix[j].spec_demand() == Some(Some(q.0)) && prefix[j].from == q.1;
                    assert(ivs[j] == prefix[j]);
                } else {
                    assert(ivs[n].spec_demand() == Some(Some(q.0)));
                }
            },
            None => {
                assert forall|i: int|
                    0 <= i < ivs.len() && is_billable_flag(ivs[i].quality) implies #[trigger] has_no_demand(
                    ivs[i],
                ) by {
                    if i < n {
                        assert(ivs[i] == prefix[i]);
                    }
                }
            },
        }
    }
}

/// Aggregate meter intervals into a [`BillingPeriod`]: the billable values'
/// sum, the peak demand with its earliest start, the counts, and the covered
/// and reference durations. Only intervals whose quality is billable
/// contribute.
pub fn aggregate(intervals: &[MeterInterval], config: &AggregationConfig) -> (r: BillingPeriod)
    requires
        aggregation_defined(intervals@, *config),
    ensures
        Some(r.arbeitsmenge@) == running_sum(billable_values(intervals@)),
        r.billable_count == billable_values(intervals@).len(),
        r.billable_count + r.excluded_count == intervals@.len(),
        r.covered_secs == covered_secs(intervals@),
        r.period_secs == period_secs(intervals@, *config),
        r.spitzenleistung_kw.is_some() == r.spitzenleistung_at.is_some(),
        match peak(intervals@, config.include_spitzenleistung) {
            Some(p) => view_of(r.spitzenleistung_kw) == Some(p.0) && r.spitzenleistung_at == Some(
                p.1 as i64,
            ),
            None => r.spitzenleistung_kw is None && r.spitzenleistung_at is None,
        },
        sum_fits(billable_values(intervals@)) ==> r.arbeitsmenge.units() == sum_units(
            billable_values(intervals@),
        ),
        config.include_spitzenleistung && r.spitzenleistung_kw is Some ==> is_peak_of(
            intervals@,
            r.spitzenleistung_kw->0@,
            r.spitzenleistung_at->0 as int,
        ),
{
    let ghost all = intervals@;
    let mut values: Vec<Dec> = Vec::new();
    let mut billable_count: usize = 0;
    let mut excluded_count: usize = 0;
    let mut peak_kw: Option<Dec> = None;
    let mut peak_at: i64 = 0;
    let mut covered: i64 = 0;
    let mut earliest: Option<i64> = None;
    let mut latest: Option<i64> = None;
    let mut i: usize = 0;
    proof {
        assert(all.take(0) =~= Seq::<MeterInterval>::empty());
    }
    while i < intervals.len()
        invariant
            0 <= i <= intervals.len(),
            all == intervals@,
            aggregation_defined(all, *config),
            crate::decimal::views(values@) == billable_values(all.take(i as int)),
            billable_count == values@.len(),
            billable_count + excluded_count == i,
            covered == covered_secs(all.take(i as int)),
            earliest is Some == earliest_from(all.take(i as int)) is Some,
            earliest matches Some(e) ==> earliest_from(all.take(i as int)) == Some(e as int),
            latest is Some == latest_to(all.take(i as int)) is Some,
            latest matches Some(l) ==> latest_to(all.take(i as int)) == Some(l as int),
            earliest matches Some(e) ==> is_supported_instant(e as int),
            latest matches Some(l) ==> is_supported_instant(l as int),
            match peak(all.take(i as int), config.include_spitzenleistung) {
                Some(p) => view_of(peak_kw) == Some(p.0) && peak_at == p.1,
                None => peak_kw is None,
            },
        decreases intervals.len() - i,
    {
        let iv = intervals[i];
        let ghost prefix = all.take(i as int);
        let ghost next = all.take(i + 1);
        proof {
            assert(next.drop_last() =~= prefix);
            assert(next.last() == iv);
            assert(interval_supported(all[i as int]));
        }
        if !iv.quality.is_billable() {
            excluded_count = excluded_count + 1;
        } else {
            billable_count = billable_count + 1;
            let ghost before = values@;
            values.push(iv.value);
            proof {
                assert(crate::decimal::views(values@) =~= crate::decimal::views(before).push(
                    iv.value@,
                ));
            }
            let span = iv.duration_secs();
            proof {
                lemma_covered_prefix(all, i + 1);
                lemma_covered_prefix(all, i as int);
            }
            if span > 0 {
                covered = covered + span;
            }
            earliest = match earliest {
                Some(e) => Some(if iv.from < e {
                    iv.from
                } else {
                    e
                }),
                None => Some(iv.from),
            };
            latest = match latest {
                Some(l) => Some(if iv.to > l {
                    iv.to
                } else {
                    l
                }),
                None => Some(iv.to),
            };
            if config.include_spitzenleistung {
                proof {
                    assert(all[i as int].spec_demand() is Some);
                }
                match iv.demand_kw() {
                    Some(kw) => {
                        let wins = match peak_kw {
                            None => true,
                            Some(best) => kw.gt(&best) || (kw == best && iv.from < peak_at),
                        };
                        if wins {
                            peak_kw = Some(kw);
                            peak_at = iv.from;
                        }
                    },
                    None => {},
                }
            }
        }
        i = i + 1;
    }
    proof {
        assert(all.take(intervals.len() as int) =~= all);
        lemma_peak_is_maximum(all);
    }
    let arbeitsmenge = match Dec::checked_sum(values.as_slice()) {
        Some(s) => s,
        None => {
            proof {
                assert(false);
            }
            Dec::zero()
        },
    };
    let period = match config.period {
        Some((from, to)) => to - from,
        None => match (earliest, latest) {
            (Some(f), Some(l)) => l - f,
            _ => 0,
        },
    };
    let spitzenleistung_at = match peak_kw {
        Some(_) => Some(peak_at),
        None => None,
    };
    BillingPeriod {
        arbeitsmenge,
        spitzenleistung_kw: peak_kw,
        spitzenleistung_at,
        billable_count,
        excluded_count,
        covered_secs: covered,
        period_secs: period,
    }
}

/// [`aggregate`] where it is defined; `None` where a sum or a demand would
/// overflow, or an instant is out of the supported range.
pub fn checked_aggregate(intervals: &[MeterInterval], config: &AggregationConfig) -> (r: Option<BillingPeriod>)
    ensures
        r is Some <==> aggregation_defined(intervals@, *config),
        r matches Some(p) ==> Some(p.arbeitsmenge@) == running_sum(billable_values(intervals@)),
{
    let mut values: Vec<Dec> = Vec::new();
    let mut covered: i64 = 0;
    let mut i: usize = 0;
    proof {
        assert(intervals@.take(0) =~= Seq::<MeterInterval>::empty());
    }
    while i < intervals.len()
        invariant
            0 <= i <= intervals.len(),
            crate::decimal::views(values@) == billable_values(intervals@.take(i as int)),
            covered == covered_secs(intervals@.take(i as int)),
            forall|j: int| 0 <= j < i ==> #[trigger] interval_supported(intervals@[j]),
            config.include_spitzenleistung ==> forall|j: int|
                0 <= j < i && is_billable_flag(intervals@[j].quality) ==> (
                #[trigger] intervals@[j].spec_demand()) is Some,
        decreases intervals.len() - i,
    {
        let iv = intervals[i];
        proof {
            assert(intervals@.take(i + 1).drop_last() =~= intervals@.take(i as int));
        }
        if iv.from < -377_705_000_000 || iv.from > 253_402_000_000 || iv.to < -377_705_000_000
            || iv.to > 253_402_000_000 {
            proof {
                assert(!interval_supported(intervals@[i as int]));
            }
            return None;
        }
        proof {
            assert(interval_supported(intervals@[i as int]));
        }
        if iv.quality.is_billable() {
            let ghost before = values@;
            values.push(iv.value);
            proof {
                assert(crate::decimal::views(values@) =~= crate::decimal::views(before).push(
                    iv.value@,
                ));
            }
            if config.include_spitzenleistung && iv.checked_demand_kw().is_none() {
                return None;
            }
            let span = iv.duration_secs();
            if span > 0 {
                match covered.checked_add(span) {
                    Some(c) => covered = c,
                    None => {
                        proof {
                            lemma_covered_prefix(intervals@, i + 1);
                        }
                        return None;
                    },
                }
            }
        }
        i = i + 1;
    }
    proof {
        assert(intervals@.take(intervals.len() as int) =~= intervals@);
    }
    if let Some((from, to)) = config.period {
        if from < -377_705_000_000 || from > 253_402_000_000 || to < -377_705_000_000 || to
            > 253_402_000_000 {
            return None;
        }
    }
    if Dec::checked_sum(values.as_slice()).is_none() {
        return None;
    }
    Some(aggregate(intervals, config))
}


// ── order independence ────────────────────────────────────────────────────────

/// The sum of `f` over the intervals.
pub open spec fn total_of(s: Seq<MeterInterval>, f: spec_fn(MeterInterval) -> int) -> int
    decreases s.len(),
{
    if s.len() == 0 {
        0
    } else {
        total_of(s.drop_last(), f) + f(s.last())
    }
}

proof fn lemma_total_remove(s: Seq<MeterInterval>, f: spec_fn(MeterInterval) -> int, j: int)
    requires
        0 <= j < s.len(),
    ensures
        total_of(s, f) == total_of(s.remove(j), f) + f(s[j]),
    decreases s.len(),
{
    if j == s.len() - 1 {
        assert(s.remove(j) =~= s.drop_last());
    } else {
        lemma_total_remove(s.drop_last(), f, j);
        assert(s.remove(j).drop_last() =~= s.drop_last().remove(j));
        assert(s.remove(j).last() == s.last());
    }
}

/// An interval of `a` is one of `b` where the two hold the same intervals.
proof fn lemma_member_of_permutation(a: Seq<MeterInterval>, b: Seq<MeterInterval>, i: int) -> (j: int)
    requires
        a.to_multiset() == b.to_multiset(),
        0 <= i < a.len(),
    ensures
        0 <= j < b.len(),
        b[j] == a[i],
{
    broadcast use vstd::seq_lib::group_to_multiset_ensures;

    assert(a.contains(a[i]));
    assert(a.to_multiset().count(a[i]) > 0);
    assert(b.to_multiset().count(a[i]) > 0);
    assert(b.contains(a[i]));
    choose|j: int| 0 <= j < b.len() && b[j] == a[i]
}

proof fn lemma_total_permutation(a: Seq<MeterInterval>, b: Seq<MeterInterval>, f: spec_fn(MeterInterval) -> int)
    requires
        a.to_multiset() == b.to_multiset(),
    ensures
        total_of(a, f) == total_of(b, f),
    decreases a.len(),
{
    broadcast use vstd::seq_lib::group_to_multiset_ensures;

    if a.len() == 0 {
        assert(b.to_multiset().len() == 0);
        assert(b.len() == 0);
    } else {
        let n = a.len() - 1;
        let j = lemma_member_of_permutation(a, b, n);
        assert(a.remove(n) =~= a.drop_last());
        assert(a.drop_last().to_multiset() == a.to_multiset().remove(a[n]));
        assert(b.remove(j).to_multiset() == b.to_multiset().remove(b[j]));
        lemma_total_permutation(a.drop_last(), b.remove(j), f);
        lemma_total_remove(b, f, j);
    }
}


/// One for a billable interval.
pub open spec fn billable_one(iv: MeterInterval) -> int {
    if is_billable_flag(iv.quality) {
        1
    } else {
        0
    }
}

/// A billable interval's value, in units.
pub open spec fn billable_units(iv: MeterInterval) -> int {
    if is_billable_flag(iv.quality) {
        units_of(iv.value@)
    } else {
        0
    }
}

/// A billable interval's value's magnitude, in units.
pub open spec fn billable_abs_units(iv: MeterInterval) -> int {
    if is_billable_flag(iv.quality) {
        abs_int(units_of(iv.value@))
    } else {
        0
    }
}

/// The seconds a billable interval covers.
pub open spec fn covered_of(iv: MeterInterval) -> int {
    if is_billable_flag(iv.quality) && iv.to - iv.from > 0 {
        iv.to - iv.from
    } else {
        0
    }
}

proof fn lemma_totals(s: Seq<MeterInterval>)
    ensures
        billable_values(s).len() == total_of(s, |iv: MeterInterval| billable_one(iv)),
        sum_units(billable_values(s)) == total_of(s, |iv: MeterInterval| billable_units(iv)),
        sum_abs_units(billable_values(s)) == total_of(s, |iv: MeterInterval| billable_abs_units(iv)),
        covered_secs(s) == total_of(s, |iv: MeterInterval| covered_of(iv)),
    decreases s.len(),
{
    if s.len() > 0 {
        lemma_totals(s.drop_last());
        let p = billable_values(s.drop_last());
        if is_billable_flag(s.last().quality) {
            assert(p.push(s.last().value@).drop_last() =~= p);
        }
    }
}

/// The largest scale among the billable values is at least each of them,
/// and is zero or one of them.
proof fn lemma_max_scale_bounds(s: Seq<MeterInterval>)
    ensures
        forall|i: int|
            0 <= i < s.len() && is_billable_flag(s[i].quality) ==> #[trigger] s[i].value@.1 <= max_scale_of(
                billable_values(s),
            ),
        max_scale_of(billable_values(s)) == 0 || exists|i: int|
            0 <= i < s.len() && is_billable_flag(s[i].quality) && #[trigger] s[i].value@.1 == max_scale_of(
                billable_values(s),
            ),
    decreases s.len(),
{
    if s.len() > 0 {
        let q = s.drop_last();
        lemma_max_scale_bounds(q);
        assert forall|i: int| 0 <= i < q.len() implies #[trigger] q[i] == s[i] by {}
        let p = billable_values(q);
        if is_billable_flag(s.last().quality) {
            assert(p.push(s.last().value@).drop_last() =~= p);
        }
        if max_scale_of(billable_values(s)) != 0 {
            if max_scale_of(billable_values(s)) == max_scale_of(p) {
                let w = choose|i: int|
                    0 <= i < q.len() && is_billable_flag(q[i].quality) && #[trigger] q[i].value@.1
                        == max_scale_of(p);
                assert(s[w] == q[w]);
            } else {
                assert(s[s.len() - 1].value@.1 == max_scale_of(billable_values(s)));
            }
        }
        assert forall|i: int|
            0 <= i < s.len() && is_billable_flag(s[i].quality) implies #[trigger] s[i].value@.1
            <= max_scale_of(billable_values(s)) by {
            if i < q.len() {
                assert(q[i] == s[i]);
            }
        }
    }
}

/// The earliest billable start is at most each billable start, and one of
/// them; there is none without a billable interval.
proof fn lemma_earliest_bounds(s: Seq<MeterInterval>)
    ensures
        match earliest_from(s) {
            Some(e) => (forall|i: int|
                0 <= i < s.len() && is_billable_flag(s[i].quality) ==> e <= #[trigger] s[i].from) && exists|i: int|
                0 <= i < s.len() && is_billable_flag(s[i].quality) && #[trigger] s[i].from == e,
            None => forall|i: int| 0 <= i < s.len() ==> !is_billable_flag(#[trigger] s[i].quality),
        },
    decreases s.len(),
{
    if s.len() > 0 {
        let q = s.drop_last();
        lemma_earliest_bounds(q);
        assert forall|i: int| 0 <= i < q.len() implies #[trigger] q[i] == s[i] by {}
        let n = s.len() - 1;
        assert(s[n] == s.last());
        match earliest_from(s) {
            Some(e) => {
                if earliest_from(q) == Some(e) {
                    let w = choose|i: int| 0 <= i < q.len() && is_billable_flag(q[i].quality) && #[trigger] q[i].from == e;
                    assert(s[w] == q[w]);
                }
                assert forall|i: int| 0 <= i < s.len() && is_billable_flag(s[i].quality) implies e
                    <= #[trigger] s[i].from by {
                    if i < n {
                        assert(q[i] == s[i]);
                    }
                }
            },
            None => {
                assert forall|i: int| 0 <= i < s.len() implies !is_billable_flag(#[trigger] s[i].quality) by {
                    if i < n {
                        assert(q[i] == s[i]);
                    }
                }
            },
        }
    }
}

/// The latest billable end is at least each billable end, and one of them;
/// there is none without a billable interval.
proof fn lemma_latest_bounds(s: Seq<MeterInterval>)
    ensures
        match latest_to(s) {
            Some(l) => (forall|i: int|
                0 <= i < s.len() && is_billable_flag(s[i].quality) ==> #[trigger] s[i].to <= l) && exists|i: int|
                0 <= i < s.len() && is_billable_flag(s[i].quality) && #[trigger] s[i].to == l,
            None => forall|i: int| 0 <= i < s.len() ==> !is_billable_flag(#[trigger] s[i].quality),
        },
    decreases s.len(),
{
    if s.len() > 0 {
        let q = s.drop_last();
        lemma_latest_bounds(q);
        assert forall|i: int| 0 <= i < q.len() implies #[trigger] q[i] == s[i] by {}
        let n = s.len() - 1;
        assert(s[n] == s.last());
        match latest_to(s) {
            Some(l) => {
                if latest_to(q) == Some(l) {
                    let w = choose|i: int| 0 <= i < q.len() && is_billable_flag(q[i].quality) && #[trigger] q[i].to == l;
                    assert(s[w] == q[w]);
                }
                assert forall|i: int| 0 <= i < s.len() && is_billable_flag(s[i].quality) implies #[trigger] s[i].to
                    <= l by {
                    if i < n {
                        assert(q[i] == s[i]);
                    }
                }
            },
            None => {
                assert forall|i: int| 0 <= i < s.len() implies !is_billable_flag(#[trigger] s[i].quality) by {
                    if i < n {
                        assert(q[i] == s[i]);
                    }
                }
            },
        }
    }
}


proof fn lemma_no_peak_without_demand(s: Seq<MeterInterval>)
    ensures
        peak(s, false) is None,
    decreases s.len(),
{
    if s.len() > 0 {
        lemma_no_peak_without_demand(s.drop_last());
    }
}

/// Aggregation does not depend on the order of the intervals: two series
/// holding the same intervals have the same billable count and covered
/// seconds, the same reference period, the same billable sum — which
/// [`aggregate`] returns exactly wherever it fits, and it fits for both or
/// for neither — and the same peak demand reached at the same start.
pub proof fn lemma_aggregation_is_order_independent(
    a: Seq<MeterInterval>,
    b: Seq<MeterInterval>,
    config: AggregationConfig,
)
    requires
        a.to_multiset() == b.to_multiset(),
    ensures
        a.len() == b.len(),
        billable_values(a).len() == billable_values(b).len(),
        sum_units(billable_values(a)) == sum_units(billable_values(b)),
        sum_fits(billable_values(a)) == sum_fits(billable_values(b)),
        covered_secs(a) == covered_secs(b),
        period_secs(a, config) == period_secs(b, config),
        match (peak(a, config.include_spitzenleistung), peak(b, config.include_spitzenleistung)) {
            (Some(p), Some(q)) => units_of(p.0) == units_of(q.0) && p.1 == q.1,
            (None, None) => true,
            _ => false,
        },
{
    broadcast use vstd::seq_lib::group_to_multiset_ensures;

    assert(a.len() == a.to_multiset().len());
    assert(b.len() == b.to_multiset().len());
    lemma_totals(a);
    lemma_totals(b);
    lemma_total_permutation(a, b, |iv: MeterInterval| billable_one(iv));
    lemma_total_permutation(a, b, |iv: MeterInterval| billable_units(iv));
    lemma_total_permutation(a, b, |iv: MeterInterval| billable_abs_units(iv));
    lemma_total_permutation(a, b, |iv: MeterInterval| covered_of(iv));
    lemma_order_independent_extremes(a, b);
    lemma_order_independent_extremes(b, a);
    if config.include_spitzenleistung {
        lemma_order_independent_peak(a, b);
    } else {
        lemma_no_peak_without_demand(a);
        lemma_no_peak_without_demand(b);
    }
}

/// Each extreme of `a` is bounded by the corresponding extreme of `b`.
proof fn lemma_order_independent_extremes(a: Seq<MeterInterval>, b: Seq<MeterInterval>)
    requires
        a.to_multiset() == b.to_multiset(),
    ensures
        max_scale_of(billable_values(b)) <= max_scale_of(billable_values(a)),
        earliest_from(b) is Some ==> (earliest_from(a) matches Some(e) && e <= earliest_from(b)->0),
        latest_to(b) is Some ==> (latest_to(a) matches Some(l) && latest_to(b)->0 <= l),
{
    lemma_max_scale_bounds(a);
    lemma_max_scale_bounds(b);
    lemma_earliest_bounds(a);
    lemma_earliest_bounds(b);
    lemma_latest_bounds(a);
    lemma_latest_bounds(b);
    let mb = max_scale_of(billable_values(b));
    if mb != 0 {
        let j = choose|i: int| 0 <= i < b.len() && is_billable_flag(b[i].quality) && #[trigger] b[i].value@.1 == mb;
        let i = lemma_member_of_permutation(b, a, j);
        assert(a[i].value@.1 <= max_scale_of(billable_values(a)));
    }
    if let Some(eb) = earliest_from(b) {
        let j = choose|i: int| 0 <= i < b.len() && is_billable_flag(b[i].quality) && #[trigger] b[i].from == eb;
        let i = lemma_member_of_permutation(b, a, j);
        assert(is_billable_flag(a[i].quality));
    }
    if let Some(lb) = latest_to(b) {
        let j = choose|i: int| 0 <= i < b.len() && is_billable_flag(b[i].quality) && #[trigger] b[i].to == lb;
        let i = lemma_member_of_permutation(b, a, j);
        assert(is_billable_flag(a[i].quality));
    }
}

/// Two series holding the same intervals have peaks of one value, reached
/// at one start.
proof fn lemma_order_independent_peak(a: Seq<MeterInterval>, b: Seq<MeterInterval>)
    requires
        a.to_multiset() == b.to_multiset(),
    ensures
        match (peak(a, true), peak(b, true)) {
            (Some(p), Some(q)) => units_of(p.0) == units_of(q.0) && p.1 == q.1,
            (None, None) => true,
            _ => false,
        },
{
    broadcast use vstd::seq_lib::group_to_multiset_ensures;

    lemma_peak_is_maximum(a);
    lemma_peak_is_maximum(b);
    if let Some(p) = peak(a, true) {
        let i = choose|i: int|
            0 <= i < a.len() && is_billable_flag(a[i].quality) && #[trigger] a[i].spec_demand() == Some(Some(p.0))
                && a[i].from == p.1;
        let j = lemma_member_of_permutation(a, b, i);
        assert(is_billable_flag(b[j].quality));
        assert(!has_no_demand(b[j]));
        let q = peak(b, true)->0;
        assert(demand_at_most(b[j], q.0, q.1));
        let k = choose|k: int|
            0 <= k < b.len() && is_billable_flag(b[k].quality) && #[trigger] b[k].spec_demand() == Some(Some(q.0))
                && b[k].from == q.1;
        let l = lemma_member_of_permutation(b, a, k);
        assert(demand_at_most(a[l], p.0, p.1));
    } else if let Some(q) = peak(b, true) {
        let k = choose|k: int|
            0 <= k < b.len() && is_billable_flag(b[k].quality) && #[trigger] b[k].spec_demand() == Some(Some(q.0))
                && b[k].from == q.1;
        let l = lemma_member_of_permutation(b, a, k);
        assert(is_billable_flag(a[l].quality));
        assert(!has_no_demand(a[l]));
    }
}


// ── daily sums ────────────────────────────────────────────────────────────────

/// The Berlin day number an interval starts on.
pub open spec fn start_day(iv: MeterInterval) -> int {
    spec_local_day_number(iv.from as int)
}

/// The values of the billable intervals that start on Berlin day `n`, in
/// order.
pub open spec fn billable_values_on(ivs: Seq<MeterInterval>, n: int) -> Seq<(int, nat, bool)>
    decreases ivs.len(),
{
    if ivs.len() == 0 {
        Seq::empty()
    } else {
        let p = billable_values_on(ivs.drop_last(), n);
        if is_billable_flag(ivs.last().quality) && start_day(ivs.last()) == n {
            p.push(ivs.last().value@)
        } else {
            p
        }
    }
}

/// `sums` holds, ascending by day, one entry for each Berlin day on which a
/// billable interval starts, with the sum rust_decimal forms from zero of
/// that day's billable values in order.
pub open spec fn is_daily_sums(ivs: Seq<MeterInterval>, sums: Seq<(CalendarDate, Dec)>) -> bool {
    &&& forall|k: int|
        0 <= k < sums.len() ==> {
            &&& (#[trigger] sums[k]).0.spec_valid()
            &&& billable_values_on(ivs, sums[k].0.spec_day_number()).len() > 0
            &&& running_sum(billable_values_on(ivs, sums[k].0.spec_day_number())) == Some(sums[k].1@)
        }
    &&& forall|j: int, k: int|
        0 <= j < k < sums.len() ==> (#[trigger] sums[j]).0.spec_day_number()
            < (#[trigger] sums[k]).0.spec_day_number()
    &&& forall|n: int|
        (#[trigger] billable_values_on(ivs, n)).len() > 0 ==> exists|k: int|
            0 <= k < sums.len() && (#[trigger] sums[k]).0.spec_day_number() == n
}

/// Where a day's sum overflows over a prefix, it overflows over the whole.
proof fn lemma_day_sum_overflow_extends(s: Seq<MeterInterval>, j: int, n: int)
    requires
        0 <= j <= s.len(),
        running_sum(billable_values_on(s.take(j), n)) is None,
    ensures
        running_sum(billable_values_on(s, n)) is None,
    decreases s.len(),
{
    if j == s.len() {
        assert(s.take(j) =~= s);
    } else {
        assert(s.drop_last().take(j) =~= s.take(j));
        lemma_day_sum_overflow_extends(s.drop_last(), j, n);
        let p = billable_values_on(s.drop_last(), n);
        assert(p.push(s.last().value@).drop_last() =~= p);
    }
}

/// Appending an interval changes only the values of its own day, and a
/// billable one extends them.
proof fn lemma_values_on_push(prefix: Seq<MeterInterval>, iv: MeterInterval)
    ensures
        forall|n: int|
            !(is_billable_flag(iv.quality) && n == start_day(iv)) ==> #[trigger] billable_values_on(
                prefix.push(iv),
                n,
            ) == billable_values_on(prefix, n),
        is_billable_flag(iv.quality) ==> billable_values_on(prefix.push(iv), start_day(iv))
            == billable_values_on(prefix, start_day(iv)).push(iv.value@),
        is_billable_flag(iv.quality) ==> billable_values_on(prefix.push(iv), start_day(iv)).drop_last()
            == billable_values_on(prefix, start_day(iv)),
{
    let next = prefix.push(iv);
    assert(next.drop_last() =~= prefix);
    assert(next.last() == iv);
    assert forall|n: int|
        !(is_billable_flag(iv.quality) && n == start_day(iv)) implies #[trigger] billable_values_on(
            next,
            n,
        ) == billable_values_on(prefix, n) by {}
    if is_billable_flag(iv.quality) {
        let p = billable_values_on(prefix, start_day(iv));
        assert(p.push(iv.value@).drop_last() =~= p);
    }
}

/// A day with no entry at the place the search stopped has no billable
/// values yet.
proof fn lemma_day_absent(prefix: Seq<MeterInterval>, out: Seq<(CalendarDate, Dec)>, pos: int, dn: int)
    requires
        is_daily_sums(prefix, out),
        0 <= pos <= out.len(),
        forall|k: int| 0 <= k < pos ==> (#[trigger] out[k]).0.spec_day_number() < dn,
        pos == out.len() || out[pos].0.spec_day_number() != dn,
        pos < out.len() ==> out[pos].0.spec_day_number() >= dn,
    ensures
        billable_values_on(prefix, dn) =~= Seq::<(int, nat, bool)>::empty(),
{
    if billable_values_on(prefix, dn).len() > 0 {
        let k = choose|k: int| 0 <= k < out.len() && (#[trigger] out[k]).0.spec_day_number() == dn;
        if k > pos {
            assert(out[pos].0.spec_day_number() < out[k].0.spec_day_number());
        }
    }
}

/// After a day's new sum is written where the search stopped, every entry
/// holds its day's sum.
proof fn lemma_step_entries(
    prefix: Seq<MeterInterval>,
    iv: MeterInterval,
    old_out: Seq<(CalendarDate, Dec)>,
    o: Seq<(CalendarDate, Dec)>,
    pos: int,
    found: bool,
    date: CalendarDate,
    sum: Dec,
)
    requires
        is_daily_sums(prefix, old_out),
        is_billable_flag(iv.quality),
        date.spec_valid(),
        date.spec_day_number() == start_day(iv),
        0 <= pos <= old_out.len(),
        forall|k: int| 0 <= k < pos ==> (#[trigger] old_out[k]).0.spec_day_number() < date.spec_day_number(),
        pos < old_out.len() ==> old_out[pos].0.spec_day_number() >= date.spec_day_number(),
        found ==> pos < old_out.len() && old_out[pos].0.spec_day_number() == date.spec_day_number()
            && o == old_out.update(pos, (date, sum)),
        !found ==> (pos == old_out.len() || old_out[pos].0.spec_day_number() != date.spec_day_number())
            && o == old_out.insert(pos, (date, sum)),
        running_sum(billable_values_on(prefix.push(iv), start_day(iv))) == Some(sum@),
    ensures
        forall|k: int|
            0 <= k < o.len() ==> {
                &&& (#[trigger] o[k]).0.spec_valid()
                &&& billable_values_on(prefix.push(iv), o[k].0.spec_day_number()).len() > 0
                &&& running_sum(billable_values_on(prefix.push(iv), o[k].0.spec_day_number())) == Some(o[k].1@)
            },
{
    let next = prefix.push(iv);
    let dn = date.spec_day_number();
    lemma_values_on_push(prefix, iv);
    assert forall|k: int| 0 <= k < o.len() implies {
        &&& (#[trigger] o[k]).0.spec_valid()
        &&& billable_values_on(next, o[k].0.spec_day_number()).len() > 0
        &&& running_sum(billable_values_on(next, o[k].0.spec_day_number())) == Some(o[k].1@)
    } by {
        if k == pos {
        } else if found || k < pos {
            assert(o[k] == old_out[k]);
            assert(old_out[k].0.spec_day_number() != dn);
        } else {
            assert(o[k] == old_out[k - 1]);
            if k - 1 > pos {
                assert(old_out[pos].0.spec_day_number() < old_out[k - 1].0.spec_day_number());
            }
        }
    }
}

/// After a day's new sum is written where the search stopped, the days still
/// ascend.
proof fn lemma_step_ascending(
    prefix: Seq<MeterInterval>,
    iv: MeterInterval,
    old_out: Seq<(CalendarDate, Dec)>,
    o: Seq<(CalendarDate, Dec)>,
    pos: int,
    found: bool,
    date: CalendarDate,
    sum: Dec,
)
    requires
        is_daily_sums(prefix, old_out),
        is_billable_flag(iv.quality),
        date.spec_valid(),
        date.spec_day_number() == start_day(iv),
        0 <= pos <= old_out.len(),
        forall|k: int| 0 <= k < pos ==> (#[trigger] old_out[k]).0.spec_day_number() < date.spec_day_number(),
        pos < old_out.len() ==> old_out[pos].0.spec_day_number() >= date.spec_day_number(),
        found ==> pos < old_out.len() && old_out[pos].0.spec_day_number() == date.spec_day_number()
            && o == old_out.update(pos, (date, sum)),
        !found ==> (pos == old_out.len() || old_out[pos].0.spec_day_number() != date.spec_day_number())
            && o == old_out.insert(pos, (date, sum)),
        running_sum(billable_values_on(prefix.push(iv), start_day(iv))) == Some(sum@),
    ensures
        forall|j: int, k: int|
            0 <= j < k < o.len() ==> (#[trigger] o[j]).0.spec_day_number()
                < (#[trigger] o[k]).0.spec_day_number(),
{
    assert forall|j: int, k: int| 0 <= j < k < o.len() implies (#[trigger] o[j]).0.spec_day_number()
        < (#[trigger] o[k]).0.spec_day_number() by {
        if found {
            if j != pos {
                assert(o[j] == old_out[j]);
            }
            if k != pos {
                assert(o[k] == old_out[k]);
            }
        } else if k < pos {
            assert(o[j] == old_out[j] && o[k] == old_out[k]);
        } else if k == pos {
            assert(o[j] == old_out[j]);
        } else if j < pos {
            assert(o[j] == old_out[j] && o[k] == old_out[k - 1]);
            if k - 1 > pos {
                assert(old_out[pos].0.spec_day_number() < old_out[k - 1].0.spec_day_number());
            }
        } else if j == pos {
            assert(o[k] == old_out[k - 1]);
            if k - 1 > pos {
                assert(old_out[pos].0.spec_day_number() < old_out[k - 1].0.spec_day_number());
            }
        } else {
            assert(o[j] == old_out[j - 1] && o[k] == old_out[k - 1]);
        }
    }
}

/// After a day's new sum is written where the search stopped, every day with
/// billable values has an entry.
proof fn lemma_step_complete(
    prefix: Seq<MeterInterval>,
    iv: MeterInterval,
    old_out: Seq<(CalendarDate, Dec)>,
    o: Seq<(CalendarDate, Dec)>,
    pos: int,
    found: bool,
    date: CalendarDate,
    sum: Dec,
)
    requires
        is_daily_sums(prefix, old_out),
        is_billable_flag(iv.quality),
        date.spec_valid(),
        date.spec_day_number() == start_day(iv),
        0 <= pos <= old_out.len(),
        forall|k: int| 0 <= k < pos ==> (#[trigger] old_out[k]).0.spec_day_number() < date.spec_day_number(),
        pos < old_out.len() ==> old_out[pos].0.spec_day_number() >= date.spec_day_number(),
        found ==> pos < old_out.len() && old_out[pos].0.spec_day_number() == date.spec_day_number()
            && o == old_out.update(pos, (date, sum)),
        !found ==> (pos == old_out.len() || old_out[pos].0.spec_day_number() != date.spec_day_number())
            && o == old_out.insert(pos, (date, sum)),
        running_sum(billable_values_on(prefix.push(iv), start_day(iv))) == Some(sum@),
    ensures
        forall|n: int|
            (#[trigger] billable_values_on(prefix.push(iv), n)).len() > 0 ==> exists|k: int|
                0 <= k < o.len() && (#[trigger] o[k]).0.spec_day_number() == n,
{
    let next = prefix.push(iv);
    let dn = date.spec_day_number();
    lemma_values_on_push(prefix, iv);
    assert forall|n: int| (#[trigger] billable_values_on(next, n)).len() > 0 implies exists|k: int|
        0 <= k < o.len() && (#[trigger] o[k]).0.spec_day_number() == n by {
        if n == dn {
            assert(o[pos].0.spec_day_number() == n);
        } else {
            assert(billable_values_on(prefix, n).len() > 0);
            let k = choose|k: int| 0 <= k < old_out.len() && (#[trigger] old_out[k]).0.spec_day_number() == n;
            if found || k < pos {
                assert(o[k] == old_out[k]);
            } else {
                assert(o[k + 1] == old_out[k]);
            }
        }
    }
}

/// Where the day numbered `dn` belongs among the entries: the first entry
/// whose day is not earlier, and whether that entry is day `dn` itself.
fn day_slot(out: &Vec<(CalendarDate, Dec)>, dn: i64) -> (r: (usize, bool))
    requires
        forall|k: int| 0 <= k < out@.len() ==> (#[trigger] out@[k]).0.spec_valid(),
    ensures
        r.0 <= out@.len(),
        forall|k: int| 0 <= k < r.0 ==> (#[trigger] out@[k]).0.spec_day_number() < dn,
        r.0 < out@.len() ==> out@[r.0 as int].0.spec_day_number() >= dn,
        r.1 == (r.0 < out@.len() && out@[r.0 as int].0.spec_day_number() == dn),
{
    let mut pos: usize = 0;
    while pos < out.len() && day_number_of(out[pos].0) < dn
        invariant
            0 <= pos <= out@.len(),
            forall|k: int| 0 <= k < out@.len() ==> (#[trigger] out@[k]).0.spec_valid(),
            forall|k: int| 0 <= k < pos ==> (#[trigger] out@[k]).0.spec_day_number() < dn,
        decreases out.len() - pos,
    {
        pos = pos + 1;
    }
    let found = pos < out.len() && day_number_of(out[pos].0) == dn;
    (pos, found)
}

/// The day's new sum is the old one, or zero for a new day, plus the value.
proof fn lemma_day_sum_step(
    prefix: Seq<MeterInterval>,
    iv: MeterInterval,
    out: Seq<(CalendarDate, Dec)>,
    pos: int,
    found: bool,
    base: Dec,
)
    requires
        is_daily_sums(prefix, out),
        is_billable_flag(iv.quality),
        0 <= pos <= out.len(),
        forall|k: int| 0 <= k < pos ==> (#[trigger] out[k]).0.spec_day_number() < start_day(iv),
        pos < out.len() ==> out[pos].0.spec_day_number() >= start_day(iv),
        found == (pos < out.len() && out[pos].0.spec_day_number() == start_day(iv)),
        found ==> base == out[pos].1,
        !found ==> base@ == (0int, 0nat, false),
    ensures
        running_sum(billable_values_on(prefix.push(iv), start_day(iv))) == match running_sum(
            billable_values_on(prefix, start_day(iv)),
        ) {
            Some(_) => decimal_checked_add(base@, iv.value@),
            None => None::<(int, nat, bool)>,
        },
        running_sum(billable_values_on(prefix, start_day(iv))) == Some(base@),
{
    let dn = start_day(iv);
    let xs = billable_values_on(prefix, dn);
    lemma_values_on_push(prefix, iv);
    if found {
        assert(out[pos].0.spec_day_number() == dn);
    } else {
        lemma_day_absent(prefix, out, pos, dn);
    }
    assert(xs.push(iv.value@).drop_last() =~= xs);
}

/// The billable values summed per Berlin calendar day, the days ascending;
/// `None` where a day's sum overflows.
pub fn billable_daily_sums(intervals: &[MeterInterval]) -> (r: Option<Vec<(CalendarDate, Dec)>>)
    requires
        forall|i: int|
            0 <= i < intervals@.len() && is_billable_flag(intervals@[i].quality)
                ==> is_supported_instant(#[trigger] intervals@[i].from as int),
    ensures
        r is Some <==> forall|n: int| #[trigger] running_sum(billable_values_on(intervals@, n)) is Some,
        r matches Some(v) ==> is_daily_sums(intervals@, v@),
{
    let ghost all = intervals@;
    let mut out: Vec<(CalendarDate, Dec)> = Vec::new();
    let mut i: usize = 0;
    proof {
        assert(all.take(0) =~= Seq::<MeterInterval>::empty());
    }
    while i < intervals.len()
        invariant
            0 <= i <= intervals.len(),
            all == intervals@,
            forall|j: int|
                0 <= j < all.len() && is_billable_flag(all[j].quality)
                    ==> is_supported_instant(#[trigger] all[j].from as int),
            is_daily_sums(all.take(i as int), out@),
        decreases intervals.len() - i,
    {
        let iv = intervals[i];
        let ghost prefix = all.take(i as int);
        proof {
            assert(all.take(i + 1) =~= prefix.push(iv));
            lemma_values_on_push(prefix, iv);
        }
        if iv.quality.is_billable() {
            proof {
                assert(is_supported_instant(all[i as int].from as int));
            }
            let date = local_day(iv.from);
            let dn = day_number_of(date);
            let ghost old_out = out@;
            let (pos, found) = day_slot(&out, dn);
            let base = if found {
                out[pos].1
            } else {
                Dec::zero()
            };
            proof {
                lemma_day_sum_step(prefix, iv, old_out, pos as int, found, base);
            }
            match base.checked_add(&iv.value) {
                None => {
                    proof {
                        lemma_day_sum_overflow_extends(all, i + 1, dn as int);
                    }
                    return None;
                },
                Some(sum) => {
                    if found {
                        out.set(pos, (date, sum));
                    } else {
                        out.insert(pos, (date, sum));
                    }
                    proof {
                        lemma_step_entries(prefix, iv, old_out, out@, pos as int, found, date, sum);
                        lemma_step_ascending(prefix, iv, old_out, out@, pos as int, found, date, sum);
                        lemma_step_complete(prefix, iv, old_out, out@, pos as int, found, date, sum);
                    }
                },
            }
        }
        i = i + 1;
    }
    proof {
        assert(all.take(intervals.len() as int) =~= all);
        assert forall|n: int| #[trigger] running_sum(billable_values_on(all, n)) is Some by {
            if billable_values_on(all, n).len() > 0 {
                let k = choose|k: int| 0 <= k < out@.len() && (#[trigger] out@[k]).0.spec_day_number() == n;
            } else {
                assert(billable_values_on(all, n) =~= Seq::<(int, nat, bool)>::empty());
            }
        }
    }
    Some(out)
}

} // verus!
