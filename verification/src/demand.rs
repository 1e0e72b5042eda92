//! Demand windows for RLM Spitzenleistung billing (§ 12 StromNZV, § 18
//! StromNEV): the billing basis is the highest 15-minute average demand of
//! the period, and the demand of an energy interval is
//! `kW = kWh ÷ (seconds ÷ 3600)`.

use vstd::prelude::*;

use crate::conversion::quotient_of;
use crate::decimal::{signed, decimal_checked_div, running_sum, units_of, view_of, views, Dec};
use crate::interval::MeterInterval;
use crate::obis::ObisCode;

verus! {

/// A single demand measurement over a fixed-length interval.
#[derive(Debug, Clone, Copy, PartialEq, Eq)]
pub struct DemandInterval {
    /// Interval start, Unix seconds.
    pub from: i64,
    /// Interval end, Unix seconds.
    pub to: i64,
    /// Average power demand during the interval, in kW.
    pub demand_kw: Dec,
    /// OBIS code of the Lastgang this demand was derived from (typically
    /// `1-0:1.29.0`, kWh per interval), so that a derived peak can be told
    /// from a metered one.
    pub obis_code: Option<ObisCode>,
}

/// `energy ÷ (secs ÷ 3600)` as rust_decimal computes it, and zero for a
/// zero-length interval; `None` where the division overflows or the hours
/// come out as zero.
pub open spec fn spec_energy_to_demand(energy: (int, nat, bool), secs: u32) -> Option<(int, nat, bool)> {
    if secs == 0 {
        Some((0, 0, false))
    } else {
        quotient_of(Some(energy), decimal_checked_div(signed(secs as int, 0nat), (3600int, 0nat, false)))
    }
}

impl DemandInterval {
    fn demand_checked(energy_kwh: Dec, interval_secs: u32) -> (r: Option<Dec>)
        ensures
            view_of(r) == spec_energy_to_demand(energy_kwh@, interval_secs),
    {
        if interval_secs == 0 {
            return Some(Dec::zero());
        }
        match Dec::from_u64(interval_secs as u64).checked_div(&Dec::from_u64(3600)) {
            Some(hours) => energy_kwh.checked_div(&hours),
            None => None,
        }
    }

    /// The demand in kW of `energy_kwh` over `interval_secs` seconds:
    /// `kWh ÷ (seconds ÷ 3600)`, and zero for a zero-length interval.
    pub fn energy_to_demand_kw(energy_kwh: Dec, interval_secs: u32) -> (r: Dec)
        requires
            spec_energy_to_demand(energy_kwh@, interval_secs) is Some,
        ensures
            Some(r@) == spec_energy_to_demand(energy_kwh@, interval_secs),
    {
        match Self::demand_checked(energy_kwh, interval_secs) {
            Some(d) => d,
            None => {
                proof {
                    assert(false);
                }
                energy_kwh
            },
        }
    }

    /// [`energy_to_demand_kw`](Self::energy_to_demand_kw), or `None` where
    /// rust_decimal would overflow.
    pub fn checked_energy_to_demand_kw(energy_kwh: Dec, interval_secs: u32) -> (r: Option<Dec>)
        ensures
            view_of(r) == spec_energy_to_demand(energy_kwh@, interval_secs),
    {
        if Self::demand_checked(energy_kwh, interval_secs).is_some() {
            Some(Self::energy_to_demand_kw(energy_kwh, interval_secs))
        } else {
            None
        }
    }
}

/// The demands of a sequence of intervals.
pub open spec fn demands(s: Seq<DemandInterval>) -> Seq<(int, nat, bool)> {
    s.map_values(|iv: DemandInterval| iv.demand_kw@)
}

/// The peak as `Decimal::max` folds it from the left: a later demand
/// replaces the peak only where it is strictly higher.
pub open spec fn first_peak(s: Seq<(int, nat, bool)>) -> Option<(int, nat, bool)>
    decreases s.len(),
{
    if s.len() == 0 {
        None
    } else {
        match first_peak(s.drop_last()) {
            None => Some(s.last()),
            Some(p) => if units_of(p) < units_of(s.last()) {
                Some(s.last())
            } else {
                Some(p)
            },
        }
    }
}

/// The index `Iterator::max_by_key` picks: the last of the highest demands.
pub open spec fn last_peak_index(s: Seq<DemandInterval>) -> int
    decreases s.len(),
{
    if s.len() <= 1 {
        0
    } else {
        let j = last_peak_index(s.drop_last());
        if units_of(s[j].demand_kw@) <= units_of(s.last().demand_kw@) {
            s.len() - 1
        } else {
            j
        }
    }
}

/// The average as rust_decimal forms it: the running sum over the count;
/// `Some(None)` for no intervals, `None` where the sum overflows.
pub open spec fn spec_average(s: Seq<DemandInterval>) -> Option<Option<(int, nat, bool)>> {
    if s.len() == 0 {
        Some(None)
    } else {
        match quotient_of(running_sum(demands(s)), Some(signed(s.len() as int, 0nat))) {
            Some(q) => Some(Some(q)),
            None => None,
        }
    }
}

/// The peak demand of a non-empty window is one of its demands and no
/// demand exceeds it; the interval `peak_interval` picks is one of the
/// window's and carries the peak value.
pub proof fn lemma_peak_is_maximum(s: Seq<DemandInterval>)
    requires
        s.len() > 0,
    ensures
        first_peak(demands(s)) is Some,
        forall|i: int| 0 <= i < s.len() ==> units_of(s[i].demand_kw@) <= units_of(first_peak(demands(s))->0),
        exists|i: int| 0 <= i < s.len() && first_peak(demands(s))->0 == s[i].demand_kw@,
        0 <= last_peak_index(s) < s.len(),
        units_of(s[last_peak_index(s)].demand_kw@) == units_of(first_peak(demands(s))->0),
        forall|i: int| last_peak_index(s) < i < s.len() ==> units_of(s[i].demand_kw@) < units_of(
            first_peak(demands(s))->0,
        ),
    decreases s.len(),
{
    let d = demands(s);
    assert(demands(s.drop_last()) =~= d.drop_last());
    if s.len() == 1 {
        assert(d.drop_last() =~= Seq::<(int, nat, bool)>::empty());
        assert(d[0] == s[0].demand_kw@);
    } else {
        lemma_peak_is_maximum(s.drop_last());
        let p = first_peak(d.drop_last())->0;
        let w = choose|i: int| 0 <= i < s.len() - 1 && p == s.drop_last()[i].demand_kw@;
        assert(d.last() == s[s.len() - 1].demand_kw@);
        if units_of(p) < units_of(d.last()) {
            assert(exists|i: int| 0 <= i < s.len() && d.last() == s[i].demand_kw@);
        } else {
            assert(p == s[w].demand_kw@);
        }
        let j = last_peak_index(s.drop_last());
        assert(s.drop_last()[j] == s[j]);
        assert forall|i: int| 0 <= i < s.len() implies units_of(s[i].demand_kw@) <= units_of(
            first_peak(d)->0,
        ) by {
            if i < s.len() - 1 {
                assert(s.drop_last()[i] == s[i]);
            }
        }
        assert forall|i: int| last_peak_index(s) < i < s.len() implies units_of(s[i].demand_kw@)
            < units_of(first_peak(d)->0) by {
            if i < s.len() - 1 {
                assert(s.drop_last()[i] == s[i]);
            }
        }
    }
}

/// Tracks the peak demand (Spitzenleistung) over a billing period: the
/// demand intervals added, in order.
#[derive(Debug, Clone)]
pub struct DemandWindow {
    intervals: Vec<DemandInterval>,
}

impl View for DemandWindow {
    type V = Seq<DemandInterval>;

    closed spec fn view(&self) -> Seq<DemandInterval> {
        self.intervals@
    }
}

impl Default for DemandWindow {
    fn default() -> (r: Self)
        ensures
            r@ == Seq::<DemandInterval>::empty(),
    {
        DemandWindow { intervals: Vec::new() }
    }
}

impl DemandWindow {
    /// An empty demand window.
    pub fn new() -> (r: Self)
        ensures
            r@ == Seq::<DemandInterval>::empty(),
    {
        DemandWindow { intervals: Vec::new() }
    }

    /// Add a demand interval to the window.
    pub fn push(&mut self, interval: DemandInterval)
        ensures
            final(self)@ == old(self)@.push(interval),
    {
        self.intervals.push(interval);
    }

    /// Peak demand (Spitzenleistung) in kW, the maximum over all intervals;
    /// `None` for an empty window.
    pub fn peak_kw(&self) -> (r: Option<Dec>)
        ensures
            view_of(r) == first_peak(demands(self@)),
            r is None <==> self@.len() == 0,
            r matches Some(p) ==> forall|i: int| 0 <= i < self@.len() ==> units_of(self@[i].demand_kw@) <= p.units(),
    {
        let ghost d = demands(self@);
        let mut acc: Option<Dec> = None;
        let mut i: usize = 0;
        while i < self.intervals.len()
            invariant
                i <= self.intervals.len(),
                d == demands(self.intervals@),
                view_of(acc) == first_peak(d.take(i as int)),
            decreases self.intervals.len() - i,
        {
            let x = self.intervals[i].demand_kw;
            acc = match acc {
                None => Some(x),
                Some(a) => Some(a.max(x)),
            };
            proof {
                assert(d.take(i + 1).drop_last() =~= d.take(i as int));
                assert(d.take(i + 1).last() == x@);
            }
            i = i + 1;
        }
        proof {
            assert(d.take(i as int) =~= d);
            if self@.len() > 0 {
                lemma_peak_is_maximum(self@);
            }
        }
        acc
    }

    /// The interval holding the peak demand; of several equal highest, the
    /// last, as `Iterator::max_by_key` picks.
    pub fn peak_interval(&self) -> (r: Option<&DemandInterval>)
        ensures
            r is None <==> self@.len() == 0,
            r matches Some(iv) ==> *iv == self@[last_peak_index(self@)],
    {
        let mut best: usize = 0;
        let mut i: usize = 0;
        while i < self.intervals.len()
            invariant
                i <= self.intervals.len(),
                i > 0 ==> best == last_peak_index(self.intervals@.take(i as int)),
                i > 0 ==> best < i,
            decreases self.intervals.len() - i,
        {
            proof {
                let t = self.intervals@.take(i + 1);
                assert(t.drop_last() =~= self.intervals@.take(i as int));
                if i > 0 {
                    assert(t[best as int] == self.intervals@[best as int]);
                }
            }
            if i == 0 || !self.intervals[i].demand_kw.lt(&self.intervals[best].demand_kw) {
                best = i;
            }
            i = i + 1;
        }
        if self.intervals.len() == 0 {
            None
        } else {
            proof {
                assert(self.intervals@.take(i as int) =~= self.intervals@);
            }
            Some(&self.intervals[best])
        }
    }

    /// Number of intervals in the window.
    pub fn len(&self) -> (r: usize)
        ensures
            r == self@.len(),
    {
        self.intervals.len()
    }

    /// `true` when the window has no intervals.
    pub fn is_empty(&self) -> (r: bool)
        ensures
            r == (self@.len() == 0),
    {
        self.intervals.len() == 0
    }

    fn average_checked(&self) -> (r: Option<Option<Dec>>)
        ensures
            match r {
                Some(a) => Some(view_of(a)) == spec_average(self@),
                None => spec_average(self@) is None,
            },
    {
        if self.intervals.len() == 0 {
            return Some(None);
        }
        let mut values: Vec<Dec> = Vec::new();
        let mut i: usize = 0;
        while i < self.intervals.len()
            invariant
                i <= self.intervals.len(),
                values@.len() == i,
                forall|k: int| 0 <= k < i ==> values@[k] == self.intervals@[k].demand_kw,
            decreases self.intervals.len() - i,
        {
            values.push(self.intervals[i].demand_kw);
            i = i + 1;
        }
        proof {
            assert(views(values@) =~= demands(self@));
        }
        match Dec::checked_sum(values.as_slice()) {
            Some(t) => match t.checked_div(&Dec::from_u64(self.intervals.len() as u64)) {
                Some(q) => Some(Some(q)),
                None => None,
            },
            None => None,
        }
    }

    /// Average demand over the window in kW: the sum of the demands over
    /// their count; `None` for an empty window.
    pub fn average_kw(&self) -> (r: Option<Dec>)
        requires
            spec_average(self@) is Some,
        ensures
            Some(view_of(r)) == spec_average(self@),
    {
        match self.average_checked() {
            Some(a) => a,
            None => {
                proof {
                    assert(false);
                }
                None
            },
        }
    }

    /// [`average_kw`](Self::average_kw), or `None` where the sum overflows.
    pub fn checked_average_kw(&self) -> (r: Option<Option<Dec>>)
        ensures
            match r {
                Some(a) => Some(view_of(a)) == spec_average(self@),
                None => spec_average(self@) is None,
            },
    {
        if self.average_checked().is_some() {
            Some(self.average_kw())
        } else {
            None
        }
    }

    fn from_intervals_checked(intervals: &[MeterInterval], interval_secs: u32) -> (r: Option<Self>)
        ensures
            r is Some <==> forall|i: int| 0 <= i < intervals@.len() ==> spec_energy_to_demand(
                #[trigger] intervals@[i].value@,
                interval_secs,
            ) is Some,
            r matches Some(w) ==> is_window_of(w@, intervals@, interval_secs),
    {
        let mut window = Self::new();
        let mut i: usize = 0;
        while i < intervals.len()
            invariant
                i <= intervals.len(),
                forall|k: int| 0 <= k < i ==> spec_energy_to_demand(#[trigger] intervals@[k].value@, interval_secs) is Some,
                is_window_of(window@, intervals@.take(i as int), interval_secs),
            decreases intervals.len() - i,
        {
            let iv = intervals[i];
            let demand_kw = match DemandInterval::checked_energy_to_demand_kw(iv.value, interval_secs) {
                Some(d) => d,
                None => return None,
            };
            let ghost before = window@;
            let added = DemandInterval { from: iv.from, to: iv.to, demand_kw, obis_code: iv.obis_code };
            window.push(added);
            proof {
                let ivs = intervals@.take(i + 1);
                assert(window@ == before.push(added));
                assert forall|k: int| 0 <= k < i + 1 implies {
                    &&& #[trigger] window@[k].from == ivs[k].from
                    &&& window@[k].to == ivs[k].to
                    &&& window@[k].obis_code == ivs[k].obis_code
                    &&& Some(window@[k].demand_kw@) == spec_energy_to_demand(ivs[k].value@, interval_secs)
                } by {
                    if k < i {
                        assert(window@[k] == before[k]);
                        assert(ivs[k] == intervals@.take(i as int)[k]);
                    } else {
                        assert(window@[k] == added);
                        assert(ivs[k] == iv);
                    }
                }
            }
            i = i + 1;
        }
        proof {
            assert(intervals@.take(i as int) =~= intervals@);
        }
        Some(window)
    }

    /// A window from energy intervals, each converted to its average demand
    /// over `interval_secs` (for 15-minute intervals, `kWh × 4`).
    pub fn from_intervals(intervals: &[MeterInterval], interval_secs: u32) -> (r: Self)
        requires
            forall|i: int| 0 <= i < intervals@.len() ==> spec_energy_to_demand(
                #[trigger] intervals@[i].value@,
                interval_secs,
            ) is Some,
        ensures
            is_window_of(r@, intervals@, interval_secs),
    {
        match Self::from_intervals_checked(intervals, interval_secs) {
            Some(w) => w,
            None => {
                proof {
                    assert(false);
                }
                Self::new()
            },
        }
    }

    /// [`from_intervals`](Self::from_intervals), or `None` where a
    /// conversion would overflow.
    pub fn checked_from_intervals(intervals: &[MeterInterval], interval_secs: u32) -> (r: Option<Self>)
        ensures
            r is Some <==> forall|i: int| 0 <= i < intervals@.len() ==> spec_energy_to_demand(
                #[trigger] intervals@[i].value@,
                interval_secs,
            ) is Some,
            r matches Some(w) ==> is_window_of(w@, intervals@, interval_secs),
    {
        if Self::from_intervals_checked(intervals, interval_secs).is_some() {
            Some(Self::from_intervals(intervals, interval_secs))
        } else {
            None
        }
    }
}

/// `w` holds one demand interval per energy interval, in order, with its
/// bounds and OBIS code and the energy's demand over `secs`.
pub open spec fn is_window_of(w: Seq<DemandInterval>, ivs: Seq<MeterInterval>, secs: u32) -> bool {
    &&& w.len() == ivs.len()
    &&& forall|k: int|
        0 <= k < w.len() ==> {
            &&& #[trigger] w[k].from == ivs[k].from
            &&& w[k].to == ivs[k].to
            &&& w[k].obis_code == ivs[k].obis_code
            &&& Some(w[k].demand_kw@) == spec_energy_to_demand(ivs[k].value@, secs)
        }
}

} // verus!
