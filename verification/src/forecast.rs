//! Jahresprognose — projecting a full year from a partial one.
//!
//! ```text
//! annual_kwh = observed / observed_days × days_in_target_year × seasonal_factor
//! ```
//!
//! `observed_days` counts **Europe/Berlin calendar days** and the year factor
//! is the target year's real length, so neither a DST transition inside the
//! observation window nor a leap day skews the result. The seasonal factor
//! compares the prior year's daily rate over the matching window with its
//! overall daily rate. The projection is rounded to [`FORECAST_DP`] places.
//!
//! The 95 % prediction interval is computed from the daily sums in floating
//! point by the caller and handed in as a half-width; here it only brackets
//! the projection.

use vstd::prelude::*;

use crate::aggregation::{billable_values, interval_supported, is_billable_flag};
use crate::calendar::{
    local_year, spec_date_numbered, spec_is_leap_year,
    spec_local_day_number, spec_shift_back_one_year,
};
use crate::decimal::{signed, 
    Dec, decimal_checked_add, decimal_checked_div, decimal_checked_mul, decimal_checked_sub,
    round_half_even, running_sum, units_of, view_of, views,
};
use crate::interval::MeterInterval;

verus! {
/// Decimal places a projected quantity is rounded to: **3**, a milliwatt-hour.
pub const FORECAST_DP: u32 = 3;

/// The minimum observation window, in Berlin calendar days, that yields a
/// projection.
pub const MIN_OBSERVATION_DAYS: i64 = 7;

/// A projected annual consumption, with the inputs that produced it.
#[derive(Debug, Clone, PartialEq, Eq)]
pub struct AnnualForecast {
    /// Start of the observation window (earliest interval start), Unix seconds.
    pub observation_from: i64,
    /// End of the observation window (latest interval end), Unix seconds.
    pub observation_to: i64,
    /// Billable energy observed in the window (kWh).
    pub observed: Dec,
    /// Berlin calendar days the window spans.
    pub observed_days: u32,
    /// Days in the target year — 366 in a leap year.
    pub target_year_days: u16,
    /// Projected annual consumption (kWh), rounded to [`FORECAST_DP`] places.
    pub projected_annual: Dec,
    /// Seasonal correction factor; `1` when none was applied.
    pub seasonal_factor: Dec,
    /// Whether a seasonal factor could be derived from prior-year data. A
    /// factor of exactly 1 from a neutral window is still a correction.
    pub seasonal_correction_applied: bool,
    /// Lower bound of the 95 % prediction interval (kWh), clamped at zero and
    /// rounded to [`FORECAST_DP`] places.
    pub confidence_lower: Option<Dec>,
    /// Upper bound of the 95 % prediction interval (kWh), rounded to
    /// [`FORECAST_DP`] places.
    pub confidence_upper: Option<Dec>,
}

impl AnnualForecast {
    /// What the prediction interval is and is not.
    pub fn prediction_interval_note() -> (r: &'static str)
        ensures
            r@ == "95 % interval from daily-sum variability, assuming independent days; real load profiles are autocorrelated and seasonal, so the true spread is wider"@,
    {
        "95 % interval from daily-sum variability, assuming independent days; real load profiles are autocorrelated and seasonal, so the true spread is wider"
    }

    /// Mean daily consumption over the observation window (kWh/day); zero
    /// for an empty window.
    pub fn daily_average_kwh(&self) -> (r: Dec)
        ensures
            self.observed_days == 0 ==> r@ == (0int, 0nat, false),
            self.observed_days != 0 ==> Some(r@) == decimal_checked_div(
                self.observed@,
                signed(self.observed_days as int, 0nat),
            ),
    {
        if self.observed_days == 0 {
            return Dec::zero();
        }
        match self.observed.checked_div(&Dec::from_u64(self.observed_days as u64)) {
            Some(q) => q,
            None => {
                proof {
                    assert(false);
                }
                Dec::zero()
            },
        }
    }
}

/// An instant a year's shift back keeps within the supported range.
pub open spec fn forecast_instant(t: int) -> bool {
    -377_000_000_000 <= t <= 253_401_000_000
}

/// The earliest start among the intervals.
pub open spec fn min_from(ivs: Seq<MeterInterval>) -> Option<int>
    decreases ivs.len(),
{
    if ivs.len() == 0 {
        None
    } else {
        match min_from(ivs.drop_last()) {
            Some(m) => Some(if (ivs.last().from as int) < m {
                ivs.last().from as int
            } else {
                m
            }),
            None => Some(ivs.last().from as int),
        }
    }
}

/// The latest end among the intervals.
pub open spec fn max_to(ivs: Seq<MeterInterval>) -> Option<int>
    decreases ivs.len(),
{
    if ivs.len() == 0 {
        None
    } else {
        match max_to(ivs.drop_last()) {
            Some(m) => Some(if (ivs.last().to as int) > m {
                ivs.last().to as int
            } else {
                m
            }),
            None => Some(ivs.last().to as int),
        }
    }
}

/// The values of the billable intervals lying within `[from, to]`.
pub open spec fn window_values(ivs: Seq<MeterInterval>, from: int, to: int) -> Seq<(int, nat, bool)>
    decreases ivs.len(),
{
    if ivs.len() == 0 {
        Seq::empty()
    } else {
        let p = window_values(ivs.drop_last(), from, to);
        let iv = ivs.last();
        if is_billable_flag(iv.quality) && iv.from >= from && iv.to <= to {
            p.push(iv.value@)
        } else {
            p
        }
    }
}

/// Berlin calendar days from the day of `from` to the day of `to`.
pub open spec fn day_span(from: int, to: int) -> int {
    spec_local_day_number(to) - spec_local_day_number(from)
}

pub open spec fn at_least_one(x: int) -> int {
    if x < 1 {
        1
    } else {
        x
    }
}

/// The prior year's daily rate over the observation window shifted back a
/// year, relative to its daily rate over the span it covers, rounded to four
/// places: `Some(None)` without prior data, without overlap or with a zero
/// total; `None` where rust_decimal overflows.
pub open spec fn spec_seasonal_factor(obs_from: int, obs_to: int, prior: Seq<MeterInterval>) -> Option<Option<(int, nat, bool)>> {
    if prior.len() == 0 {
        Some(None)
    } else {
        let pf = spec_shift_back_one_year(obs_from);
        let pt = spec_shift_back_one_year(obs_to);
        match (running_sum(window_values(prior, pf, pt)), running_sum(billable_values(prior))) {
            (Some(w), Some(total)) => if units_of(w) == 0 || units_of(total) == 0 {
                Some(None)
            } else {
                let wd = at_least_one(day_span(pf, pt));
                let rd = at_least_one(day_span(min_from(prior)->0, max_to(prior)->0));
                match (decimal_checked_div(w, signed(wd, 0nat)), decimal_checked_div(total, signed(rd, 0nat))) {
                    (Some(a), Some(b)) => if units_of(b) == 0 {
                        Some(None)
                    } else {
                        match decimal_checked_div(a, b) {
                            Some(q) => Some(Some(round_half_even(q, 4))),
                            None => None,
                        }
                    },
                    _ => None,
                }
            },
            _ => None,
        }
    }
}

/// Both ends of the interval are instants a forecast supports.
pub open spec fn interval_in_forecast(iv: MeterInterval) -> bool {
    forecast_instant(iv.from as int) && forecast_instant(iv.to as int)
}

/// Every interval's ends are supported instants.
pub open spec fn all_supported(ivs: Seq<MeterInterval>) -> bool {
    forall|i: int| 0 <= i < ivs.len() ==> #[trigger] interval_supported(ivs[i])
}

/// The smallest start and the largest end of a non-empty slice.
fn extent(ivs: &[MeterInterval]) -> (r: (i64, i64))
    requires
        ivs.len() > 0,
    ensures
        min_from(ivs@) == Some(r.0 as int),
        max_to(ivs@) == Some(r.1 as int),
        exists|i: int| 0 <= i < ivs.len() && #[trigger] ivs@[i].from == r.0,
        exists|i: int| 0 <= i < ivs.len() && #[trigger] ivs@[i].to == r.1,
{
    let mut lo = ivs[0].from;
    let mut hi = ivs[0].to;
    let mut i: usize = 1;
    proof {
        assert(ivs@.take(1).drop_last() =~= Seq::<MeterInterval>::empty());
        assert(ivs@.take(1).last() == ivs@[0]);
        assert(min_from(ivs@.take(1).drop_last()) is None);
        assert(max_to(ivs@.take(1).drop_last()) is None);
    }
    while i < ivs.len()
        invariant
            1 <= i <= ivs.len(),
            min_from(ivs@.take(i as int)) == Some(lo as int),
            max_to(ivs@.take(i as int)) == Some(hi as int),
            exists|j: int| 0 <= j < i && #[trigger] ivs@[j].from == lo,
            exists|j: int| 0 <= j < i && #[trigger] ivs@[j].to == hi,
        decreases ivs.len() - i,
    {
        proof {
            assert(ivs@.take(i + 1).drop_last() =~= ivs@.take(i as int));
        }
        if ivs[i].from < lo {
            lo = ivs[i].from;
        }
        if ivs[i].to > hi {
            hi = ivs[i].to;
        }
        i = i + 1;
    }
    proof {
        assert(ivs@.take(ivs.len() as int) =~= ivs@);
    }
    (lo, hi)
}

/// The values of the billable intervals, in order.
fn billable_decimals(ivs: &[MeterInterval]) -> (r: Vec<Dec>)
    ensures
        views(r@) == billable_values(ivs@),
{
    let mut values: Vec<Dec> = Vec::new();
    let mut i: usize = 0;
    proof {
        assert(ivs@.take(0) =~= Seq::<MeterInterval>::empty());
    }
    while i < ivs.len()
        invariant
            0 <= i <= ivs.len(),
            views(values@) == billable_values(ivs@.take(i as int)),
        decreases ivs.len() - i,
    {
        proof {
            assert(ivs@.take(i + 1).drop_last() =~= ivs@.take(i as int));
        }
        if ivs[i].quality.is_billable() {
            let ghost before = values@;
            values.push(ivs[i].value);
            proof {
                assert(views(values@) =~= views(before).push(ivs@[i as int].value@));
            }
        }
        i = i + 1;
    }
    proof {
        assert(ivs@.take(ivs.len() as int) =~= ivs@);
    }
    values
}

/// The values of the billable intervals within `[from, to]`, in order.
fn window_decimals(ivs: &[MeterInterval], from: i64, to: i64) -> (r: Vec<Dec>)
    ensures
        views(r@) == window_values(ivs@, from as int, to as int),
{
    let mut values: Vec<Dec> = Vec::new();
    let mut i: usize = 0;
    proof {
        assert(ivs@.take(0) =~= Seq::<MeterInterval>::empty());
    }
    while i < ivs.len()
        invariant
            0 <= i <= ivs.len(),
            views(values@) == window_values(ivs@.take(i as int), from as int, to as int),
        decreases ivs.len() - i,
    {
        proof {
            assert(ivs@.take(i + 1).drop_last() =~= ivs@.take(i as int));
        }
        let iv = ivs[i];
        if iv.quality.is_billable() && iv.from >= from && iv.to <= to {
            let ghost before = values@;
            values.push(iv.value);
            proof {
                assert(views(values@) =~= views(before).push(iv.value@));
            }
        }
        i = i + 1;
    }
    proof {
        assert(ivs@.take(ivs.len() as int) =~= ivs@);
    }
    values
}

/// The seasonal factor of [`spec_seasonal_factor`], `None` where rust_decimal
/// overflows.
fn seasonal_factor(obs_from: i64, obs_to: i64, prior: &[MeterInterval]) -> (r: Option<Option<Dec>>)
    requires
        forecast_instant(obs_from as int),
        forecast_instant(obs_to as int),
        all_supported(prior@),
    ensures
        match r {
            Some(f) => Some(view_of(f)) == spec_seasonal_factor(obs_from as int, obs_to as int, prior@),
            None => spec_seasonal_factor(obs_from as int, obs_to as int, prior@) is None,
        },
{
    if prior.len() == 0 {
        return Some(None);
    }
    let prior_from = crate::calendar::shift_back_one_year(obs_from);
    let prior_to = crate::calendar::shift_back_one_year(obs_to);
    let window = match Dec::checked_sum(window_decimals(prior, prior_from, prior_to).as_slice()) {
        Some(s) => s,
        None => {
            return None;
        },
    };
    let total = match Dec::checked_sum(billable_decimals(prior).as_slice()) {
        Some(s) => s,
        None => {
            return None;
        },
    };
    if window.is_zero() || total.is_zero() {
        return Some(None);
    }
    let span = crate::calendar::days_between(prior_from, prior_to);
    let window_days: i64 = if span < 1 {
        1
    } else {
        span
    };
    let (first, last) = extent(prior);
    proof {
        let i = choose|i: int| 0 <= i < prior.len() && #[trigger] prior@[i].from == first;
        let j = choose|j: int| 0 <= j < prior.len() && #[trigger] prior@[j].to == last;
        assert(interval_supported(prior@[i]));
        assert(interval_supported(prior@[j]));
    }
    let ref_span = crate::calendar::days_between(first, last);
    let reference_days: i64 = if ref_span < 1 {
        1
    } else {
        ref_span
    };
    let window_daily = match window.checked_div(&Dec::from_i64(window_days)) {
        Some(q) => q,
        None => {
            return None;
        },
    };
    let reference_daily = match total.checked_div(&Dec::from_i64(reference_days)) {
        Some(q) => q,
        None => {
            return None;
        },
    };
    if reference_daily.is_zero() {
        return Some(None);
    }
    match window_daily.checked_div(&reference_daily) {
        Some(q) => Some(Some(q.round_dp(4))),
        None => None,
    }
}

/// Berlin calendar days the intervals span, from the earliest start to the
/// latest end.
pub open spec fn observed_days_of(ivs: Seq<MeterInterval>) -> int {
    day_span(min_from(ivs)->0, max_to(ivs)->0)
}

/// The seasonal factor for the window, `Some(None)` without prior data.
pub open spec fn factor_of(ivs: Seq<MeterInterval>, prior: Option<Seq<MeterInterval>>) -> Option<Option<(int, nat, bool)>> {
    match prior {
        None => Some(None),
        Some(p) => spec_seasonal_factor(min_from(ivs)->0, max_to(ivs)->0, p),
    }
}

/// `observed ÷ days × year_days × factor`, left to right, as rust_decimal
/// computes it.
pub open spec fn projected_of(observed: (int, nat, bool), days: int, year_days: int, factor: (int, nat, bool)) -> Option<(int, nat, bool)> {
    match decimal_checked_div(observed, signed(days, 0nat)) {
        Some(avg) => match decimal_checked_mul(avg, signed(year_days, 0nat)) {
            Some(p) => decimal_checked_mul(p, factor),
            None => None,
        },
        None => None,
    }
}

/// The days of the Berlin calendar year the window ends in.
pub open spec fn target_year_days_of(ivs: Seq<MeterInterval>) -> int {
    if spec_is_leap_year(spec_date_numbered(spec_local_day_number(max_to(ivs)->0)).year as int) {
        366
    } else {
        365
    }
}

/// The factor applied: the seasonal one where it was derived, else one.
pub open spec fn applied_factor(ivs: Seq<MeterInterval>, prior: Option<Seq<MeterInterval>>) -> (int, nat, bool) {
    match factor_of(ivs, prior) {
        Some(Some(f)) => f,
        _ => (1, 0, false),
    }
}

/// The unrounded projection.
pub open spec fn projection_of(ivs: Seq<MeterInterval>, prior: Option<Seq<MeterInterval>>) -> Option<(int, nat, bool)> {
    match running_sum(billable_values(ivs)) {
        Some(observed) => projected_of(
            observed,
            observed_days_of(ivs),
            target_year_days_of(ivs),
            applied_factor(ivs, prior),
        ),
        None => None,
    }
}

/// rust_decimal overflows nowhere in [`project_annual_consumption`] on these
/// inputs, and every instant is one the calendar supports.
pub open spec fn forecast_defined(ivs: Seq<MeterInterval>, prior: Option<Seq<MeterInterval>>, half_width: Option<Dec>) -> bool {
    &&& forall|i: int| 0 <= i < ivs.len() ==> #[trigger] interval_in_forecast(ivs[i])
    &&& prior matches Some(p) ==> all_supported(p)
    &&& (ivs.len() > 0 && observed_days_of(ivs) >= 7) ==> {
        &&& factor_of(ivs, prior) is Some
        &&& projection_of(ivs, prior) is Some
        &&& half_width matches Some(h) ==> decimal_checked_sub(projection_of(ivs, prior)->0, h@) is Some
            && decimal_checked_add(projection_of(ivs, prior)->0, h@) is Some
    }
}

/// Every interval lies within the instants a forecast supports, and every
/// prior-year interval within the calendar's.
pub open spec fn forecast_instants(ivs: Seq<MeterInterval>, prior: Option<Seq<MeterInterval>>) -> bool {
    &&& forall|i: int| 0 <= i < ivs.len() ==> #[trigger] interval_in_forecast(ivs[i])
    &&& prior matches Some(p) ==> all_supported(p)
}

/// What [`project_annual_consumption`] returns: `None` for an empty or too
/// short window, else the forecast of the projection rules.
pub open spec fn forecast_result(
    ivs: Seq<MeterInterval>,
    prior: Option<Seq<MeterInterval>>,
    half_width: Option<Dec>,
    r: Option<AnnualForecast>,
) -> bool {
    &&& r is None <==> (ivs.len() == 0 || observed_days_of(ivs) < 7)
    &&& r matches Some(f) ==> {
        &&& min_from(ivs) == Some(f.observation_from as int)
        &&& max_to(ivs) == Some(f.observation_to as int)
        &&& Some(f.observed@) == running_sum(billable_values(ivs))
        &&& f.observed_days == observed_days_of(ivs)
        &&& f.target_year_days == target_year_days_of(ivs)
        &&& f.seasonal_correction_applied == (factor_of(ivs, prior) matches Some(Some(_)))
        &&& f.seasonal_factor@ == applied_factor(ivs, prior)
        &&& f.projected_annual@ == round_half_even(projection_of(ivs, prior)->0, 3)
        &&& match half_width {
            None => f.confidence_lower is None && f.confidence_upper is None,
            Some(h) => {
                let lower = decimal_checked_sub(projection_of(ivs, prior)->0, h@)->0;
                let upper = decimal_checked_add(projection_of(ivs, prior)->0, h@)->0;
                &&& f.confidence_lower matches Some(l) && l@ == round_half_even(
                    if units_of(lower) < 0 {
                        (0int, 0nat, false)
                    } else {
                        lower
                    },
                    3,
                )
                &&& f.confidence_upper matches Some(u) && u@ == round_half_even(upper, 3)
            },
        }
    }
}

/// The projection with rust_decimal's overflows reported as `None`.
fn project_checked(
    intervals: &[MeterInterval],
    prior_year_intervals: Option<&[MeterInterval]>,
    half_width: Option<Dec>,
) -> (r: Option<Option<AnnualForecast>>)
    requires
        forecast_instants(intervals@, match prior_year_intervals {
                Some(p) => Some(p@),
                None => None,
            }),
    ensures
        r is Some <==> forecast_defined(intervals@, match prior_year_intervals {
                Some(p) => Some(p@),
                None => None,
            }, half_width),
        r matches Some(res) ==> forecast_result(intervals@, match prior_year_intervals {
                Some(p) => Some(p@),
                None => None,
            }, half_width, res),
{
    if intervals.len() == 0 {
        return Some(None);
    }
    let (first_from, last_to) = extent(intervals);
    proof {
        let i = choose|i: int| 0 <= i < intervals.len() && #[trigger] intervals@[i].from == first_from;
        let j = choose|j: int| 0 <= j < intervals.len() && #[trigger] intervals@[j].to == last_to;
        assert(interval_in_forecast(intervals@[i]));
        assert(interval_in_forecast(intervals@[j]));
    }
    let days = crate::calendar::days_between(first_from, last_to);
    if days < MIN_OBSERVATION_DAYS {
        return Some(None);
    }
    let observed_days = days as u32;
    let observed = match Dec::checked_sum(billable_decimals(intervals).as_slice()) {
        Some(s) => s,
        None => {
            return None;
        },
    };
    let target_year = local_year(last_to);
    let target_year_days = crate::calendar::days_in_year(target_year);
    let daily_avg = match observed.checked_div(&Dec::from_u64(observed_days as u64)) {
        Some(q) => q,
        None => {
            return None;
        },
    };
    let derived = match prior_year_intervals {
        Some(prior) => match seasonal_factor(first_from, last_to, prior) {
            Some(f) => f,
            None => {
                return None;
            },
        },
        None => None,
    };
    let seasonal_correction_applied = derived.is_some();
    let factor = match derived {
        Some(f) => f,
        None => Dec::one(),
    };
    let projected = match daily_avg.checked_mul(&Dec::from_u64(target_year_days as u64)) {
        Some(p) => match p.checked_mul(&factor) {
            Some(q) => q,
            None => {
                return None;
            },
        },
        None => {
            return None;
        },
    };
    let (confidence_lower, confidence_upper) = match half_width {
        Some(h) => {
            let lower = match projected.checked_sub(&h) {
                Some(x) => x,
                None => {
                    return None;
                },
            };
            let upper = match projected.checked_add(&h) {
                Some(x) => x,
                None => {
                    return None;
                },
            };
            proof {
                crate::decimal::lemma_units_of_zero();
            }
            (Some(lower.max(Dec::zero()).round_dp(FORECAST_DP)), Some(upper.round_dp(FORECAST_DP)))
        },
        None => (None, None),
    };
    Some(Some(
        AnnualForecast {
            observation_from: first_from,
            observation_to: last_to,
            observed,
            observed_days,
            target_year_days,
            projected_annual: projected.round_dp(FORECAST_DP),
            seasonal_factor: factor,
            seasonal_correction_applied,
            confidence_lower,
            confidence_upper,
        },
    ))
}


/// Project annual consumption from a partial year of interval data.
///
/// Sums the billable energy, divides by the Berlin calendar days the window
/// spans and scales to the real length of the Berlin year the window ends
/// in, corrected by the seasonal factor when prior-year intervals are given.
/// `half_width` is the prediction interval's half-width, which brackets the
/// projection: the lower bound is clamped at zero. `None` when `intervals` is
/// empty or spans fewer than [`MIN_OBSERVATION_DAYS`].
pub fn project_annual_consumption(
    intervals: &[MeterInterval],
    prior_year_intervals: Option<&[MeterInterval]>,
    half_width: Option<Dec>,
) -> (r: Option<AnnualForecast>)
    requires
        forecast_defined(intervals@, match prior_year_intervals {
                Some(p) => Some(p@),
                None => None,
            }, half_width),
    ensures
        forecast_result(intervals@, match prior_year_intervals {
                Some(p) => Some(p@),
                None => None,
            }, half_width, r),
{
    match project_checked(intervals, prior_year_intervals, half_width) {
        Some(res) => res,
        None => {
            proof {
                assert(false);
            }
            None
        },
    }
}

/// [`project_annual_consumption`] where its arithmetic is defined and its
/// instants supported; `None` where it is not.
pub fn try_project_annual_consumption(
    intervals: &[MeterInterval],
    prior_year_intervals: Option<&[MeterInterval]>,
    half_width: Option<Dec>,
) -> (r: Option<Option<AnnualForecast>>)
    ensures
        r is Some <==> forecast_defined(intervals@, match prior_year_intervals {
                Some(p) => Some(p@),
                None => None,
            }, half_width),
        r matches Some(res) ==> forecast_result(intervals@, match prior_year_intervals {
                Some(p) => Some(p@),
                None => None,
            }, half_width, res),
{
    let mut i: usize = 0;
    while i < intervals.len()
        invariant
            0 <= i <= intervals.len(),
            forall|j: int| 0 <= j < i ==> #[trigger] interval_in_forecast(intervals@[j]),
        decreases intervals.len() - i,
    {
        let iv = intervals[i];
        if iv.from < -377_000_000_000 || iv.from > 253_401_000_000 || iv.to < -377_000_000_000
            || iv.to > 253_401_000_000 {
            proof {
                assert(!interval_in_forecast(intervals@[i as int]));
            }
            return None;
        }
        proof {
            assert(interval_in_forecast(intervals@[i as int]));
        }
        i = i + 1;
    }
    if let Some(prior) = prior_year_intervals {
        let mut k: usize = 0;
        while k < prior.len()
            invariant
                0 <= k <= prior.len(),
                prior_year_intervals == Some(prior),
                forall|j: int| 0 <= j < k ==> #[trigger] interval_supported(prior@[j]),
            decreases prior.len() - k,
        {
            let iv = prior[k];
            if iv.from < -377_705_000_000 || iv.from > 253_402_000_000 || iv.to < -377_705_000_000
                || iv.to > 253_402_000_000 {
                proof {
                    assert(!interval_supported(prior@[k as int]));
                }
                return None;
            }
            proof {
                assert(interval_supported(prior@[k as int]));
            }
            k = k + 1;
        }
    }
    if project_checked(intervals, prior_year_intervals, half_width).is_some() {
        Some(project_annual_consumption(intervals, prior_year_intervals, half_width))
    } else {
        None
    }
}

} // verus!
