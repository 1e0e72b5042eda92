//! Gas standard load profiles (BDEW/VKU/GEODE Leitfaden, SigLinDe/TUM):
//! the exact decimal part of the profile arithmetic — the allocation
//! temperature, the weekday factors, the Kundenwert and the daily quantity
//! `Q(D) = KW · h(ϑ_D) · F_WT`. The profile function `h` itself needs a
//! non-integer power and is evaluated in floating point by the caller; its
//! value enters here as a decimal.

use vstd::prelude::*;

use crate::calendar::CalendarDate;
use crate::conversion::{product_of, quotient_of, spec_gas, sum_of};
use crate::decimal::{signed, 
    abs_int, decimal_checked_div, is_decimal, lemma_pow10_positive, lemma_sign_of_units,
    lemma_units_of_zero, limit_at, max_mantissa, pow10, round_half_even, running_sum, sum_fits,
    sum_units, units_of, view_of, views, Dec,
};
use crate::holiday::{Bundesland, Holiday};

verus! {

/// Decimal places of a Kundenwert, per the Leitfaden's worked examples.
pub const KUNDENWERT_DP: u32 = 4;

/// `(8·ϑ_D + 4·ϑ_D−1 + 2·ϑ_D−2 + ϑ_D−3) ÷ 15` as rust_decimal computes it.
pub open spec fn spec_allocation_temperature(
    t_d: (int, nat, bool),
    t_d1: (int, nat, bool),
    t_d2: (int, nat, bool),
    t_d3: (int, nat, bool),
) -> Option<(int, nat, bool)> {
    quotient_of(
        sum_of(
            sum_of(
                sum_of(product_of(Some((8int, 0nat, false)), Some(t_d)), product_of(Some((4int, 0nat, false)), Some(t_d1))),
                product_of(Some((2int, 0nat, false)), Some(t_d2)),
            ),
            Some(t_d3),
        ),
        Some((15int, 0nat, false)),
    )
}

/// Constant weather: four equal temperatures whose fifteenfold fits a
/// mantissa.
pub open spec fn constant_weather(t_d: Dec, t_d1: Dec, t_d2: Dec, t_d3: Dec) -> bool {
    &&& t_d1@ == t_d@
    &&& t_d2@ == t_d@
    &&& t_d3@ == t_d@
    &&& abs_int(15 * t_d@.0) <= max_mantissa()
}

/// `k·t` for a small factor `k` is exact, at `t`'s scale.
proof fn lemma_small_multiple(t: (int, nat, bool), k: int)
    requires
        is_decimal(t),
        1 <= k <= 15,
        abs_int(15 * t.0) <= max_mantissa(),
    ensures
        abs_int(k * t.0) <= max_mantissa(),
        units_of((k * t.0, t.1, t.2)) == k * units_of(t),
        abs_int(units_of((k * t.0, t.1, t.2))) <= limit_at(t.1),
{
    let p = pow10((28 - t.1) as nat);
    lemma_pow10_positive((28 - t.1) as nat);
    assert(abs_int(k * t.0) <= abs_int(15 * t.0)) by (nonlinear_arith)
        requires
            1 <= k <= 15,
    ;
    assert((k * t.0) * p == k * (t.0 * p)) by (nonlinear_arith);
    assert(abs_int((k * t.0) * p) <= max_mantissa() * p) by (nonlinear_arith)
        requires
            abs_int(k * t.0) <= max_mantissa(),
            p >= 1,
    ;
}

/// A decimal whose value is `k·t` at `t`'s scale has mantissa `k·t.0`.
proof fn lemma_mantissa_of(v: (int, nat, bool), t: (int, nat, bool), k: int)
    requires
        v.1 == t.1,
        t.1 <= 28,
        units_of(v) == k * units_of(t),
    ensures
        v.0 == k * t.0,
{
    let p = pow10((28 - t.1) as nat);
    lemma_pow10_positive((28 - t.1) as nat);
    assert(v.0 * p == (k * t.0) * p) by (nonlinear_arith)
        requires
            v.0 * p == k * (t.0 * p),
    ;
    assert(v.0 == k * t.0) by (nonlinear_arith)
        requires
            v.0 * p == (k * t.0) * p,
            p >= 1,
    ;
}

fn allocation_temperature_checked(t_d: Dec, t_d1: Dec, t_d2: Dec, t_d3: Dec) -> (r: Option<Dec>)
    ensures
        view_of(r) == spec_allocation_temperature(t_d@, t_d1@, t_d2@, t_d3@),
        constant_weather(t_d, t_d1, t_d2, t_d3) ==> (r matches Some(x) && x.units() == t_d.units()),
{
    proof {
        use_type_invariant(&t_d);
        if constant_weather(t_d, t_d1, t_d2, t_d3) {
            lemma_small_multiple(t_d@, 8);
            lemma_small_multiple(t_d@, 4);
            lemma_small_multiple(t_d@, 2);
            lemma_small_multiple(t_d@, 12);
            lemma_small_multiple(t_d@, 14);
            lemma_small_multiple(t_d@, 15);
            lemma_units_of_zero();
        }
    }
    let a = match Dec::from_u64(8).checked_mul(&t_d) {
        Some(x) => x,
        None => return None,
    };
    let b = match Dec::from_u64(4).checked_mul(&t_d1) {
        Some(x) => x,
        None => return None,
    };
    let c = match Dec::from_u64(2).checked_mul(&t_d2) {
        Some(x) => x,
        None => return None,
    };
    proof {
        if constant_weather(t_d, t_d1, t_d2, t_d3) {
            if t_d@.0 != 0 {
                assert(a@ == signed(8 * t_d@.0, t_d@.1));
                assert(b@ == signed(4 * t_d@.0, t_d@.1));
                assert(c@ == signed(2 * t_d@.0, t_d@.1));
                assert(units_of(a@) + units_of(b@) == 12 * t_d.units());
                assert(crate::decimal::exact_at_larger_scale(a@, b@, a.units() + b.units()));
            } else {
                assert(a@ == (0int, 0nat, false));
                assert(b@ == (0int, 0nat, false));
                assert(c@ == (0int, 0nat, false));
                lemma_pow10_positive(28);
                assert(crate::decimal::exact_at_larger_scale(a@, b@, a.units() + b.units()));
            }
        }
    }
    let ab = match a.checked_add(&b) {
        Some(x) => x,
        None => return None,
    };
    proof {
        if constant_weather(t_d, t_d1, t_d2, t_d3) {
            if t_d@.0 != 0 {
                lemma_mantissa_of(ab@, t_d@, 12);
                assert(units_of(ab@) + units_of(c@) == 14 * t_d.units());
            } else {
                lemma_sign_of_units(ab@);
            }
        }
    }
    let abc = match ab.checked_add(&c) {
        Some(x) => x,
        None => return None,
    };
    proof {
        if constant_weather(t_d, t_d1, t_d2, t_d3) {
            if t_d@.0 != 0 {
                lemma_mantissa_of(abc@, t_d@, 14);
                lemma_small_multiple(t_d@, 1);
                assert(units_of(abc@) + units_of(t_d3@) == 15 * t_d.units());
            } else {
                lemma_sign_of_units(abc@);
                lemma_sign_of_units(t_d3@);
            }
        }
    }
    match abc.checked_add(&t_d3) {
        Some(s) => {
            proof {
                if constant_weather(t_d, t_d1, t_d2, t_d3) {
                    if t_d@.0 != 0 {
                        lemma_mantissa_of(s@, t_d@, 15);
                        assert((15 * t_d@.0) % 15 == 0) by (nonlinear_arith);
                        assert((15 * t_d@.0) / 15 == t_d@.0) by (nonlinear_arith);
                    } else {
                        lemma_sign_of_units(t_d@);
                        lemma_pow10_positive((28 - s@.1) as nat);
                        assert(s@.0 == 0) by (nonlinear_arith)
                            requires
                                s@.0 * pow10((28 - s@.1) as nat) == 0,
                                pow10((28 - s@.1) as nat) >= 1,
                        ;
                    }
                }
            }
            s.checked_div(&Dec::from_u64(15))
        },
        None => None,
    }
}

/// The allocation temperature for the Gastag `D`, the Leitfaden's geometric
/// series over four daily means, `t_d` for the delivery day and `t_d1` to
/// `t_d3` for the three days before: `(8ϑ_D + 4ϑ_D−1 + 2ϑ_D−2 + ϑ_D−3) / 15`.
/// Constant weather is a fixed point: four equal temperatures give that
/// temperature back.
pub fn allocation_temperature(t_d: Dec, t_d1: Dec, t_d2: Dec, t_d3: Dec) -> (r: Dec)
    requires
        spec_allocation_temperature(t_d@, t_d1@, t_d2@, t_d3@) is Some,
    ensures
        Some(r@) == spec_allocation_temperature(t_d@, t_d1@, t_d2@, t_d3@),
        constant_weather(t_d, t_d1, t_d2, t_d3) ==> r.units() == t_d.units(),
{
    match allocation_temperature_checked(t_d, t_d1, t_d2, t_d3) {
        Some(t) => t,
        None => {
            proof {
                assert(false);
            }
            t_d
        },
    }
}

/// [`allocation_temperature`], or `None` where rust_decimal would overflow.
pub fn checked_allocation_temperature(t_d: Dec, t_d1: Dec, t_d2: Dec, t_d3: Dec) -> (r: Option<Dec>)
    ensures
        view_of(r) == spec_allocation_temperature(t_d@, t_d1@, t_d2@, t_d3@),
{
    if allocation_temperature_checked(t_d, t_d1, t_d2, t_d3).is_some() {
        Some(allocation_temperature(t_d, t_d1, t_d2, t_d3))
    } else {
        None
    }
}

/// Weekday factors `F_WT` of a Gewerbe profile, Monday through Sunday,
/// summing to exactly 7 as the Leitfaden requires of the standard week.
/// Feiertage take the Sunday factor.
#[derive(Debug, Clone, Copy, PartialEq, Eq)]
pub struct WeekdayFactors {
    factors: [Dec; 7],
}

impl View for WeekdayFactors {
    type V = Seq<Dec>;

    closed spec fn view(&self) -> Seq<Dec> {
        self.factors@
    }
}

/// The seven factors are the standard week: their running sum is 7.
pub open spec fn is_standard_week(f: Seq<Dec>) -> bool {
    &&& f.len() == 7
    &&& running_sum(views(f)) matches Some(s) && units_of(s) == 7 * pow10(28)
}

impl WeekdayFactors {
    /// No weekday dependence: every factor one, as household profiles are
    /// published.
    #[allow(non_snake_case)]
    pub fn NONE() -> (r: Self)
        ensures
            r@.len() == 7,
            forall|i: int| 0 <= i < 7 ==> #[trigger] r@[i]@ == (1int, 0nat, false),
    {
        let one = Dec::one();
        Self { factors: [one, one, one, one, one, one, one] }
    }

    fn new_checked(factors: [Dec; 7]) -> (r: Option<Option<Self>>)
        ensures
            match r {
                Some(w) => running_sum(views(factors@)) is Some && (w is Some <==> is_standard_week(
                    factors@,
                )) && (w matches Some(x) ==> x@ == factors@),
                None => running_sum(views(factors@)) is None,
            },
            sum_fits(views(factors@)) ==> (r matches Some(w) && (w is Some <==> sum_units(
                views(factors@),
            ) == 7 * pow10(28))),
    {
        let sum = match Dec::checked_sum(&factors) {
            Some(s) => s,
            None => return None,
        };
        let seven = Dec::from_u64(7);
        proof {
            crate::decimal::lemma_pow10_positive(28);
        }
        if !sum.lt(&seven) && !seven.lt(&sum) {
            Some(Some(Self { factors }))
        } else {
            Some(None)
        }
    }

    /// Factors for Monday through Sunday; `None` unless they sum to exactly
    /// 7, since a set that does not would rescale every week's allocation.
    pub fn new(factors: [Dec; 7]) -> (r: Option<Self>)
        requires
            running_sum(views(factors@)) is Some,
        ensures
            r is Some <==> is_standard_week(factors@),
            r matches Some(w) ==> w@ == factors@,
            sum_fits(views(factors@)) ==> (r is Some <==> sum_units(views(factors@)) == 7 * pow10(28)),
    {
        let r = match Self::new_checked(factors) {
            Some(w) => w,
            None => {
                proof {
                    assert(false);
                }
                None
            },
        };
        r
    }

    /// [`new`](Self::new), or `None` where the sum overflows.
    pub fn checked_new(factors: [Dec; 7]) -> (r: Option<Option<Self>>)
        ensures
            match r {
                Some(w) => (w is Some <==> is_standard_week(factors@)) && (w matches Some(x) ==> x@
                    == factors@),
                None => running_sum(views(factors@)) is None,
            },
    {
        if Self::new_checked(factors).is_some() {
            Some(Self::new(factors))
        } else {
            None
        }
    }

    /// The factor for a plain weekday, ignoring holidays.
    pub fn factor(&self, weekday: crate::calendar::Weekday) -> (r: Dec)
        ensures
            r == self@[weekday.spec_number()],
    {
        let i: usize = match weekday {
            crate::calendar::Weekday::Monday => 0,
            crate::calendar::Weekday::Tuesday => 1,
            crate::calendar::Weekday::Wednesday => 2,
            crate::calendar::Weekday::Thursday => 3,
            crate::calendar::Weekday::Friday => 4,
            crate::calendar::Weekday::Saturday => 5,
            crate::calendar::Weekday::Sunday => 6,
        };
        self.factors[i]
    }

    /// The factor for a calendar date, a Feiertag taking the Sunday factor:
    /// with `land` `None` the nationwide holidays count (the Leitfaden's
    /// recommendation), with `Some(land)` that Land's statutory calendar.
    pub fn for_date(&self, date: CalendarDate, land: Option<Bundesland>) -> (r: Dec)
        requires
            date.spec_valid(),
        ensures
            r == (if is_factor_holiday(date, land) {
                self@[6]
            } else {
                self@[date.spec_weekday()]
            }),
    {
        let is_holiday = match land {
            Some(l) => l.is_holiday(date),
            None => any_nationwide(&Holiday::on(date)),
        };
        if is_holiday {
            self.factor(crate::calendar::Weekday::Sunday)
        } else {
            self.factor(date.weekday())
        }
    }
}

/// `date` counts as a Feiertag for the weekday factors: a statutory holiday
/// of `land`, or, without a Land, a nationwide holiday.
pub open spec fn is_factor_holiday(date: CalendarDate, land: Option<Bundesland>) -> bool {
    match land {
        Some(l) => Holiday::spec_first_in(Holiday::spec_on(date), l) is Some,
        None => exists|i: int| 0 <= i < Holiday::spec_on(date).len() && (#[trigger] Holiday::spec_on(
            date,
        )[i]).spec_is_nationwide(),
    }
}

fn any_nationwide(hs: &Vec<Holiday>) -> (r: bool)
    ensures
        r == exists|i: int| 0 <= i < hs@.len() && (#[trigger] hs@[i]).spec_is_nationwide(),
{
    let mut i: usize = 0;
    while i < hs.len()
        invariant
            i <= hs@.len(),
            forall|k: int| 0 <= k < i ==> !(#[trigger] hs@[k]).spec_is_nationwide(),
        decreases hs@.len() - i,
    {
        if hs[i].is_nationwide() {
            return true;
        }
        i = i + 1;
    }
    false
}

/// The Kundenwert `KW = Q ÷ Σ(h·F)`, rounded to four places (half to even,
/// as `Decimal::round_dp`): `Some(None)` where the divisor is not positive,
/// `None` where the division overflows.
pub open spec fn spec_kundenwert(measured: (int, nat, bool), h_times_f_sum: (int, nat, bool)) -> Option<Option<(int, nat, bool)>> {
    if units_of(h_times_f_sum) <= 0 {
        Some(None)
    } else {
        match decimal_checked_div(measured, h_times_f_sum) {
            Some(q) => Some(Some(round_half_even(q, 4))),
            None => None,
        }
    }
}

fn kundenwert_checked(measured_kwh: Dec, h_times_f_sum: Dec) -> (r: Option<Option<Dec>>)
    ensures
        match r {
            Some(k) => Some(view_of(k)) == spec_kundenwert(measured_kwh@, h_times_f_sum@),
            None => spec_kundenwert(measured_kwh@, h_times_f_sum@) is None,
        },
{
    proof {
        crate::decimal::lemma_units_of_zero();
    }
    if !h_times_f_sum.gt(&Dec::zero()) {
        return Some(None);
    }
    match measured_kwh.checked_div(&h_times_f_sum) {
        Some(q) => Some(Some(q.round_dp(KUNDENWERT_DP))),
        None => None,
    }
}

/// The Kundenwert, the customer's daily consumption at `h = 1`, from a
/// metered consumption and the sum of `h(ϑ_i) · F_WT,i` over the same days;
/// `None` when that sum is not positive.
pub fn kundenwert(measured_kwh: Dec, h_times_f_sum: Dec) -> (r: Option<Dec>)
    requires
        spec_kundenwert(measured_kwh@, h_times_f_sum@) is Some,
    ensures
        Some(view_of(r)) == spec_kundenwert(measured_kwh@, h_times_f_sum@),
        r is None <==> h_times_f_sum.units() <= 0,
{
    match kundenwert_checked(measured_kwh, h_times_f_sum) {
        Some(k) => k,
        None => {
            proof {
                assert(false);
            }
            None
        },
    }
}

/// [`kundenwert`], or `None` where the division overflows.
pub fn checked_kundenwert(measured_kwh: Dec, h_times_f_sum: Dec) -> (r: Option<Option<Dec>>)
    ensures
        match r {
            Some(k) => Some(view_of(k)) == spec_kundenwert(measured_kwh@, h_times_f_sum@),
            None => spec_kundenwert(measured_kwh@, h_times_f_sum@) is None,
        },
{
    if kundenwert_checked(measured_kwh, h_times_f_sum).is_some() {
        Some(kundenwert(measured_kwh, h_times_f_sum))
    } else {
        None
    }
}

/// The synthetic daily quantity `Q(D) = KW · h(ϑ_D) · F_WT` in kWh, the
/// three multiplied left to right as in [`spec_gas`].
pub fn gas_daily_quantity(kundenwert: Dec, h: Dec, weekday_factor: Dec) -> (r: Dec)
    requires
        spec_gas(kundenwert@, h@, weekday_factor@) is Some,
    ensures
        Some(r@) == spec_gas(kundenwert@, h@, weekday_factor@),
{
    crate::conversion::gas_m3_to_kwh_hs(kundenwert, h, weekday_factor)
}

/// [`gas_daily_quantity`], or `None` where a product overflows.
pub fn checked_gas_daily_quantity(kundenwert: Dec, h: Dec, weekday_factor: Dec) -> (r: Option<Dec>)
    ensures
        view_of(r) == spec_gas(kundenwert@, h@, weekday_factor@),
{
    if crate::conversion::checked_gas_m3_to_kwh_hs(kundenwert, h, weekday_factor).is_some() {
        Some(gas_daily_quantity(kundenwert, h, weekday_factor))
    } else {
        None
    }
}

} // verus!
