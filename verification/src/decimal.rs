//! [`Dec`]: an exact decimal number `mantissa / 10^scale`, the value set of
//! `rust_decimal::Decimal`, which every kWh, kW and fraction in this crate is.
//!
//! In contracts a decimal's value is an integer count of `10^-28`, its
//! [`units`](Dec::units), so that sums and comparisons of decimals are
//! statements about integers. The arithmetic itself is rust_decimal's: its
//! checked addition, subtraction, multiplication and division run behind
//! wrappers whose contracts say what its source shows — a name for the
//! result, and the cases in which the result is exact.

use vstd::prelude::*;
use vstd::std_specs::cmp::PartialEqSpecImpl;
use rust_decimal::{Decimal, RoundingStrategy};

verus! {

/// `10^n`.
pub open spec fn pow10(n: nat) -> int
    decreases n,
{
    if n == 0 {
        1
    } else {
        10 * pow10((n - 1) as nat)
    }
}

/// The largest mantissa magnitude a decimal holds, `2^96 - 1`.
pub open spec fn max_mantissa() -> int {
    79228162514264337593543950335
}

/// The largest scale a decimal has.
pub const MAX_SCALE: u32 = 28;

pub open spec fn abs_int(x: int) -> int {
    if x < 0 {
        -x
    } else {
        x
    }
}

/// `(mantissa, scale, negative)` is a decimal: the mantissa fits 96 bits,
/// the scale is at most 28, and the sign flag of a non-zero mantissa is its
/// sign. A zero carries either flag, as rust_decimal's `-0` and `0`.
pub open spec fn is_decimal(v: (int, nat, bool)) -> bool {
    &&& -max_mantissa() <= v.0 <= max_mantissa()
    &&& v.1 <= 28
    &&& v.0 != 0 ==> v.2 == (v.0 < 0)
}

/// A decimal with this mantissa and scale, negative exactly when the
/// mantissa is: what `Decimal::from_i128_with_scale` forms.
pub open spec fn signed(m: int, s: nat) -> (int, nat, bool) {
    (m, s, m < 0)
}

/// The value of a decimal counted in units of `10^-28`; the sign of a zero
/// does not change it.
pub open spec fn units_of(v: (int, nat, bool)) -> int {
    v.0 * pow10((28 - v.1) as nat)
}

pub open spec fn larger_scale(a: (int, nat, bool), b: (int, nat, bool)) -> nat {
    if a.1 >= b.1 {
        a.1
    } else {
        b.1
    }
}

/// The largest value, in units, whose mantissa fits 96 bits at scale `s`.
pub open spec fn limit_at(s: nat) -> int {
    max_mantissa() * pow10((28 - s) as nat)
}

/// Both operands and the exact result `r` fit a mantissa at the larger of the
/// two scales: the case in which decimal addition and subtraction are exact.
pub open spec fn exact_at_larger_scale(a: (int, nat, bool), b: (int, nat, bool), r: int) -> bool {
    let s = larger_scale(a, b);
    &&& abs_int(units_of(a)) <= limit_at(s)
    &&& abs_int(units_of(b)) <= limit_at(s)
    &&& abs_int(r) <= limit_at(s)
}

/// `(mantissa, scale, negative)` cut to `dp` decimal places toward zero. A
/// zero keeps its sign; a non-zero value cut to zero is a plain `0`.
pub open spec fn cut_toward_zero(v: (int, nat, bool), dp: nat) -> (int, nat, bool) {
    if v.1 <= dp {
        v
    } else {
        let d = pow10((v.1 - dp) as nat);
        let q = if v.0 >= 0 {
            v.0 / d
        } else {
            -((-v.0) / d)
        };
        if v.0 == 0 {
            (0, dp, v.2)
        } else {
            signed(q, dp)
        }
    }
}

/// `(mantissa, scale, negative)` rounded to `dp` decimal places, a midpoint
/// going to the even neighbour (banker's rounding). A zero keeps its sign; a
/// non-zero value rounded to zero is a plain `0`.
pub open spec fn round_half_even(v: (int, nat, bool), dp: nat) -> (int, nat, bool) {
    if v.1 <= dp {
        v
    } else {
        let d = pow10((v.1 - dp) as nat);
        let a = abs_int(v.0);
        let q = a / d;
        let rem = a % d;
        let m = if 2 * rem > d || (2 * rem == d && q % 2 == 1) {
            q + 1
        } else {
            q
        };
        if v.0 == 0 {
            (0, dp, v.2)
        } else {
            signed(if v.0 < 0 {
                -m
            } else {
                m
            }, dp)
        }
    }
}

/// `(mantissa, scale, negative)` rounded to `dp` decimal places, a midpoint
/// going away from zero (kaufmännisch). A zero keeps its sign; a non-zero
/// value rounded to zero is a plain `0`.
pub open spec fn round_half_away(v: (int, nat, bool), dp: nat) -> (int, nat, bool) {
    if v.1 <= dp {
        v
    } else {
        let d = pow10((v.1 - dp) as nat);
        let a = abs_int(v.0);
        let q = a / d;
        let m = if 2 * (a % d) >= d {
            q + 1
        } else {
            q
        };
        if v.0 == 0 {
            (0, dp, v.2)
        } else {
            signed(if v.0 < 0 {
                -m
            } else {
                m
            }, dp)
        }
    }
}

/// The exact product of two decimals as rust_decimal writes it when it
/// fits: the mantissas multiplied at the sum of the scales, and a zero
/// product as a plain `0`.
pub open spec fn exact_product(a: (int, nat, bool), b: (int, nat, bool)) -> (int, nat, bool) {
    if a.0 * b.0 == 0 {
        (0, 0, false)
    } else {
        signed(a.0 * b.0, a.1 + b.1)
    }
}

/// rust_decimal's `checked_add` on two decimals given as
/// `(mantissa, scale, negative)`.
pub uninterp spec fn decimal_checked_add(a: (int, nat, bool), b: (int, nat, bool)) -> Option<(int, nat, bool)>;

/// rust_decimal's `checked_sub` on two decimals given as
/// `(mantissa, scale, negative)`.
pub uninterp spec fn decimal_checked_sub(a: (int, nat, bool), b: (int, nat, bool)) -> Option<(int, nat, bool)>;

/// rust_decimal's `checked_mul` on two decimals given as
/// `(mantissa, scale, negative)`.
pub uninterp spec fn decimal_checked_mul(a: (int, nat, bool), b: (int, nat, bool)) -> Option<(int, nat, bool)>;

/// rust_decimal's `checked_div` on two decimals given as
/// `(mantissa, scale, negative)`.
pub uninterp spec fn decimal_checked_div(a: (int, nat, bool), b: (int, nat, bool)) -> Option<(int, nat, bool)>;

/// rust_decimal's quotient of `a` by `b`, where there is one, is within one
/// unit of its own last place of the exact quotient `a / b`.
pub open spec fn quotient_within_one_place(a: (int, nat, bool), b: (int, nat, bool)) -> bool {
    match decimal_checked_div(a, b) {
        Some(q) => abs_int(units_of(q) * units_of(b) - units_of(a) * pow10(28)) <= abs_int(units_of(b))
            * pow10((28 - q.1) as nat),
        None => true,
    }
}

/// The character of a decimal digit `0`–`9`.
pub open spec fn digit_char(d: int) -> char {
    (48 + d) as char
}

/// The decimal digits of `n`, most significant first; none for zero.
pub open spec fn digits_of(n: nat) -> Seq<char>
    decreases n,
{
    if n == 0 {
        Seq::empty()
    } else {
        digits_of(n / 10).push(digit_char((n % 10) as int))
    }
}

/// What rust_decimal's `Display` writes for a decimal given as
/// `(mantissa, scale, negative)`: a `-` where the sign flag is set (`-0`
/// too), then the digits of
/// its magnitude, zero-padded on the left to at least `scale` digits, with a
/// point before the last `scale` of them; a `0` stands before a point with
/// no digit ahead of it, and zero at scale 0 is `0`. Trailing zeros are kept.
pub open spec fn decimal_text(v: (int, nat, bool)) -> Seq<char> {
    let d = digits_of(abs_int(v.0) as nat);
    let padded = if d.len() < v.1 {
        Seq::new((v.1 - d.len()) as nat, |i: int| '0') + d
    } else {
        d
    };
    let whole = padded.subrange(0, padded.len() - v.1);
    let lead = if whole.len() == 0 {
        seq!['0']
    } else {
        whole
    };
    let body = if v.1 == 0 {
        lead
    } else {
        lead.push('.') + padded.subrange(padded.len() - v.1, padded.len() as int)
    };
    if v.2 {
        seq!['-'] + body
    } else {
        body
    }
}

/// A decimal number `mantissa / 10^scale`, with `|mantissa| < 2^96` and
/// `scale <= 28`, and rust_decimal's sign flag, which a zero keeps: `-0`
/// writes as `-0`.
///
/// `==` compares values: `2.50 == 2.5`, `-0 == 0`.
#[derive(Clone, Copy, Debug)]
pub struct Dec {
    mantissa: i128,
    scale: u32,
    negative: bool,
}

impl View for Dec {
    type V = (int, nat, bool);

    closed spec fn view(&self) -> (int, nat, bool) {
        (self.mantissa as int, self.scale as nat, self.negative)
    }
}

/// The views of an optional decimal.
pub open spec fn view_of(r: Option<Dec>) -> Option<(int, nat, bool)> {
    match r {
        Some(d) => Some(d@),
        None => None,
    }
}

/// The views of a sequence of decimals.
pub open spec fn views(xs: Seq<Dec>) -> Seq<(int, nat, bool)> {
    xs.map_values(|d: Dec| d@)
}

/// The running sum rust_decimal forms from zero, left to right, as `Sum`
/// does; `None` once an addition has overflowed.
pub open spec fn running_sum(xs: Seq<(int, nat, bool)>) -> Option<(int, nat, bool)>
    decreases xs.len(),
{
    if xs.len() == 0 {
        Some((0, 0, false))
    } else {
        match running_sum(xs.drop_last()) {
            Some(p) => decimal_checked_add(p, xs.last()),
            None => None,
        }
    }
}

/// The exact sum of the values, in units.
pub open spec fn sum_units(xs: Seq<(int, nat, bool)>) -> int
    decreases xs.len(),
{
    if xs.len() == 0 {
        0
    } else {
        sum_units(xs.drop_last()) + units_of(xs.last())
    }
}

/// The sum of the magnitudes, in units.
pub open spec fn sum_abs_units(xs: Seq<(int, nat, bool)>) -> int
    decreases xs.len(),
{
    if xs.len() == 0 {
        0
    } else {
        sum_abs_units(xs.drop_last()) + abs_int(units_of(xs.last()))
    }
}

/// The largest scale among the values (zero for none).
pub open spec fn max_scale_of(xs: Seq<(int, nat, bool)>) -> nat
    decreases xs.len(),
{
    if xs.len() == 0 {
        0
    } else {
        let m = max_scale_of(xs.drop_last());
        if xs.last().1 > m {
            xs.last().1
        } else {
            m
        }
    }
}

/// The magnitudes together fit a mantissa at the largest scale among them:
/// every running sum of these values is then exact.
pub open spec fn sum_fits(xs: Seq<(int, nat, bool)>) -> bool {
    max_scale_of(xs) <= 28 && sum_abs_units(xs) <= limit_at(max_scale_of(xs))
}

impl Dec {
    #[verifier::type_invariant]
    pub open spec fn is_valid(self) -> bool {
        is_decimal(self@)
    }

    /// The value in units of `10^-28`.
    pub open spec fn units(self) -> int {
        units_of(self@)
    }

    pub closed spec fn spec_zero() -> Dec {
        Dec { mantissa: 0, scale: 0, negative: false }
    }

    /// `num / 10^scale`, as `Decimal::new`.
    pub fn new(num: i64, scale: u32) -> (r: Dec)
        requires
            scale <= 28,
        ensures
            r@ == signed(num as int, scale as nat),
    {
        proof {
            assert(-max_mantissa() <= num <= max_mantissa());
        }
        Dec { mantissa: num as i128, scale, negative: num < 0 }
    }

    /// `num / 10^scale`, as `Decimal::from_i128_with_scale`.
    pub fn from_i128_with_scale(num: i128, scale: u32) -> (r: Dec)
        requires
            is_decimal(signed(num as int, scale as nat)),
        ensures
            r@ == signed(num as int, scale as nat),
    {
        Dec { mantissa: num, scale, negative: num < 0 }
    }

    /// `num / 10^scale`, or `None` where that is no decimal.
    pub fn try_from_i128_with_scale(num: i128, scale: u32) -> (r: Option<Dec>)
        ensures
            r is Some <==> is_decimal(signed(num as int, scale as nat)),
            r matches Some(d) ==> d@ == signed(num as int, scale as nat),
    {
        if scale <= MAX_SCALE && -79228162514264337593543950335i128 <= num
            && num <= 79228162514264337593543950335i128 {
            Some(Dec { mantissa: num, scale, negative: num < 0 })
        } else {
            None
        }
    }

    /// A whole number.
    pub fn from_u64(n: u64) -> (r: Dec)
        ensures
            r@ == (n as int, 0nat, false),
    {
        Dec { mantissa: n as i128, scale: 0, negative: false }
    }

    /// A whole number, as `Decimal::from(i64)`.
    pub fn from_i64(n: i64) -> (r: Dec)
        ensures
            r@ == signed(n as int, 0),
    {
        Dec { mantissa: n as i128, scale: 0, negative: n < 0 }
    }

    /// Zero, at scale zero.
    pub fn zero() -> (r: Dec)
        ensures
            r == Dec::spec_zero(),
            r@ == (0int, 0nat, false),
    {
        Dec { mantissa: 0, scale: 0, negative: false }
    }

    /// One, at scale zero.
    pub fn one() -> (r: Dec)
        ensures
            r@ == (1int, 0nat, false),
    {
        Dec { mantissa: 1, scale: 0, negative: false }
    }

    pub fn mantissa(&self) -> (r: i128)
        ensures
            r == self@.0,
    {
        self.mantissa
    }

    pub fn scale(&self) -> (r: u32)
        ensures
            r == self@.1,
    {
        self.scale
    }

    pub fn is_zero(&self) -> (r: bool)
        ensures
            r == (self.units() == 0),
    {
        proof {
            lemma_pow10_positive((28 - self.scale) as nat);
            lemma_sign_of_units(self@);
        }
        self.mantissa == 0
    }

    pub fn is_negative(&self) -> (r: bool)
        ensures
            r == (self.units() < 0),
    {
        proof {
            lemma_pow10_positive((28 - self.scale) as nat);
            lemma_sign_of_units(self@);
        }
        self.mantissa < 0
    }

    /// rust_decimal's sign flag: set for a negative value, and for `-0`.
    pub fn is_sign_negative(&self) -> (r: bool)
        ensures
            r == self@.2,
    {
        self.negative
    }

    pub fn lt(&self, other: &Dec) -> (r: bool)
        ensures
            r == (self.units() < other.units()),
    {
        proof {
            use_type_invariant(self);
            use_type_invariant(other);
        }
        rd_lt(*self, *other)
    }

    pub fn le(&self, other: &Dec) -> (r: bool)
        ensures
            r == (self.units() <= other.units()),
    {
        !other.lt(self)
    }

    pub fn gt(&self, other: &Dec) -> (r: bool)
        ensures
            r == (self.units() > other.units()),
    {
        other.lt(self)
    }

    pub fn ge(&self, other: &Dec) -> (r: bool)
        ensures
            r == (self.units() >= other.units()),
    {
        !self.lt(other)
    }

    /// `-self`, as `Decimal`'s `Neg`: the sign flipped, a zero's too, the
    /// scale kept.
    pub fn neg(&self) -> (r: Dec)
        ensures
            r@ == (-self@.0, self@.1, !self@.2),
            r.units() == -self.units(),
    {
        proof {
            use_type_invariant(self);
            assert(units_of((-self@.0, self@.1, !self@.2)) == -units_of(self@)) by (nonlinear_arith);
        }
        Dec { mantissa: -self.mantissa, scale: self.scale, negative: !self.negative }
    }

    /// `|self|`, as `Decimal::abs`: the sign dropped, a zero's too, the
    /// scale kept.
    pub fn abs(&self) -> (r: Dec)
        ensures
            r@ == (abs_int(self@.0), self@.1, false),
            r.units() == abs_int(self.units()),
    {
        proof {
            use_type_invariant(self);
            lemma_pow10_positive((28 - self.scale) as nat);
            lemma_sign_of_units(self@);
            assert(units_of((-self@.0, self@.1, false)) == -units_of(self@)) by (nonlinear_arith);
        }
        if self.mantissa < 0 {
            Dec { mantissa: -self.mantissa, scale: self.scale, negative: false }
        } else {
            Dec { mantissa: self.mantissa, scale: self.scale, negative: false }
        }
    }

    /// The larger of the two, as `Decimal::max`: `other` when `self < other`,
    /// else `self`.
    pub fn max(self, other: Dec) -> (r: Dec)
        ensures
            r == (if self.units() < other.units() { other } else { self }),
    {
        if self.lt(&other) {
            other
        } else {
            self
        }
    }

    /// The smaller of the two, as `Decimal::min`: `other` when `self > other`,
    /// else `self`.
    pub fn min(self, other: Dec) -> (r: Dec)
        ensures
            r == (if self.units() > other.units() { other } else { self }),
    {
        if self.gt(&other) {
            other
        } else {
            self
        }
    }

    /// `self + other`, or `None` where rust_decimal reports an overflow.
    pub fn checked_add(&self, other: &Dec) -> (r: Option<Dec>)
        ensures
            view_of(r) == decimal_checked_add(self@, other@),
            exact_at_larger_scale(self@, other@, self.units() + other.units()) ==> (r matches Some(
                c,
            ) && c.units() == self.units() + other.units() && c@.1 <= larger_scale(self@, other@)),
            abs_int(self.units() + other.units()) <= limit_at(0) ==> r is Some,
            r is Some && self.units() >= 0 && other.units() >= 0 ==> r->0.units() >= 0,
            self@.0 != 0 && other@.0 != 0 && exact_at_larger_scale(self@, other@, self.units() + other.units())
                ==> (r matches Some(c) && c@.1 == larger_scale(self@, other@)),
            self@.0 == 0 ==> view_of(r) == Some(other@),
            self@.0 != 0 && other@.0 == 0 ==> view_of(r) == Some(self@),
    {
        proof {
            use_type_invariant(self);
            use_type_invariant(other);
        }
        rd_checked_add(*self, *other)
    }

    /// `self - other`, or `None` where rust_decimal reports an overflow.
    pub fn checked_sub(&self, other: &Dec) -> (r: Option<Dec>)
        ensures
            view_of(r) == decimal_checked_sub(self@, other@),
            exact_at_larger_scale(self@, other@, self.units() - other.units()) ==> (r matches Some(
                c,
            ) && c.units() == self.units() - other.units() && c@.1 <= larger_scale(self@, other@)),
            abs_int(self.units() - other.units()) <= limit_at(0) ==> r is Some,
            self@.0 == 0 && other@.0 != 0 ==> view_of(r) == Some((-other@.0, other@.1, !other@.2)),
            self@.0 == 0 && other@.0 == 0 ==> view_of(r) == Some(other@),
            self@.0 != 0 && other@.0 == 0 ==> view_of(r) == Some(self@),
    {
        proof {
            use_type_invariant(self);
            use_type_invariant(other);
        }
        rd_checked_sub(*self, *other)
    }

    /// `self × other`, or `None` where rust_decimal reports an overflow.
    pub fn checked_mul(&self, other: &Dec) -> (r: Option<Dec>)
        ensures
            view_of(r) == decimal_checked_mul(self@, other@),
            (self@.1 + other@.1 <= 28 && abs_int(self@.0 * other@.0) <= max_mantissa()) ==> (
            r matches Some(c) && c.units() == (self@.0 * other@.0) * pow10(
                (28 - (self@.1 + other@.1)) as nat,
            ) && c@ == exact_product(self@, other@)),
            abs_int(self.units() * other.units()) <= limit_at(0) * pow10(28) ==> r is Some,
            r is Some && self.units() >= 0 && other.units() >= 0 ==> r->0.units() >= 0,
            self@.0 == 0 || other@.0 == 0 ==> (r matches Some(c) && c@ == (0int, 0nat, false)),
    {
        proof {
            use_type_invariant(self);
            use_type_invariant(other);
        }
        rd_checked_mul(*self, *other)
    }

    /// `self ÷ other`, or `None` for a zero divisor or an overflow.
    pub fn checked_div(&self, other: &Dec) -> (r: Option<Dec>)
        ensures
            view_of(r) == decimal_checked_div(self@, other@),
            other.units() == 0 ==> r is None,
            other@.1 == 0 && other@.0 != 0 ==> r is Some,
            r is Some && self.units() >= 0 && other.units() > 0 ==> r->0.units() >= 0,
            self@.0 == 0 && other@.0 != 0 ==> (r matches Some(c) && c@ == (0int, 0nat, false)),
            self@.0 != 0 && 0 < other@.0 < 0x1_0000_0000 && other@.1 <= self@.1 && self@.0 % other@.0 == 0
                ==> (r matches Some(c) && c@ == signed(self@.0 / other@.0, (self@.1 - other@.1) as nat)),
            quotient_within_one_place(self@, other@),
    {
        proof {
            use_type_invariant(self);
            use_type_invariant(other);
        }
        rd_checked_div(*self, *other)
    }

    /// Cut to `dp` decimal places toward zero, as
    /// `round_dp_with_strategy(dp, RoundingStrategy::ToZero)`.
    pub fn cut_to(&self, dp: u32) -> (r: Dec)
        ensures
            r@ == cut_toward_zero(self@, dp as nat),
    {
        proof {
            use_type_invariant(self);
        }
        rd_round_toward_zero(*self, dp)
    }

    /// The decimal as rust_decimal's `Display` writes it, e.g. `"2.50"`.
    pub fn to_string(&self) -> (r: String)
        ensures
            r@ == decimal_text(self@),
    {
        proof {
            use_type_invariant(self);
        }
        rd_to_string(*self)
    }

    /// Rounded to `dp` decimal places, a midpoint going to the even
    /// neighbour, as `Decimal::round_dp`.
    pub fn round_dp(&self, dp: u32) -> (r: Dec)
        ensures
            r@ == round_half_even(self@, dp as nat),
    {
        proof {
            use_type_invariant(self);
        }
        rd_round_half_even(*self, dp)
    }

    /// Rounded to `dp` decimal places, a midpoint going away from zero, as
    /// `round_dp_with_strategy(dp, RoundingStrategy::MidpointAwayFromZero)`.
    pub fn round_dp_away(&self, dp: u32) -> (r: Dec)
        ensures
            r@ == round_half_away(self@, dp as nat),
    {
        proof {
            use_type_invariant(self);
        }
        rd_round_half_away(*self, dp)
    }

    /// The running sum from zero, left to right, as `Iterator::sum` forms it;
    /// `None` where an addition overflows.
    pub fn checked_sum(xs: &[Dec]) -> (r: Option<Dec>)
        ensures
            view_of(r) == running_sum(views(xs@)),
            sum_fits(views(xs@)) ==> (r matches Some(t) && t.units() == sum_units(views(xs@))
                && t@.1 <= max_scale_of(views(xs@))),
    {
        let ghost all = views(xs@);
        let mut acc: Option<Dec> = Some(Dec::zero());
        let mut i: usize = 0;
        proof {
            assert(all.take(0) =~= Seq::<(int, nat, bool)>::empty());
            assert(sum_units(all.take(0)) == 0);
            lemma_sign_of_units((0int, 0nat, false));
        }
        while i < xs.len()
            invariant
                0 <= i <= xs.len(),
                all == views(xs@),
                view_of(acc) == running_sum(all.take(i as int)),
                sum_fits(all) ==> (acc matches Some(t) && t.units() == sum_units(all.take(i as int))
                    && t@.1 <= max_scale_of(all)),
            decreases xs.len() - i,
        {
            let ghost prefix = all.take(i as int);
            proof {
                assert(all.take(i + 1).drop_last() =~= prefix);
                assert(all.take(i + 1).last() == xs@[i as int]@);
            }
            match acc {
                Some(t) => {
                    let x = xs[i];
                    let next = t.checked_add(&x);
                    proof {
                        if sum_fits(all) {
                            lemma_running_step_fits(all, i as int, t@, x@);
                        }
                    }
                    acc = next;
                },
                None => {},
            }
            i = i + 1;
        }
        proof {
            assert(all.take(xs.len() as int) =~= all);
        }
        acc
    }
}

impl PartialEq for Dec {
    fn eq(&self, other: &Self) -> (r: bool) {
        proof {
            use_type_invariant(self);
            use_type_invariant(other);
        }
        rd_eq(*self, *other)
    }
}

impl PartialEqSpecImpl for Dec {
    open spec fn obeys_eq_spec() -> bool {
        true
    }

    open spec fn eq_spec(&self, other: &Self) -> bool {
        self.units() == other.units()
    }
}

impl Eq for Dec {
}

// ── what rust_decimal computes ────────────────────────────────────────────────

/// `Decimal`'s `<`: rust_decimal orders decimals by value.
#[verifier::external_body]
fn rd_lt(a: Dec, b: Dec) -> (r: bool)
    requires
        is_decimal(a@),
        is_decimal(b@),
    ensures
        r == (units_of(a@) < units_of(b@)),
{
    Decimal::from_i128_with_scale(a.mantissa, a.scale) < Decimal::from_i128_with_scale(
        b.mantissa,
        b.scale,
    )
}

/// `Decimal`'s `==`: rust_decimal compares decimals by value.
#[verifier::external_body]
fn rd_eq(a: Dec, b: Dec) -> (r: bool)
    requires
        is_decimal(a@),
        is_decimal(b@),
    ensures
        r == (units_of(a@) == units_of(b@)),
{
    Decimal::from_i128_with_scale(a.mantissa, a.scale) == Decimal::from_i128_with_scale(
        b.mantissa,
        b.scale,
    )
}

/// `Decimal::checked_add`. Claimed: the result is the name applied to the
/// operands; where both operands and their sum fit a mantissa at the larger
/// scale it is the exact sum, at a scale no larger than that; it is `Some`
/// whenever the exact sum is within the largest decimal; two non-negative
/// decimals have a non-negative sum; and two non-zero operands whose exact sum
/// fits give it at the larger scale, as the aligned addition forms it; a zero
/// operand gives the other one back unchanged, its sign included (the right
/// one where both are zero). Where the
/// aligned sum needs more than 96 bits the result is rounded, and how is left
/// to the name.
#[verifier::external_body]
fn rd_checked_add(a: Dec, b: Dec) -> (r: Option<Dec>)
    requires
        is_decimal(a@),
        is_decimal(b@),
    ensures
        view_of(r) == decimal_checked_add(a@, b@),
        exact_at_larger_scale(a@, b@, units_of(a@) + units_of(b@)) ==> r is Some && units_of(
            r->0@,
        ) == units_of(a@) + units_of(b@) && r->0@.1 <= larger_scale(a@, b@),
        abs_int(units_of(a@) + units_of(b@)) <= limit_at(0) ==> r is Some,
        r is Some && units_of(a@) >= 0 && units_of(b@) >= 0 ==> units_of(r->0@) >= 0,
        a@.0 != 0 && b@.0 != 0 && exact_at_larger_scale(a@, b@, units_of(a@) + units_of(b@)) ==> r is Some
            && r->0@.1 == larger_scale(a@, b@),
        a@.0 == 0 ==> view_of(r) == Some(b@),
        a@.0 != 0 && b@.0 == 0 ==> view_of(r) == Some(a@),
{
    let mut x = Decimal::from_i128_with_scale(a.mantissa, a.scale);
    x.set_sign_negative(a.negative);
    let mut y = Decimal::from_i128_with_scale(b.mantissa, b.scale);
    y.set_sign_negative(b.negative);
    match x.checked_add(y) {
        Some(c) => Some(Dec { mantissa: c.mantissa(), scale: c.scale(), negative: c.is_sign_negative() }),
        None => None,
    }
}

/// `Decimal::checked_sub`, claimed as `checked_add` is, for the difference;
/// a zero left operand gives the right one negated where it is not zero and
/// unchanged where it is, and a zero right operand gives the left one back.
#[verifier::external_body]
fn rd_checked_sub(a: Dec, b: Dec) -> (r: Option<Dec>)
    requires
        is_decimal(a@),
        is_decimal(b@),
    ensures
        view_of(r) == decimal_checked_sub(a@, b@),
        exact_at_larger_scale(a@, b@, units_of(a@) - units_of(b@)) ==> r is Some && units_of(
            r->0@,
        ) == units_of(a@) - units_of(b@) && r->0@.1 <= larger_scale(a@, b@),
        abs_int(units_of(a@) - units_of(b@)) <= limit_at(0) ==> r is Some,
        a@.0 == 0 && b@.0 != 0 ==> view_of(r) == Some((-b@.0, b@.1, !b@.2)),
        a@.0 == 0 && b@.0 == 0 ==> view_of(r) == Some(b@),
        a@.0 != 0 && b@.0 == 0 ==> view_of(r) == Some(a@),
{
    let mut x = Decimal::from_i128_with_scale(a.mantissa, a.scale);
    x.set_sign_negative(a.negative);
    let mut y = Decimal::from_i128_with_scale(b.mantissa, b.scale);
    y.set_sign_negative(b.negative);
    match x.checked_sub(y) {
        Some(c) => Some(Dec { mantissa: c.mantissa(), scale: c.scale(), negative: c.is_sign_negative() }),
        None => None,
    }
}

/// `Decimal::checked_mul`. Claimed: the result is the name applied to the
/// operands; where the scales add up to at most 28 and the product of the
/// mantissas fits 96 bits it is that product at that scale (a zero product
/// being a plain `0`); it is `Some`
/// whenever the exact product is within the largest decimal; the product
/// of two non-negative decimals is not negative; and a zero operand gives a
/// plain `0`. Otherwise rust_decimal
/// rescales and rounds, and the result is left to the name.
#[verifier::external_body]
fn rd_checked_mul(a: Dec, b: Dec) -> (r: Option<Dec>)
    requires
        is_decimal(a@),
        is_decimal(b@),
    ensures
        view_of(r) == decimal_checked_mul(a@, b@),
        (a@.1 + b@.1 <= 28 && abs_int(a@.0 * b@.0) <= max_mantissa()) ==> r is Some && units_of(
            r->0@,
        ) == (a@.0 * b@.0) * pow10((28 - (a@.1 + b@.1)) as nat) && r->0@ == exact_product(a@, b@),
        abs_int(units_of(a@) * units_of(b@)) <= limit_at(0) * pow10(28) ==> r is Some,
        r is Some && units_of(a@) >= 0 && units_of(b@) >= 0 ==> units_of(r->0@) >= 0,
        a@.0 == 0 || b@.0 == 0 ==> r is Some && r->0@ == (0int, 0nat, false),
{
    let mut x = Decimal::from_i128_with_scale(a.mantissa, a.scale);
    x.set_sign_negative(a.negative);
    let mut y = Decimal::from_i128_with_scale(b.mantissa, b.scale);
    y.set_sign_negative(b.negative);
    match x.checked_mul(y) {
        Some(c) => Some(Dec { mantissa: c.mantissa(), scale: c.scale(), negative: c.is_sign_negative() }),
        None => None,
    }
}

/// `Decimal::checked_div`. Claimed: the result is the name applied to the
/// operands; `None` for a zero divisor; `Some` for a divisor that is a
/// non-zero whole number, since the quotient is then no larger than the
/// dividend and cannot overflow; and a non-negative dividend over a positive
/// divisor gives a non-negative quotient; a zero dividend over a non-zero
/// divisor gives a plain `0`; and a non-zero dividend divided exactly by a
/// positive 32-bit divisor of no larger scale is the quotient of the
/// mantissas at the difference of the scales, with no remainder to round;
/// and a quotient is within one unit of its own last place of the exact
/// one: the division stops either exactly or by rounding the remainder at
/// the last digit it keeps, and its final step only drops trailing zeros.
/// Which of the nearby values it is, is left to the name.
#[verifier::external_body]
fn rd_checked_div(a: Dec, b: Dec) -> (r: Option<Dec>)
    requires
        is_decimal(a@),
        is_decimal(b@),
    ensures
        view_of(r) == decimal_checked_div(a@, b@),
        units_of(b@) == 0 ==> r is None,
        b@.1 == 0 && b@.0 != 0 ==> r is Some,
        r is Some && units_of(a@) >= 0 && units_of(b@) > 0 ==> units_of(r->0@) >= 0,
        a@.0 == 0 && b@.0 != 0 ==> r is Some && r->0@ == (0int, 0nat, false),
        a@.0 != 0 && 0 < b@.0 < 0x1_0000_0000 && b@.1 <= a@.1 && a@.0 % b@.0 == 0 ==> r is Some && r->0@
            == signed(a@.0 / b@.0, (a@.1 - b@.1) as nat),
        r matches Some(q) ==> abs_int(units_of(q@) * units_of(b@) - units_of(a@) * pow10(28)) <= abs_int(
            units_of(b@),
        ) * pow10((28 - q@.1) as nat),
{
    let mut x = Decimal::from_i128_with_scale(a.mantissa, a.scale);
    x.set_sign_negative(a.negative);
    let mut y = Decimal::from_i128_with_scale(b.mantissa, b.scale);
    y.set_sign_negative(b.negative);
    match x.checked_div(y) {
        Some(c) => Some(Dec { mantissa: c.mantissa(), scale: c.scale(), negative: c.is_sign_negative() }),
        None => None,
    }
}

/// `Decimal::round_dp_with_strategy` with `RoundingStrategy::ToZero`: a
/// decimal with at most `dp` places comes back unchanged, any other has its
/// mantissa divided by `10^(scale - dp)` toward zero and the scale set to
/// `dp`; a zero keeps its sign, a non-zero value cut to zero is a plain `0`.
#[verifier::external_body]
fn rd_round_toward_zero(a: Dec, dp: u32) -> (r: Dec)
    requires
        is_decimal(a@),
    ensures
        r@ == cut_toward_zero(a@, dp as nat),
{
    let mut x = Decimal::from_i128_with_scale(a.mantissa, a.scale);
    x.set_sign_negative(a.negative);
    let c = x.round_dp_with_strategy(dp, RoundingStrategy::ToZero);
    Dec { mantissa: c.mantissa(), scale: c.scale(), negative: c.is_sign_negative() }
}

/// `Decimal`'s `Display`, as [`decimal_text`] states it.
#[verifier::external_body]
fn rd_to_string(a: Dec) -> (r: String)
    requires
        is_decimal(a@),
    ensures
        r@ == decimal_text(a@),
{
    let mut x = Decimal::from_i128_with_scale(a.mantissa, a.scale);
    x.set_sign_negative(a.negative);
    x.to_string()
}

/// `Decimal::round_dp` (`RoundingStrategy::MidpointNearestEven`): a decimal
/// with at most `dp` places comes back unchanged; any other has its
/// magnitude divided by `10^(scale - dp)`, rounded half to even, and the
/// scale set to `dp`; a zero keeps its sign, a non-zero value rounded to zero
/// is a plain `0`.
#[verifier::external_body]
fn rd_round_half_even(a: Dec, dp: u32) -> (r: Dec)
    requires
        is_decimal(a@),
    ensures
        r@ == round_half_even(a@, dp as nat),
{
    let mut x = Decimal::from_i128_with_scale(a.mantissa, a.scale);
    x.set_sign_negative(a.negative);
    let c = x.round_dp(dp);
    Dec { mantissa: c.mantissa(), scale: c.scale(), negative: c.is_sign_negative() }
}

/// `Decimal::round_dp_with_strategy` with
/// `RoundingStrategy::MidpointAwayFromZero`: a decimal with at most `dp`
/// places comes back unchanged; any other has its magnitude divided by
/// `10^(scale - dp)`, a remainder of at least half going up, and the scale
/// set to `dp`; a zero keeps its sign, a non-zero value rounded to zero is a
/// plain `0`.
#[verifier::external_body]
fn rd_round_half_away(a: Dec, dp: u32) -> (r: Dec)
    requires
        is_decimal(a@),
    ensures
        r@ == round_half_away(a@, dp as nat),
{
    let mut x = Decimal::from_i128_with_scale(a.mantissa, a.scale);
    x.set_sign_negative(a.negative);
    let c = x.round_dp_with_strategy(dp, RoundingStrategy::MidpointAwayFromZero);
    Dec { mantissa: c.mantissa(), scale: c.scale(), negative: c.is_sign_negative() }
}

// ── lemmas ────────────────────────────────────────────────────────────────────

/// `10^(a + b) = 10^a · 10^b`.
pub proof fn lemma_pow10_add(a: nat, b: nat)
    ensures
        pow10(a + b) == pow10(a) * pow10(b),
    decreases b,
{
    if b > 0 {
        lemma_pow10_add(a, (b - 1) as nat);
        assert(pow10(a + b) == 10 * pow10((a + b - 1) as nat));
        assert(pow10(a) * pow10(b) == pow10(a) * (10 * pow10((b - 1) as nat)));
        assert(pow10(a) * (10 * pow10((b - 1) as nat)) == 10 * (pow10(a) * pow10((b - 1) as nat)))
            by (nonlinear_arith);
    }
}

/// The exact product of two decimals is worth the product of their values:
/// `units(a·b) · 10^28 = units(a) · units(b)`.
pub proof fn lemma_product_units(a: (int, nat, bool), b: (int, nat, bool))
    requires
        a.1 + b.1 <= 28,
    ensures
        units_of(exact_product(a, b)) * pow10(28) == units_of(a) * units_of(b),
{
    let pa = pow10((28 - a.1) as nat);
    let pb = pow10((28 - b.1) as nat);
    let pab = pow10((28 - (a.1 + b.1)) as nat);
    lemma_pow10_add((28 - a.1) as nat, (28 - b.1) as nat);
    lemma_pow10_add((28 - (a.1 + b.1)) as nat, 28);
    assert(((28 - a.1) + (28 - b.1)) as nat == ((28 - (a.1 + b.1)) + 28) as nat);
    assert(pa * pb == pab * pow10(28));
    if a.0 * b.0 == 0 {
        assert(units_of(a) * units_of(b) == (a.0 * b.0) * (pa * pb)) by (nonlinear_arith)
            requires
                units_of(a) == a.0 * pa,
                units_of(b) == b.0 * pb,
        ;
    } else {
        assert(units_of(a) * units_of(b) == (a.0 * b.0) * (pa * pb)) by (nonlinear_arith)
            requires
                units_of(a) == a.0 * pa,
                units_of(b) == b.0 * pb,
        ;
        assert((a.0 * b.0) * pab * pow10(28) == (a.0 * b.0) * (pab * pow10(28))) by (nonlinear_arith);
    }
}

/// Cutting a non-negative decimal toward zero never raises it.
pub proof fn lemma_cut_lowers(v: (int, nat, bool), dp: nat)
    requires
        v.0 >= 0,
        v.1 <= 28,
        dp <= 28,
    ensures
        0 <= units_of(cut_toward_zero(v, dp)) <= units_of(v),
{
    if v.1 > dp {
        let d = pow10((v.1 - dp) as nat);
        let q = v.0 / d;
        let pv = pow10((28 - v.1) as nat);
        lemma_pow10_positive((v.1 - dp) as nat);
        lemma_pow10_positive((28 - v.1) as nat);
        lemma_pow10_add((28 - v.1) as nat, (v.1 - dp) as nat);
        assert(((28 - v.1) + (v.1 - dp)) as nat == (28 - dp) as nat);
        assert(pow10((28 - dp) as nat) == pv * d);
        assert(0 <= q * d <= v.0) by (nonlinear_arith)
            requires
                d >= 1,
                v.0 >= 0,
                q == v.0 / d,
        ;
        assert(0 <= q * (pv * d) <= v.0 * pv) by (nonlinear_arith)
            requires
                0 <= q * d <= v.0,
                pv >= 1,
                q >= 0,
        ;
    } else {
        lemma_pow10_positive((28 - v.1) as nat);
        assert(v.0 * pow10((28 - v.1) as nat) >= 0) by (nonlinear_arith)
            requires
                v.0 >= 0,
                pow10((28 - v.1) as nat) >= 1,
        ;
    }
}

/// A pointwise bound `units(v_j) · 10^28 ≤ units(w_j) · t` sums.
pub proof fn lemma_scaled_sum_bound(vals: Seq<(int, nat, bool)>, ws: Seq<(int, nat, bool)>, t: int)
    requires
        vals.len() == ws.len(),
        forall|j: int| 0 <= j < vals.len() ==> #[trigger] units_of(vals[j]) * pow10(28) <= units_of(ws[j]) * t,
    ensures
        sum_units(vals) * pow10(28) <= sum_units(ws) * t,
    decreases vals.len(),
{
    if vals.len() > 0 {
        let n = vals.len() - 1;
        assert forall|j: int| 0 <= j < n implies #[trigger] units_of(vals.drop_last()[j]) * pow10(28)
            <= units_of(ws.drop_last()[j]) * t by {
            assert(vals.drop_last()[j] == vals[j]);
            assert(ws.drop_last()[j] == ws[j]);
        }
        lemma_scaled_sum_bound(vals.drop_last(), ws.drop_last(), t);
        assert(units_of(vals[n]) * pow10(28) <= units_of(ws[n]) * t);
        let a = sum_units(vals.drop_last());
        let b = sum_units(ws.drop_last());
        assert((a + units_of(vals[n])) * pow10(28) == a * pow10(28) + units_of(vals[n]) * pow10(28))
            by (nonlinear_arith);
        assert((b + units_of(ws[n])) * t == b * t + units_of(ws[n]) * t) by (nonlinear_arith);
    }
}

pub proof fn lemma_pow10_positive(n: nat)
    ensures
        pow10(n) >= 1,
    decreases n,
{
    if n > 0 {
        lemma_pow10_positive((n - 1) as nat);
    }
}

/// `pow10` grows with its exponent.
pub proof fn lemma_pow10_monotone(a: nat, b: nat)
    requires
        a <= b,
    ensures
        pow10(a) <= pow10(b),
    decreases b,
{
    if a < b {
        lemma_pow10_monotone(a, (b - 1) as nat);
        lemma_pow10_positive((b - 1) as nat);
    }
}

/// A value's units have the sign of its mantissa.
pub proof fn lemma_sign_of_units(v: (int, nat, bool))
    ensures
        (units_of(v) == 0) == (v.0 == 0),
        (units_of(v) < 0) == (v.0 < 0),
        (units_of(v) > 0) == (v.0 > 0),
{
    let p = pow10((28 - v.1) as nat);
    lemma_pow10_positive((28 - v.1) as nat);
    if v.0 > 0 {
        assert(v.0 * p > 0) by (nonlinear_arith)
            requires
                v.0 > 0,
                p >= 1,
        ;
    } else if v.0 < 0 {
        assert(v.0 * p < 0) by (nonlinear_arith)
            requires
                v.0 < 0,
                p >= 1,
        ;
    }
}

/// The running sum's limit is larger at a smaller scale.
pub proof fn lemma_limit_monotone(a: nat, b: nat)
    requires
        a <= b,
        b <= 28,
    ensures
        limit_at(b) <= limit_at(a),
{
    lemma_pow10_monotone((28 - b) as nat, (28 - a) as nat);
    let pa = pow10((28 - a) as nat);
    let pb = pow10((28 - b) as nat);
    assert(max_mantissa() * pb <= max_mantissa() * pa) by (nonlinear_arith)
        requires
            pb <= pa,
    ;
}

pub proof fn lemma_sum_abs_bounds_sum(xs: Seq<(int, nat, bool)>)
    ensures
        abs_int(sum_units(xs)) <= sum_abs_units(xs),
        sum_abs_units(xs) >= 0,
    decreases xs.len(),
{
    if xs.len() > 0 {
        lemma_sum_abs_bounds_sum(xs.drop_last());
    }
}

/// The sum of magnitudes of a prefix is at most that of the whole.
pub proof fn lemma_sum_abs_prefix(xs: Seq<(int, nat, bool)>, i: int)
    requires
        0 <= i <= xs.len(),
    ensures
        sum_abs_units(xs.take(i)) <= sum_abs_units(xs),
        max_scale_of(xs.take(i)) <= max_scale_of(xs),
    decreases xs.len(),
{
    if i < xs.len() {
        assert(xs.drop_last().take(i) =~= xs.take(i));
        lemma_sum_abs_prefix(xs.drop_last(), i);
    } else {
        assert(xs.take(i) =~= xs);
    }
}

/// Every element's scale is at most the largest.
pub proof fn lemma_max_scale_bounds(xs: Seq<(int, nat, bool)>, i: int)
    requires
        0 <= i < xs.len(),
    ensures
        xs[i].1 <= max_scale_of(xs),
    decreases xs.len(),
{
    if i < xs.len() - 1 {
        lemma_max_scale_bounds(xs.drop_last(), i);
    }
}

/// Zero and one, in units.
pub proof fn lemma_units_of_zero()
    ensures
        Dec::spec_zero()@ == (0int, 0nat, false),
        units_of((0int, 0nat, false)) == 0,
        units_of((1int, 0nat, false)) == pow10(28),
{
    lemma_sign_of_units((0int, 0nat, false));
}

/// A decimal's magnitude is within the limit at its own scale.
pub proof fn lemma_units_within_limit(v: (int, nat, bool))
    requires
        is_decimal(v),
    ensures
        abs_int(units_of(v)) <= limit_at(v.1),
{
    let p = pow10((28 - v.1) as nat);
    lemma_pow10_positive((28 - v.1) as nat);
    assert(abs_int(v.0) * p <= max_mantissa() * p) by (nonlinear_arith)
        requires
            abs_int(v.0) <= max_mantissa(),
            p >= 1,
    ;
    assert(abs_int(v.0 * p) == abs_int(v.0) * p) by (nonlinear_arith)
        requires
            p >= 1,
    ;
}

/// A run of zeros at scale zero sums to zero and fits.
pub proof fn lemma_zero_values(xs: Seq<(int, nat, bool)>)
    requires
        forall|i: int| 0 <= i < xs.len() ==> xs[i] == (0int, 0nat, false),
    ensures
        sum_abs_units(xs) == 0,
        sum_units(xs) == 0,
        max_scale_of(xs) == 0,
        sum_fits(xs),
    decreases xs.len(),
{
    lemma_sign_of_units((0int, 0nat, false));
    lemma_pow10_positive(28);
    if xs.len() > 0 {
        lemma_zero_values(xs.drop_last());
    }
    assert(limit_at(0) >= 0) by (nonlinear_arith)
        requires
            pow10(28) >= 1,
    ;
}

/// When `xs` and `y` fit together, `y` minus the exact sum of `xs` (held at
/// a scale within theirs) is an exact subtraction.
pub proof fn lemma_difference_exact(xs: Seq<(int, nat, bool)>, y: (int, nat, bool), t: (int, nat, bool))
    requires
        sum_fits(xs.push(y)),
        sum_fits(xs) ==> units_of(t) == sum_units(xs) && t.1 <= max_scale_of(xs),
    ensures
        sum_fits(xs),
        exact_at_larger_scale(y, t, units_of(y) - units_of(t)),
{
    let all = xs.push(y);
    let s = max_scale_of(all);
    assert(all.drop_last() =~= xs);
    lemma_sum_abs_bounds_sum(xs);
    lemma_limit_monotone(max_scale_of(xs), s);
    lemma_limit_monotone(larger_scale(y, t), s);
}

/// One step of a running sum over values that fit: the partial sum so far and
/// the next value add exactly.
proof fn lemma_running_step_fits(all: Seq<(int, nat, bool)>, i: int, t: (int, nat, bool), x: (int, nat, bool))
    requires
        0 <= i < all.len(),
        sum_fits(all),
        x == all[i],
        units_of(t) == sum_units(all.take(i)),
        t.1 <= max_scale_of(all),
    ensures
        exact_at_larger_scale(t, x, units_of(t) + units_of(x)),
        units_of(t) + units_of(x) == sum_units(all.take(i + 1)),
        larger_scale(t, x) <= max_scale_of(all),
{
    let s = max_scale_of(all);
    let next = all.take(i + 1);
    assert(next.drop_last() =~= all.take(i));
    lemma_sum_abs_bounds_sum(next);
    lemma_sum_abs_bounds_sum(all.take(i));
    lemma_sum_abs_prefix(all, i + 1);
    lemma_sum_abs_prefix(all, i);
    lemma_max_scale_bounds(all, i);
    lemma_limit_monotone(larger_scale(t, x), s);
    assert(sum_abs_units(next) == sum_abs_units(all.take(i)) + abs_int(units_of(x)));
}

} // verus!
