//! Splitting one quantity across many, with the residual reported.
//!
//! One arithmetic serves every allocation: each part's share is formed from
//! its weight (cut to [`ALLOCATION_DP`] places toward zero), capped at what
//! the part can absorb and never negative, and the residual is defined as the
//! total minus what the parts took, so that
//!
//! ```text
//! Σ allocated + residual = total
//! ```
//!
//! holds exactly, for every key, wherever rust_decimal's sums are exact.
//! Nothing redistributes the residual: it is a quantity, not a rounding error.

use vstd::prelude::*;


use crate::decimal::{
    Dec, abs_int, cut_toward_zero, decimal_checked_div, decimal_checked_mul, decimal_checked_sub,
    decimal_text, lemma_cut_lowers, lemma_difference_exact, lemma_pow10_positive,
    lemma_product_units, lemma_scaled_sum_bound, lemma_sign_of_units, lemma_units_of_zero,
    lemma_units_within_limit, lemma_zero_values, limit_at, max_mantissa, max_scale_of, pow10,
    running_sum,
    sum_fits, sum_units, units_of, view_of, views,
};
use crate::error::{Expected, ParseError};
use crate::text::{
    lemma_code_is_canonical, str_eq,
    to_uppercase, trim, trimmed, uppercased,
};

verus! {
/// How a part's weight becomes its share of the total.
#[derive(Debug, Default, Clone, Copy, PartialEq, Eq, Hash, Structural)]
pub enum AllocationBasis {
    /// The weight **is** the fraction: `share = weight × total`; weights are
    /// absolute and what they do not claim stays in the residual.
    Fraction,
    /// The weight is **relative**: `share = (weight ÷ Σ weight) × total`.
    #[default]
    Proportional,
}

impl AllocationBasis {
    /// Every variant, in declaration order.
    pub const ALL: [Self; 2] = [Self::Fraction, Self::Proportional];

    /// Every code [`as_str`](Self::as_str) writes, in the order of `ALL`.
    pub fn codes() -> (r: &'static [&'static str])
        ensures
            Self::spec_is_codes(r@),
    {
        &["FRACTION", "PROPORTIONAL"]
    }

    /// `c` lists the codes of `ALL`, in order.
    pub open spec fn spec_is_codes(c: Seq<&'static str>) -> bool {
        &&& c.len() == 2
        &&& c[0]@ == Self::Fraction.spec_as_str()
        &&& c[1]@ == Self::Proportional.spec_as_str()
    }

    pub open spec fn spec_as_str(self) -> Seq<char> {
        match self {
            Self::Fraction => "FRACTION"@,
            Self::Proportional => "PROPORTIONAL"@,
        }
    }

    /// Stable DB/wire label; the `FromStr` input and the code `to_string` writes.
    pub fn as_str(self) -> (r: &'static str)
        ensures
            r@ == self.spec_as_str(),
    {
        match self {
            Self::Fraction => "FRACTION",
            Self::Proportional => "PROPORTIONAL",
        }
    }

    /// The code as an owned string (what `Display` writes).
    pub fn to_string(&self) -> (r: String)
        ensures
            r@ == self.spec_as_str(),
    {
        self.as_str().to_owned()
    }

    /// The variant whose code is exactly `s`.
    pub open spec fn spec_from_code(s: Seq<char>) -> Option<Self> {
        if s == "FRACTION"@ {
            Some(Self::Fraction)
        } else if s == "PROPORTIONAL"@ {
            Some(Self::Proportional)
        } else {
            None
        }
    }

    /// The variant whose code is exactly `s`, case and whitespace included.
    pub fn from_code(s: &str) -> (r: Option<Self>)
        ensures
            r == Self::spec_from_code(s@),
    {
        if str_eq(s, "FRACTION") {
            Some(Self::Fraction)
        } else if str_eq(s, "PROPORTIONAL") {
            Some(Self::Proportional)
        } else {
            None
        }
    }

    /// What parsing `s` yields: surrounding whitespace is ignored and the
    /// comparison is case-insensitive.
    pub open spec fn spec_parse(s: Seq<char>) -> Option<Self> {
        let t = trimmed(s);
        let u = uppercased(t);
        Self::spec_from_code(u)
    }

    /// Parses a code, ignoring surrounding whitespace and case.
    pub fn parse_code(s: &str) -> (r: Result<Self, ParseError>)
        ensures
            match r {
                Ok(v) => Self::spec_parse(s@) == Some(v),
                Err(e) => {
                    &&& Self::spec_parse(s@).is_none()
                    &&& e.spec_type_label() == "AllocationBasis"@
                    &&& e.spec_input() == s@
                    &&& e.spec_expected() matches Expected::OneOf(c) && Self::spec_is_codes(c@)
                },
            },
    {
        let t = trim(s);
        let u = to_uppercase(t);
        match Self::from_code(u.as_str()) {
            Some(v) => Ok(v),
            None => Err(ParseError::one_of("AllocationBasis", s, Self::codes())),
        }
    }

    /// Parsing the code of a variant gives the variant back.
    pub proof fn lemma_parse_as_str(v: Self)
        ensures
            Self::spec_parse(v.spec_as_str()) == Some(v),
    {
        match v {
            Self::Fraction => {
                reveal_strlit("FRACTION");
                lemma_code_is_canonical("FRACTION"@);
            },
            Self::Proportional => {
                reveal_strlit("FRACTION");
                reveal_strlit("PROPORTIONAL");
                lemma_code_is_canonical("PROPORTIONAL"@);
            },
        }
    }
}

impl std::str::FromStr for AllocationBasis {
    type Err = ParseError;

    fn from_str(s: &str) -> (r: Result<AllocationBasis, ParseError>)
        ensures
            match r {
                Ok(v) => Self::spec_parse(s@) == Some(v),
                Err(e) => {
                    &&& Self::spec_parse(s@).is_none()
                    &&& e.spec_type_label() == "AllocationBasis"@
                    &&& e.spec_input() == s@
                    &&& e.spec_expected() matches Expected::OneOf(c) && Self::spec_is_codes(c@)
                },
            },
    {
        AllocationBasis::parse_code(s)
    }
}
// ── ALLOCATION_DP ─────────────────────────────────────────────────────────────

/// Decimal places an allocated **share** is cut to before it is capped.
///
/// Six places is a millionth of a kWh. The cut is toward zero, so it can only
/// lower a share.
pub const ALLOCATION_DP: u32 = 6;

/// A raw share, cut to [`ALLOCATION_DP`] places toward zero.
pub fn allocation_share(raw: Dec) -> (r: Dec)
    ensures
        r@ == cut_toward_zero(raw@, 6),
{
    raw.cut_to(ALLOCATION_DP)
}

// ── AllocationError ───────────────────────────────────────────────────────────

/// Why an allocation could not be formed.
#[derive(Debug, Clone, PartialEq, Eq)]
#[non_exhaustive]
pub enum AllocationError {
    /// [`AllocationBasis::Fraction`] weights that are not each positive, or
    /// that claim more than the whole; `sum` is their sum.
    InvalidFractions { sum: Dec },
    /// A [`AllocationBasis::Proportional`] weight below zero.
    NegativeWeight { key: String, weight: Dec },
    /// A capacity below zero.
    NegativeCapacity { key: String, capacity: Dec },
}

impl AllocationError {
    /// The message `Display` writes.
    pub open spec fn spec_message(&self) -> Seq<char> {
        match self {
            AllocationError::InvalidFractions { sum } => "allocation fractions total "@
                + decimal_text(sum@) + " — each must be positive and the total at most 1"@,
            AllocationError::NegativeWeight { key, weight } => "proportional weight for "@ + key@
                + " is "@ + decimal_text(weight@) + " — a weight cannot be negative"@,
            AllocationError::NegativeCapacity { key, capacity } => "capacity for "@ + key@ + " is "@
                + decimal_text(capacity@) + " — a capacity cannot be negative"@,
        }
    }

    /// The human-readable message, naming the offending value.
    pub fn to_string(&self) -> (r: String)
        ensures
            r@ == self.spec_message(),
    {
        match self {
            AllocationError::InvalidFractions { sum } => {
                let mut r = String::from_str("allocation fractions total ");
                let t = sum.to_string();
                r.append(t.as_str());
                r.append(" — each must be positive and the total at most 1");
                r
            },
            AllocationError::NegativeWeight { key, weight } => {
                let mut r = String::from_str("proportional weight for ");
                r.append(key.as_str());
                r.append(" is ");
                let t = weight.to_string();
                r.append(t.as_str());
                r.append(" — a weight cannot be negative");
                r
            },
            AllocationError::NegativeCapacity { key, capacity } => {
                let mut r = String::from_str("capacity for ");
                r.append(key.as_str());
                r.append(" is ");
                let t = capacity.to_string();
                r.append(t.as_str());
                r.append(" — a capacity cannot be negative");
                r
            },
        }
    }
}

// ── the parts ─────────────────────────────────────────────────────────────────

/// One claim on the pool.
#[derive(Debug, Clone, PartialEq, Eq)]
pub struct AllocationPart {
    /// What this part is — a participant id, a MaLo, a session reference.
    /// Carried through to the result unchanged; duplicates are not rejected.
    pub key: String,
    /// How much of the total this part claims, read by the [`AllocationBasis`].
    pub weight: Dec,
    /// The most this part can absorb; `None` means uncapped.
    pub capacity: Option<Dec>,
}

impl AllocationPart {
    /// An uncapped part.
    pub fn new(key: &str, weight: Dec) -> (r: Self)
        ensures
            r.key@ == key@,
            r.weight == weight,
            r.capacity is None,
    {
        AllocationPart { key: key.to_owned(), weight, capacity: None }
    }

    /// The same part, ceilinged at what it can absorb (builder style).
    pub fn capped_at(self, capacity: Dec) -> (r: Self)
        ensures
            r.key == self.key,
            r.weight == self.weight,
            r.capacity == Some(capacity),
    {
        AllocationPart { key: self.key, weight: self.weight, capacity: Some(capacity) }
    }
}

/// What one part received.
#[derive(Debug, Clone, PartialEq, Eq)]
pub struct AllocatedPart {
    /// The part's key, carried through unchanged.
    pub key: String,
    /// The weight it was allocated on.
    pub weight: Dec,
    /// Its nominal share of the total, before any ceiling, cut to
    /// [`ALLOCATION_DP`] places toward zero.
    pub share: Dec,
    /// What it actually received: `min(capacity, share)`, never below zero.
    pub allocated: Dec,
}

impl AllocatedPart {
    /// `true` when the ceiling bound the share, so the difference went to the
    /// residual instead.
    pub fn capped(&self) -> (r: bool)
        ensures
            r == (self.share.units() > self.allocated.units()),
    {
        self.share.gt(&self.allocated)
    }

    /// The part of the share the ceiling refused — `share − allocated`.
    pub fn forgone(&self) -> (r: Dec)
        requires
            abs_int(self.share.units() - self.allocated.units()) <= limit_at(0),
        ensures
            Some(r@) == decimal_checked_sub(self.share@, self.allocated@),
            crate::decimal::exact_at_larger_scale(
                self.share@,
                self.allocated@,
                self.share.units() - self.allocated.units(),
            ) ==> r.units() == self.share.units() - self.allocated.units(),
    {
        match self.share.checked_sub(&self.allocated) {
            Some(d) => d,
            None => {
                proof {
                    assert(false);
                }
                Dec::zero()
            },
        }
    }
}

/// The values the parts received, in order.
pub open spec fn allocated_values(parts: Seq<AllocatedPart>) -> Seq<(int, nat, bool)> {
    parts.map_values(|p: AllocatedPart| p.allocated@)
}

/// The weights of the allocated parts.
pub open spec fn allocated_weights(parts: Seq<AllocatedPart>) -> Seq<(int, nat, bool)> {
    parts.map_values(|p: AllocatedPart| p.weight@)
}

/// `a × b` is exact: the scales add up to at most 28 and the product of the
/// mantissas fits.
pub open spec fn product_fits(a: (int, nat, bool), b: (int, nat, bool)) -> bool {
    a.1 + b.1 <= 28 && abs_int(a.0 * b.0) <= max_mantissa()
}

/// One completed allocation.
#[derive(Debug, Clone, PartialEq, Eq)]
pub struct AllocationRow {
    /// The pool that was divided.
    pub total: Dec,
    /// Per part, in the order they were supplied.
    pub parts: Vec<AllocatedPart>,
    /// What the parts did not take: `total − Σ allocated`.
    pub residual: Dec,
}

/// The running sum of what the parts received, as `Iterator::sum` forms it.
fn sum_allocated(parts: &Vec<AllocatedPart>) -> (r: Option<Dec>)
    ensures
        view_of(r) == running_sum(allocated_values(parts@)),
        sum_fits(allocated_values(parts@)) ==> (r matches Some(t) && t.units() == sum_units(
            allocated_values(parts@),
        ) && t@.1 <= max_scale_of(allocated_values(parts@))),
{
    let mut values: Vec<Dec> = Vec::new();
    let mut i: usize = 0;
    while i < parts.len()
        invariant
            0 <= i <= parts.len(),
            values@.len() == i,
            forall|j: int| 0 <= j < i ==> values@[j] == #[trigger] parts@[j].allocated,
        decreases parts.len() - i,
    {
        values.push(parts[i].allocated);
        i = i + 1;
    }
    proof {
        assert(views(values@) =~= allocated_values(parts@));
    }
    Dec::checked_sum(values.as_slice())
}

impl AllocationRow {
    /// The sum across the parts.
    pub fn allocated(&self) -> (r: Dec)
        requires
            running_sum(allocated_values(self.parts@)) is Some,
        ensures
            Some(r@) == running_sum(allocated_values(self.parts@)),
            sum_fits(allocated_values(self.parts@)) ==> r.units() == sum_units(
                allocated_values(self.parts@),
            ),
    {
        match sum_allocated(&self.parts) {
            Some(t) => t,
            None => {
                proof {
                    assert(false);
                }
                Dec::zero()
            },
        }
    }

    /// The sum across the parts, or `None` where adding them overflows.
    pub fn checked_allocated(&self) -> (r: Option<Dec>)
        ensures
            view_of(r) == running_sum(allocated_values(self.parts@)),
    {
        if sum_allocated(&self.parts).is_some() {
            Some(self.allocated())
        } else {
            None
        }
    }

    /// One part, by key: the first match, if a key was supplied twice.
    pub fn part(&self, key: &str) -> (r: Option<&AllocatedPart>)
        ensures
            match r {
                Some(p) => exists|i: int|
                    0 <= i < self.parts@.len() && *p == self.parts@[i] && #[trigger] self.parts@[i].key@
                        == key@ && forall|j: int| 0 <= j < i ==> self.parts@[j].key@ != key@,
                None => forall|i: int| 0 <= i < self.parts@.len() ==> self.parts@[i].key@ != key@,
            },
    {
        let mut i: usize = 0;
        while i < self.parts.len()
            invariant
                0 <= i <= self.parts@.len(),
                forall|j: int| 0 <= j < i ==> self.parts@[j].key@ != key@,
            decreases self.parts@.len() - i,
        {
            if str_eq(self.parts[i].key.as_str(), key) {
                return Some(&self.parts[i]);
            }
            i = i + 1;
        }
        None
    }
}

// ── the key ───────────────────────────────────────────────────────────────────

/// The weights of the parts, in order.
pub open spec fn weights(parts: Seq<AllocationPart>) -> Seq<(int, nat, bool)> {
    parts.map_values(|p: AllocationPart| p.weight@)
}

pub open spec fn has_negative_capacity(p: AllocationPart) -> bool {
    p.capacity matches Some(c) && c.units() < 0
}

pub open spec fn capacities_valid(parts: Seq<AllocationPart>) -> bool {
    forall|i: int| 0 <= i < parts.len() ==> !#[trigger] has_negative_capacity(parts[i])
}

/// Part `i` is the first with a negative capacity.
pub open spec fn first_negative_capacity(parts: Seq<AllocationPart>, i: int) -> bool {
    &&& 0 <= i < parts.len()
    &&& has_negative_capacity(parts[i])
    &&& forall|j: int| 0 <= j < i ==> !#[trigger] has_negative_capacity(parts[j])
}

/// Part `i` is the first with a negative weight.
pub open spec fn first_negative_weight(parts: Seq<AllocationPart>, i: int) -> bool {
    &&& 0 <= i < parts.len()
    &&& parts[i].weight.units() < 0
    &&& forall|j: int| 0 <= j < i ==> #[trigger] parts[j].weight.units() >= 0
}

/// Fractions that are each positive and sum (as rust_decimal sums them) to
/// at most one.
pub open spec fn fractions_valid(parts: Seq<AllocationPart>) -> bool {
    &&& forall|i: int| 0 <= i < parts.len() ==> #[trigger] parts[i].weight.units() > 0
    &&& running_sum(weights(parts)) matches Some(s) && units_of(s) <= pow10(28)
}

/// The parts form a usable key for the basis.
pub open spec fn key_is_valid(parts: Seq<AllocationPart>, basis: AllocationBasis) -> bool {
    &&& capacities_valid(parts)
    &&& match basis {
        AllocationBasis::Fraction => fractions_valid(parts),
        AllocationBasis::Proportional => forall|i: int|
            0 <= i < parts.len() ==> #[trigger] parts[i].weight.units() >= 0,
    }
}

/// `e` is the error [`validate_key`] reports for an unusable key: the first
/// negative capacity, else the fractions with their sum, else the first
/// negative proportional weight.
pub open spec fn key_error(parts: Seq<AllocationPart>, basis: AllocationBasis, e: AllocationError) -> bool {
    match e {
        AllocationError::NegativeCapacity { key, capacity } => exists|i: int|
            #[trigger] first_negative_capacity(parts, i) && key@ == parts[i].key@ && parts[i].capacity
                == Some(capacity),
        AllocationError::InvalidFractions { sum } => {
            &&& capacities_valid(parts)
            &&& basis == AllocationBasis::Fraction
            &&& !fractions_valid(parts)
            &&& running_sum(weights(parts)) == Some(sum@)
        },
        AllocationError::NegativeWeight { key, weight } => {
            &&& capacities_valid(parts)
            &&& basis == AllocationBasis::Proportional
            &&& exists|i: int|
                #[trigger] first_negative_weight(parts, i) && key@ == parts[i].key@ && parts[i].weight
                    == weight
        },
    }
}

/// The running sum of the weights, or `None` where it overflows.
fn weight_sum(parts: &[AllocationPart]) -> (r: Option<Dec>)
    ensures
        view_of(r) == running_sum(weights(parts@)),
        sum_fits(weights(parts@)) ==> (r matches Some(t) && t.units() == sum_units(weights(parts@))),
{
    let mut values: Vec<Dec> = Vec::new();
    let mut i: usize = 0;
    while i < parts.len()
        invariant
            0 <= i <= parts.len(),
            values@.len() == i,
            forall|j: int| 0 <= j < i ==> values@[j] == #[trigger] parts@[j].weight,
        decreases parts.len() - i,
    {
        values.push(parts[i].weight);
        i = i + 1;
    }
    proof {
        assert(views(values@) =~= weights(parts@));
    }
    Dec::checked_sum(values.as_slice())
}

/// No capacity is negative.
fn capacities_ok(parts: &[AllocationPart]) -> (r: bool)
    ensures
        r == capacities_valid(parts@),
{
    let mut i: usize = 0;
    while i < parts.len()
        invariant
            0 <= i <= parts.len(),
            forall|j: int| 0 <= j < i ==> !#[trigger] has_negative_capacity(parts@[j]),
        decreases parts.len() - i,
    {
        if let Some(c) = parts[i].capacity {
            if c.is_negative() {
                assert(has_negative_capacity(parts@[i as int]));
                return false;
            }
        }
        i = i + 1;
    }
    true
}

/// Check that a set of parts forms a usable key, without dividing anything.
///
/// The first negative capacity is refused; then [`AllocationBasis::Fraction`]
/// weights must each be positive and sum to at most one, and
/// [`AllocationBasis::Proportional`] weights must each be at least zero (the
/// first negative one is reported).
pub fn validate_key(parts: &[AllocationPart], basis: AllocationBasis) -> (r: Result<(), AllocationError>)
    requires
        capacities_valid(parts@) && basis == AllocationBasis::Fraction ==> running_sum(
            weights(parts@),
        ) is Some,
    ensures
        r is Ok <==> key_is_valid(parts@, basis),
        r matches Err(e) ==> key_error(parts@, basis, e),
{
    let mut i: usize = 0;
    while i < parts.len()
        invariant
            0 <= i <= parts.len(),
            forall|j: int| 0 <= j < i ==> !#[trigger] has_negative_capacity(parts@[j]),
        decreases parts.len() - i,
    {
        if let Some(c) = parts[i].capacity {
            if c.is_negative() {
                assert(first_negative_capacity(parts@, i as int));
                return Err(AllocationError::NegativeCapacity { key: parts[i].key.clone(), capacity: c });
            }
        }
        i = i + 1;
    }
    match basis {
        AllocationBasis::Fraction => {
            let sum = match weight_sum(parts) {
                Some(s) => s,
                None => {
                    proof {
                        assert(false);
                    }
                    return Ok(());
                },
            };
            let mut all_positive = true;
            let mut k: usize = 0;
            while k < parts.len()
                invariant
                    0 <= k <= parts.len(),
                    capacities_valid(parts@),
                    all_positive == (forall|j: int| 0 <= j < k ==> #[trigger] parts@[j].weight.units() > 0),
                decreases parts.len() - k,
            {
                if parts[k].weight.le(&Dec::zero()) {
                    all_positive = false;
                }
                proof {
                    lemma_units_of_zero();
                }
                k = k + 1;
            }
            proof {
                lemma_units_of_zero();
            }
            if !all_positive || sum.gt(&Dec::one()) {
                return Err(AllocationError::InvalidFractions { sum });
            }
            Ok(())
        },
        AllocationBasis::Proportional => {
            let mut k: usize = 0;
            while k < parts.len()
                invariant
                    0 <= k <= parts.len(),
                    capacities_valid(parts@),
                    basis == AllocationBasis::Proportional,
                    forall|j: int| 0 <= j < k ==> #[trigger] parts@[j].weight.units() >= 0,
                decreases parts.len() - k,
            {
                proof {
                    lemma_units_of_zero();
                }
                if parts[k].weight.lt(&Dec::zero()) {
                    assert(first_negative_weight(parts@, k as int));
                    return Err(
                        AllocationError::NegativeWeight {
                            key: parts[k].key.clone(),
                            weight: parts[k].weight,
                        },
                    );
                }
                k = k + 1;
            }
            Ok(())
        },
    }
}

// ── allocate ──────────────────────────────────────────────────────────────────

/// A part's share of `total`, cut to [`ALLOCATION_DP`] places:
/// `cut(weight × total)` for fractions, `cut(weight ÷ Σ weight × total)` for
/// proportional weights, zero when the proportional weights sum to zero.
/// `None` where rust_decimal overflows.
pub open spec fn share_of(basis: AllocationBasis, w: (int, nat, bool), wsum: (int, nat, bool), total: (int, nat, bool)) -> Option<(int, nat, bool)> {
    match basis {
        AllocationBasis::Fraction => match decimal_checked_mul(w, total) {
            Some(p) => Some(cut_toward_zero(p, 6)),
            None => None,
        },
        AllocationBasis::Proportional => if units_of(wsum) > 0 {
            match decimal_checked_div(w, wsum) {
                Some(q) => match decimal_checked_mul(q, total) {
                    Some(p) => Some(cut_toward_zero(p, 6)),
                    None => None,
                },
                None => None,
            }
        } else {
            Some((0, 0, false))
        },
    }
}

/// `min(capacity, share)`, floored at zero, as `Decimal::min` and
/// `Decimal::max` pick them.
pub open spec fn capped_share(share: Dec, capacity: Option<Dec>) -> Dec {
    let m = match capacity {
        Some(c) => if share.units() > c.units() {
            c
        } else {
            share
        },
        None => share,
    };
    if m.units() < 0 {
        Dec::spec_zero()
    } else {
        m
    }
}

/// `min(capacity, share)`, floored at zero.
pub(crate) fn cap(share: Dec, capacity: Option<Dec>) -> (r: Dec)
    ensures
        r == capped_share(share, capacity),
{
    proof {
        lemma_units_of_zero();
    }
    match capacity {
        Some(c) => share.min(c).max(Dec::zero()),
        None => share.max(Dec::zero()),
    }
}

/// The share of one part, as [`share_of`] states it.
fn share_for(basis: AllocationBasis, weight: Dec, weight_sum: Dec, total: Dec) -> (r: Option<Dec>)
    ensures
        view_of(r) == share_of(basis, weight@, weight_sum@, total@),
        basis == AllocationBasis::Fraction && weight.units() >= 0 && total.units() >= 0 && product_fits(
            weight@,
            total@,
        ) ==> (r matches Some(sh) && 0 <= sh.units() && sh.units() * pow10(28) <= weight.units()
            * total.units()),
{
    match basis {
        AllocationBasis::Fraction => match weight.checked_mul(&total) {
            Some(p) => {
                let sh = allocation_share(p);
                proof {
                    if weight.units() >= 0 && total.units() >= 0 && product_fits(weight@, total@) {
                        use_type_invariant(&weight);
                        use_type_invariant(&total);
                        lemma_sign_of_units(weight@);
                        lemma_sign_of_units(total@);
                        assert(weight@.0 * total@.0 >= 0) by (nonlinear_arith)
                            requires
                                weight@.0 >= 0,
                                total@.0 >= 0,
                        ;
                        lemma_product_units(weight@, total@);
                        lemma_cut_lowers(p@, 6);
                        lemma_pow10_positive(28);
                        assert(sh.units() * pow10(28) <= p.units() * pow10(28)) by (nonlinear_arith)
                            requires
                                sh.units() <= p.units(),
                                pow10(28) >= 1,
                        ;
                    }
                }
                Some(sh)
            },
            None => None,
        },
        AllocationBasis::Proportional => {
            proof {
                lemma_units_of_zero();
            }
            if weight_sum.gt(&Dec::zero()) {
                match weight.checked_div(&weight_sum) {
                    Some(q) => match q.checked_mul(&total) {
                        Some(p) => Some(allocation_share(p)),
                        None => None,
                    },
                    None => None,
                }
            } else {
                Some(allocation_share(Dec::zero()))
            }
        },
    }
}

/// What each part receives, given the weight sum: its share, capped.
pub open spec fn received(
    basis: AllocationBasis,
    wsum: (int, nat, bool),
    total: (int, nat, bool),
    parts: Seq<AllocationPart>,
    row: Seq<AllocatedPart>,
) -> bool {
    &&& row.len() == parts.len()
    &&& forall|i: int|
        0 <= i < parts.len() ==> {
            &&& (#[trigger] row[i]).key@ == parts[i].key@
            &&& row[i].weight == parts[i].weight
            &&& Some(row[i].share@) == share_of(basis, parts[i].weight@, wsum, total)
            &&& row[i].allocated == capped_share(row[i].share, parts[i].capacity)
        }
}

/// Every share is defined for the parts (rust_decimal does not overflow on any).
pub open spec fn shares_defined(basis: AllocationBasis, wsum: (int, nat, bool), total: (int, nat, bool), parts: Seq<AllocationPart>) -> bool {
    forall|i: int|
        0 <= i < parts.len() ==> #[trigger] share_of(basis, parts[i].weight@, wsum, total) is Some
}

/// The parts as [`allocate`] would allocate them, given the weight sum and
/// shares that are defined.
pub open spec fn allocated_of(basis: AllocationBasis, wsum: (int, nat, bool), total: (int, nat, bool), parts: Seq<AllocationPart>) -> Seq<(int, nat, bool)> {
    Seq::new(
        parts.len(),
        |i: int|
            capped_share_view(
                share_of(basis, parts[i].weight@, wsum, total)->0,
                parts[i].capacity,
            ),
    )
}

/// [`capped_share`] on the view of the share.
pub open spec fn capped_share_view(share: (int, nat, bool), capacity: Option<Dec>) -> (int, nat, bool) {
    let m = match capacity {
        Some(c) => if units_of(share) > c.units() {
            c@
        } else {
            share
        },
        None => share,
    };
    if units_of(m) < 0 {
        (0, 0, false)
    } else {
        m
    }
}

/// rust_decimal does not overflow anywhere in [`allocate`] on these inputs:
/// where the key is valid, the weight sum, every share, the sum of what the
/// parts receive and the residual are all defined.
pub open spec fn allocation_defined(total: Dec, parts: Seq<AllocationPart>, basis: AllocationBasis) -> bool {
    &&& (capacities_valid(parts) && basis == AllocationBasis::Fraction ==> running_sum(
        weights(parts),
    ) is Some)
    &&& key_is_valid(parts, basis) ==> {
        &&& running_sum(weights(parts)) is Some
        &&& shares_defined(basis, running_sum(weights(parts))->0, total@, parts)
        &&& running_sum(allocated_of(basis, running_sum(weights(parts))->0, total@, parts)) is Some
        &&& decimal_checked_sub(
            total@,
            running_sum(allocated_of(basis, running_sum(weights(parts))->0, total@, parts))->0,
        ) is Some
    }
}

/// `r` is what [`allocate`] returns: the key's error, or the row whose parts
/// received their capped shares and whose residual is the total minus the
/// running sum of what they received.
pub open spec fn allocation_result(
    total: Dec,
    parts: Seq<AllocationPart>,
    basis: AllocationBasis,
    r: Result<AllocationRow, AllocationError>,
) -> bool {
    match r {
        Err(e) => !key_is_valid(parts, basis) && key_error(parts, basis, e),
        Ok(row) => {
            &&& key_is_valid(parts, basis)
            &&& row.total == total
            &&& received(basis, running_sum(weights(parts))->0, total@, parts, row.parts@)
            &&& running_sum(allocated_values(row.parts@)) matches Some(s) && decimal_checked_sub(
                total@,
                s,
            ) == Some(row.residual@)
        },
    }
}

/// The laws every row [`allocate`] returns obeys.
pub open spec fn allocation_laws(row: AllocationRow, basis: AllocationBasis, weight_sum: (int, nat, bool)) -> bool {
    &&& forall|i: int|
        0 <= i < row.parts@.len() ==> {
            &&& (#[trigger] row.parts@[i]).allocated.units() >= 0
            &&& row.parts@[i].allocated.units() <= row.parts@[i].share.units()
                || row.parts@[i].allocated.units() == 0
            &&& row.parts@[i].share@.1 <= 6
        }
    &&& sum_fits(allocated_values(row.parts@).push(row.total@)) ==> sum_units(
        allocated_values(row.parts@),
    ) + row.residual.units() == row.total.units()
    &&& (basis == AllocationBasis::Fraction && row.total.units() >= 0 && sum_fits(
        allocated_weights(row.parts@),
    ) && forall|j: int|
        0 <= j < row.parts@.len() ==> product_fits(#[trigger] row.parts@[j].weight@, row.total@))
        ==> sum_units(allocated_values(row.parts@)) <= row.total.units()
    &&& (basis == AllocationBasis::Proportional && units_of(weight_sum) == 0) ==> {
        &&& forall|i: int| 0 <= i < row.parts@.len() ==> (#[trigger] row.parts@[i]).share.units() == 0
        &&& row.residual.units() == row.total.units()
    }
}

/// [`allocate`] with rust_decimal's overflows reported as `None`.
fn allocate_checked(total: Dec, parts: &Vec<AllocationPart>, basis: AllocationBasis) -> (r: Option<Result<AllocationRow, AllocationError>>)
    ensures
        r is Some <==> allocation_defined(total, parts@, basis),
        r matches Some(res) ==> allocation_result(total, parts@, basis, res),
        r matches Some(Ok(row)) ==> allocation_laws(row, basis, running_sum(weights(parts@))->0),
{
    if basis == AllocationBasis::Fraction && capacities_ok(parts.as_slice()) && weight_sum(
        parts.as_slice(),
    ).is_none() {
        return None;
    }
    match validate_key(parts.as_slice(), basis) {
        Err(e) => {
            return Some(Err(e));
        },
        Ok(()) => {},
    }
    let wsum = match weight_sum(parts.as_slice()) {
        Some(s) => s,
        None => {
            return None;
        },
    };
    let ghost expected = allocated_of(basis, wsum@, total@, parts@);
    let mut out: Vec<AllocatedPart> = Vec::new();
    let mut i: usize = 0;
    proof {
        lemma_units_of_zero();
    }
    while i < parts.len()
        invariant
            0 <= i <= parts.len(),
            key_is_valid(parts@, basis),
            Some(wsum@) == running_sum(weights(parts@)),
            units_of((0int, 0nat, false)) == 0,
            Dec::spec_zero()@ == (0int, 0nat, false),
            out@.len() == i,
            forall|j: int| 0 <= j < i ==> #[trigger] share_of(basis, parts@[j].weight@, wsum@, total@) is Some,
            forall|j: int|
                0 <= j < i ==> {
                    &&& (#[trigger] out@[j]).key@ == parts@[j].key@
                    &&& out@[j].weight == parts@[j].weight
                    &&& Some(out@[j].share@) == share_of(basis, parts@[j].weight@, wsum@, total@)
                    &&& out@[j].allocated == capped_share(out@[j].share, parts@[j].capacity)
                    &&& out@[j].allocated.units() >= 0
                    &&& out@[j].allocated.units() <= out@[j].share.units()
                        || out@[j].allocated.units() == 0
                    &&& out@[j].share@.1 <= 6
                    &&& (basis == AllocationBasis::Proportional && units_of(wsum@) == 0)
                        ==> out@[j].allocated@ == (0int, 0nat, false) && out@[j].share@ == (0int, 0nat, false)
                    &&& (basis == AllocationBasis::Fraction && total.units() >= 0 && product_fits(
                        parts@[j].weight@,
                        total@,
                    )) ==> out@[j].allocated.units() * pow10(28) <= parts@[j].weight.units()
                        * total.units()
                },
            expected == allocated_of(basis, wsum@, total@, parts@),
        decreases parts.len() - i,
    {
        let part = &parts[i];
        let share = match share_for(basis, part.weight, wsum, total) {
            Some(s) => s,
            None => {
                assert(!shares_defined(basis, wsum@, total@, parts@));
                return None;
            },
        };
        let allocated = cap(share, part.capacity);
        proof {
            assert(!has_negative_capacity(parts@[i as int]));
            lemma_sign_of_units(share@);
            if basis == AllocationBasis::Fraction && total.units() >= 0 && product_fits(
                part.weight@,
                total@,
            ) {
                assert(part.weight.units() > 0);
                lemma_pow10_positive(28);
                assert(allocated.units() * pow10(28) <= share.units() * pow10(28)) by (nonlinear_arith)
                    requires
                        allocated.units() <= share.units(),
                        pow10(28) >= 1,
                ;
            }
        }
        out.push(AllocatedPart { key: part.key.clone(), weight: part.weight, share, allocated });
        i = i + 1;
    }
    proof {
        assert(allocated_values(out@) =~= expected);
    }
    let sum = match sum_allocated(&out) {
        Some(s) => s,
        None => {
            return None;
        },
    };
    let residual = match total.checked_sub(&sum) {
        Some(d) => d,
        None => {
            return None;
        },
    };
    let ghost values = allocated_values(out@);
    proof {
        if basis == AllocationBasis::Fraction && total.units() >= 0 && sum_fits(allocated_weights(out@))
            && forall|j: int| 0 <= j < out@.len() ==> product_fits(#[trigger] out@[j].weight@, total@) {
            assert(allocated_weights(out@) =~= weights(parts@));
            assert forall|j: int| 0 <= j < values.len() implies #[trigger] units_of(values[j]) * pow10(
                28,
            ) <= units_of(weights(parts@)[j]) * total.units() by {
                assert(values[j] == out@[j].allocated@);
                assert(weights(parts@)[j] == parts@[j].weight@);
                assert(product_fits(out@[j].weight@, total@));
            }
            lemma_scaled_sum_bound(values, weights(parts@), total.units());
            lemma_pow10_positive(28);
            let ws = sum_units(weights(parts@));
            assert(ws <= pow10(28));
            assert(sum_units(values) <= total.units()) by (nonlinear_arith)
                requires
                    sum_units(values) * pow10(28) <= ws * total.units(),
                    ws <= pow10(28),
                    total.units() >= 0,
                    pow10(28) >= 1,
            ;
        }
        if sum_fits(values.push(total@)) {
            lemma_difference_exact(values, total@, sum@);
        }
        if basis == AllocationBasis::Proportional && units_of(wsum@) == 0 {
            assert forall|j: int| 0 <= j < values.len() implies values[j] == (0int, 0nat, false) by {
                assert(values[j] == out@[j].allocated@);
            }
            lemma_zero_values(values);
            use_type_invariant(&total);
            lemma_units_within_limit(total@);
            lemma_sign_of_units(sum@);
        }
    }
    Some(Ok(AllocationRow { total, parts: out, residual }))
}

/// Divide `total` across `parts`, and report what was left over.
///
/// ```text
/// share_i     = cut(weight_i × total)                 Fraction
///             = cut(weight_i ÷ Σ weight × total)      Proportional
/// allocated_i = min(capacity_i, share_i), never below zero
/// residual    = total − Σ allocated
/// ```
///
/// With a zero weight sum under `Proportional` every share is zero and the
/// whole total is the residual. The key is checked first, as
/// [`validate_key`] checks it.
pub fn allocate(total: Dec, parts: Vec<AllocationPart>, basis: AllocationBasis) -> (r: Result<AllocationRow, AllocationError>)
    requires
        allocation_defined(total, parts@, basis),
    ensures
        allocation_result(total, parts@, basis, r),
        r matches Ok(row) ==> allocation_laws(row, basis, running_sum(weights(parts@))->0),
{
    match allocate_checked(total, &parts, basis) {
        Some(res) => res,
        None => {
            proof {
                assert(false);
            }
            Err(AllocationError::InvalidFractions { sum: total })
        },
    }
}

/// [`allocate`] where rust_decimal overflows nowhere on the inputs; `None`
/// where it would.
pub fn try_allocate(total: Dec, parts: Vec<AllocationPart>, basis: AllocationBasis) -> (r: Option<Result<AllocationRow, AllocationError>>)
    ensures
        r is Some <==> allocation_defined(total, parts@, basis),
        r matches Some(res) ==> allocation_result(total, parts@, basis, res),
        r matches Some(Ok(row)) ==> allocation_laws(row, basis, running_sum(weights(parts@))->0),
{
    if allocate_checked(total, &parts, basis).is_some() {
        Some(allocate(total, parts, basis))
    } else {
        None
    }
}


} // verus!
