//! Mehr-/Mindermengensaldo (GPKE Teil 1 Kap. 8.4, GaBi Gas 2.1 Ziff. 3a).
//!
//! Both quantities are named from the network operator's side: consuming
//! less than the profile leaves a **Mehrmenge**, which the Netzbetreiber
//! credits; consuming more is a **Mindermenge**, which it invoices.
//!
//! ```text
//! Mehr-Menge   = max(0, contracted − actual)
//! Minder-Menge = max(0, actual − contracted)
//! ```

use vstd::prelude::*;

use crate::conversion::{product_of, quotient_of};
use crate::decimal::{
    abs_int, decimal_checked_sub, exact_at_larger_scale, units_of, view_of, Dec,
};

verus! {

/// Result of a Mehr-/Mindermengensaldo calculation.
#[derive(Debug, Clone, Copy, PartialEq, Eq)]
pub struct ImbalanceSaldo {
    /// Actual metered energy in kWh.
    pub actual_kwh: Dec,
    /// Contracted / profile energy in kWh.
    pub contracted_kwh: Dec,
    /// Mehr-Menge, `max(0, contracted − actual)`: the NB owes the LF.
    pub mehr_kwh: Dec,
    /// Minder-Menge, `max(0, actual − contracted)`: the LF owes the NB.
    pub minder_kwh: Dec,
    /// Signed delta `actual − contracted`; positive is a Mindermenge.
    pub delta_kwh: Dec,
}

/// `delta ÷ contracted × 100` as rust_decimal computes it: `Some(None)` for
/// a zero contracted quantity, `None` where the arithmetic overflows.
pub open spec fn spec_delta_pct(delta: (int, nat, bool), contracted: (int, nat, bool)) -> Option<Option<(int, nat, bool)>> {
    if units_of(contracted) == 0 {
        Some(None)
    } else {
        match product_of(quotient_of(Some(delta), Some(contracted)), Some((100int, 0nat, false))) {
            Some(p) => Some(Some(p)),
            None => None,
        }
    }
}

impl ImbalanceSaldo {
    /// `true` when there is a Mehrmengen position (a credit to the LF).
    pub fn is_mehr(&self) -> (r: bool)
        ensures
            r == (self.mehr_kwh.units() > 0),
    {
        proof {
            crate::decimal::lemma_units_of_zero();
        }
        self.mehr_kwh.gt(&Dec::zero())
    }

    /// `true` when there is a Mindermengen position (a charge to the LF).
    pub fn is_minder(&self) -> (r: bool)
        ensures
            r == (self.minder_kwh.units() > 0),
    {
        proof {
            crate::decimal::lemma_units_of_zero();
        }
        self.minder_kwh.gt(&Dec::zero())
    }

    /// `true` when actual equals contracted.
    pub fn is_balanced(&self) -> (r: bool)
        ensures
            r == (self.delta_kwh.units() == 0),
    {
        self.delta_kwh.is_zero()
    }

    /// Absolute imbalance in kWh.
    pub fn magnitude_kwh(&self) -> (r: Dec)
        ensures
            r@ == (abs_int(self.delta_kwh@.0), self.delta_kwh@.1, false),
            r.units() == abs_int(self.delta_kwh.units()),
    {
        self.delta_kwh.abs()
    }

    fn delta_pct_checked(&self) -> (r: Option<Option<Dec>>)
        ensures
            match r {
                Some(p) => Some(view_of(p)) == spec_delta_pct(self.delta_kwh@, self.contracted_kwh@),
                None => spec_delta_pct(self.delta_kwh@, self.contracted_kwh@) is None,
            },
    {
        if self.contracted_kwh.is_zero() {
            return Some(None);
        }
        match self.delta_kwh.checked_div(&self.contracted_kwh) {
            Some(q) => match q.checked_mul(&Dec::from_u64(100)) {
                Some(p) => Some(Some(p)),
                None => None,
            },
            None => None,
        }
    }

    /// The imbalance as a percentage of the contracted quantity; `None` when
    /// that is zero.
    pub fn delta_pct(&self) -> (r: Option<Dec>)
        requires
            spec_delta_pct(self.delta_kwh@, self.contracted_kwh@) is Some,
        ensures
            Some(view_of(r)) == spec_delta_pct(self.delta_kwh@, self.contracted_kwh@),
            r is None <==> self.contracted_kwh.units() == 0,
    {
        match self.delta_pct_checked() {
            Some(p) => p,
            None => {
                proof {
                    assert(false);
                }
                None
            },
        }
    }

    /// [`delta_pct`](Self::delta_pct), or `None` where rust_decimal would
    /// overflow.
    pub fn checked_delta_pct(&self) -> (r: Option<Option<Dec>>)
        ensures
            match r {
                Some(p) => Some(view_of(p)) == spec_delta_pct(self.delta_kwh@, self.contracted_kwh@),
                None => spec_delta_pct(self.delta_kwh@, self.contracted_kwh@) is None,
            },
    {
        if self.delta_pct_checked().is_some() {
            Some(self.delta_pct())
        } else {
            None
        }
    }
}

/// `s` is the saldo of `actual` against `contracted` with delta `d`: the
/// inputs kept, the Mehrmenge `−d` where that is positive and else zero, the
/// Mindermenge `d` where that is positive and else zero.
pub open spec fn is_saldo_of(s: ImbalanceSaldo, actual: Dec, contracted: Dec, d: Dec) -> bool {
    &&& s.actual_kwh == actual
    &&& s.contracted_kwh == contracted
    &&& s.delta_kwh == d
    &&& s.mehr_kwh@ == (if d.units() > 0 {
        (0int, 0nat, false)
    } else {
        (-d@.0, d@.1, !d@.2)
    })
    &&& s.minder_kwh@ == (if d.units() < 0 {
        (0int, 0nat, false)
    } else {
        d@
    })
}

fn saldo_of(actual_kwh: Dec, contracted_kwh: Dec, delta: Dec) -> (r: ImbalanceSaldo)
    ensures
        is_saldo_of(r, actual_kwh, contracted_kwh, delta),
        r.mehr_kwh.units() == (if delta.units() < 0 { -delta.units() } else { 0 }),
        r.minder_kwh.units() == (if delta.units() > 0 { delta.units() } else { 0 }),
{
    proof {
        crate::decimal::lemma_units_of_zero();
    }
    // Under-consumption is the Mehrmenge; over-consumption the Mindermenge.
    let mehr = delta.neg().max(Dec::zero());
    let minder = delta.max(Dec::zero());
    ImbalanceSaldo {
        actual_kwh,
        contracted_kwh,
        mehr_kwh: mehr,
        minder_kwh: minder,
        delta_kwh: delta,
    }
}

/// The Mehr-/Mindermengensaldo of a billing period. The delta is
/// `actual − contracted` as rust_decimal computes it, exact wherever both
/// operands and the difference fit at the larger scale; of the Mehr- and the
/// Mindermenge at most one is positive, and the Mehrmenge less the
/// Mindermenge is `−delta`.
pub fn compute_imbalance(actual_kwh: Dec, contracted_kwh: Dec) -> (r: ImbalanceSaldo)
    requires
        decimal_checked_sub(actual_kwh@, contracted_kwh@) is Some,
    ensures
        Some(r.delta_kwh@) == decimal_checked_sub(actual_kwh@, contracted_kwh@),
        is_saldo_of(r, actual_kwh, contracted_kwh, r.delta_kwh),
        exact_at_larger_scale(actual_kwh@, contracted_kwh@, actual_kwh.units() - contracted_kwh.units())
            ==> r.delta_kwh.units() == actual_kwh.units() - contracted_kwh.units(),
        !(r.mehr_kwh.units() > 0 && r.minder_kwh.units() > 0),
        r.mehr_kwh.units() >= 0 && r.minder_kwh.units() >= 0,
        r.mehr_kwh.units() - r.minder_kwh.units() == -r.delta_kwh.units(),
{
    match actual_kwh.checked_sub(&contracted_kwh) {
        Some(delta) => saldo_of(actual_kwh, contracted_kwh, delta),
        None => {
            proof {
                assert(false);
            }
            saldo_of(actual_kwh, contracted_kwh, actual_kwh)
        },
    }
}

/// [`compute_imbalance`], or `None` where the difference overflows.
pub fn checked_compute_imbalance(actual_kwh: Dec, contracted_kwh: Dec) -> (r: Option<ImbalanceSaldo>)
    ensures
        r is Some <==> decimal_checked_sub(actual_kwh@, contracted_kwh@) is Some,
        r matches Some(s) ==> Some(s.delta_kwh@) == decimal_checked_sub(actual_kwh@, contracted_kwh@)
            && is_saldo_of(s, actual_kwh, contracted_kwh, s.delta_kwh),
{
    match actual_kwh.checked_sub(&contracted_kwh) {
        Some(_) => Some(compute_imbalance(actual_kwh, contracted_kwh)),
        None => None,
    }
}

} // verus!
