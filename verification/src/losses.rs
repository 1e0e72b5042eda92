//! Netzverlust, a grid-loss indicator (§ 22 EnWG): the balance over a grid
//! area, `Verlust = Σ Einspeisung − Σ Entnahme`. An indicator, not a
//! settlement quantity: unmetered infeed or offtake shows up as phantom loss
//! or gain.

use vstd::prelude::*;

use crate::conversion::{product_of, quotient_of};
use crate::decimal::{decimal_checked_sub, round_half_away, units_of, view_of, Dec};

verus! {

/// Result of a grid-loss balance over one period.
#[derive(Debug, Clone, Copy, PartialEq, Eq)]
pub struct NetworkLosses {
    /// Total energy fed into the grid area, in kWh.
    pub einspeisung_kwh: Dec,
    /// Total energy taken out of the grid area, in kWh.
    pub entnahme_kwh: Dec,
    /// `einspeisung − entnahme`: positive is physical losses (plus any
    /// unmetered offtake), negative a metering-coverage gap on the infeed.
    pub verlust_kwh: Dec,
    /// Loss share of the infeed in percent, to two places; `None` when
    /// nothing was fed in.
    pub verlust_prozent: Option<Dec>,
}

/// The loss share in percent: `verlust ÷ einspeisung × 100`, rounded
/// kaufmännisch to two places; `Some(None)` when nothing was fed in, `None`
/// where the arithmetic overflows.
pub open spec fn spec_loss_share(verlust: (int, nat, bool), einspeisung: (int, nat, bool)) -> Option<Option<(int, nat, bool)>> {
    if units_of(einspeisung) > 0 {
        match product_of(quotient_of(Some(verlust), Some(einspeisung)), Some((100int, 0nat, false))) {
            Some(p) => Some(Some(round_half_away(p, 2))),
            None => None,
        }
    } else {
        Some(None)
    }
}

/// The inputs on which [`network_losses`] computes without an overflow.
pub open spec fn losses_defined(einspeisung: (int, nat, bool), entnahme: (int, nat, bool)) -> bool {
    match decimal_checked_sub(einspeisung, entnahme) {
        Some(v) => spec_loss_share(v, einspeisung) is Some,
        None => false,
    }
}

/// `l` is the balance of `einspeisung` against `entnahme`.
pub open spec fn is_losses_of(l: NetworkLosses, einspeisung: Dec, entnahme: Dec) -> bool {
    &&& l.einspeisung_kwh == einspeisung
    &&& l.entnahme_kwh == entnahme
    &&& Some(l.verlust_kwh@) == decimal_checked_sub(einspeisung@, entnahme@)
    &&& Some(view_of(l.verlust_prozent)) == spec_loss_share(l.verlust_kwh@, einspeisung@)
}

fn losses_checked(einspeisung_kwh: Dec, entnahme_kwh: Dec) -> (r: Option<NetworkLosses>)
    ensures
        r is Some <==> losses_defined(einspeisung_kwh@, entnahme_kwh@),
        r matches Some(l) ==> is_losses_of(l, einspeisung_kwh, entnahme_kwh),
{
    let verlust_kwh = match einspeisung_kwh.checked_sub(&entnahme_kwh) {
        Some(v) => v,
        None => return None,
    };
    proof {
        crate::decimal::lemma_units_of_zero();
    }
    let verlust_prozent = if einspeisung_kwh.gt(&Dec::zero()) {
        match verlust_kwh.checked_div(&einspeisung_kwh) {
            Some(q) => match q.checked_mul(&Dec::from_u64(100)) {
                Some(p) => Some(p.round_dp_away(2)),
                None => return None,
            },
            None => return None,
        }
    } else {
        None
    };
    Some(NetworkLosses { einspeisung_kwh, entnahme_kwh, verlust_kwh, verlust_prozent })
}

/// The grid-loss balance from period totals: the loss `einspeisung −
/// entnahme`, and its share of a positive infeed in percent.
pub fn network_losses(einspeisung_kwh: Dec, entnahme_kwh: Dec) -> (r: NetworkLosses)
    requires
        losses_defined(einspeisung_kwh@, entnahme_kwh@),
    ensures
        is_losses_of(r, einspeisung_kwh, entnahme_kwh),
        r.verlust_prozent is None <==> einspeisung_kwh.units() <= 0,
{
    match losses_checked(einspeisung_kwh, entnahme_kwh) {
        Some(l) => l,
        None => {
            proof {
                assert(false);
            }
            NetworkLosses {
                einspeisung_kwh,
                entnahme_kwh,
                verlust_kwh: einspeisung_kwh,
                verlust_prozent: None,
            }
        },
    }
}

/// [`network_losses`], or `None` where rust_decimal would overflow.
pub fn checked_network_losses(einspeisung_kwh: Dec, entnahme_kwh: Dec) -> (r: Option<NetworkLosses>)
    ensures
        r is Some <==> losses_defined(einspeisung_kwh@, entnahme_kwh@),
        r matches Some(l) ==> is_losses_of(l, einspeisung_kwh, entnahme_kwh),
{
    if losses_checked(einspeisung_kwh, entnahme_kwh).is_some() {
        Some(network_losses(einspeisung_kwh, entnahme_kwh))
    } else {
        None
    }
}

} // verus!
