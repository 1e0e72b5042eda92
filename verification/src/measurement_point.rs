//! A measurement point: one OBIS register on one meter, bound to the market
//! location it is billed against for a stated validity period; with the
//! market roles around it ([`MarktRolle`]) and the direction energy flows at
//! it ([`EnergyFlow`]).

use vstd::prelude::*;

use crate::calendar::{date_before, CalendarDate};
use crate::decimal::{decimal_checked_mul, exact_product, max_mantissa, abs_int, view_of, Dec};
use crate::interval::Sparte;
use crate::obis::{ObisCode, RegisterUnit};

verus! {

/// Market role responsible for a measurement point (BDEW Rollenmodell).
#[derive(Debug, Clone, Copy, PartialEq, Eq, Hash, Structural)]
pub enum MarktRolle {
    /// Netzbetreiber — owns grid metering for supply accounting.
    Nb,
    /// Lieferant — owns load forecasting and billing.
    Lf,
    /// Messstellenbetreiber — physically operates the meter.
    Msb,
    /// Bilanzkreisverantwortlicher — balance group management.
    Bkv,
    /// Übertragungsnetzbetreiber (Strom) / FNB (Gas).
    Uenb,
    /// Einspeiseverantwortlicher — responsible for feed-in control.
    Eiv,
    /// Direktvermarkter — direct marketing of renewable energy.
    Direktvermarkter,
    /// Marktgebietsverantwortlicher (Gas).
    Mgv,
    /// Energieserviceanbieter des Anschlussnutzers (iMSys context).
    Esa,
}

impl MarktRolle {
    pub open spec fn spec_abbreviation(self) -> Seq<char> {
        match self {
            Self::Nb => "NB"@,
            Self::Lf => "LF"@,
            Self::Msb => "MSB"@,
            Self::Bkv => "BKV"@,
            Self::Uenb => "ÜNB"@,
            Self::Eiv => "EIV"@,
            Self::Direktvermarkter => "DV"@,
            Self::Mgv => "MGV"@,
            Self::Esa => "ESA"@,
        }
    }

    /// The BDEW abbreviation.
    pub fn abbreviation(self) -> (r: &'static str)
        ensures
            r@ == self.spec_abbreviation(),
    {
        match self {
            Self::Nb => "NB",
            Self::Lf => "LF",
            Self::Msb => "MSB",
            Self::Bkv => "BKV",
            Self::Uenb => "ÜNB",
            Self::Eiv => "EIV",
            Self::Direktvermarkter => "DV",
            Self::Mgv => "MGV",
            Self::Esa => "ESA",
        }
    }

    pub open spec fn spec_is_mscons_receiver(self) -> bool {
        self is Lf || self is Bkv || self is Mgv || self is Direktvermarkter
    }

    /// `true` for the roles that receive meter data via MSCONS from NB/MSB:
    /// Lieferant, BKV, MGV and Direktvermarkter.
    pub fn is_mscons_receiver(self) -> (r: bool)
        ensures
            r == self.spec_is_mscons_receiver(),
    {
        matches!(self, Self::Lf | Self::Bkv | Self::Mgv | Self::Direktvermarkter)
    }
}

/// Which way energy flows at a measurement point — master data, a statement
/// of what the point is for.
#[derive(Debug, Clone, Copy, PartialEq, Eq, Hash, Structural)]
pub enum EnergyFlow {
    /// Consumption — energy drawn from the grid.
    Consumption,
    /// Generation — energy fed into the grid (Einspeisung).
    Generation,
    /// Storage charging: consumption from the grid's point of view.
    StorageCharge,
    /// Storage discharging: generation from the grid's point of view.
    StorageDischarge,
    /// Bidirectional — a four-quadrant meter where neither direction is the
    /// point's purpose.
    Bidirectional,
}

impl EnergyFlow {
    /// Every variant, in declaration order.
    pub const ALL: [Self; 5] = [
        Self::Consumption,
        Self::Generation,
        Self::StorageCharge,
        Self::StorageDischarge,
        Self::Bidirectional,
    ];

    pub open spec fn spec_draws_from_grid(self) -> bool {
        self is Consumption || self is StorageCharge
    }

    pub open spec fn spec_feeds_grid(self) -> bool {
        self is Generation || self is StorageDischarge
    }

    pub open spec fn spec_is_storage(self) -> bool {
        self is StorageCharge || self is StorageDischarge
    }

    /// `true` when energy flows out of the grid at this point — consumption,
    /// or a storage unit charging.
    pub fn draws_from_grid(self) -> (r: bool)
        ensures
            r == self.spec_draws_from_grid(),
    {
        matches!(self, Self::Consumption | Self::StorageCharge)
    }

    /// `true` when energy flows into the grid at this point — generation, or
    /// a storage unit discharging.
    pub fn feeds_grid(self) -> (r: bool)
        ensures
            r == self.spec_feeds_grid(),
    {
        matches!(self, Self::Generation | Self::StorageDischarge)
    }

    /// `true` for a storage point in either direction.
    pub fn is_storage(self) -> (r: bool)
        ensures
            r == self.spec_is_storage(),
    {
        matches!(self, Self::StorageCharge | Self::StorageDischarge)
    }

    /// No point both draws from and feeds the grid, and a storage point does
    /// exactly one of the two.
    pub proof fn lemma_direction_is_exclusive(f: Self)
        ensures
            !(f.spec_draws_from_grid() && f.spec_feeds_grid()),
            f.spec_is_storage() ==> (f.spec_draws_from_grid() != f.spec_feeds_grid()),
    {
    }
}


/// The complete context of a meter register: Marktlokation, Messlokation,
/// OBIS register, accountable market role and energy-flow direction, for a
/// validity period.
#[derive(Debug, Clone)]
pub struct MeasurementPoint {
    /// 11-digit Marktlokations-ID (billing reference).
    pub malo_id: String,
    /// 33-character Messlokations-ID; `None` for SLP customers without one.
    pub melo_id: Option<String>,
    /// Physical meter serial number; `None` for virtual meters.
    pub meter_serial: Option<String>,
    /// OBIS code identifying the register on the meter.
    pub obis_code: ObisCode,
    /// Energy commodity.
    pub sparte: Sparte,
    /// Energy-flow direction of the register, as master data.
    pub energy_flow: EnergyFlow,
    /// Market role accountable for the measurement point.
    pub accountable_role: MarktRolle,
    /// 13-digit BDEW or DVGW Codenummer of the accountable participant.
    pub accountable_mp_id: String,
    /// `true` for a virtual or derived measurement point (GGV, Residuallast).
    pub is_virtual: bool,
    /// Multiplier from the raw counter display to the real quantity
    /// (Wandlerfaktor); every `MeterInterval` is already post-Wandler.
    pub wandler_factor: Dec,
    /// Validity start, German local date, inclusive.
    pub valid_from: CalendarDate,
    /// Validity end, German local date, inclusive; `None` while active.
    pub valid_to: Option<CalendarDate>,
}

impl MeasurementPoint {
    /// Active on `on_date`: not before the start, and not after the end.
    pub open spec fn spec_is_active(&self, on_date: CalendarDate) -> bool {
        &&& !date_before(on_date, self.valid_from)
        &&& match self.valid_to {
            Some(end) => !date_before(end, on_date),
            None => true,
        }
    }

    /// Bezug, decided by the OBIS code where it carries a direction and by
    /// the master data where it does not.
    pub open spec fn spec_is_bezug(&self) -> bool {
        if self.obis_code.spec_is_import() {
            true
        } else if self.obis_code.spec_is_export() {
            false
        } else {
            self.energy_flow == EnergyFlow::Consumption
        }
    }

    /// Einspeisung, the mirror of [`spec_is_bezug`](Self::spec_is_bezug).
    pub open spec fn spec_is_einspeisung(&self) -> bool {
        if self.obis_code.spec_is_export() {
            true
        } else if self.obis_code.spec_is_import() {
            false
        } else {
            self.energy_flow == EnergyFlow::Generation
        }
    }

    /// `true` when the point is active on the given date.
    pub fn is_active(&self, on_date: CalendarDate) -> (r: bool)
        ensures
            r == self.spec_is_active(on_date),
    {
        if on_date.is_before(self.valid_from) {
            return false;
        }
        match self.valid_to {
            Some(end) => !end.is_before(on_date),
            None => true,
        }
    }

    /// `true` when the point measures Bezug, energy drawn from the grid:
    /// the OBIS code decides, the energy flow only where the code carries
    /// no direction.
    pub fn is_bezug(&self) -> (r: bool)
        ensures
            r == self.spec_is_bezug(),
    {
        if self.obis_code.is_import() {
            return true;
        }
        if self.obis_code.is_export() {
            return false;
        }
        matches!(self.energy_flow, EnergyFlow::Consumption)
    }

    /// `true` when the point measures Einspeisung, energy fed into the grid.
    pub fn is_einspeisung(&self) -> (r: bool)
        ensures
            r == self.spec_is_einspeisung(),
    {
        if self.obis_code.is_export() {
            return true;
        }
        if self.obis_code.is_import() {
            return false;
        }
        matches!(self.energy_flow, EnergyFlow::Generation)
    }

    /// `true` when the point measures reactive energy or power.
    pub fn is_reactive(&self) -> (r: bool)
        ensures
            r == self.obis_code.spec_is_reactive(),
    {
        self.obis_code.is_reactive()
    }

    /// `true` when the point measures gas.
    pub fn is_gas(&self) -> (r: bool)
        ensures
            r == (self.sparte == Sparte::Gas),
    {
        matches!(self.sparte, Sparte::Gas)
    }

    /// The unit the register counts in, derived from the OBIS code.
    pub fn unit(&self) -> (r: Option<RegisterUnit>)
        ensures
            r == self.obis_code.spec_register_unit(),
    {
        self.obis_code.register_unit()
    }

    /// Tariff register: `None` for the total, 1 for HT, 2 for NT.
    pub fn tariff_register(&self) -> (r: Option<u8>)
        ensures
            r == self.obis_code.spec_tariff_register(),
    {
        self.obis_code.tariff_register()
    }

    /// Apply the Wandlerfaktor to a raw counter reading — only ever to a
    /// value straight off the meter display.
    pub fn apply_wandler(&self, raw_display_value: Dec) -> (r: Dec)
        requires
            decimal_checked_mul(raw_display_value@, self.wandler_factor@) is Some,
        ensures
            Some(r@) == decimal_checked_mul(raw_display_value@, self.wandler_factor@),
            raw_display_value@.1 + self.wandler_factor@.1 <= 28 && abs_int(
                raw_display_value@.0 * self.wandler_factor@.0,
            ) <= max_mantissa() ==> r@ == exact_product(raw_display_value@, self.wandler_factor@),
    {
        match raw_display_value.checked_mul(&self.wandler_factor) {
            Some(v) => v,
            None => {
                proof {
                    assert(false);
                }
                raw_display_value
            },
        }
    }

    /// [`apply_wandler`](Self::apply_wandler), or `None` where the product
    /// overflows.
    pub fn checked_apply_wandler(&self, raw_display_value: Dec) -> (r: Option<Dec>)
        ensures
            view_of(r) == decimal_checked_mul(raw_display_value@, self.wandler_factor@),
    {
        match raw_display_value.checked_mul(&self.wandler_factor) {
            Some(_) => Some(self.apply_wandler(raw_display_value)),
            None => None,
        }
    }

    /// Bezug and Einspeisung are never both true of a measurement point,
    /// whatever its OBIS code and energy flow.
    pub proof fn lemma_direction_exclusive(mp: MeasurementPoint)
        ensures
            !(mp.spec_is_bezug() && mp.spec_is_einspeisung()),
    {
    }
}

} // verus!
