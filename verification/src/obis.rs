//! Typed OBIS codes (IEC 62056-6-1 / EDI@Energy *Codeliste der
//! OBIS-Kennzahlen*): `A-B:C.D.E*F`.
//!
//! ## One code, one string
//!
//! All six value groups are stored, so two spellings of one channel are one
//! value. [`ObisCode::to_string`] writes the reduced form `1-0:1.8.0`, omitting
//! `*F` when F is 255 ("not applicable"); [`ObisCode::to_full_string`] always
//! writes it. Parsing is lenient — `*F`, leading zeros and surrounding
//! whitespace are optional — and every accepted spelling maps onto the one
//! canonical output, so parsing what [`ObisCode::to_string`] wrote gives the
//! code back.
//!
//! ## Value groups
//!
//! | Group | Meaning |
//! |---|---|
//! | A | medium: 1 electricity, 4 Heizkostenverteiler, 5 cooling, 6 heat, 7 gas, 8 cold water, 9 hot water |
//! | B | channel |
//! | C | Messgröße — for electricity 1 = Bezug, 2 = Lieferung, 3…8 reactive |
//! | D | Messart — 6 Maximum, 7 Momentanwert, 8 Zählerstand, 9 Vorschub, 29 Lastgang |
//! | E | Tarifstufe — 0 total, 1 HT, 2 NT, … 62, and 63 the Fehlerregister |
//! | F | Vorwertzählerstand — 255 when not used |

use vstd::prelude::*;
use vstd::seq_lib::lemma_concat_associative;
use vstd::utf8::is_ascii_chars;

use crate::error::{Expected, ParseError};
use crate::interval::Direction;
use crate::resolution::IntervalResolution;
use crate::text::{
    all_digits, chars_of, find, find_in, group, group_in, is_digit, is_first, lemma_code_is_canonical,
    lemma_find_absent, lemma_find_is_first, lemma_u8_text, push_u8, str_eq, to_uppercase, trim, trimmed, u8_text, uppercased, trim_start_ws, trim_end_ws,
};

verus! {
/// A parsed OBIS code: `A-B:C.D.E*F`.
///
/// Ordering is lexicographic by value group (A, then B, … then F).
#[derive(Debug, Clone, Copy, PartialEq, Eq, PartialOrd, Ord, Hash, Structural)]
pub struct ObisCode {
    /// Medium: 1 = electricity, 5 = cooling, 6 = heat, 7 = gas, 8 = cold
    /// water, 9 = hot water, 4 = Heizkostenverteiler.
    pub a: u8,
    /// Kanal.
    pub b: u8,
    /// Messgröße; for electricity **direction lives here** (1 Bezug, 2
    /// Lieferung).
    pub c: u8,
    /// Messart — never a direction: 6 = Maximum, 8 = Zählerstand,
    /// 9 = Vorschub, 29 = Lastgang, 7 = Momentanwert.
    pub d: u8,
    /// Tarifstufe: 0 = Total, 1 = HT, 2 = NT, … up to 62, and 63 for the
    /// Fehlerregister.
    pub e: u8,
    /// Vorwertzählerstand: 255 = not applicable.
    pub f: u8,
}

/// The shape [`ObisCode`] accepts, as rendered in a [`ParseError`].
pub const OBIS_FORMAT: &'static str = "A-B:C.D.E*F, e.g. 1-0:1.8.0 (the *F suffix is optional)";

impl ObisCode {
    /// Value group F when the storage / billing-period group does not apply.
    pub const STORAGE_UNUSED: u8 = 255;

    /// The longest string any code renders as: `255-255:255.255.255*255`.
    pub const MAX_LEN: usize = 23;

    /// Value group E of the Fehlerregister, which counts faults and is not a
    /// tariff.
    pub const TARIFF_FEHLERREGISTER: u8 = 63;

    /// Electricity forward active energy — total (`1-0:1.8.0`).
    #[allow(non_snake_case)]
    pub fn STROM_BEZUG_TOTAL() -> (r: Self)
        ensures
            r == (Self { a: 1, b: 0, c: 1, d: 8, e: 0, f: 255 }),
    {
        Self { a: 1, b: 0, c: 1, d: 8, e: 0, f: 255 }
    }

    /// Electricity forward active energy — register 1, HT (`1-0:1.8.1`).
    #[allow(non_snake_case)]
    pub fn STROM_BEZUG_HT() -> (r: Self)
        ensures
            r == (Self { a: 1, b: 0, c: 1, d: 8, e: 1, f: 255 }),
    {
        Self { a: 1, b: 0, c: 1, d: 8, e: 1, f: 255 }
    }

    /// Electricity forward active energy — register 2, NT (`1-0:1.8.2`).
    #[allow(non_snake_case)]
    pub fn STROM_BEZUG_NT() -> (r: Self)
        ensures
            r == (Self { a: 1, b: 0, c: 1, d: 8, e: 2, f: 255 }),
    {
        Self { a: 1, b: 0, c: 1, d: 8, e: 2, f: 255 }
    }

    /// Electricity reverse active energy — total, Einspeisung (`1-0:2.8.0`).
    #[allow(non_snake_case)]
    pub fn STROM_EINSPEISUNG_TOTAL() -> (r: Self)
        ensures
            r == (Self { a: 1, b: 0, c: 2, d: 8, e: 0, f: 255 }),
    {
        Self { a: 1, b: 0, c: 2, d: 8, e: 0, f: 255 }
    }

    /// Electricity reverse active energy — register 1 (`1-0:2.8.1`).
    #[allow(non_snake_case)]
    pub fn STROM_EINSPEISUNG_HT() -> (r: Self)
        ensures
            r == (Self { a: 1, b: 0, c: 2, d: 8, e: 1, f: 255 }),
    {
        Self { a: 1, b: 0, c: 2, d: 8, e: 1, f: 255 }
    }

    /// Electricity reverse active energy — register 2 (`1-0:2.8.2`).
    #[allow(non_snake_case)]
    pub fn STROM_EINSPEISUNG_NT() -> (r: Self)
        ensures
            r == (Self { a: 1, b: 0, c: 2, d: 8, e: 2, f: 255 }),
    {
        Self { a: 1, b: 0, c: 2, d: 8, e: 2, f: 255 }
    }

    /// Wirkarbeit Bezug — Lastgang (`1-0:1.29.0`), energy per interval in kWh.
    #[allow(non_snake_case)]
    pub fn STROM_BEZUG_LASTGANG() -> (r: Self)
        ensures
            r == (Self { a: 1, b: 0, c: 1, d: 29, e: 0, f: 255 }),
    {
        Self { a: 1, b: 0, c: 1, d: 29, e: 0, f: 255 }
    }

    /// Wirkarbeit Lieferung — Lastgang Einspeisung (`1-0:2.29.0`).
    #[allow(non_snake_case)]
    pub fn STROM_EINSPEISUNG_LASTGANG() -> (r: Self)
        ensures
            r == (Self { a: 1, b: 0, c: 2, d: 29, e: 0, f: 255 }),
    {
        Self { a: 1, b: 0, c: 2, d: 29, e: 0, f: 255 }
    }

    /// Wirkleistung Bezug — Maximum (`1-0:1.6.0`), in kW.
    #[allow(non_snake_case)]
    pub fn STROM_BEZUG_MAXIMUM() -> (r: Self)
        ensures
            r == (Self { a: 1, b: 0, c: 1, d: 6, e: 0, f: 255 }),
    {
        Self { a: 1, b: 0, c: 1, d: 6, e: 0, f: 255 }
    }

    /// Wirkarbeit Bezug — Vorschub (`1-0:1.9.0`).
    #[allow(non_snake_case)]
    pub fn STROM_BEZUG_VORSCHUB() -> (r: Self)
        ensures
            r == (Self { a: 1, b: 0, c: 1, d: 9, e: 0, f: 255 }),
    {
        Self { a: 1, b: 0, c: 1, d: 9, e: 0, f: 255 }
    }

    /// Blindarbeit positiv — Zählerstand (`1-0:3.8.0`).
    #[allow(non_snake_case)]
    pub fn STROM_BLINDARBEIT_POSITIV() -> (r: Self)
        ensures
            r == (Self { a: 1, b: 0, c: 3, d: 8, e: 0, f: 255 }),
    {
        Self { a: 1, b: 0, c: 3, d: 8, e: 0, f: 255 }
    }

    /// Blindarbeit negativ — Zählerstand (`1-0:4.8.0`).
    #[allow(non_snake_case)]
    pub fn STROM_BLINDARBEIT_NEGATIV() -> (r: Self)
        ensures
            r == (Self { a: 1, b: 0, c: 4, d: 8, e: 0, f: 255 }),
    {
        Self { a: 1, b: 0, c: 4, d: 8, e: 0, f: 255 }
    }

    /// Blindarbeit Quadrant I (`1-0:5.8.0`).
    #[allow(non_snake_case)]
    pub fn STROM_BLINDARBEIT_Q1() -> (r: Self)
        ensures
            r == (Self { a: 1, b: 0, c: 5, d: 8, e: 0, f: 255 }),
    {
        Self { a: 1, b: 0, c: 5, d: 8, e: 0, f: 255 }
    }

    /// Blindarbeit Quadrant II (`1-0:6.8.0`).
    #[allow(non_snake_case)]
    pub fn STROM_BLINDARBEIT_Q2() -> (r: Self)
        ensures
            r == (Self { a: 1, b: 0, c: 6, d: 8, e: 0, f: 255 }),
    {
        Self { a: 1, b: 0, c: 6, d: 8, e: 0, f: 255 }
    }

    /// Blindarbeit Quadrant III (`1-0:7.8.0`).
    #[allow(non_snake_case)]
    pub fn STROM_BLINDARBEIT_Q3() -> (r: Self)
        ensures
            r == (Self { a: 1, b: 0, c: 7, d: 8, e: 0, f: 255 }),
    {
        Self { a: 1, b: 0, c: 7, d: 8, e: 0, f: 255 }
    }

    /// Blindarbeit Quadrant IV (`1-0:8.8.0`).
    #[allow(non_snake_case)]
    pub fn STROM_BLINDARBEIT_Q4() -> (r: Self)
        ensures
            r == (Self { a: 1, b: 0, c: 8, d: 8, e: 0, f: 255 }),
    {
        Self { a: 1, b: 0, c: 8, d: 8, e: 0, f: 255 }
    }

    /// Gas Betriebsvolumen — Zählerstand, Ausspeisung (`7-0:3.0.0`, m³),
    /// before the Zustandszahl is applied.
    #[allow(non_snake_case)]
    pub fn GAS_VOLUME_M3() -> (r: Self)
        ensures
            r == (Self { a: 7, b: 0, c: 3, d: 0, e: 0, f: 255 }),
    {
        Self { a: 7, b: 0, c: 3, d: 0, e: 0, f: 255 }
    }

    /// Gas Normvolumen umgewertet (`7-0:13.2.0`, m³) — already state-converted.
    #[allow(non_snake_case)]
    pub fn GAS_NORMVOLUMEN_UMGEWERTET() -> (r: Self)
        ensures
            r == (Self { a: 7, b: 0, c: 13, d: 2, e: 0, f: 255 }),
    {
        Self { a: 7, b: 0, c: 13, d: 2, e: 0, f: 255 }
    }

    /// Gas Zustandszahl — Monatsmittelwert (`7-0:52.0.22`).
    #[allow(non_snake_case)]
    pub fn GAS_ZUSTANDSZAHL() -> (r: Self)
        ensures
            r == (Self { a: 7, b: 0, c: 52, d: 0, e: 22, f: 255 }),
    {
        Self { a: 7, b: 0, c: 52, d: 0, e: 22, f: 255 }
    }

    /// Gas Brennwert — Monatsmittelwert (`7-0:54.0.22`, kWh/m³).
    #[allow(non_snake_case)]
    pub fn GAS_BRENNWERT_MONATSMITTEL() -> (r: Self)
        ensures
            r == (Self { a: 7, b: 0, c: 54, d: 0, e: 22, f: 255 }),
    {
        Self { a: 7, b: 0, c: 54, d: 0, e: 22, f: 255 }
    }

    /// Heat energy (kWh_th) — medium 6 (`6-0:1.0.0`).
    #[allow(non_snake_case)]
    pub fn WAERME_ENERGY() -> (r: Self)
        ensures
            r == (Self { a: 6, b: 0, c: 1, d: 0, e: 0, f: 255 }),
    {
        Self { a: 6, b: 0, c: 1, d: 0, e: 0, f: 255 }
    }

    /// Cooling energy (kWh_th) — medium 5 (`5-0:1.0.0`).
    #[allow(non_snake_case)]
    pub fn KAELTE_ENERGY() -> (r: Self)
        ensures
            r == (Self { a: 5, b: 0, c: 1, d: 0, e: 0, f: 255 }),
    {
        Self { a: 5, b: 0, c: 1, d: 0, e: 0, f: 255 }
    }

    /// Cold water volume (m³) — medium 8 (`8-0:1.0.0`).
    #[allow(non_snake_case)]
    pub fn WASSER_KALT_VOLUME() -> (r: Self)
        ensures
            r == (Self { a: 8, b: 0, c: 1, d: 0, e: 0, f: 255 }),
    {
        Self { a: 8, b: 0, c: 1, d: 0, e: 0, f: 255 }
    }

    /// Hot water volume (m³) — medium 9 (`9-0:1.0.0`).
    #[allow(non_snake_case)]
    pub fn WASSER_WARM_VOLUME() -> (r: Self)
        ensures
            r == (Self { a: 9, b: 0, c: 1, d: 0, e: 0, f: 255 }),
    {
        Self { a: 9, b: 0, c: 1, d: 0, e: 0, f: 255 }
    }

    /// `true` for electricity (A = 1).
    pub fn is_electricity(&self) -> (r: bool)
        ensures
            r == (self.a == 1),
    {
        self.a == 1
    }

    /// `true` for gas (A = 7).
    pub fn is_gas(&self) -> (r: bool)
        ensures
            r == (self.a == 7),
    {
        self.a == 7
    }

    /// `true` for thermal energy — cooling (A = 5) or heat (A = 6).
    pub fn is_heat(&self) -> (r: bool)
        ensures
            r == (self.a == 5 || self.a == 6),
    {
        self.a == 5 || self.a == 6
    }

    /// `true` for water — cold (A = 8) or hot (A = 9).
    pub fn is_water(&self) -> (r: bool)
        ensures
            r == (self.a == 8 || self.a == 9),
    {
        self.a == 8 || self.a == 9
    }

    /// `true` for a Heizkostenverteiler (A = 4), which counts dimensionless
    /// Verbrauchseinheiten and carries no Eichfrist.
    pub fn is_heat_cost_allocator(&self) -> (r: bool)
        ensures
            r == (self.a == 4),
    {
        self.a == 4
    }

    pub open spec fn spec_is_reactive(self) -> bool {
        self.a == 1 && 3 <= self.c <= 8
    }

    /// `true` for reactive energy or power — electricity C = 3…8, the four
    /// quadrants included.
    pub fn is_reactive(&self) -> (r: bool)
        ensures
            r == self.spec_is_reactive(),
    {
        self.a == 1 && self.c >= 3 && self.c <= 8
    }

    /// `true` for a Lastgang (D = 29).
    pub fn is_lastgang(&self) -> (r: bool)
        ensures
            r == (self.d == 29),
    {
        self.d == 29
    }

    /// `true` for a maximum register (D = 6).
    pub fn is_maximum(&self) -> (r: bool)
        ensures
            r == (self.d == 6),
    {
        self.d == 6
    }

    /// `true` for a Zählerstand (D = 8).
    pub fn is_zaehlerstand(&self) -> (r: bool)
        ensures
            r == (self.d == 8),
    {
        self.d == 8
    }

    /// `true` for a Vorschub (D = 9).
    pub fn is_vorschub(&self) -> (r: bool)
        ensures
            r == (self.d == 9),
    {
        self.d == 9
    }

    pub open spec fn spec_is_import(self) -> bool {
        self.a == 1 && self.c == 1
    }

    pub open spec fn spec_is_export(self) -> bool {
        self.a == 1 && self.c == 2
    }

    /// `true` for import (Bezug): electricity with C = 1, whatever the Messart.
    pub fn is_import(&self) -> (r: bool)
        ensures
            r == self.spec_is_import(),
    {
        self.a == 1 && self.c == 1
    }

    /// `true` for export (Lieferung): electricity with C = 2.
    pub fn is_export(&self) -> (r: bool)
        ensures
            r == self.spec_is_export(),
    {
        self.a == 1 && self.c == 2
    }

    /// `true` for Einspeisung — the German name for [`is_export`](Self::is_export).
    pub fn is_einspeisung(&self) -> (r: bool)
        ensures
            r == self.spec_is_export(),
    {
        self.is_export()
    }

    pub open spec fn spec_direction(self) -> Option<Direction> {
        if self.spec_is_import() {
            Some(Direction::Import)
        } else if self.spec_is_export() {
            Some(Direction::Export)
        } else {
            None
        }
    }

    /// The direction of the energy, read off value group C; `None` for a code
    /// that carries none (reactive, gas, heat, …).
    pub fn direction(self) -> (r: Option<Direction>)
        ensures
            r == self.spec_direction(),
    {
        if self.is_import() {
            Some(Direction::Import)
        } else if self.is_export() {
            Some(Direction::Export)
        } else {
            None
        }
    }

    /// A code is never import and export at once.
    pub proof fn lemma_direction_exclusive(code: Self)
        ensures
            !(code.spec_is_import() && code.spec_is_export()),
    {
    }

    pub open spec fn spec_tariff_register(self) -> Option<u8> {
        if self.e == 0 || self.e == 63 {
            None
        } else {
            Some(self.e)
        }
    }

    /// Tariff register: `None` for the total (E = 0) and for the
    /// Fehlerregister (E = 63), which is not a tariff; otherwise `Some(E)`.
    pub fn tariff_register(&self) -> (r: Option<u8>)
        ensures
            r == self.spec_tariff_register(),
    {
        if self.e == 0 || self.e == Self::TARIFF_FEHLERREGISTER {
            None
        } else {
            Some(self.e)
        }
    }

    /// `true` for the Fehlerregister (E = 63).
    pub fn is_fehlerregister(&self) -> (r: bool)
        ensures
            r == (self.e == 63),
    {
        self.e == Self::TARIFF_FEHLERREGISTER
    }

    /// `true` for the total register (E = 0).
    pub fn is_total_register(&self) -> (r: bool)
        ensures
            r == (self.e == 0),
    {
        self.e == 0
    }

    /// `true` for the HT register (E = 1).
    pub fn is_ht(&self) -> (r: bool)
        ensures
            r == (self.e == 1),
    {
        self.e == 1
    }

    /// `true` for the NT register (E = 2).
    pub fn is_nt(&self) -> (r: bool)
        ensures
            r == (self.e == 2),
    {
        self.e == 2
    }

    pub open spec fn spec_default_resolution(self) -> Option<IntervalResolution> {
        if self.e == 63 {
            None
        } else if self.a == 1 {
            if 1 <= self.c <= 8 && (self.d == 8 || self.d == 29) {
                Some(IntervalResolution::QuarterHour)
            } else {
                None
            }
        } else if self.a == 5 || self.a == 6 {
            Some(IntervalResolution::Hour)
        } else if self.a == 7 {
            if self.c == 52 || self.c == 54 {
                if self.e == 16 {
                    Some(IntervalResolution::Hour)
                } else if self.e == 20 {
                    Some(IntervalResolution::Day)
                } else if self.e == 22 {
                    Some(IntervalResolution::Month)
                } else {
                    None
                }
            } else {
                Some(IntervalResolution::Hour)
            }
        } else if self.a == 8 || self.a == 9 {
            Some(IntervalResolution::Day)
        } else {
            None
        }
    }

    /// The grid a series on this channel is ordinarily delivered on; `None`
    /// where the channel is not an equidistant series at all (Fehlerregister,
    /// Maximum, Vorschub, Momentanwert, Heizkostenverteiler, abstract codes).
    pub fn default_resolution(&self) -> (r: Option<IntervalResolution>)
        ensures
            r == self.spec_default_resolution(),
    {
        if self.is_fehlerregister() {
            return None;
        }
        match self.a {
            1 => if self.c >= 1 && self.c <= 8 && (self.d == 8 || self.d == 29) {
                Some(IntervalResolution::QuarterHour)
            } else {
                None
            },
            5 | 6 => Some(IntervalResolution::Hour),
            7 => if self.c == 52 || self.c == 54 {
                if self.e == 16 {
                    Some(IntervalResolution::Hour)
                } else if self.e == 20 {
                    Some(IntervalResolution::Day)
                } else if self.e == 22 {
                    Some(IntervalResolution::Month)
                } else {
                    None
                }
            } else {
                Some(IntervalResolution::Hour)
            },
            8 | 9 => Some(IntervalResolution::Day),
            _ => None,
        }
    }

    /// Whatever it answers, a default resolution is never a custom length.
    pub proof fn lemma_default_resolution_is_named(code: Self)
        ensures
            !(code.spec_default_resolution() matches Some(IntervalResolution::Custom(_))),
    {
    }

    pub open spec fn spec_register_unit(self) -> Option<RegisterUnit> {
        if self.a == 1 {
            let reactive = self.spec_is_reactive();
            let active = self.c == 1 || self.c == 2;
            if !reactive && !active {
                None
            } else if !reactive {
                if self.d == 6 {
                    Some(RegisterUnit::KiloWatt)
                } else {
                    Some(RegisterUnit::KiloWattHour)
                }
            } else if self.d == 6 {
                Some(RegisterUnit::KiloVar)
            } else {
                Some(RegisterUnit::KiloVarHour)
            }
        } else if self.a == 5 || self.a == 6 {
            Some(RegisterUnit::KiloWattHourThermal)
        } else if 7 <= self.a <= 9 {
            Some(RegisterUnit::CubicMetre)
        } else {
            None
        }
    }

    /// The physical unit this register counts in, derived from the value
    /// groups; `None` where the crate cannot name one.
    pub fn register_unit(&self) -> (r: Option<RegisterUnit>)
        ensures
            r == self.spec_register_unit(),
    {
        match self.a {
            1 => {
                let reactive = self.is_reactive();
                let active = self.c == 1 || self.c == 2;
                if !reactive && !active {
                    return None;
                }
                Some(
                    match (reactive, self.is_maximum()) {
                        (false, false) => RegisterUnit::KiloWattHour,
                        (false, true) => RegisterUnit::KiloWatt,
                        (true, false) => RegisterUnit::KiloVarHour,
                        (true, true) => RegisterUnit::KiloVar,
                    },
                )
            },
            5 | 6 => Some(RegisterUnit::KiloWattHourThermal),
            7 | 8 | 9 => Some(RegisterUnit::CubicMetre),
            _ => None,
        }
    }

    pub open spec fn spec_is_convertible_messart(self) -> bool {
        self.a == 1 && 1 <= self.c <= 8
    }

    fn is_convertible_messart(&self) -> (r: bool)
        ensures
            r == self.spec_is_convertible_messart(),
    {
        self.a == 1 && self.c >= 1 && self.c <= 8
    }

    pub open spec fn spec_as_lastgang(self) -> Option<Self> {
        if !self.spec_is_convertible_messart() || self.e != 0 {
            None
        } else {
            Some(Self { d: 29, ..self })
        }
    }

    /// The Lastgang channel of this register (D = 29); `None` off the
    /// electricity axis, outside C = 1…8 and for a tariff register.
    pub fn as_lastgang(&self) -> (r: Option<Self>)
        ensures
            r == self.spec_as_lastgang(),
    {
        if !self.is_convertible_messart() || self.e != 0 {
            return None;
        }
        Some(Self { d: 29, ..*self })
    }

    pub open spec fn spec_as_zaehlerstand(self) -> Option<Self> {
        if !self.spec_is_convertible_messart() {
            None
        } else {
            Some(Self { d: 8, ..self })
        }
    }

    /// The Zählerstand channel of this register (D = 8).
    pub fn as_zaehlerstand(&self) -> (r: Option<Self>)
        ensures
            r == self.spec_as_zaehlerstand(),
    {
        if !self.is_convertible_messart() {
            return None;
        }
        Some(Self { d: 8, ..*self })
    }

    /// The Vorschub channel of this register (D = 9).
    pub fn as_vorschub(&self) -> (r: Option<Self>)
        ensures
            r == (if !self.spec_is_convertible_messart() {
                None
            } else {
                Some(Self { d: 9, ..*self })
            }),
    {
        if !self.is_convertible_messart() {
            return None;
        }
        Some(Self { d: 9, ..*self })
    }

    /// A Zählerstand's Lastgang leads back to the Zählerstand, direction and
    /// all.
    pub proof fn lemma_lastgang_round_trip(code: Self)
        requires
            code.d == 8,
            code.spec_as_lastgang() is Some,
        ensures
            code.spec_as_lastgang()->0.spec_as_zaehlerstand() == Some(code),
            code.spec_as_lastgang()->0.c == code.c,
    {
    }

    /// `true` when F is 255, the case where [`to_string`](Self::to_string)
    /// omits it.
    pub fn has_unused_storage(&self) -> (r: bool)
        ensures
            r == (self.f == 255),
    {
        self.f == Self::STORAGE_UNUSED
    }

    /// The text of the code: `A-B:C.D.E`, then `*F` when `full` is asked for
    /// or F is not 255.
    pub open spec fn spec_text(self, full: bool) -> Seq<char> {
        u8_text(self.a) + "-"@ + u8_text(self.b) + ":"@ + u8_text(self.c) + "."@ + u8_text(self.d)
            + "."@ + u8_text(self.e) + if full || self.f != 255 {
            "*"@ + u8_text(self.f)
        } else {
            Seq::empty()
        }
    }

    fn text(&self, full: bool) -> (r: String)
        ensures
            r@ == self.spec_text(full),
    {
        let mut r = String::new();
        push_u8(&mut r, self.a);
        r.append("-");
        push_u8(&mut r, self.b);
        r.append(":");
        push_u8(&mut r, self.c);
        r.append(".");
        push_u8(&mut r, self.d);
        r.append(".");
        push_u8(&mut r, self.e);
        if full || self.f != Self::STORAGE_UNUSED {
            r.append("*");
            push_u8(&mut r, self.f);
        }
        assert(r@ =~= self.spec_text(full));
        r
    }

    /// The canonical string, `1-0:1.8.0`: `*F` is written only when F is not
    /// 255.
    pub fn to_string(&self) -> (r: String)
        ensures
            r@ == self.spec_text(false),
    {
        self.text(false)
    }

    /// The full six-group form, with `*F` always explicit — `1-0:1.8.0*255`.
    pub fn to_full_string(&self) -> (r: String)
        ensures
            r@ == self.spec_text(true),
    {
        self.text(true)
    }

    /// The code a (trimmed) text spells, read the way `split_once` reads it:
    /// A up to the first `-`, B up to the next `:`, an optional `*F` after
    /// the first `*`, and C, D, E separated by the next two `.`.
    pub open spec fn spec_parse_text(t: Seq<char>) -> Option<Self> {
        match find(t, '-') {
            None => None,
            Some(i) => Self::spec_after_a(t.subrange(0, i), t.subrange(i + 1, t.len() as int)),
        }
    }

    pub open spec fn spec_after_a(a: Seq<char>, rest: Seq<char>) -> Option<Self> {
        match find(rest, ':') {
            None => None,
            Some(i) => Self::spec_after_b(
                a,
                rest.subrange(0, i),
                rest.subrange(i + 1, rest.len() as int),
            ),
        }
    }

    pub open spec fn spec_after_b(a: Seq<char>, b: Seq<char>, cdef: Seq<char>) -> Option<Self> {
        match find(cdef, '*') {
            Some(i) => Self::spec_after_f(
                a,
                b,
                cdef.subrange(0, i),
                group(cdef.subrange(i + 1, cdef.len() as int)),
            ),
            None => Self::spec_after_f(a, b, cdef, Some(255u8)),
        }
    }

    pub open spec fn spec_after_f(a: Seq<char>, b: Seq<char>, cde: Seq<char>, gf: Option<u8>) -> Option<Self> {
        match find(cde, '.') {
            None => None,
            Some(i) => Self::spec_after_c(
                a,
                b,
                cde.subrange(0, i),
                cde.subrange(i + 1, cde.len() as int),
                gf,
            ),
        }
    }

    pub open spec fn spec_after_c(
        a: Seq<char>,
        b: Seq<char>,
        c: Seq<char>,
        de: Seq<char>,
        gf: Option<u8>,
    ) -> Option<Self> {
        match find(de, '.') {
            None => None,
            Some(i) => Self::spec_assemble(
                a,
                b,
                c,
                de.subrange(0, i),
                de.subrange(i + 1, de.len() as int),
                gf,
            ),
        }
    }

    pub open spec fn spec_assemble(
        a: Seq<char>,
        b: Seq<char>,
        c: Seq<char>,
        d: Seq<char>,
        e: Seq<char>,
        gf: Option<u8>,
    ) -> Option<Self> {
        match (group(a), group(b), group(c), group(d), group(e), gf) {
            (Some(va), Some(vb), Some(vc), Some(vd), Some(ve), Some(vf)) => Some(
                Self { a: va, b: vb, c: vc, d: vd, e: ve, f: vf },
            ),
            _ => None,
        }
    }

    /// What parsing `s` yields: the text after trimming.
    pub open spec fn spec_parse(s: Seq<char>) -> Option<Self> {
        Self::spec_parse_text(trimmed(s))
    }

    fn parse_chars(v: &Vec<char>) -> (r: Option<Self>)
        ensures
            r == Self::spec_parse_text(v@),
    {
        let n = v.len();
        assert(v@.subrange(0, n as int) =~= v@);
        match find_in(v, 0, n, '-') {
            Some(p1) => Self::after_a(v, p1, n),
            None => None,
        }
    }

    fn after_a(v: &Vec<char>, p1: usize, n: usize) -> (r: Option<Self>)
        requires
            p1 < n == v@.len(),
        ensures
            r == Self::spec_after_a(v@.subrange(0, p1 as int), v@.subrange(p1 + 1, n as int)),
    {
        let ghost rest = v@.subrange(p1 + 1, n as int);
        match find_in(v, p1 + 1, n, ':') {
            Some(p2) => {
                let ghost i = p2 - (p1 + 1);
                assert(rest.subrange(0, i) =~= v@.subrange(p1 + 1, p2 as int));
                assert(rest.subrange(i + 1, rest.len() as int) =~= v@.subrange(p2 + 1, n as int));
                Self::after_b(v, p1, p2, n)
            },
            None => None,
        }
    }

    fn after_b(v: &Vec<char>, p1: usize, p2: usize, n: usize) -> (r: Option<Self>)
        requires
            p1 < p2 < n == v@.len(),
        ensures
            r == Self::spec_after_b(
                v@.subrange(0, p1 as int),
                v@.subrange(p1 + 1, p2 as int),
                v@.subrange(p2 + 1, n as int),
            ),
    {
        let ghost cdef = v@.subrange(p2 + 1, n as int);
        match find_in(v, p2 + 1, n, '*') {
            Some(p3) => {
                let ghost i = p3 - (p2 + 1);
                assert(cdef.subrange(0, i) =~= v@.subrange(p2 + 1, p3 as int));
                assert(cdef.subrange(i + 1, cdef.len() as int) =~= v@.subrange(p3 + 1, n as int));
                let gf = group_in(v, p3 + 1, n);
                Self::after_f(v, p1, p2, p3, gf)
            },
            None => Self::after_f(v, p1, p2, n, Some(Self::STORAGE_UNUSED)),
        }
    }

    fn after_f(v: &Vec<char>, p1: usize, p2: usize, end: usize, gf: Option<u8>) -> (r: Option<Self>)
        requires
            p1 < p2 < end <= v@.len(),
        ensures
            r == Self::spec_after_f(
                v@.subrange(0, p1 as int),
                v@.subrange(p1 + 1, p2 as int),
                v@.subrange(p2 + 1, end as int),
                gf,
            ),
    {
        let ghost cde = v@.subrange(p2 + 1, end as int);
        match find_in(v, p2 + 1, end, '.') {
            Some(p4) => {
                let ghost i = p4 - (p2 + 1);
                assert(cde.subrange(0, i) =~= v@.subrange(p2 + 1, p4 as int));
                assert(cde.subrange(i + 1, cde.len() as int) =~= v@.subrange(p4 + 1, end as int));
                Self::after_c(v, p1, p2, p4, end, gf)
            },
            None => None,
        }
    }

    fn after_c(v: &Vec<char>, p1: usize, p2: usize, p4: usize, end: usize, gf: Option<u8>) -> (r: Option<Self>)
        requires
            p1 < p2 < p4 < end <= v@.len(),
        ensures
            r == Self::spec_after_c(
                v@.subrange(0, p1 as int),
                v@.subrange(p1 + 1, p2 as int),
                v@.subrange(p2 + 1, p4 as int),
                v@.subrange(p4 + 1, end as int),
                gf,
            ),
    {
        let ghost de = v@.subrange(p4 + 1, end as int);
        match find_in(v, p4 + 1, end, '.') {
            Some(p5) => {
                let ghost i = p5 - (p4 + 1);
                assert(de.subrange(0, i) =~= v@.subrange(p4 + 1, p5 as int));
                assert(de.subrange(i + 1, de.len() as int) =~= v@.subrange(p5 + 1, end as int));
                let ga = group_in(v, 0, p1);
                let gb = group_in(v, p1 + 1, p2);
                let gc = group_in(v, p2 + 1, p4);
                let gd = group_in(v, p4 + 1, p5);
                let ge = group_in(v, p5 + 1, end);
                match (ga, gb, gc, gd, ge, gf) {
                    (Some(a), Some(b), Some(c), Some(d), Some(e), Some(f)) => Some(Self { a, b, c, d, e, f }),
                    _ => None,
                }
            },
            None => None,
        }
    }

    /// Parses either spelling of `A-B:C.D.E*F` — leading zeros, an omitted
    /// `*F` and surrounding whitespace included. Signs, empty groups and
    /// values above 255 are refused.
    pub fn parse(s: &str) -> (r: Result<Self, ParseError>)
        ensures
            match r {
                Ok(code) => Self::spec_parse(s@) == Some(code),
                Err(e) => {
                    &&& Self::spec_parse(s@).is_none()
                    &&& e.spec_type_label() == "ObisCode"@
                    &&& e.spec_input() == s@
                    &&& e.spec_expected() == Expected::Format(OBIS_FORMAT)
                },
            },
    {
        let t = trim(s);
        let v = chars_of(t);
        match Self::parse_chars(&v) {
            Some(code) => Ok(code),
            None => Err(ParseError::format("ObisCode", s, OBIS_FORMAT)),
        }
    }

    /// Rewrites any accepted spelling as the canonical one.
    pub fn normalize(s: &str) -> (r: Result<String, ParseError>)
        ensures
            match r {
                Ok(text) => Self::spec_parse(s@) matches Some(code) && text@ == code.spec_text(false),
                Err(e) => Self::spec_parse(s@).is_none() && e.spec_input() == s@,
            },
    {
        match Self::parse(s) {
            Ok(code) => Ok(code.to_string()),
            Err(e) => Err(e),
        }
    }

    /// `find` on `x`, a separator `c`, then anything, finds the separator when
    /// `x` holds only digits.
    proof fn lemma_find_after_digits(x: Seq<char>, c: char, y: Seq<char>)
        requires
            all_digits(x),
            !is_digit(c),
        ensures
            find(x + seq![c] + y, c) == Some(x.len() as int),
            (x + seq![c] + y).subrange(0, x.len() as int) == x,
            (x + seq![c] + y).subrange(x.len() as int + 1, (x + seq![c] + y).len() as int) == y,
    {
        let s = x + seq![c] + y;
        assert forall|j: int| 0 <= j < x.len() implies s[j] != c by {
            assert(s[j] == x[j]);
            assert(is_digit(x[j]));
        }
        assert(is_first(s, c, x.len() as int));
        lemma_find_is_first(s, c, x.len() as int);
        assert(s.subrange(0, x.len() as int) =~= x);
        assert(s.subrange(x.len() as int + 1, s.len() as int) =~= y);
    }

    /// The spelling of a code is ASCII and starts and ends with a digit, so
    /// trimming leaves it alone.
    proof fn lemma_text_is_trimmed(code: Self, full: bool)
        ensures
            trimmed(code.spec_text(full)) == code.spec_text(full),
    {
        lemma_u8_text(code.a);
        lemma_u8_text(code.e);
        lemma_u8_text(code.f);
        reveal_strlit("-");
        reveal_strlit(":");
        reveal_strlit(".");
        reveal_strlit("*");
        let s = code.spec_text(full);
        assert(is_ascii_chars(s)) by {
            broadcast use vstd::utf8::is_ascii_chars_concat;
            lemma_digits_ascii(u8_text(code.a));
            lemma_digits_ascii(u8_text(code.b));
            lemma_digits_ascii(u8_text(code.c));
            lemma_digits_ascii(u8_text(code.d));
            lemma_digits_ascii(u8_text(code.e));
            lemma_digits_ascii(u8_text(code.f));
            let p1 = u8_text(code.a) + "-"@;
            let p2 = p1 + u8_text(code.b);
            let p3 = p2 + ":"@;
            let p4 = p3 + u8_text(code.c);
            let p5 = p4 + "."@;
            let p6 = p5 + u8_text(code.d);
            let p7 = p6 + "."@;
            let p8 = p7 + u8_text(code.e);
            let tail = if full || code.f != 255 {
                "*"@ + u8_text(code.f)
            } else {
                Seq::<char>::empty()
            };
            assert(is_ascii_chars("-"@));
            assert(is_ascii_chars(":"@));
            assert(is_ascii_chars("."@));
            assert(is_ascii_chars("*"@));
            assert(is_ascii_chars(p1));
            assert(is_ascii_chars(p2));
            assert(is_ascii_chars(p3));
            assert(is_ascii_chars(p4));
            assert(is_ascii_chars(p5));
            assert(is_ascii_chars(p6));
            assert(is_ascii_chars(p7));
            assert(is_ascii_chars(p8));
            assert(is_ascii_chars(tail));
            assert(s == p8 + tail);
        }
        assert(s[0] == u8_text(code.a)[0]);
        assert(is_digit(s[0]));
        if full || code.f != 255 {
            assert(s.last() == u8_text(code.f).last());
        } else {
            assert(s.last() == u8_text(code.e).last());
        }
        assert(is_digit(s.last()));
        assert(trim_start_ws(s) == s);
        assert(trim_end_ws(s) == s);
    }

    /// `C.D.E` of a code's text.
    spec fn spec_cde_text(self) -> Seq<char> {
        u8_text(self.c) + seq!['.'] + (u8_text(self.d) + seq!['.'] + u8_text(self.e))
    }

    /// The text after the `:` — `C.D.E`, then `*F` where it is written.
    spec fn spec_cdef_text(self, full: bool) -> Seq<char> {
        if full || self.f != 255 {
            self.spec_cde_text() + seq!['*'] + u8_text(self.f)
        } else {
            self.spec_cde_text()
        }
    }

    proof fn lemma_text_shape(code: Self, full: bool)
        ensures
            code.spec_text(full) == u8_text(code.a) + seq!['-'] + (u8_text(code.b) + seq![':']
                + code.spec_cdef_text(full)),
    {
        let ta = u8_text(code.a);
        let tb = u8_text(code.b);
        let tc = u8_text(code.c);
        let td = u8_text(code.d);
        let te = u8_text(code.e);
        let tail = if full || code.f != 255 {
            "*"@ + u8_text(code.f)
        } else {
            Seq::<char>::empty()
        };
        let y = ta + "-"@;
        let x0 = y + tb + ":"@;
        let p1 = tc + "."@;
        let p2 = p1 + td;
        let p3 = p2 + "."@;
        let p4 = p3 + te;
        let p5 = p4 + tail;
        lemma_concat_associative(x0, tc, "."@);
        lemma_concat_associative(x0, p1, td);
        lemma_concat_associative(x0, p2, "."@);
        lemma_concat_associative(x0, p3, te);
        lemma_concat_associative(x0, p4, tail);
        assert(code.spec_text(full) == x0 + p5);
        lemma_concat_associative(y, tb, ":"@);
        lemma_concat_associative(y, tb + ":"@, p5);
        assert(code.spec_text(full) == y + (tb + ":"@ + p5));
        reveal_strlit("-");
        reveal_strlit(":");
        reveal_strlit(".");
        reveal_strlit("*");
        assert("-"@ =~= seq!['-']);
        assert(":"@ =~= seq![':']);
        assert("."@ =~= seq!['.']);
        assert("*"@ =~= seq!['*']);
        lemma_concat_associative(tc + seq!['.'], td, seq!['.']);
        lemma_concat_associative(tc + seq!['.'], td + seq!['.'], te);
        lemma_concat_associative(tc, seq!['.'], td + seq!['.'] + te);
        assert(p4 == code.spec_cde_text());
        if full || code.f != 255 {
            lemma_concat_associative(p4, seq!['*'], u8_text(code.f));
        } else {
            assert(p5 =~= p4);
        }
        assert(p5 == code.spec_cdef_text(full));
    }

    proof fn lemma_cde_has_no_star(code: Self)
        ensures
            forall|j: int| 0 <= j < code.spec_cde_text().len() ==> code.spec_cde_text()[j] != '*',
    {
        let tc = u8_text(code.c);
        let td = u8_text(code.d);
        let te = u8_text(code.e);
        lemma_u8_text(code.c);
        lemma_u8_text(code.d);
        lemma_u8_text(code.e);
        let cde = code.spec_cde_text();
        assert forall|j: int| 0 <= j < cde.len() implies cde[j] != '*' by {
            if j < tc.len() {
                assert(cde[j] == tc[j]);
                assert(is_digit(tc[j]));
            } else if j == tc.len() {
            } else if j < tc.len() + 1 + td.len() {
                assert(cde[j] == td[j - tc.len() - 1]);
                assert(is_digit(td[j - tc.len() - 1]));
            } else if j == tc.len() + 1 + td.len() {
            } else {
                assert(cde[j] == te[j - tc.len() - 2 - td.len()]);
                assert(is_digit(te[j - tc.len() - 2 - td.len()]));
            }
        }
    }

    proof fn lemma_after_b(code: Self, full: bool)
        ensures
            Self::spec_after_b(u8_text(code.a), u8_text(code.b), code.spec_cdef_text(full)) == Some(code),
    {
        let ta = u8_text(code.a);
        let tb = u8_text(code.b);
        let tc = u8_text(code.c);
        let td = u8_text(code.d);
        let te = u8_text(code.e);
        let tf = u8_text(code.f);
        lemma_u8_text(code.a);
        lemma_u8_text(code.b);
        lemma_u8_text(code.c);
        lemma_u8_text(code.d);
        lemma_u8_text(code.e);
        lemma_u8_text(code.f);
        let cde = code.spec_cde_text();
        let cdef = code.spec_cdef_text(full);
        Self::lemma_cde_has_no_star(code);
        let gf = if full || code.f != 255 {
            Some(code.f)
        } else {
            Some(255u8)
        };
        if full || code.f != 255 {
            assert(is_first(cdef, '*', cde.len() as int));
            lemma_find_is_first(cdef, '*', cde.len() as int);
            assert(cdef.subrange(0, cde.len() as int) =~= cde);
            assert(cdef.subrange(cde.len() as int + 1, cdef.len() as int) =~= tf);
        } else {
            lemma_find_absent(cdef, '*');
        }
        assert(Self::spec_after_b(ta, tb, cdef) == Self::spec_after_f(ta, tb, cde, gf));
        Self::lemma_find_after_digits(tc, '.', td + seq!['.'] + te);
        assert(Self::spec_after_f(ta, tb, cde, gf) == Self::spec_after_c(ta, tb, tc, td + seq!['.'] + te, gf));
        Self::lemma_find_after_digits(td, '.', te);
        assert(Self::spec_after_c(ta, tb, tc, td + seq!['.'] + te, gf) == Self::spec_assemble(ta, tb, tc, td, te, gf));
    }

    /// Parsing what [`to_string`](Self::to_string) or
    /// [`to_full_string`](Self::to_full_string) wrote gives the code back, so
    /// one channel has one key and normalising is idempotent.
    pub proof fn lemma_parse_text_round_trip(code: Self, full: bool)
        ensures
            Self::spec_parse(code.spec_text(full)) == Some(code),
    {
        let ta = u8_text(code.a);
        let tb = u8_text(code.b);
        lemma_u8_text(code.a);
        lemma_u8_text(code.b);
        Self::lemma_text_is_trimmed(code, full);
        Self::lemma_text_shape(code, full);
        let cdef = code.spec_cdef_text(full);
        let rest = tb + seq![':'] + cdef;
        Self::lemma_find_after_digits(ta, '-', rest);
        assert(Self::spec_parse_text(code.spec_text(full)) == Self::spec_after_a(ta, rest));
        Self::lemma_find_after_digits(tb, ':', cdef);
        assert(Self::spec_after_a(ta, rest) == Self::spec_after_b(ta, tb, cdef));
        Self::lemma_after_b(code, full);
    }

    /// Normalising a normalised code changes nothing.
    pub proof fn lemma_normalize_idempotent(s: Seq<char>)
        requires
            Self::spec_parse(s) is Some,
        ensures
            Self::spec_parse(Self::spec_parse(s)->0.spec_text(false)) == Self::spec_parse(s),
    {
        Self::lemma_parse_text_round_trip(Self::spec_parse(s)->0, false);
    }
}

/// Decimal digits are ASCII.
proof fn lemma_digits_ascii(s: Seq<char>)
    requires
        all_digits(s),
    ensures
        is_ascii_chars(s),
{
    assert forall|i: int| 0 <= i < s.len() implies '\0' <= #[trigger] s[i] <= '\u{7f}' by {
        assert(is_digit(s[i]));
    }
}

impl std::str::FromStr for ObisCode {
    type Err = ParseError;

    fn from_str(s: &str) -> (r: Result<ObisCode, ParseError>)
        ensures
            match r {
                Ok(code) => Self::spec_parse(s@) == Some(code),
                Err(e) => {
                    &&& Self::spec_parse(s@).is_none()
                    &&& e.spec_type_label() == "ObisCode"@
                    &&& e.spec_input() == s@
                    &&& e.spec_expected() == Expected::Format(OBIS_FORMAT)
                },
            },
    {
        ObisCode::parse(s)
    }
}

/// The physical unit a meter register counts in.
///
/// Finer than [`MeasurementUnit`](crate::interval::MeasurementUnit): it
/// distinguishes energy from power and active from reactive.
#[derive(Debug, Clone, Copy, PartialEq, Eq, Hash, Structural)]
pub enum RegisterUnit {
    /// Active energy, kWh.
    KiloWattHour,
    /// Reactive energy, kvarh.
    KiloVarHour,
    /// Active power, kW — a maximum register.
    KiloWatt,
    /// Reactive power, kvar — a maximum register.
    KiloVar,
    /// Volume, m³ — gas and water.
    CubicMetre,
    /// Thermal energy, kWh_th — heat and cooling.
    KiloWattHourThermal,
}

impl RegisterUnit {
    /// Every variant, in declaration order.
    pub const ALL: [Self; 6] = [Self::KiloWattHour, Self::KiloVarHour, Self::KiloWatt, Self::KiloVar, Self::CubicMetre, Self::KiloWattHourThermal];

    /// Every code [`as_str`](Self::as_str) writes, in the order of `ALL`.
    pub fn codes() -> (r: &'static [&'static str])
        ensures
            Self::spec_is_codes(r@),
    {
        &["KILO_WATT_HOUR", "KILO_VAR_HOUR", "KILO_WATT", "KILO_VAR", "CUBIC_METRE", "KILO_WATT_HOUR_THERMAL"]
    }

    /// `c` lists the codes of `ALL`, in order.
    pub open spec fn spec_is_codes(c: Seq<&'static str>) -> bool {
        &&& c.len() == 6
        &&& c[0]@ == Self::KiloWattHour.spec_as_str()
        &&& c[1]@ == Self::KiloVarHour.spec_as_str()
        &&& c[2]@ == Self::KiloWatt.spec_as_str()
        &&& c[3]@ == Self::KiloVar.spec_as_str()
        &&& c[4]@ == Self::CubicMetre.spec_as_str()
        &&& c[5]@ == Self::KiloWattHourThermal.spec_as_str()
    }

    pub open spec fn spec_as_str(self) -> Seq<char> {
        match self {
            Self::KiloWattHour => "KILO_WATT_HOUR"@,
            Self::KiloVarHour => "KILO_VAR_HOUR"@,
            Self::KiloWatt => "KILO_WATT"@,
            Self::KiloVar => "KILO_VAR"@,
            Self::CubicMetre => "CUBIC_METRE"@,
            Self::KiloWattHourThermal => "KILO_WATT_HOUR_THERMAL"@,
        }
    }

    /// Stable DB/wire label; the `FromStr` input and the code `to_string` writes.
    pub fn as_str(self) -> (r: &'static str)
        ensures
            r@ == self.spec_as_str(),
    {
        match self {
            Self::KiloWattHour => "KILO_WATT_HOUR",
            Self::KiloVarHour => "KILO_VAR_HOUR",
            Self::KiloWatt => "KILO_WATT",
            Self::KiloVar => "KILO_VAR",
            Self::CubicMetre => "CUBIC_METRE",
            Self::KiloWattHourThermal => "KILO_WATT_HOUR_THERMAL",
        }
    }

    /// The code as an owned string (what `Display` writes).
    pub fn to_string(&self) -> (r: String)
        ensures
            r@ == self.spec_as_str(),
    {
        self.as_str().to_owned()
    }

    /// The variant whose code is exactly `s`.
    pub open spec fn spec_from_code(s: Seq<char>) -> Option<Self> {
        if s == "KILO_WATT_HOUR"@ {
            Some(Self::KiloWattHour)
        } else if s == "KILO_VAR_HOUR"@ {
            Some(Self::KiloVarHour)
        } else if s == "KILO_WATT"@ {
            Some(Self::KiloWatt)
        } else if s == "KILO_VAR"@ {
            Some(Self::KiloVar)
        } else if s == "CUBIC_METRE"@ {
            Some(Self::CubicMetre)
        } else if s == "KILO_WATT_HOUR_THERMAL"@ {
            Some(Self::KiloWattHourThermal)
        } else {
            None
        }
    }

    /// The variant whose code is exactly `s`, case and whitespace included.
    pub fn from_code(s: &str) -> (r: Option<Self>)
        ensures
            r == Self::spec_from_code(s@),
    {
        if str_eq(s, "KILO_WATT_HOUR") {
            Some(Self::KiloWattHour)
        } else if str_eq(s, "KILO_VAR_HOUR") {
            Some(Self::KiloVarHour)
        } else if str_eq(s, "KILO_WATT") {
            Some(Self::KiloWatt)
        } else if str_eq(s, "KILO_VAR") {
            Some(Self::KiloVar)
        } else if str_eq(s, "CUBIC_METRE") {
            Some(Self::CubicMetre)
        } else if str_eq(s, "KILO_WATT_HOUR_THERMAL") {
            Some(Self::KiloWattHourThermal)
        } else {
            None
        }
    }

    /// What parsing `s` yields: surrounding whitespace is ignored and the
    /// comparison is case-insensitive.
    pub open spec fn spec_parse(s: Seq<char>) -> Option<Self> {
        let t = trimmed(s);
        let u = uppercased(t);
        Self::spec_from_code(u)
    }

    /// Parses a code, ignoring surrounding whitespace and case.
    pub fn parse_code(s: &str) -> (r: Result<Self, ParseError>)
        ensures
            match r {
                Ok(v) => Self::spec_parse(s@) == Some(v),
                Err(e) => {
                    &&& Self::spec_parse(s@).is_none()
                    &&& e.spec_type_label() == "RegisterUnit"@
                    &&& e.spec_input() == s@
                    &&& e.spec_expected() matches Expected::OneOf(c) && Self::spec_is_codes(c@)
                },
            },
    {
        let t = trim(s);
        let u = to_uppercase(t);
        match Self::from_code(u.as_str()) {
            Some(v) => Ok(v),
            None => Err(ParseError::one_of("RegisterUnit", s, Self::codes())),
        }
    }

    /// Parsing the code of a variant gives the variant back.
    pub proof fn lemma_parse_as_str(v: Self)
        ensures
            Self::spec_parse(v.spec_as_str()) == Some(v),
    {
        match v {
            Self::KiloWattHour => {
                reveal_strlit("KILO_WATT_HOUR");
                lemma_code_is_canonical("KILO_WATT_HOUR"@);
            },
            Self::KiloVarHour => {
                reveal_strlit("KILO_VAR_HOUR");
                reveal_strlit("KILO_WATT_HOUR");
                lemma_code_is_canonical("KILO_VAR_HOUR"@);
            },
            Self::KiloWatt => {
                reveal_strlit("KILO_VAR_HOUR");
                reveal_strlit("KILO_WATT");
                reveal_strlit("KILO_WATT_HOUR");
                lemma_code_is_canonical("KILO_WATT"@);
            },
            Self::KiloVar => {
                reveal_strlit("KILO_VAR");
                reveal_strlit("KILO_VAR_HOUR");
                reveal_strlit("KILO_WATT");
                reveal_strlit("KILO_WATT_HOUR");
                lemma_code_is_canonical("KILO_VAR"@);
            },
            Self::CubicMetre => {
                reveal_strlit("CUBIC_METRE");
                reveal_strlit("KILO_VAR");
                reveal_strlit("KILO_VAR_HOUR");
                reveal_strlit("KILO_WATT");
                reveal_strlit("KILO_WATT_HOUR");
                lemma_code_is_canonical("CUBIC_METRE"@);
            },
            Self::KiloWattHourThermal => {
                reveal_strlit("CUBIC_METRE");
                reveal_strlit("KILO_VAR");
                reveal_strlit("KILO_VAR_HOUR");
                reveal_strlit("KILO_WATT");
                reveal_strlit("KILO_WATT_HOUR");
                reveal_strlit("KILO_WATT_HOUR_THERMAL");
                lemma_code_is_canonical("KILO_WATT_HOUR_THERMAL"@);
            },
        }
    }
}

impl std::str::FromStr for RegisterUnit {
    type Err = ParseError;

    fn from_str(s: &str) -> (r: Result<RegisterUnit, ParseError>)
        ensures
            match r {
                Ok(v) => Self::spec_parse(s@) == Some(v),
                Err(e) => {
                    &&& Self::spec_parse(s@).is_none()
                    &&& e.spec_type_label() == "RegisterUnit"@
                    &&& e.spec_input() == s@
                    &&& e.spec_expected() matches Expected::OneOf(c) && Self::spec_is_codes(c@)
                },
            },
    {
        RegisterUnit::parse_code(s)
    }
}

impl RegisterUnit {
    /// The unit symbol, as printed on a meter display.
    pub fn symbol(self) -> (r: &'static str)
        ensures
            r@ == (match self {
                Self::KiloWattHour => "kWh"@,
                Self::KiloVarHour => "kvarh"@,
                Self::KiloWatt => "kW"@,
                Self::KiloVar => "kvar"@,
                Self::CubicMetre => "m³"@,
                Self::KiloWattHourThermal => "kWh_th"@,
            }),
    {
        match self {
            Self::KiloWattHour => "kWh",
            Self::KiloVarHour => "kvarh",
            Self::KiloWatt => "kW",
            Self::KiloVar => "kvar",
            Self::CubicMetre => "m³",
            Self::KiloWattHourThermal => "kWh_th",
        }
    }

    /// `true` when the register accumulates — an energy or a volume — rather
    /// than holding an instantaneous power.
    pub fn is_cumulative(self) -> (r: bool)
        ensures
            r == !(self == Self::KiloWatt || self == Self::KiloVar),
    {
        match self {
            Self::KiloWatt | Self::KiloVar => false,
            _ => true,
        }
    }
}

} // verus!
