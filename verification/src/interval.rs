//! Core metering vocabulary: [`Sparte`], [`MeasurementUnit`], [`UnitScale`],
//! [`QualityFlag`] and [`Direction`].
//!
//! Each coded type has one code: `as_str`, `to_string` and the parser agree on
//! it, and parsing the code of a variant gives the variant back.

use vstd::prelude::*;

use crate::calendar::{
    CalendarDate, is_supported_instant, spec_date_numbered, spec_local_day_number,
};
use crate::decimal::{signed, Dec, decimal_checked_div, decimal_checked_mul, units_of, view_of};
use crate::error::{Expected, ParseError};
use crate::obis::ObisCode;
use crate::text::{
    lemma_code_is_canonical, lower_ascii, str_eq, to_ascii_lowercase, to_lowercase, to_uppercase, trim,
    trimmed, uppercased, lowercased,
};

verus! {
/// Energy commodity.
#[derive(Debug, Default, Clone, Copy, PartialEq, Eq, Hash, Structural)]
pub enum Sparte {
    /// Electricity.
    #[default]
    Strom,
    /// Natural gas.
    Gas,
    /// Heat (Fern-/Nahwärme, Wärmemengenzähler per EN 1434 / MID MI-004).
    ///
    /// A heat meter integrates flow against the supply/return temperature
    /// difference on-device, so its register holds thermal kWh directly.
    Waerme,
    /// Water (Kalt-/Warmwasser), metered **and billed** in m³.
    Wasser,
}

impl Sparte {
    /// Every variant, in declaration order.
    pub const ALL: [Self; 4] = [Self::Strom, Self::Gas, Self::Waerme, Self::Wasser];

    /// Every code [`as_str`](Self::as_str) writes, in the order of `ALL`.
    pub fn codes() -> (r: &'static [&'static str])
        ensures
            Self::spec_is_codes(r@),
    {
        &["STROM", "GAS", "WAERME", "WASSER"]
    }

    /// `c` lists the codes of `ALL`, in order.
    pub open spec fn spec_is_codes(c: Seq<&'static str>) -> bool {
        &&& c.len() == 4
        &&& c[0]@ == Self::Strom.spec_as_str()
        &&& c[1]@ == Self::Gas.spec_as_str()
        &&& c[2]@ == Self::Waerme.spec_as_str()
        &&& c[3]@ == Self::Wasser.spec_as_str()
    }

    pub open spec fn spec_as_str(self) -> Seq<char> {
        match self {
            Self::Strom => "STROM"@,
            Self::Gas => "GAS"@,
            Self::Waerme => "WAERME"@,
            Self::Wasser => "WASSER"@,
        }
    }

    /// Stable DB/wire label; the `FromStr` input and the code `to_string` writes.
    pub fn as_str(self) -> (r: &'static str)
        ensures
            r@ == self.spec_as_str(),
    {
        match self {
            Self::Strom => "STROM",
            Self::Gas => "GAS",
            Self::Waerme => "WAERME",
            Self::Wasser => "WASSER",
        }
    }

    /// The code as an owned string (what `Display` writes).
    pub fn to_string(&self) -> (r: String)
        ensures
            r@ == self.spec_as_str(),
    {
        self.as_str().to_owned()
    }

    /// The variant whose code is exactly `s`.
    pub open spec fn spec_from_code(s: Seq<char>) -> Option<Self> {
        if s == "STROM"@ {
            Some(Self::Strom)
        } else if s == "GAS"@ {
            Some(Self::Gas)
        } else if s == "WAERME"@ {
            Some(Self::Waerme)
        } else if s == "WASSER"@ {
            Some(Self::Wasser)
        } else {
            None
        }
    }

    /// The variant whose code is exactly `s`, case and whitespace included.
    pub fn from_code(s: &str) -> (r: Option<Self>)
        ensures
            r == Self::spec_from_code(s@),
    {
        if str_eq(s, "STROM") {
            Some(Self::Strom)
        } else if str_eq(s, "GAS") {
            Some(Self::Gas)
        } else if str_eq(s, "WAERME") {
            Some(Self::Waerme)
        } else if str_eq(s, "WASSER") {
            Some(Self::Wasser)
        } else {
            None
        }
    }

    /// What parsing `s` yields: surrounding whitespace is ignored and the
    /// comparison is case-insensitive, and the input aliases are accepted.
    pub open spec fn spec_parse(s: Seq<char>) -> Option<Self> {
        let t = trimmed(s);
        let u = uppercased(t);
        if lower_ascii(t) == lower_ascii("WÄRME"@) || u == "WÄRME"@ {
            Some(Self::Waerme)
        } else
        {
            Self::spec_from_code(u)
        }
    }

    /// Parses a code, ignoring surrounding whitespace and case.
    pub fn parse_code(s: &str) -> (r: Result<Self, ParseError>)
        ensures
            match r {
                Ok(v) => Self::spec_parse(s@) == Some(v),
                Err(e) => {
                    &&& Self::spec_parse(s@).is_none()
                    &&& e.spec_type_label() == "Sparte"@
                    &&& e.spec_input() == s@
                    &&& e.spec_expected() matches Expected::OneOf(c) && Self::spec_is_codes(c@)
                },
            },
    {
        let t = trim(s);
        let lower = to_ascii_lowercase(t);
        let u = to_uppercase(t);
        if str_eq(lower.as_str(), to_ascii_lowercase("WÄRME").as_str()) || str_eq(u.as_str(), "WÄRME") {
            return Ok(Self::Waerme);
        }
        match Self::from_code(u.as_str()) {
            Some(v) => Ok(v),
            None => Err(ParseError::one_of("Sparte", s, Self::codes())),
        }
    }

    /// Parsing the code of a variant gives the variant back.
    pub proof fn lemma_parse_as_str(v: Self)
        ensures
            Self::spec_parse(v.spec_as_str()) == Some(v),
    {
        match v {
            Self::Strom => {
                reveal_strlit("STROM");
                reveal_strlit("WÄRME");
                lemma_code_is_canonical("STROM"@);
                assert(lower_ascii("STROM"@)[0] != lower_ascii("WÄRME"@)[0]);
                assert("STROM"@[0] != "WÄRME"@[0]);
            },
            Self::Gas => {
                reveal_strlit("GAS");
                reveal_strlit("STROM");
                reveal_strlit("WÄRME");
                lemma_code_is_canonical("GAS"@);
                assert(lower_ascii("GAS"@).len() != lower_ascii("WÄRME"@).len());
                assert("GAS"@.len() != "WÄRME"@.len());
            },
            Self::Waerme => {
                reveal_strlit("GAS");
                reveal_strlit("STROM");
                reveal_strlit("WAERME");
                reveal_strlit("WÄRME");
                lemma_code_is_canonical("WAERME"@);
                assert(lower_ascii("WAERME"@).len() != lower_ascii("WÄRME"@).len());
                assert("WAERME"@.len() != "WÄRME"@.len());
            },
            Self::Wasser => {
                reveal_strlit("GAS");
                reveal_strlit("STROM");
                reveal_strlit("WAERME");
                reveal_strlit("WASSER");
                reveal_strlit("WÄRME");
                lemma_code_is_canonical("WASSER"@);
                assert("WASSER"@[2] != "WAERME"@[2]);
                assert(lower_ascii("WASSER"@).len() != lower_ascii("WÄRME"@).len());
                assert("WASSER"@.len() != "WÄRME"@.len());
            },
        }
    }
}

impl std::str::FromStr for Sparte {
    type Err = ParseError;

    fn from_str(s: &str) -> (r: Result<Sparte, ParseError>)
        ensures
            match r {
                Ok(v) => Self::spec_parse(s@) == Some(v),
                Err(e) => {
                    &&& Self::spec_parse(s@).is_none()
                    &&& e.spec_type_label() == "Sparte"@
                    &&& e.spec_input() == s@
                    &&& e.spec_expected() matches Expected::OneOf(c) && Self::spec_is_codes(c@)
                },
            },
    {
        Sparte::parse_code(s)
    }
}

impl Sparte {
    /// The unit this Sparte's meter register advances in.
    pub fn measured_unit(self) -> (r: MeasurementUnit)
        ensures
            r == self.spec_measured_unit(),
    {
        match self {
            Self::Strom | Self::Waerme => MeasurementUnit::KiloWattHour,
            Self::Gas | Self::Wasser => MeasurementUnit::CubicMetre,
        }
    }

    pub open spec fn spec_measured_unit(self) -> MeasurementUnit {
        match self {
            Self::Strom | Self::Waerme => MeasurementUnit::KiloWattHour,
            Self::Gas | Self::Wasser => MeasurementUnit::CubicMetre,
        }
    }

    /// The unit this Sparte is settled and invoiced in.
    pub fn billing_unit(self) -> (r: MeasurementUnit)
        ensures
            r == self.spec_billing_unit(),
    {
        match self {
            Self::Strom | Self::Gas | Self::Waerme => MeasurementUnit::KiloWattHour,
            Self::Wasser => MeasurementUnit::CubicMetre,
        }
    }

    pub open spec fn spec_billing_unit(self) -> MeasurementUnit {
        match self {
            Self::Strom | Self::Gas | Self::Waerme => MeasurementUnit::KiloWattHour,
            Self::Wasser => MeasurementUnit::CubicMetre,
        }
    }

    /// `true` when the measured unit differs from the billing unit, so a
    /// reading must be converted before it can be settled.
    pub fn requires_conversion(self) -> (r: bool)
        ensures
            r == (self.spec_measured_unit() != self.spec_billing_unit()),
            r == (self == Self::Gas),
    {
        match (self.measured_unit(), self.billing_unit()) {
            (MeasurementUnit::KiloWattHour, MeasurementUnit::CubicMetre)
            | (MeasurementUnit::CubicMetre, MeasurementUnit::KiloWattHour) => true,
            _ => false,
        }
    }
}

/// Unit a meter reading is expressed in: kWh or m³.
#[derive(Debug, Default, Clone, Copy, PartialEq, Eq, Hash, Structural)]
pub enum MeasurementUnit {
    /// Kilowatt-hour. Electricity and heat as measured; gas only after
    /// conversion.
    #[default]
    KiloWattHour,
    /// Cubic metre. Water as measured and billed; gas as measured, before
    /// conversion.
    CubicMetre,
}

impl MeasurementUnit {
    /// Every variant, in declaration order.
    pub const ALL: [Self; 2] = [Self::KiloWattHour, Self::CubicMetre];

    /// The canonical codes `to_string` writes; narrower than what the parser
    /// accepts.
    pub fn codes() -> (r: &'static [&'static str])
        ensures
            Self::spec_is_codes(r@),
    {
        &["KWH", "M3"]
    }

    /// `c` lists the two canonical codes, in order.
    pub open spec fn spec_is_codes(c: Seq<&'static str>) -> bool {
        &&& c.len() == 2
        &&& c[0]@ == Self::KiloWattHour.spec_as_str()
        &&& c[1]@ == Self::CubicMetre.spec_as_str()
    }

    pub open spec fn spec_as_str(self) -> Seq<char> {
        match self {
            Self::KiloWattHour => "KWH"@,
            Self::CubicMetre => "M3"@,
        }
    }

    /// Stable DB/wire label.
    pub fn as_str(self) -> (r: &'static str)
        ensures
            r@ == self.spec_as_str(),
    {
        match self {
            Self::KiloWattHour => "KWH",
            Self::CubicMetre => "M3",
        }
    }

    /// The code as an owned string (what `Display` writes).
    pub fn to_string(&self) -> (r: String)
        ensures
            r@ == self.spec_as_str(),
    {
        self.as_str().to_owned()
    }

    /// The scale of a lower-cased, trimmed unit spelling.
    pub open spec fn spec_scale_of(l: Seq<char>) -> Option<UnitScale> {
        let k = Self::KiloWattHour;
        let m = Self::CubicMetre;
        if l == "kwh"@ || l == "kwh_th"@ || l == "kwh_hs"@ {
            Some(UnitScale { unit: k, num: 1, den: 1 })
        } else if l == "wh"@ {
            Some(UnitScale { unit: k, num: 1, den: 1000 })
        } else if l == "mwh"@ {
            Some(UnitScale { unit: k, num: 1000, den: 1 })
        } else if l == "gwh"@ {
            Some(UnitScale { unit: k, num: 1000000, den: 1 })
        } else if l == "gj"@ {
            Some(UnitScale { unit: k, num: 2500, den: 9 })
        } else if l == "mj"@ {
            Some(UnitScale { unit: k, num: 5, den: 18 })
        } else if l == "m3"@ || l == "m³"@ || l == "cbm"@ {
            Some(UnitScale { unit: m, num: 1, den: 1 })
        } else if l == "l"@ || l == "ltr"@ || l == "liter"@ || l == "litre"@ {
            Some(UnitScale { unit: m, num: 1, den: 1000 })
        } else if l == "mtq"@ {
            Some(UnitScale { unit: m, num: 1, den: 1 })
        } else if l == "whr"@ {
            Some(UnitScale { unit: k, num: 1, den: 1000 })
        } else if l == "gv"@ {
            Some(UnitScale { unit: k, num: 2500, den: 9 })
        } else if l == "3b"@ {
            Some(UnitScale { unit: k, num: 5, den: 18 })
        } else if l == "jou"@ {
            Some(UnitScale { unit: k, num: 1, den: 3600000 })
        } else if l == "kjo"@ {
            Some(UnitScale { unit: k, num: 1, den: 3600 })
        } else {
            None
        }
    }

    fn scale_of(l: &str) -> (r: Option<UnitScale>)
        ensures
            r == Self::spec_scale_of(l@),
    {
        let k = Self::KiloWattHour;
        let m = Self::CubicMetre;
        if str_eq(l, "kwh") || str_eq(l, "kwh_th") || str_eq(l, "kwh_hs") {
            Some(UnitScale { unit: k, num: 1, den: 1 })
        } else if str_eq(l, "wh") {
            Some(UnitScale { unit: k, num: 1, den: 1000 })
        } else if str_eq(l, "mwh") {
            Some(UnitScale { unit: k, num: 1000, den: 1 })
        } else if str_eq(l, "gwh") {
            Some(UnitScale { unit: k, num: 1000000, den: 1 })
        } else if str_eq(l, "gj") {
            Some(UnitScale { unit: k, num: 2500, den: 9 })
        } else if str_eq(l, "mj") {
            Some(UnitScale { unit: k, num: 5, den: 18 })
        } else if str_eq(l, "m3") || str_eq(l, "m³") || str_eq(l, "cbm") {
            Some(UnitScale { unit: m, num: 1, den: 1 })
        } else if str_eq(l, "l") || str_eq(l, "ltr") || str_eq(l, "liter") || str_eq(l, "litre") {
            Some(UnitScale { unit: m, num: 1, den: 1000 })
        } else if str_eq(l, "mtq") {
            Some(UnitScale { unit: m, num: 1, den: 1 })
        } else if str_eq(l, "whr") {
            Some(UnitScale { unit: k, num: 1, den: 1000 })
        } else if str_eq(l, "gv") {
            Some(UnitScale { unit: k, num: 2500, den: 9 })
        } else if str_eq(l, "3b") {
            Some(UnitScale { unit: k, num: 5, den: 18 })
        } else if str_eq(l, "jou") {
            Some(UnitScale { unit: k, num: 1, den: 3600000 })
        } else if str_eq(l, "kjo") {
            Some(UnitScale { unit: k, num: 1, den: 3600 })
        } else {
            None
        }
    }

    /// What [`parse_scaled`](Self::parse_scaled) yields for `s`: the spelling
    /// is trimmed and lower-cased, then looked up.
    pub open spec fn spec_parse_scaled(s: Seq<char>) -> Option<UnitScale> {
        Self::spec_scale_of(lowercased(trimmed(s)))
    }

    /// Parse any accepted unit — device symbols and UN/ECE Rec 20 codes —
    /// returning the canonical unit plus the exact factor into it.
    pub fn parse_scaled(s: &str) -> (r: Option<UnitScale>)
        ensures
            r == Self::spec_parse_scaled(s@),
    {
        let t = trim(s);
        let l = to_lowercase(t);
        Self::scale_of(l.as_str())
    }

    /// What [`parse`](Self::parse) yields: a spelling of a canonical unit.
    pub open spec fn spec_parse(s: Seq<char>) -> Option<Self> {
        match Self::spec_parse_scaled(s) {
            Some(sc) => if sc.num == sc.den {
                Some(sc.unit)
            } else {
                None
            },
            None => None,
        }
    }

    /// Parse a unit that needs no rescaling (`kWh`, `m³`, `KWH`, …).
    pub fn parse(s: &str) -> (r: Option<Self>)
        ensures
            r == Self::spec_parse(s@),
    {
        match Self::parse_scaled(s) {
            Some(sc) => if sc.is_canonical() {
                Some(sc.unit)
            } else {
                None
            },
            None => None,
        }
    }

    /// Parses a canonical unit, or fails with the two codes.
    pub fn parse_code(s: &str) -> (r: Result<Self, ParseError>)
        ensures
            match r {
                Ok(v) => Self::spec_parse(s@) == Some(v),
                Err(e) => {
                    &&& Self::spec_parse(s@).is_none()
                    &&& e.spec_type_label() == "MeasurementUnit"@
                    &&& e.spec_input() == s@
                    &&& e.spec_expected() matches Expected::OneOf(c) && Self::spec_is_codes(c@)
                },
            },
    {
        match Self::parse(s) {
            Some(v) => Ok(v),
            None => Err(ParseError::one_of("MeasurementUnit", s, Self::codes())),
        }
    }

    /// Parsing the code of a unit gives the unit back.
    pub proof fn lemma_parse_as_str(v: Self)
        ensures
            Self::spec_parse(v.spec_as_str()) == Some(v),
    {
        reveal_strlit("KWH");
        reveal_strlit("M3");
        reveal_strlit("kwh");
        reveal_strlit("m3");
        match v {
            Self::KiloWattHour => {
                lemma_code_is_canonical("KWH"@);
                assert(lower_ascii("KWH"@) =~= "kwh"@);
            },
            Self::CubicMetre => {
                lemma_code_is_canonical("M3"@);
                reveal_strlit("kwh_th");
                reveal_strlit("kwh_hs");
                reveal_strlit("wh");
                reveal_strlit("mwh");
                reveal_strlit("gwh");
                reveal_strlit("gj");
                reveal_strlit("mj");
                assert(lower_ascii("M3"@) =~= "m3"@);
                assert("m3"@[0] != "wh"@[0]);
                assert("m3"@[0] != "gj"@[0]);
                assert("m3"@[1] != "mj"@[1]);
            },
        }
    }
}

impl std::str::FromStr for MeasurementUnit {
    type Err = ParseError;

    fn from_str(s: &str) -> (r: Result<MeasurementUnit, ParseError>)
        ensures
            match r {
                Ok(v) => Self::spec_parse(s@) == Some(v),
                Err(e) => {
                    &&& Self::spec_parse(s@).is_none()
                    &&& e.spec_type_label() == "MeasurementUnit"@
                    &&& e.spec_input() == s@
                    &&& e.spec_expected() matches Expected::OneOf(c) && Self::spec_is_codes(c@)
                },
            },
    {
        MeasurementUnit::parse_code(s)
    }
}

/// A parsed unit together with the exact rational factor `num / den` that
/// converts a value in that unit into the canonical [`MeasurementUnit`].
#[derive(Debug, Clone, Copy, PartialEq, Eq, Structural)]
pub struct UnitScale {
    /// The canonical unit the value converts into.
    pub unit: MeasurementUnit,
    /// Conversion numerator.
    pub num: i64,
    /// Conversion denominator.
    pub den: i64,
}

impl UnitScale {
    /// `true` when the source unit is already canonical (factor 1:1).
    pub fn is_canonical(self) -> (r: bool)
        ensures
            r == (self.num == self.den),
    {
        self.num == self.den
    }

    /// `value × num ÷ den` as rust_decimal computes it (the value itself for
    /// a canonical unit); `None` where it overflows or `den` is zero.
    pub open spec fn spec_apply(self, value: (int, nat, bool)) -> Option<(int, nat, bool)> {
        if self.num == self.den {
            Some(value)
        } else {
            match decimal_checked_mul(value, signed(self.num as int, 0nat)) {
                Some(p) => decimal_checked_div(p, signed(self.den as int, 0nat)),
                None => None,
            }
        }
    }

    /// Convert `value` into [`UnitScale::unit`]: multiply before dividing, so
    /// that a repeating factor such as GJ→kWh (2500/9) rounds once, at the
    /// end.
    pub fn apply(self, value: Dec) -> (r: Dec)
        requires
            self.spec_apply(value@) is Some,
        ensures
            Some(r@) == self.spec_apply(value@),
    {
        match self.apply_checked(value) {
            Some(v) => v,
            None => {
                proof {
                    assert(false);
                }
                value
            },
        }
    }

    /// [`apply`](Self::apply), or `None` where rust_decimal overflows.
    pub fn checked_apply(self, value: Dec) -> (r: Option<Dec>)
        ensures
            view_of(r) == self.spec_apply(value@),
    {
        if self.apply_checked(value).is_some() {
            Some(self.apply(value))
        } else {
            None
        }
    }

    fn apply_checked(self, value: Dec) -> (r: Option<Dec>)
        ensures
            view_of(r) == self.spec_apply(value@),
    {
        if self.is_canonical() {
            return Some(value);
        }
        match value.checked_mul(&Dec::from_i64(self.num)) {
            Some(p) => p.checked_div(&Dec::from_i64(self.den)),
            None => None,
        }
    }
}

/// BDEW / MSCONS quality flag (the MSCONS `MESSWERTSTATUS`).
///
/// Only `Faulty` and `Unknown` block billing; every other flag is a value
/// somebody stands behind.
#[derive(Debug, Default, Clone, Copy, PartialEq, Eq, Hash, Structural)]
pub enum QualityFlag {
    /// Reading as measured (Abgelesen / Messwert).
    Measured,
    /// Estimated value (Prognosewert) — the basis of an Abschlagsrechnung.
    Estimated,
    /// Substituted / replaced value (Ersatzwert).
    Substituted,
    /// Calculated / derived value (Rechenwert).
    Calculated,
    /// Corrected value (Nachbearbeitungswert).
    Corrected,
    /// Preliminary value (Vorläufiger Wert) — billable, may be revised.
    Preliminary,
    /// Faulty measurement (Fehlerhaft) — must not be billed.
    Faulty,
    /// Quality not known.
    #[default]
    Unknown,
}

impl QualityFlag {
    /// Every variant, in declaration order.
    pub const ALL: [Self; 8] = [Self::Measured, Self::Estimated, Self::Substituted, Self::Calculated, Self::Corrected, Self::Preliminary, Self::Faulty, Self::Unknown];

    /// Every code [`as_str`](Self::as_str) writes, in the order of `ALL`.
    pub fn codes() -> (r: &'static [&'static str])
        ensures
            Self::spec_is_codes(r@),
    {
        &["MEASURED", "ESTIMATED", "SUBSTITUTED", "CALCULATED", "CORRECTED", "PRELIMINARY", "FAULTY", "UNKNOWN"]
    }

    /// `c` lists the codes of `ALL`, in order.
    pub open spec fn spec_is_codes(c: Seq<&'static str>) -> bool {
        &&& c.len() == 8
        &&& c[0]@ == Self::Measured.spec_as_str()
        &&& c[1]@ == Self::Estimated.spec_as_str()
        &&& c[2]@ == Self::Substituted.spec_as_str()
        &&& c[3]@ == Self::Calculated.spec_as_str()
        &&& c[4]@ == Self::Corrected.spec_as_str()
        &&& c[5]@ == Self::Preliminary.spec_as_str()
        &&& c[6]@ == Self::Faulty.spec_as_str()
        &&& c[7]@ == Self::Unknown.spec_as_str()
    }

    pub open spec fn spec_as_str(self) -> Seq<char> {
        match self {
            Self::Measured => "MEASURED"@,
            Self::Estimated => "ESTIMATED"@,
            Self::Substituted => "SUBSTITUTED"@,
            Self::Calculated => "CALCULATED"@,
            Self::Corrected => "CORRECTED"@,
            Self::Preliminary => "PRELIMINARY"@,
            Self::Faulty => "FAULTY"@,
            Self::Unknown => "UNKNOWN"@,
        }
    }

    /// Stable DB/wire label; the `FromStr` input and the code `to_string` writes.
    pub fn as_str(self) -> (r: &'static str)
        ensures
            r@ == self.spec_as_str(),
    {
        match self {
            Self::Measured => "MEASURED",
            Self::Estimated => "ESTIMATED",
            Self::Substituted => "SUBSTITUTED",
            Self::Calculated => "CALCULATED",
            Self::Corrected => "CORRECTED",
            Self::Preliminary => "PRELIMINARY",
            Self::Faulty => "FAULTY",
            Self::Unknown => "UNKNOWN",
        }
    }

    /// The code as an owned string (what `Display` writes).
    pub fn to_string(&self) -> (r: String)
        ensures
            r@ == self.spec_as_str(),
    {
        self.as_str().to_owned()
    }

    /// The variant whose code is exactly `s`.
    pub open spec fn spec_from_code(s: Seq<char>) -> Option<Self> {
        if s == "MEASURED"@ {
            Some(Self::Measured)
        } else if s == "ESTIMATED"@ {
            Some(Self::Estimated)
        } else if s == "SUBSTITUTED"@ {
            Some(Self::Substituted)
        } else if s == "CALCULATED"@ {
            Some(Self::Calculated)
        } else if s == "CORRECTED"@ {
            Some(Self::Corrected)
        } else if s == "PRELIMINARY"@ {
            Some(Self::Preliminary)
        } else if s == "FAULTY"@ {
            Some(Self::Faulty)
        } else if s == "UNKNOWN"@ {
            Some(Self::Unknown)
        } else {
            None
        }
    }

    /// The variant whose code is exactly `s`, case and whitespace included.
    pub fn from_code(s: &str) -> (r: Option<Self>)
        ensures
            r == Self::spec_from_code(s@),
    {
        if str_eq(s, "MEASURED") {
            Some(Self::Measured)
        } else if str_eq(s, "ESTIMATED") {
            Some(Self::Estimated)
        } else if str_eq(s, "SUBSTITUTED") {
            Some(Self::Substituted)
        } else if str_eq(s, "CALCULATED") {
            Some(Self::Calculated)
        } else if str_eq(s, "CORRECTED") {
            Some(Self::Corrected)
        } else if str_eq(s, "PRELIMINARY") {
            Some(Self::Preliminary)
        } else if str_eq(s, "FAULTY") {
            Some(Self::Faulty)
        } else if str_eq(s, "UNKNOWN") {
            Some(Self::Unknown)
        } else {
            None
        }
    }

    /// What parsing `s` yields: surrounding whitespace is ignored and the
    /// comparison is case-insensitive.
    pub open spec fn spec_parse(s: Seq<char>) -> Option<Self> {
        let t = trimmed(s);
        let u = uppercased(t);
        Self::spec_from_code(u)
    }

    /// Parses a code, ignoring surrounding whitespace and case.
    pub fn parse_code(s: &str) -> (r: Result<Self, ParseError>)
        ensures
            match r {
                Ok(v) => Self::spec_parse(s@) == Some(v),
                Err(e) => {
                    &&& Self::spec_parse(s@).is_none()
                    &&& e.spec_type_label() == "QualityFlag"@
                    &&& e.spec_input() == s@
                    &&& e.spec_expected() matches Expected::OneOf(c) && Self::spec_is_codes(c@)
                },
            },
    {
        let t = trim(s);
        let u = to_uppercase(t);
        match Self::from_code(u.as_str()) {
            Some(v) => Ok(v),
            None => Err(ParseError::one_of("QualityFlag", s, Self::codes())),
        }
    }

    /// Parsing the code of a variant gives the variant back.
    pub proof fn lemma_parse_as_str(v: Self)
        ensures
            Self::spec_parse(v.spec_as_str()) == Some(v),
    {
        match v {
            Self::Measured => {
                reveal_strlit("MEASURED");
                lemma_code_is_canonical("MEASURED"@);
            },
            Self::Estimated => {
                reveal_strlit("ESTIMATED");
                reveal_strlit("MEASURED");
                lemma_code_is_canonical("ESTIMATED"@);
            },
            Self::Substituted => {
                reveal_strlit("ESTIMATED");
                reveal_strlit("MEASURED");
                reveal_strlit("SUBSTITUTED");
                lemma_code_is_canonical("SUBSTITUTED"@);
            },
            Self::Calculated => {
                reveal_strlit("CALCULATED");
                reveal_strlit("ESTIMATED");
                reveal_strlit("MEASURED");
                reveal_strlit("SUBSTITUTED");
                lemma_code_is_canonical("CALCULATED"@);
            },
            Self::Corrected => {
                reveal_strlit("CALCULATED");
                reveal_strlit("CORRECTED");
                reveal_strlit("ESTIMATED");
                reveal_strlit("MEASURED");
                reveal_strlit("SUBSTITUTED");
                lemma_code_is_canonical("CORRECTED"@);
                assert("CORRECTED"@[0] != "ESTIMATED"@[0]);
            },
            Self::Preliminary => {
                reveal_strlit("CALCULATED");
                reveal_strlit("CORRECTED");
                reveal_strlit("ESTIMATED");
                reveal_strlit("MEASURED");
                reveal_strlit("PRELIMINARY");
                reveal_strlit("SUBSTITUTED");
                lemma_code_is_canonical("PRELIMINARY"@);
                assert("PRELIMINARY"@[0] != "SUBSTITUTED"@[0]);
            },
            Self::Faulty => {
                reveal_strlit("CALCULATED");
                reveal_strlit("CORRECTED");
                reveal_strlit("ESTIMATED");
                reveal_strlit("FAULTY");
                reveal_strlit("MEASURED");
                reveal_strlit("PRELIMINARY");
                reveal_strlit("SUBSTITUTED");
                lemma_code_is_canonical("FAULTY"@);
            },
            Self::Unknown => {
                reveal_strlit("CALCULATED");
                reveal_strlit("CORRECTED");
                reveal_strlit("ESTIMATED");
                reveal_strlit("FAULTY");
                reveal_strlit("MEASURED");
                reveal_strlit("PRELIMINARY");
                reveal_strlit("SUBSTITUTED");
                reveal_strlit("UNKNOWN");
                lemma_code_is_canonical("UNKNOWN"@);
            },
        }
    }
}

impl std::str::FromStr for QualityFlag {
    type Err = ParseError;

    fn from_str(s: &str) -> (r: Result<QualityFlag, ParseError>)
        ensures
            match r {
                Ok(v) => Self::spec_parse(s@) == Some(v),
                Err(e) => {
                    &&& Self::spec_parse(s@).is_none()
                    &&& e.spec_type_label() == "QualityFlag"@
                    &&& e.spec_input() == s@
                    &&& e.spec_expected() matches Expected::OneOf(c) && Self::spec_is_codes(c@)
                },
            },
    {
        QualityFlag::parse_code(s)
    }
}

impl QualityFlag {
    /// `true` when the value may be billed: everything but `Faulty` and
    /// `Unknown`.
    pub fn is_billable(self) -> (r: bool)
        ensures
            r == !(self == Self::Faulty || self == Self::Unknown),
    {
        match self {
            Self::Measured | Self::Estimated | Self::Substituted | Self::Calculated
            | Self::Corrected | Self::Preliminary => true,
            _ => false,
        }
    }

    /// `true` when the value should be flagged as provisional on an invoice.
    pub fn is_provisional(self) -> (r: bool)
        ensures
            r == (self == Self::Preliminary || self == Self::Estimated),
    {
        match self {
            Self::Preliminary | Self::Estimated => true,
            _ => false,
        }
    }

    pub open spec fn spec_severity_rank(self) -> u8 {
        match self {
            Self::Measured => 0,
            Self::Calculated => 1,
            Self::Corrected => 2,
            Self::Substituted => 3,
            Self::Estimated => 4,
            Self::Preliminary => 5,
            Self::Faulty => 6,
            Self::Unknown => 7,
        }
    }

    /// How far this flag is from a plain measured value, on a strict total
    /// order from 0 (`Measured`) to 7 (`Unknown`).
    pub fn severity_rank(self) -> (r: u8)
        ensures
            r == self.spec_severity_rank(),
    {
        match self {
            Self::Measured => 0,
            Self::Calculated => 1,
            Self::Corrected => 2,
            Self::Substituted => 3,
            Self::Estimated => 4,
            Self::Preliminary => 5,
            Self::Faulty => 6,
            Self::Unknown => 7,
        }
    }

    pub open spec fn spec_worse_of(self, other: Self) -> Self {
        if other.spec_severity_rank() > self.spec_severity_rank() {
            other
        } else {
            self
        }
    }

    /// The worse of two flags, by [`severity_rank`](Self::severity_rank).
    pub fn worse_of(self, other: Self) -> (r: Self)
        ensures
            r == self.spec_worse_of(other),
    {
        if other.severity_rank() > self.severity_rank() {
            other
        } else {
            self
        }
    }

    /// The left fold of [`worse_of`](Self::worse_of) over `s`, `Unknown` when
    /// `s` is empty.
    pub open spec fn spec_worst_of(s: Seq<Self>) -> Self
        decreases s.len(),
    {
        if s.len() == 0 {
            Self::Unknown
        } else if s.len() == 1 {
            s[0]
        } else {
            Self::spec_worst_of(s.drop_last()).spec_worse_of(s.last())
        }
    }

    /// The worst flag of a set, or `Unknown` when it is empty.
    pub fn worst_of(flags: &[Self]) -> (r: Self)
        ensures
            r == Self::spec_worst_of(flags@),
    {
        if flags.len() == 0 {
            return Self::Unknown;
        }
        let mut acc = flags[0];
        let mut i: usize = 1;
        while i < flags.len()
            invariant
                1 <= i <= flags@.len(),
                acc == Self::spec_worst_of(flags@.subrange(0, i as int)),
            decreases flags@.len() - i,
        {
            proof {
                let s = flags@.subrange(0, i as int + 1);
                assert(s.drop_last() =~= flags@.subrange(0, i as int));
            }
            acc = acc.worse_of(flags[i]);
            i = i + 1;
        }
        assert(flags@.subrange(0, flags@.len() as int) =~= flags@);
        acc
    }

    /// No two flags share a rank.
    pub proof fn lemma_severity_rank_injective(a: Self, b: Self)
        ensures
            a.spec_severity_rank() == b.spec_severity_rank() ==> a == b,
    {
    }

    /// `worse_of` is commutative.
    pub proof fn lemma_worse_of_commutative(a: Self, b: Self)
        ensures
            a.spec_worse_of(b) == b.spec_worse_of(a),
    {
    }

    /// `worse_of` is associative.
    pub proof fn lemma_worse_of_associative(a: Self, b: Self, c: Self)
        ensures
            a.spec_worse_of(b).spec_worse_of(c) == a.spec_worse_of(b.spec_worse_of(c)),
    {
    }

    /// `worse_of` is idempotent.
    pub proof fn lemma_worse_of_idempotent(a: Self)
        ensures
            a.spec_worse_of(a) == a,
    {
    }

    /// The worst flag of a non-empty set is one of its members, and no member
    /// ranks above it.
    pub proof fn lemma_worst_of_is_maximum(s: Seq<Self>)
        ensures
            s.len() > 0 ==> s.contains(Self::spec_worst_of(s)),
            forall|i: int|
                0 <= i < s.len() ==> #[trigger] s[i].spec_severity_rank()
                    <= Self::spec_worst_of(s).spec_severity_rank(),
        decreases s.len(),
    {
        if s.len() == 1 {
            assert(s[0] == s[0]);
        } else if s.len() > 1 {
            let p = s.drop_last();
            Self::lemma_worst_of_is_maximum(p);
            let w = Self::spec_worst_of(p);
            assert(p.contains(w));
            let k = choose|k: int| 0 <= k < p.len() && p[k] == w;
            assert(s[k] == w);
            assert forall|i: int| 0 <= i < s.len() implies #[trigger] s[i].spec_severity_rank()
                <= Self::spec_worst_of(s).spec_severity_rank() by {
                if i < s.len() - 1 {
                    assert(s[i] == p[i]);
                }
            }
            if Self::spec_worst_of(s) == w {
                assert(s[k] == Self::spec_worst_of(s));
            } else {
                assert(s[s.len() - 1] == Self::spec_worst_of(s));
            }
        }
    }

    /// The worst flag does not depend on the order the flags arrive in: any
    /// two arrangements of the same flags give the same answer.
    pub proof fn lemma_worst_of_order_independent(a: Seq<Self>, b: Seq<Self>)
        requires
            a.to_multiset() =~= b.to_multiset(),
        ensures
            Self::spec_worst_of(a) == Self::spec_worst_of(b),
    {
        broadcast use vstd::seq_lib::to_multiset_contains, vstd::seq_lib::to_multiset_len;

        Self::lemma_worst_of_is_maximum(a);
        Self::lemma_worst_of_is_maximum(b);
        assert(a.len() == a.to_multiset().len());
        assert(b.len() == b.to_multiset().len());
        if a.len() > 0 {
            let wa = Self::spec_worst_of(a);
            let wb = Self::spec_worst_of(b);
            assert(a.to_multiset().count(wa) > 0);
            assert(b.to_multiset().count(wa) > 0);
            assert(b.contains(wa));
            assert(a.to_multiset().count(wb) > 0);
            assert(a.contains(wb));
            let i = choose|i: int| 0 <= i < b.len() && b[i] == wa;
            let j = choose|j: int| 0 <= j < a.len() && a[j] == wb;
            assert(b[i].spec_severity_rank() <= wb.spec_severity_rank());
            assert(a[j].spec_severity_rank() <= wa.spec_severity_rank());
        }
    }
}

/// Which way energy crossed the measurement point, read off OBIS value
/// group C (1 = Bezug, 2 = Lieferung).
#[derive(Debug, Clone, Copy, PartialEq, Eq, PartialOrd, Ord, Hash, Structural)]
pub enum Direction {
    /// Bezug — energy drawn *from* the grid. OBIS value group C = 1.
    Import,
    /// Einspeisung / Rücklieferung — energy fed *into* the grid. C = 2.
    Export,
}

impl Direction {
    /// Every variant, in declaration order.
    pub const ALL: [Self; 2] = [Self::Import, Self::Export];

    /// Every code [`as_str`](Self::as_str) writes, in the order of `ALL`.
    pub fn codes() -> (r: &'static [&'static str])
        ensures
            Self::spec_is_codes(r@),
    {
        &["IMPORT", "EXPORT"]
    }

    /// `c` lists the codes of `ALL`, in order.
    pub open spec fn spec_is_codes(c: Seq<&'static str>) -> bool {
        &&& c.len() == 2
        &&& c[0]@ == Self::Import.spec_as_str()
        &&& c[1]@ == Self::Export.spec_as_str()
    }

    pub open spec fn spec_as_str(self) -> Seq<char> {
        match self {
            Self::Import => "IMPORT"@,
            Self::Export => "EXPORT"@,
        }
    }

    /// Stable DB/wire label; the `FromStr` input and the code `to_string` writes.
    pub fn as_str(self) -> (r: &'static str)
        ensures
            r@ == self.spec_as_str(),
    {
        match self {
            Self::Import => "IMPORT",
            Self::Export => "EXPORT",
        }
    }

    /// The code as an owned string (what `Display` writes).
    pub fn to_string(&self) -> (r: String)
        ensures
            r@ == self.spec_as_str(),
    {
        self.as_str().to_owned()
    }

    /// The variant whose code is exactly `s`.
    pub open spec fn spec_from_code(s: Seq<char>) -> Option<Self> {
        if s == "IMPORT"@ {
            Some(Self::Import)
        } else if s == "EXPORT"@ {
            Some(Self::Export)
        } else {
            None
        }
    }

    /// The variant whose code is exactly `s`, case and whitespace included.
    pub fn from_code(s: &str) -> (r: Option<Self>)
        ensures
            r == Self::spec_from_code(s@),
    {
        if str_eq(s, "IMPORT") {
            Some(Self::Import)
        } else if str_eq(s, "EXPORT") {
            Some(Self::Export)
        } else {
            None
        }
    }

    /// What parsing `s` yields: surrounding whitespace is ignored and the
    /// comparison is case-insensitive, and the input aliases are accepted.
    pub open spec fn spec_parse(s: Seq<char>) -> Option<Self> {
        let t = trimmed(s);
        let u = uppercased(t);
        if lower_ascii(t) == lower_ascii("BEZUG"@) || u == "BEZUG"@ {
            Some(Self::Import)
        } else
        if lower_ascii(t) == lower_ascii("EINSPEISUNG"@) || u == "EINSPEISUNG"@ {
            Some(Self::Export)
        } else
        {
            Self::spec_from_code(u)
        }
    }

    /// Parses a code, ignoring surrounding whitespace and case.
    pub fn parse_code(s: &str) -> (r: Result<Self, ParseError>)
        ensures
            match r {
                Ok(v) => Self::spec_parse(s@) == Some(v),
                Err(e) => {
                    &&& Self::spec_parse(s@).is_none()
                    &&& e.spec_type_label() == "Direction"@
                    &&& e.spec_input() == s@
                    &&& e.spec_expected() matches Expected::OneOf(c) && Self::spec_is_codes(c@)
                },
            },
    {
        let t = trim(s);
        let lower = to_ascii_lowercase(t);
        let u = to_uppercase(t);
        if str_eq(lower.as_str(), to_ascii_lowercase("BEZUG").as_str()) || str_eq(u.as_str(), "BEZUG") {
            return Ok(Self::Import);
        }
        if str_eq(lower.as_str(), to_ascii_lowercase("EINSPEISUNG").as_str()) || str_eq(u.as_str(), "EINSPEISUNG") {
            return Ok(Self::Export);
        }
        match Self::from_code(u.as_str()) {
            Some(v) => Ok(v),
            None => Err(ParseError::one_of("Direction", s, Self::codes())),
        }
    }

    /// Parsing the code of a variant gives the variant back.
    pub proof fn lemma_parse_as_str(v: Self)
        ensures
            Self::spec_parse(v.spec_as_str()) == Some(v),
    {
        match v {
            Self::Import => {
                reveal_strlit("BEZUG");
                reveal_strlit("EINSPEISUNG");
                reveal_strlit("IMPORT");
                lemma_code_is_canonical("IMPORT"@);
                assert(lower_ascii("IMPORT"@).len() != lower_ascii("BEZUG"@).len());
                assert("IMPORT"@.len() != "BEZUG"@.len());
                assert(lower_ascii("IMPORT"@).len() != lower_ascii("EINSPEISUNG"@).len());
                assert("IMPORT"@.len() != "EINSPEISUNG"@.len());
            },
            Self::Export => {
                reveal_strlit("BEZUG");
                reveal_strlit("EINSPEISUNG");
                reveal_strlit("EXPORT");
                reveal_strlit("IMPORT");
                lemma_code_is_canonical("EXPORT"@);
                assert("EXPORT"@[0] != "IMPORT"@[0]);
                assert(lower_ascii("EXPORT"@).len() != lower_ascii("BEZUG"@).len());
                assert("EXPORT"@.len() != "BEZUG"@.len());
                assert(lower_ascii("EXPORT"@).len() != lower_ascii("EINSPEISUNG"@).len());
                assert("EXPORT"@.len() != "EINSPEISUNG"@.len());
            },
        }
    }
}

impl std::str::FromStr for Direction {
    type Err = ParseError;

    fn from_str(s: &str) -> (r: Result<Direction, ParseError>)
        ensures
            match r {
                Ok(v) => Self::spec_parse(s@) == Some(v),
                Err(e) => {
                    &&& Self::spec_parse(s@).is_none()
                    &&& e.spec_type_label() == "Direction"@
                    &&& e.spec_input() == s@
                    &&& e.spec_expected() matches Expected::OneOf(c) && Self::spec_is_codes(c@)
                },
            },
    {
        Direction::parse_code(s)
    }
}

impl Direction {
    /// The German market term: *Bezug* and *Einspeisung*.
    pub fn bezeichnung(self) -> (r: &'static str)
        ensures
            r@ == (match self {
                Self::Import => "Bezug"@,
                Self::Export => "Einspeisung"@,
            }),
    {
        match self {
            Self::Import => "Bezug",
            Self::Export => "Einspeisung",
        }
    }

    pub open spec fn spec_reversed(self) -> Self {
        match self {
            Self::Import => Self::Export,
            Self::Export => Self::Import,
        }
    }

    /// The other direction.
    pub fn reversed(self) -> (r: Self)
        ensures
            r == self.spec_reversed(),
            r != self,
    {
        match self {
            Self::Import => Self::Export,
            Self::Export => Self::Import,
        }
    }

    /// Reversing twice is the identity.
    pub proof fn lemma_reversed_involutive(d: Self)
        ensures
            d.spec_reversed().spec_reversed() == d,
    {
    }
}

// ── MeterInterval ────────────────────────────────────────────────────────────

/// One metered interval: a quantity over the half-open span `[from, to)` of
/// Unix seconds, with its quality and, where MSCONS gave one, its OBIS code.
#[derive(Debug, Clone, Copy, PartialEq, Eq)]
pub struct MeterInterval {
    /// Interval start, Unix seconds (inclusive).
    pub from: i64,
    /// Interval end, Unix seconds (exclusive).
    pub to: i64,
    /// The metered quantity, in the Sparte's own unit.
    pub value: Dec,
    /// Reading quality.
    pub quality: QualityFlag,
    /// OBIS-Kennzahl of the measurement channel, when provided.
    pub obis_code: Option<ObisCode>,
}

/// The span of an interval fits the integers it is computed in.
pub open spec fn span_fits(iv: MeterInterval) -> bool {
    i64::MIN < iv.to - iv.from <= i64::MAX
}

impl MeterInterval {
    /// Instantaneous demand in kW, `value ÷ (seconds ÷ 3600)` as
    /// rust_decimal computes it: `Some(None)` for a zero-length interval, and
    /// `None` where rust_decimal overflows.
    pub open spec fn spec_demand(self) -> Option<Option<(int, nat, bool)>> {
        match decimal_checked_div(signed(self.to - self.from, 0nat), (3600int, 0nat, false)) {
            None => None,
            Some(h) => if units_of(h) == 0 {
                Some(None)
            } else {
                match decimal_checked_div(self.value@, h) {
                    Some(q) => Some(Some(q)),
                    None => None,
                }
            },
        }
    }

    /// Duration in whole seconds.
    pub fn duration_secs(&self) -> (r: i64)
        requires
            span_fits(*self),
        ensures
            r == self.to - self.from,
    {
        self.to - self.from
    }

    /// Duration in whole minutes, truncated toward zero.
    pub fn duration_minutes(&self) -> (r: i64)
        requires
            span_fits(*self),
        ensures
            r == (if self.to - self.from >= 0 {
                (self.to - self.from) / 60
            } else {
                -((self.from - self.to) / 60)
            }),
    {
        let d = self.to - self.from;
        if d >= 0 {
            d / 60
        } else {
            -((-d) / 60)
        }
    }

    /// The Europe/Berlin calendar day this interval starts on: the grouping
    /// key for daily aggregation.
    pub fn berlin_day(&self) -> (r: CalendarDate)
        requires
            is_supported_instant(self.from as int),
        ensures
            r.spec_valid(),
            r == spec_date_numbered(spec_local_day_number(self.from as int)),
    {
        crate::calendar::local_day(self.from)
    }

    /// Instantaneous demand in kW, `kWh ÷ duration_h`: 2.5 kWh over a
    /// quarter-hour is 10 kW. `None` for a zero-length interval.
    pub fn demand_kw(&self) -> (r: Option<Dec>)
        requires
            span_fits(*self),
            self.spec_demand() is Some,
        ensures
            Some(view_of(r)) == self.spec_demand(),
    {
        match self.checked_demand_kw() {
            Some(d) => d,
            None => {
                proof {
                    assert(false);
                }
                None
            },
        }
    }

    /// [`demand_kw`](Self::demand_kw), or `None` where rust_decimal
    /// overflows.
    pub fn checked_demand_kw(&self) -> (r: Option<Option<Dec>>)
        requires
            span_fits(*self),
        ensures
            match r {
                Some(d) => Some(view_of(d)) == self.spec_demand(),
                None => self.spec_demand() is None,
            },
    {
        let secs = Dec::from_i64(self.duration_secs());
        let h = match secs.checked_div(&Dec::from_i64(3600)) {
            Some(h) => h,
            None => {
                return None;
            },
        };
        if h.is_zero() {
            return Some(None);
        }
        match self.value.checked_div(&h) {
            Some(q) => Some(Some(q)),
            None => None,
        }
    }

    /// Which way the energy flowed, read off the OBIS code: `None` without a
    /// code, and for a code with no direction.
    pub fn direction(&self) -> (r: Option<Direction>)
        ensures
            r == (match self.obis_code {
                Some(c) => c.spec_direction(),
                None => None,
            }),
    {
        match self.obis_code {
            Some(c) => c.direction(),
            None => None,
        }
    }

    /// Tariff register number from the OBIS code (`None` = total, `Some(1)` =
    /// HT, `Some(2)` = NT).
    pub fn tariff_register(&self) -> (r: Option<u8>)
        ensures
            r == (match self.obis_code {
                Some(c) => c.spec_tariff_register(),
                None => None,
            }),
    {
        match self.obis_code {
            Some(c) => c.tariff_register(),
            None => None,
        }
    }
}

} // verus!
