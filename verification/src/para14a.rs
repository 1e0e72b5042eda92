//! § 14a EnWG steuerbare Verbrauchseinrichtungen (BNetzA BK6-22-300,
//! Anlage 1): the [`SteuVeFallgruppe`]n, the Mindestleistung a reduction must
//! leave (Ziff. 4.5) — for one directly controlled device and for a set behind
//! one EMS — and the netzwirksamer Leistungsbezug (Ziff. 2.3) under a
//! [`Verursachungsregel`].

use vstd::prelude::*;

use crate::decimal::{signed, exact_product, exact_at_larger_scale, lemma_product_units, max_mantissa,
    quotient_within_one_place,
    Dec, abs_int, decimal_checked_add, decimal_checked_div, decimal_checked_mul, limit_at, pow10,
    running_sum, units_of, view_of, views,
};
use crate::error::{Expected, ParseError};
use crate::text::{
    lemma_code_is_canonical, str_eq,
    to_uppercase, trim, trimmed, uppercased,
};

verus! {
/// The four Fallgruppen of steuerbare Verbrauchseinrichtungen, BNetzA
/// BK6-22-300 Anlage 1 Ziff. 2.4.1; each qualifies only above 4,2 kW
/// Netzanschlussleistung in the Niederspannung.
#[derive(Debug, Clone, Copy, PartialEq, Eq, Hash, Structural)]
pub enum SteuVeFallgruppe {
    /// **a** — a Ladepunkt für Elektromobile that is not publicly accessible.
    Ladepunkt,
    /// **b** — a Wärmepumpenheizung, including Zusatz- or Notheizvorrichtungen.
    Waermepumpe,
    /// **c** — an Anlage zur Raumkühlung.
    Raumkuehlung,
    /// **d** — a Stromspeicher, in respect of its Einspeicherung.
    Stromspeicher,
}

impl SteuVeFallgruppe {
    /// Every Fallgruppe, in the order Ziff. 2.4.1 lists them.
    pub const ALL: [Self; 4] = [Self::Ladepunkt, Self::Waermepumpe, Self::Raumkuehlung, Self::Stromspeicher];

    /// Every code [`as_str`](Self::as_str) writes, in the order of `ALL`.
    pub fn codes() -> (r: &'static [&'static str])
        ensures
            Self::spec_is_codes(r@),
    {
        &["LADEPUNKT", "WAERMEPUMPE", "RAUMKUEHLUNG", "STROMSPEICHER"]
    }

    /// `c` lists the codes of `ALL`, in order.
    pub open spec fn spec_is_codes(c: Seq<&'static str>) -> bool {
        &&& c.len() == 4
        &&& c[0]@ == Self::Ladepunkt.spec_as_str()
        &&& c[1]@ == Self::Waermepumpe.spec_as_str()
        &&& c[2]@ == Self::Raumkuehlung.spec_as_str()
        &&& c[3]@ == Self::Stromspeicher.spec_as_str()
    }

    pub open spec fn spec_as_str(self) -> Seq<char> {
        match self {
            Self::Ladepunkt => "LADEPUNKT"@,
            Self::Waermepumpe => "WAERMEPUMPE"@,
            Self::Raumkuehlung => "RAUMKUEHLUNG"@,
            Self::Stromspeicher => "STROMSPEICHER"@,
        }
    }

    /// Stable DB/wire label; the `FromStr` input and the code `to_string` writes.
    pub fn as_str(self) -> (r: &'static str)
        ensures
            r@ == self.spec_as_str(),
    {
        match self {
            Self::Ladepunkt => "LADEPUNKT",
            Self::Waermepumpe => "WAERMEPUMPE",
            Self::Raumkuehlung => "RAUMKUEHLUNG",
            Self::Stromspeicher => "STROMSPEICHER",
        }
    }

    /// The code as an owned string (what `Display` writes).
    pub fn to_string(&self) -> (r: String)
        ensures
            r@ == self.spec_as_str(),
    {
        self.as_str().to_owned()
    }

    /// The variant whose code is exactly `s`.
    pub open spec fn spec_from_code(s: Seq<char>) -> Option<Self> {
        if s == "LADEPUNKT"@ {
            Some(Self::Ladepunkt)
        } else if s == "WAERMEPUMPE"@ {
            Some(Self::Waermepumpe)
        } else if s == "RAUMKUEHLUNG"@ {
            Some(Self::Raumkuehlung)
        } else if s == "STROMSPEICHER"@ {
            Some(Self::Stromspeicher)
        } else {
            None
        }
    }

    /// The variant whose code is exactly `s`, case and whitespace included.
    pub fn from_code(s: &str) -> (r: Option<Self>)
        ensures
            r == Self::spec_from_code(s@),
    {
        if str_eq(s, "LADEPUNKT") {
            Some(Self::Ladepunkt)
        } else if str_eq(s, "WAERMEPUMPE") {
            Some(Self::Waermepumpe)
        } else if str_eq(s, "RAUMKUEHLUNG") {
            Some(Self::Raumkuehlung)
        } else if str_eq(s, "STROMSPEICHER") {
            Some(Self::Stromspeicher)
        } else {
            None
        }
    }

    /// What parsing `s` yields: surrounding whitespace is ignored and the
    /// comparison is case-insensitive.
    pub open spec fn spec_parse(s: Seq<char>) -> Option<Self> {
        let t = trimmed(s);
        let u = uppercased(t);
        Self::spec_from_code(u)
    }

    /// Parses a code, ignoring surrounding whitespace and case.
    pub fn parse_code(s: &str) -> (r: Result<Self, ParseError>)
        ensures
            match r {
                Ok(v) => Self::spec_parse(s@) == Some(v),
                Err(e) => {
                    &&& Self::spec_parse(s@).is_none()
                    &&& e.spec_type_label() == "SteuVeFallgruppe"@
                    &&& e.spec_input() == s@
                    &&& e.spec_expected() matches Expected::OneOf(c) && Self::spec_is_codes(c@)
                },
            },
    {
        let t = trim(s);
        let u = to_uppercase(t);
        match Self::from_code(u.as_str()) {
            Some(v) => Ok(v),
            None => Err(ParseError::one_of("SteuVeFallgruppe", s, Self::codes())),
        }
    }

    /// Parsing the code of a variant gives the variant back.
    pub proof fn lemma_parse_as_str(v: Self)
        ensures
            Self::spec_parse(v.spec_as_str()) == Some(v),
    {
        match v {
            Self::Ladepunkt => {
                reveal_strlit("LADEPUNKT");
                lemma_code_is_canonical("LADEPUNKT"@);
            },
            Self::Waermepumpe => {
                reveal_strlit("LADEPUNKT");
                reveal_strlit("WAERMEPUMPE");
                lemma_code_is_canonical("WAERMEPUMPE"@);
            },
            Self::Raumkuehlung => {
                reveal_strlit("LADEPUNKT");
                reveal_strlit("RAUMKUEHLUNG");
                reveal_strlit("WAERMEPUMPE");
                lemma_code_is_canonical("RAUMKUEHLUNG"@);
            },
            Self::Stromspeicher => {
                reveal_strlit("LADEPUNKT");
                reveal_strlit("RAUMKUEHLUNG");
                reveal_strlit("STROMSPEICHER");
                reveal_strlit("WAERMEPUMPE");
                lemma_code_is_canonical("STROMSPEICHER"@);
            },
        }
    }
}

impl std::str::FromStr for SteuVeFallgruppe {
    type Err = ParseError;

    fn from_str(s: &str) -> (r: Result<SteuVeFallgruppe, ParseError>)
        ensures
            match r {
                Ok(v) => Self::spec_parse(s@) == Some(v),
                Err(e) => {
                    &&& Self::spec_parse(s@).is_none()
                    &&& e.spec_type_label() == "SteuVeFallgruppe"@
                    &&& e.spec_input() == s@
                    &&& e.spec_expected() matches Expected::OneOf(c) && Self::spec_is_codes(c@)
                },
            },
    {
        SteuVeFallgruppe::parse_code(s)
    }
}

impl SteuVeFallgruppe {
    pub open spec fn spec_ziffer(self) -> Seq<char> {
        match self {
            Self::Ladepunkt => "2.4.1.a"@,
            Self::Waermepumpe => "2.4.1.b"@,
            Self::Raumkuehlung => "2.4.1.c"@,
            Self::Stromspeicher => "2.4.1.d"@,
        }
    }

    /// The sub-item of Ziff. 2.4.1 this Fallgruppe is.
    pub fn ziffer(self) -> (r: &'static str)
        ensures
            r@ == self.spec_ziffer(),
    {
        match self {
            Self::Ladepunkt => "2.4.1.a",
            Self::Waermepumpe => "2.4.1.b",
            Self::Raumkuehlung => "2.4.1.c",
            Self::Stromspeicher => "2.4.1.d",
        }
    }

    /// `true` for the two Fallgruppen the > 11 kW scaling rule applies to:
    /// Wärmepumpe and Raumkühlung (Ziff. 4.5.1 Satz 2, 4.5.2 Satz 3).
    pub fn is_scaled_above_threshold(self) -> (r: bool)
        ensures
            r == (self is Waermepumpe || self is Raumkuehlung),
    {
        matches!(self, Self::Waermepumpe | Self::Raumkuehlung)
    }
}

/// Which part of the grid draw the steuerbare Verbrauchseinrichtungen
/// caused, where local generation covers part of the load.
#[derive(Debug, Default, Clone, Copy, PartialEq, Eq, Hash, Structural)]
pub enum Verursachungsregel {
    /// Local generation serves the uncontrollable load first, so the grid draw
    /// left is the steuVE's: `min(Netzbezug, P_steuVE)`. The conservative
    /// reading, and the default.
    #[default]
    SteuVeZuletzt,
    /// Generation is shared pro rata: `Netzbezug × P_steuVE ÷ (P_steuVE + P_übrige)`.
    Anteilig,
}

impl Verursachungsregel {
    /// Every convention, in declaration order.
    pub const ALL: [Self; 2] = [Self::SteuVeZuletzt, Self::Anteilig];

    /// Every code [`as_str`](Self::as_str) writes, in the order of `ALL`.
    pub fn codes() -> (r: &'static [&'static str])
        ensures
            Self::spec_is_codes(r@),
    {
        &["STEUVE_ZULETZT", "ANTEILIG"]
    }

    /// `c` lists the codes of `ALL`, in order.
    pub open spec fn spec_is_codes(c: Seq<&'static str>) -> bool {
        &&& c.len() == 2
        &&& c[0]@ == Self::SteuVeZuletzt.spec_as_str()
        &&& c[1]@ == Self::Anteilig.spec_as_str()
    }

    pub open spec fn spec_as_str(self) -> Seq<char> {
        match self {
            Self::SteuVeZuletzt => "STEUVE_ZULETZT"@,
            Self::Anteilig => "ANTEILIG"@,
        }
    }

    /// Stable DB/wire label; the `FromStr` input and the code `to_string` writes.
    pub fn as_str(self) -> (r: &'static str)
        ensures
            r@ == self.spec_as_str(),
    {
        match self {
            Self::SteuVeZuletzt => "STEUVE_ZULETZT",
            Self::Anteilig => "ANTEILIG",
        }
    }

    /// The code as an owned string (what `Display` writes).
    pub fn to_string(&self) -> (r: String)
        ensures
            r@ == self.spec_as_str(),
    {
        self.as_str().to_owned()
    }

    /// The variant whose code is exactly `s`.
    pub open spec fn spec_from_code(s: Seq<char>) -> Option<Self> {
        if s == "STEUVE_ZULETZT"@ {
            Some(Self::SteuVeZuletzt)
        } else if s == "ANTEILIG"@ {
            Some(Self::Anteilig)
        } else {
            None
        }
    }

    /// The variant whose code is exactly `s`, case and whitespace included.
    pub fn from_code(s: &str) -> (r: Option<Self>)
        ensures
            r == Self::spec_from_code(s@),
    {
        if str_eq(s, "STEUVE_ZULETZT") {
            Some(Self::SteuVeZuletzt)
        } else if str_eq(s, "ANTEILIG") {
            Some(Self::Anteilig)
        } else {
            None
        }
    }

    /// What parsing `s` yields: surrounding whitespace is ignored and the
    /// comparison is case-insensitive.
    pub open spec fn spec_parse(s: Seq<char>) -> Option<Self> {
        let t = trimmed(s);
        let u = uppercased(t);
        Self::spec_from_code(u)
    }

    /// Parses a code, ignoring surrounding whitespace and case.
    pub fn parse_code(s: &str) -> (r: Result<Self, ParseError>)
        ensures
            match r {
                Ok(v) => Self::spec_parse(s@) == Some(v),
                Err(e) => {
                    &&& Self::spec_parse(s@).is_none()
                    &&& e.spec_type_label() == "Verursachungsregel"@
                    &&& e.spec_input() == s@
                    &&& e.spec_expected() matches Expected::OneOf(c) && Self::spec_is_codes(c@)
                },
            },
    {
        let t = trim(s);
        let u = to_uppercase(t);
        match Self::from_code(u.as_str()) {
            Some(v) => Ok(v),
            None => Err(ParseError::one_of("Verursachungsregel", s, Self::codes())),
        }
    }

    /// Parsing the code of a variant gives the variant back.
    pub proof fn lemma_parse_as_str(v: Self)
        ensures
            Self::spec_parse(v.spec_as_str()) == Some(v),
    {
        match v {
            Self::SteuVeZuletzt => {
                reveal_strlit("STEUVE_ZULETZT");
                lemma_code_is_canonical("STEUVE_ZULETZT"@);
            },
            Self::Anteilig => {
                reveal_strlit("ANTEILIG");
                reveal_strlit("STEUVE_ZULETZT");
                lemma_code_is_canonical("ANTEILIG"@);
            },
        }
    }
}

impl std::str::FromStr for Verursachungsregel {
    type Err = ParseError;

    fn from_str(s: &str) -> (r: Result<Verursachungsregel, ParseError>)
        ensures
            match r {
                Ok(v) => Self::spec_parse(s@) == Some(v),
                Err(e) => {
                    &&& Self::spec_parse(s@).is_none()
                    &&& e.spec_type_label() == "Verursachungsregel"@
                    &&& e.spec_input() == s@
                    &&& e.spec_expected() matches Expected::OneOf(c) && Self::spec_is_codes(c@)
                },
            },
    {
        Verursachungsregel::parse_code(s)
    }
}

// ── the published parameters ─────────────────────────────────────────────────

/// The flat Mindestleistung of Ziff. 4.5.1 Satz 1: **4,2 kW** per steuVE.
pub fn MINDESTLEISTUNG_KW() -> (r: Dec)
    ensures
        r@ == (42int, 1nat, false),
{
    Dec::new(42, 1)
}

/// The Netzanschlussleistung a device must **exceed** to be a steuerbare
/// Verbrauchseinrichtung at all: **4,2 kW** (Ziff. 2.4.1).
pub fn STEUVE_SCHWELLE_KW() -> (r: Dec)
    ensures
        r@ == (42int, 1nat, false),
{
    Dec::new(42, 1)
}

/// The Netzanschlussleistung above which Wärmepumpe and Raumkühlung scale
/// instead: **11 kW** (Ziff. 4.5.1 Satz 2, Ziff. 4.5.2 Satz 3).
pub fn SKALIERUNG_SCHWELLE_KW() -> (r: Dec)
    ensures
        r@ == (11int, 0nat, false),
{
    Dec::new(11, 0)
}

/// The Skalierungsfaktor presumed appropriate: **0,4** (Ziff. 4.5.1 Satz 3).
pub fn SKALIERUNGSFAKTOR() -> (r: Dec)
    ensures
        r@ == (4int, 1nat, false),
{
    Dec::new(4, 1)
}

/// The Gleichzeitigkeitsfaktor of Ziff. 4.5.2 in row `i` of the table
/// (`n_steuVE = i + 2`): 0,80 falling by 0,05 to 0,45.
pub open spec fn gzf_row(i: int) -> (int, nat, bool) {
    signed(80 - 5 * i, 2nat)
}

/// The Gleichzeitigkeitsfaktoren of Ziff. 4.5.2, for `n_steuVE` = 2, 3, … ≥ 9.
pub fn GLEICHZEITIGKEITSFAKTOREN() -> (r: [Dec; 8])
    ensures
        forall|i: int| 0 <= i < 8 ==> (#[trigger] r@[i])@ == gzf_row(i),
{
    [
        Dec::new(80, 2),
        Dec::new(75, 2),
        Dec::new(70, 2),
        Dec::new(65, 2),
        Dec::new(60, 2),
        Dec::new(55, 2),
        Dec::new(50, 2),
        Dec::new(45, 2),
    ]
}

/// The Gleichzeitigkeitsfaktor for `n` EMS-controlled steuVE: `None` below
/// two, 0,45 from nine up.
pub open spec fn spec_gleichzeitigkeitsfaktor(n: int) -> Option<(int, nat, bool)> {
    if n < 2 {
        None
    } else if n - 2 < 7 {
        Some(gzf_row(n - 2))
    } else {
        Some(gzf_row(7))
    }
}

/// The Gleichzeitigkeitsfaktor for `n` EMS-controlled steuVE. `None` for
/// `n < 2`: the table starts at two. Everything from nine upwards is 0,45.
pub fn gleichzeitigkeitsfaktor(n_steuve: u32) -> (r: Option<Dec>)
    ensures
        view_of(r) == spec_gleichzeitigkeitsfaktor(n_steuve as int),
{
    if n_steuve < 2 {
        return None;
    }
    let table = GLEICHZEITIGKEITSFAKTOREN();
    let index: usize = if n_steuve - 2 < 7 {
        (n_steuve - 2) as usize
    } else {
        7
    };
    Some(table[index])
}

// ── devices ───────────────────────────────────────────────────────────────────

/// One steuerbare Verbrauchseinrichtung, or a group of them that Ziff. 2.4.2
/// treats as one.
#[derive(Debug, Clone, Copy, PartialEq, Eq)]
pub struct SteuVe {
    /// Which of the four Fallgruppen this is.
    pub fallgruppe: SteuVeFallgruppe,
    /// Netzanschlussleistung in kW — grouped per Ziff. 2.4.2 where that
    /// applies.
    pub netzanschlussleistung_kw: Dec,
}

impl SteuVe {
    /// A steuVE of `fallgruppe` with `netzanschlussleistung_kw` kW.
    pub fn new(fallgruppe: SteuVeFallgruppe, netzanschlussleistung_kw: Dec) -> (r: Self)
        ensures
            r.fallgruppe == fallgruppe,
            r.netzanschlussleistung_kw == netzanschlussleistung_kw,
    {
        SteuVe { fallgruppe, netzanschlussleistung_kw }
    }

    /// More than 4,2 kW: a steuerbare Verbrauchseinrichtung (Ziff. 2.4.1;
    /// exactly 4,2 kW is not *more than* 4,2 kW).
    pub open spec fn spec_is_steuerbar(self) -> bool {
        self.netzanschlussleistung_kw.units() > units_of((42int, 1nat, false))
    }

    /// `true` when this is a steuerbare Verbrauchseinrichtung at all.
    pub fn is_steuerbar(&self) -> (r: bool)
        ensures
            r == self.spec_is_steuerbar(),
    {
        self.netzanschlussleistung_kw.gt(&STEUVE_SCHWELLE_KW())
    }
}

/// The parameters of Ziff. 4.5 that an *anderweitige Empfehlung* may replace.
#[derive(Debug, Clone, Copy, PartialEq, Eq)]
pub struct Para14aConfig {
    /// The flat floor per steuVE, kW. Ziff. 4.5.1 Satz 1: 4,2.
    pub mindestleistung_kw: Dec,
    /// The Netzanschlussleistung above which b/c scale instead, kW: 11.
    pub skalierung_schwelle_kw: Dec,
    /// The Skalierungsfaktor: 0,4.
    pub skalierungsfaktor: Dec,
}

impl Default for Para14aConfig {
    /// The Festlegung's own presumption: 4,2 kW, 11 kW and 0,4.
    fn default() -> (r: Self)
        ensures
            r.mindestleistung_kw@ == (42int, 1nat, false),
            r.skalierung_schwelle_kw@ == (11int, 0nat, false),
            r.skalierungsfaktor@ == (4int, 1nat, false),
    {
        Para14aConfig {
            mindestleistung_kw: MINDESTLEISTUNG_KW(),
            skalierung_schwelle_kw: SKALIERUNG_SCHWELLE_KW(),
            skalierungsfaktor: SKALIERUNGSFAKTOR(),
        }
    }
}

impl Para14aConfig {
    /// `device` falls under the scaling rule: Fallgruppe b or c **and** a
    /// Netzanschlussleistung above the threshold.
    pub open spec fn spec_is_scaled(self, device: SteuVe) -> bool {
        (device.fallgruppe is Waermepumpe || device.fallgruppe is Raumkuehlung)
            && device.netzanschlussleistung_kw.units() > self.skalierung_schwelle_kw.units()
    }

    fn is_scaled(&self, device: &SteuVe) -> (r: bool)
        ensures
            r == self.spec_is_scaled(*device),
    {
        device.fallgruppe.is_scaled_above_threshold() && device.netzanschlussleistung_kw.gt(
            &self.skalierung_schwelle_kw,
        )
    }
}

// ── Ziff. 4.5.1 — Direktansteuerung ──────────────────────────────────────────

/// `P_min,14a` for **one** directly-controlled steuVE (Ziff. 4.4.a): 4,2 kW,
/// or — for a Wärmepumpe or Raumkühlung above 11 kW — its
/// Netzanschlussleistung times the Skalierungsfaktor. `None` when `device`
/// is not a steuVE.
pub fn mindestleistung_direktansteuerung(device: &SteuVe, config: &Para14aConfig) -> (r: Option<Dec>)
    requires
        device.spec_is_steuerbar() && config.spec_is_scaled(*device) ==> abs_int(
            device.netzanschlussleistung_kw.units() * config.skalierungsfaktor.units(),
        ) <= limit_at(0) * pow10(28),
    ensures
        view_of(r) == if !device.spec_is_steuerbar() {
            None
        } else if config.spec_is_scaled(*device) {
            decimal_checked_mul(device.netzanschlussleistung_kw@, config.skalierungsfaktor@)
        } else {
            Some(config.mindestleistung_kw@)
        },
{
    if !device.is_steuerbar() {
        return None;
    }
    if config.is_scaled(device) {
        device.netzanschlussleistung_kw.checked_mul(&config.skalierungsfaktor)
    } else {
        Some(config.mindestleistung_kw)
    }
}

// ── Ziff. 4.5.2 — Steuerung mittels EMS ──────────────────────────────────────

/// The Netzanschlussleistungen of the devices of one Fallgruppe, in order.
pub open spec fn group_values(devices: Seq<SteuVe>, gruppe: SteuVeFallgruppe) -> Seq<(int, nat, bool)>
    decreases devices.len(),
{
    if devices.len() == 0 {
        Seq::empty()
    } else {
        let p = group_values(devices.drop_last(), gruppe);
        if devices.last().fallgruppe == gruppe {
            p.push(devices.last().netzanschlussleistung_kw@)
        } else {
            p
        }
    }
}

/// `P_min,14a` for the devices as rust_decimal computes it: `None` for an
/// empty set or one with a device that is not a steuVE, else the scaled or
/// flat base plus `(n − 1) × GZF × 4,2 kW`. The outer `None` is an overflow.
pub open spec fn spec_mindestleistung_ems(devices: Seq<SteuVe>, config: Para14aConfig) -> Option<Option<(int, nat, bool)>> {
    let n = devices.len() as int;
    if n == 0 || n > u32::MAX || exists|i: int| 0 <= i < n && !(#[trigger] devices[i]).spec_is_steuerbar() {
        Some(None)
    } else {
        let base = if exists|i: int| 0 <= i < n && config.spec_is_scaled(#[trigger] devices[i]) {
            match (
                running_sum(group_values(devices, SteuVeFallgruppe::Waermepumpe)),
                running_sum(group_values(devices, SteuVeFallgruppe::Raumkuehlung)),
            ) {
                (Some(sw), Some(sk)) => match (
                    decimal_checked_mul(config.skalierungsfaktor@, sw),
                    decimal_checked_mul(config.skalierungsfaktor@, sk),
                ) {
                    (Some(wp), Some(klima)) => Some(if units_of(wp) < units_of(klima) {
                        klima
                    } else {
                        wp
                    }),
                    _ => None,
                },
                _ => None,
            }
        } else {
            Some(config.mindestleistung_kw@)
        };
        let rest = match spec_gleichzeitigkeitsfaktor(n) {
            Some(g) => match decimal_checked_mul(signed(n - 1, 0nat), g) {
                Some(p) => decimal_checked_mul(p, config.mindestleistung_kw@),
                None => None,
            },
            None => Some((0int, 0nat, false)),
        };
        match (base, rest) {
            (Some(b), Some(r)) => match decimal_checked_add(b, r) {
                Some(t) => Some(Some(t)),
                None => None,
            },
            _ => None,
        }
    }
}

/// The running sum of the Netzanschlussleistungen of one Fallgruppe.
fn group_sum(devices: &[SteuVe], gruppe: SteuVeFallgruppe) -> (r: Option<Dec>)
    ensures
        view_of(r) == running_sum(group_values(devices@, gruppe)),
{
    let mut values: Vec<Dec> = Vec::new();
    let mut i: usize = 0;
    proof {
        assert(devices@.take(0) =~= Seq::<SteuVe>::empty());
    }
    while i < devices.len()
        invariant
            0 <= i <= devices.len(),
            views(values@) == group_values(devices@.take(i as int), gruppe),
        decreases devices.len() - i,
    {
        proof {
            assert(devices@.take(i + 1).drop_last() =~= devices@.take(i as int));
        }
        if devices[i].fallgruppe == gruppe {
            let ghost before = values@;
            values.push(devices[i].netzanschlussleistung_kw);
            proof {
                assert(views(values@) =~= views(before).push(devices@[i as int].netzanschlussleistung_kw@));
            }
        }
        i = i + 1;
    }
    proof {
        assert(devices@.take(devices.len() as int) =~= devices@);
    }
    Dec::checked_sum(values.as_slice())
}

/// `P_min,14a` with rust_decimal's overflows reported as `None`.
fn ems_checked(devices: &[SteuVe], config: &Para14aConfig) -> (r: Option<Option<Dec>>)
    ensures
        match r {
            Some(x) => Some(view_of(x)) == spec_mindestleistung_ems(devices@, *config),
            None => spec_mindestleistung_ems(devices@, *config) is None,
        },
{
    if devices.len() == 0 || devices.len() > 4294967295 {
        return Some(None);
    }
    let n = devices.len() as u32;
    let mut i: usize = 0;
    let mut any_scaled = false;
    while i < devices.len()
        invariant
            0 <= i <= devices.len(),
            forall|j: int| 0 <= j < i ==> (#[trigger] devices@[j]).spec_is_steuerbar(),
            any_scaled == exists|j: int| 0 <= j < i && config.spec_is_scaled(#[trigger] devices@[j]),
        decreases devices.len() - i,
    {
        if !devices[i].is_steuerbar() {
            return Some(None);
        }
        if config.is_scaled(&devices[i]) {
            any_scaled = true;
        }
        i = i + 1;
    }
    let base = if any_scaled {
        let sw = match group_sum(devices, SteuVeFallgruppe::Waermepumpe) {
            Some(s) => s,
            None => {
                return None;
            },
        };
        let sk = match group_sum(devices, SteuVeFallgruppe::Raumkuehlung) {
            Some(s) => s,
            None => {
                return None;
            },
        };
        let wp = match config.skalierungsfaktor.checked_mul(&sw) {
            Some(x) => x,
            None => {
                return None;
            },
        };
        let klima = match config.skalierungsfaktor.checked_mul(&sk) {
            Some(x) => x,
            None => {
                return None;
            },
        };
        wp.max(klima)
    } else {
        config.mindestleistung_kw
    };
    let rest = match gleichzeitigkeitsfaktor(n) {
        Some(g) => match Dec::from_u64((n - 1) as u64).checked_mul(&g) {
            Some(p) => match p.checked_mul(&config.mindestleistung_kw) {
                Some(x) => x,
                None => {
                    return None;
                },
            },
            None => {
                return None;
            },
        },
        None => Dec::zero(),
    };
    match base.checked_add(&rest) {
        Some(t) => Some(Some(t)),
        None => None,
    }
}

/// `P_min,14a` for a set of steuVE controlled through **one** EMS
/// (Ziff. 4.4.b): `Max(0,4 × ΣWP; 0,4 × ΣKlima) + (n − 1) × GZF × 4,2 kW`
/// when any Wärmepumpe or Raumkühlung in the set is over 11 kW, else
/// `4,2 kW + (n − 1) × GZF × 4,2 kW`, with `n` counting every device. `None`
/// for an empty set and for a set holding a device that is not a steuVE.
pub fn mindestleistung_ems(devices: &[SteuVe], config: &Para14aConfig) -> (r: Option<Dec>)
    requires
        spec_mindestleistung_ems(devices@, *config) is Some,
    ensures
        Some(view_of(r)) == spec_mindestleistung_ems(devices@, *config),
{
    match ems_checked(devices, config) {
        Some(x) => x,
        None => {
            proof {
                assert(false);
            }
            None
        },
    }
}

/// [`mindestleistung_ems`], or `None` where rust_decimal overflows.
pub fn checked_mindestleistung_ems(devices: &[SteuVe], config: &Para14aConfig) -> (r: Option<Option<Dec>>)
    ensures
        match r {
            Some(x) => Some(view_of(x)) == spec_mindestleistung_ems(devices@, *config),
            None => spec_mindestleistung_ems(devices@, *config) is None,
        },
{
    if ems_checked(devices, config).is_some() {
        Some(mindestleistung_ems(devices, config))
    } else {
        None
    }
}

// ── Ziff. 2.3 — netzwirksamer Leistungsbezug ─────────────────────────────────

/// `x` floored at zero, as `Decimal::max(x, 0)` picks it.
pub open spec fn floor_zero(x: (int, nat, bool)) -> (int, nat, bool) {
    if units_of(x) < 0 {
        (0int, 0nat, false)
    } else {
        x
    }
}

/// The netzwirksamer Leistungsbezug as rust_decimal computes it: `Some(None)`
/// for the pro-rata convention without the rest of the installation; the
/// outer `None` is an overflow.
pub open spec fn spec_netzwirksam(
    netzbezug: (int, nat, bool),
    steuve: (int, nat, bool),
    uebrige: Option<(int, nat, bool)>,
    regel: Verursachungsregel,
) -> Option<Option<(int, nat, bool)>> {
    let n = floor_zero(netzbezug);
    let s = floor_zero(steuve);
    match regel {
        Verursachungsregel::SteuVeZuletzt => Some(Some(if units_of(n) > units_of(s) {
            s
        } else {
            n
        })),
        Verursachungsregel::Anteilig => match uebrige {
            None => Some(None),
            Some(u) => match decimal_checked_add(s, floor_zero(u)) {
                None => None,
                Some(g) => if units_of(g) == 0 {
                    Some(Some((0int, 0nat, false)))
                } else {
                    match decimal_checked_mul(n, s) {
                        Some(p) => match decimal_checked_div(p, g) {
                            Some(q) => Some(Some(if units_of(q) > units_of(s) {
                                s
                            } else {
                                q
                            })),
                            None => None,
                        },
                        None => None,
                    }
                },
            },
        },
    }
}

/// `x` is the pro-rata share `n · s / g` of values counted in units of
/// `10^-28`, capped at `cap` (whose value is `s`): some decimal `q` within one
/// unit of its own last place of `n · s / g`, or `cap` where `q` exceeds it.
pub open spec fn is_capped_share(n: int, s: int, g: int, cap: (int, nat, bool), x: (int, nat, bool)) -> bool {
    exists|q: (int, nat, bool)|
        abs_int(#[trigger] units_of(q) * g - n * s) <= g * pow10((28 - q.1) as nat) && x == (if units_of(q) > s {
            cap
        } else {
            q
        })
}

/// The grid draw, the steuVE load and the rest of the installation, each
/// read as zero where negative, are such that the pro-rata share is formed
/// from an exact sum and an exact product: the installation draws something,
/// the scales of grid draw and steuVE add up to at most 28 with their
/// mantissas' product within 96 bits, and the sum of the two loads fits at
/// the larger of their scales.
pub open spec fn pro_rata_is_exact(netzbezug: (int, nat, bool), steuve: (int, nat, bool), uebrige: (int, nat, bool)) -> bool {
    let n = floor_zero(netzbezug);
    let s = floor_zero(steuve);
    let u = floor_zero(uebrige);
    &&& units_of(s) + units_of(u) > 0
    &&& n.1 + s.1 <= 28
    &&& abs_int(n.0 * s.0) <= max_mantissa()
    &&& exact_at_larger_scale(s, u, units_of(s) + units_of(u))
}

/// Under the pro-rata rule the netzwirksamer Leistungsbezug is the grid draw
/// shared in the ratio of the steuVE's load to the whole installation's,
/// `Netzbezug · P_steuVE ÷ (P_steuVE + P_übrige)` (each read as zero where
/// negative), as rust_decimal's quotient within one unit of its last place,
/// capped at `P_steuVE`. The premises are what rust_decimal gives for these
/// operands: the sum of the loads and the product come out exact and the
/// quotient within one place.
pub proof fn lemma_anteilig_is_pro_rata(
    netzbezug: (int, nat, bool),
    steuve: (int, nat, bool),
    uebrige: (int, nat, bool),
    g: (int, nat, bool),
    x: (int, nat, bool),
)
    requires
        spec_netzwirksam(netzbezug, steuve, Some(uebrige), Verursachungsregel::Anteilig) == Some(Some(x)),
        decimal_checked_add(floor_zero(steuve), floor_zero(uebrige)) == Some(g),
        units_of(g) == units_of(floor_zero(steuve)) + units_of(floor_zero(uebrige)),
        units_of(g) > 0,
        floor_zero(netzbezug).1 + floor_zero(steuve).1 <= 28,
        decimal_checked_mul(floor_zero(netzbezug), floor_zero(steuve)) == Some(
            exact_product(floor_zero(netzbezug), floor_zero(steuve)),
        ),
        quotient_within_one_place(exact_product(floor_zero(netzbezug), floor_zero(steuve)), g),
    ensures
        is_capped_share(
            units_of(floor_zero(netzbezug)),
            units_of(floor_zero(steuve)),
            units_of(g),
            floor_zero(steuve),
            x,
        ),
{
    let n = floor_zero(netzbezug);
    let s = floor_zero(steuve);
    let p = exact_product(n, s);
    lemma_product_units(n, s);
    let q = decimal_checked_div(p, g)->0;
    assert(abs_int(units_of(q) * units_of(g) - units_of(n) * units_of(s)) <= units_of(g) * pow10(
        (28 - q.1) as nat,
    ));
}

/// The netzwirksamer Leistungsbezug with rust_decimal's overflows reported as
/// `None`.
fn netzwirksam_checked(
    netzbezug_kw: Dec,
    steuve_kw: Dec,
    uebrige_last_kw: Option<Dec>,
    regel: Verursachungsregel,
) -> (r: Option<Option<Dec>>)
    ensures
        match r {
            Some(x) => Some(view_of(x)) == spec_netzwirksam(
                netzbezug_kw@,
                steuve_kw@,
                view_of(uebrige_last_kw),
                regel,
            ),
            None => spec_netzwirksam(netzbezug_kw@, steuve_kw@, view_of(uebrige_last_kw), regel) is None,
        },
        r matches Some(Some(x)) ==> 0 <= x.units() <= units_of(floor_zero(steuve_kw@)),
        regel == Verursachungsregel::SteuVeZuletzt ==> (r matches Some(Some(x)) ==> x.units() <= units_of(
            floor_zero(netzbezug_kw@),
        )),
        regel == Verursachungsregel::Anteilig && uebrige_last_kw is Some && pro_rata_is_exact(
            netzbezug_kw@,
            steuve_kw@,
            uebrige_last_kw->0@,
        ) && r is Some && r->0 is Some ==> is_capped_share(
            units_of(floor_zero(netzbezug_kw@)),
            units_of(floor_zero(steuve_kw@)),
            units_of(floor_zero(steuve_kw@)) + units_of(floor_zero(uebrige_last_kw->0@)),
            floor_zero(steuve_kw@),
            r->0->0@,
        ),
{
    proof {
        crate::decimal::lemma_units_of_zero();
    }
    let netzbezug = netzbezug_kw.max(Dec::zero());
    let steuve = steuve_kw.max(Dec::zero());
    match regel {
        Verursachungsregel::SteuVeZuletzt => Some(Some(netzbezug.min(steuve))),
        Verursachungsregel::Anteilig => {
            let uebrige = match uebrige_last_kw {
                Some(u) => u.max(Dec::zero()),
                None => {
                    return Some(None);
                },
            };
            let gesamt = match steuve.checked_add(&uebrige) {
                Some(g) => g,
                None => {
                    return None;
                },
            };
            if gesamt.is_zero() {
                return Some(Some(Dec::zero()));
            }
            let p = match netzbezug.checked_mul(&steuve) {
                Some(p) => p,
                None => {
                    return None;
                },
            };
            match p.checked_div(&gesamt) {
                Some(q) => {
                    proof {
                        if pro_rata_is_exact(netzbezug_kw@, steuve_kw@, uebrige@) {
                            lemma_product_units(netzbezug@, steuve@);
                            assert(abs_int(units_of(q@) * units_of(gesamt@) - units_of(netzbezug@) * units_of(steuve@))
                                <= units_of(gesamt@) * pow10((28 - q@.1) as nat));
                        }
                    }
                    Some(Some(q.min(steuve)))
                },
                None => None,
            }
        },
    }
}

/// The netzwirksamer Leistungsbezug in kW — the share of the grid draw caused
/// by the steuerbare Verbrauchseinrichtungen (Anlage 1 Ziff. 2.3).
///
/// A negative grid draw or steuVE power is read as zero. `SteuVeZuletzt`
/// gives `min(Netzbezug, P_steuVE)`; `Anteilig` gives
/// `min(Netzbezug × P_steuVE ÷ (P_steuVE + P_übrige), P_steuVE)`, zero when
/// there is no load, and `None` without the rest of the installation.
/// Neither convention attributes more than the steuVE drew, nor less than
/// zero, and the conservative one no more than came out of the grid.
pub fn netzwirksamer_leistungsbezug(
    netzbezug_kw: Dec,
    steuve_kw: Dec,
    uebrige_last_kw: Option<Dec>,
    regel: Verursachungsregel,
) -> (r: Option<Dec>)
    requires
        spec_netzwirksam(netzbezug_kw@, steuve_kw@, view_of(uebrige_last_kw), regel) is Some,
    ensures
        Some(view_of(r)) == spec_netzwirksam(netzbezug_kw@, steuve_kw@, view_of(uebrige_last_kw), regel),
        r matches Some(x) ==> 0 <= x.units() <= units_of(floor_zero(steuve_kw@)),
        regel == Verursachungsregel::SteuVeZuletzt ==> (r matches Some(x) ==> x.units() <= units_of(
            floor_zero(netzbezug_kw@),
        )),
        regel == Verursachungsregel::Anteilig && uebrige_last_kw is Some && pro_rata_is_exact(
            netzbezug_kw@,
            steuve_kw@,
            uebrige_last_kw->0@,
        ) && r is Some ==> is_capped_share(
            units_of(floor_zero(netzbezug_kw@)),
            units_of(floor_zero(steuve_kw@)),
            units_of(floor_zero(steuve_kw@)) + units_of(floor_zero(uebrige_last_kw->0@)),
            floor_zero(steuve_kw@),
            r->0@,
        ),
{
    match netzwirksam_checked(netzbezug_kw, steuve_kw, uebrige_last_kw, regel) {
        Some(x) => x,
        None => {
            proof {
                assert(false);
            }
            None
        },
    }
}

/// [`netzwirksamer_leistungsbezug`], or `None` where rust_decimal overflows.
pub fn checked_netzwirksamer_leistungsbezug(
    netzbezug_kw: Dec,
    steuve_kw: Dec,
    uebrige_last_kw: Option<Dec>,
    regel: Verursachungsregel,
) -> (r: Option<Option<Dec>>)
    ensures
        match r {
            Some(x) => Some(view_of(x)) == spec_netzwirksam(
                netzbezug_kw@,
                steuve_kw@,
                view_of(uebrige_last_kw),
                regel,
            ),
            None => spec_netzwirksam(netzbezug_kw@, steuve_kw@, view_of(uebrige_last_kw), regel) is None,
        },
{
    if netzwirksam_checked(netzbezug_kw, steuve_kw, uebrige_last_kw, regel).is_some() {
        Some(netzwirksamer_leistungsbezug(netzbezug_kw, steuve_kw, uebrige_last_kw, regel))
    } else {
        None
    }
}

} // verus!
