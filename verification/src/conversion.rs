//! Gas conversion configuration (DVGW G 685 rounding), the HeizkostenV § 9
//! warm-water adjustments, and the error a unit normalisation reports.

use vstd::prelude::*;

use crate::decimal::{signed, 
    abs_int, decimal_checked_add, decimal_checked_div, decimal_checked_mul, decimal_checked_sub,
    exact_product, max_mantissa, pow10, round_half_away, units_of, view_of, Dec,
};
use crate::error::{debug_quoted, Expected, ParseError};
use crate::interval::{MeasurementUnit, UnitScale};
use crate::text::{
    lemma_code_is_canonical, lower_ascii, str_eq, to_ascii_lowercase,
    to_uppercase, trim, trimmed, uppercased,
};

verus! {
/// Final rounding of a G 685 thermal-energy amount. Netzbetreiber practice
/// diverges, so it is a configuration choice.
#[derive(Debug, Default, Clone, Copy, PartialEq, Eq, Hash, Structural)]
pub enum G685FinalRounding {
    /// No rounding — full precision (the default; round at display time).
    #[default]
    Unrounded,
    /// Kaufmännisch to whole kWh.
    WholeKwh,
    /// Two decimal places.
    TwoDecimals,
}

impl G685FinalRounding {
    /// Every rounding mode, in declaration order.
    pub const ALL: [Self; 3] = [Self::Unrounded, Self::WholeKwh, Self::TwoDecimals];

    /// Every code [`as_str`](Self::as_str) writes, in the order of `ALL`.
    pub fn codes() -> (r: &'static [&'static str])
        ensures
            Self::spec_is_codes(r@),
    {
        &["NONE", "WHOLE_KWH", "TWO_DECIMALS"]
    }

    /// `c` lists the codes of `ALL`, in order.
    pub open spec fn spec_is_codes(c: Seq<&'static str>) -> bool {
        &&& c.len() == 3
        &&& c[0]@ == Self::Unrounded.spec_as_str()
        &&& c[1]@ == Self::WholeKwh.spec_as_str()
        &&& c[2]@ == Self::TwoDecimals.spec_as_str()
    }

    pub open spec fn spec_as_str(self) -> Seq<char> {
        match self {
            Self::Unrounded => "NONE"@,
            Self::WholeKwh => "WHOLE_KWH"@,
            Self::TwoDecimals => "TWO_DECIMALS"@,
        }
    }

    /// Stable DB/wire label; the `FromStr` input and the code `to_string` writes.
    pub fn as_str(self) -> (r: &'static str)
        ensures
            r@ == self.spec_as_str(),
    {
        match self {
            Self::Unrounded => "NONE",
            Self::WholeKwh => "WHOLE_KWH",
            Self::TwoDecimals => "TWO_DECIMALS",
        }
    }

    /// The code as an owned string (what `Display` writes).
    pub fn to_string(&self) -> (r: String)
        ensures
            r@ == self.spec_as_str(),
    {
        self.as_str().to_owned()
    }

    /// The variant whose code is exactly `s`.
    pub open spec fn spec_from_code(s: Seq<char>) -> Option<Self> {
        if s == "NONE"@ {
            Some(Self::Unrounded)
        } else if s == "WHOLE_KWH"@ {
            Some(Self::WholeKwh)
        } else if s == "TWO_DECIMALS"@ {
            Some(Self::TwoDecimals)
        } else {
            None
        }
    }

    /// The variant whose code is exactly `s`, case and whitespace included.
    pub fn from_code(s: &str) -> (r: Option<Self>)
        ensures
            r == Self::spec_from_code(s@),
    {
        if str_eq(s, "NONE") {
            Some(Self::Unrounded)
        } else if str_eq(s, "WHOLE_KWH") {
            Some(Self::WholeKwh)
        } else if str_eq(s, "TWO_DECIMALS") {
            Some(Self::TwoDecimals)
        } else {
            None
        }
    }

    /// What parsing `s` yields: surrounding whitespace is ignored and the
    /// comparison is case-insensitive.
    pub open spec fn spec_parse(s: Seq<char>) -> Option<Self> {
        let t = trimmed(s);
        let u = uppercased(t);
        Self::spec_from_code(u)
    }

    /// Parses a code, ignoring surrounding whitespace and case.
    pub fn parse_code(s: &str) -> (r: Result<Self, ParseError>)
        ensures
            match r {
                Ok(v) => Self::spec_parse(s@) == Some(v),
                Err(e) => {
                    &&& Self::spec_parse(s@).is_none()
                    &&& e.spec_type_label() == "G685FinalRounding"@
                    &&& e.spec_input() == s@
                    &&& e.spec_expected() matches Expected::OneOf(c) && Self::spec_is_codes(c@)
                },
            },
    {
        let t = trim(s);
        let u = to_uppercase(t);
        match Self::from_code(u.as_str()) {
            Some(v) => Ok(v),
            None => Err(ParseError::one_of("G685FinalRounding", s, Self::codes())),
        }
    }

    /// Parsing the code of a variant gives the variant back.
    pub proof fn lemma_parse_as_str(v: Self)
        ensures
            Self::spec_parse(v.spec_as_str()) == Some(v),
    {
        match v {
            Self::Unrounded => {
                reveal_strlit("NONE");
                lemma_code_is_canonical("NONE"@);
            },
            Self::WholeKwh => {
                reveal_strlit("NONE");
                reveal_strlit("WHOLE_KWH");
                lemma_code_is_canonical("WHOLE_KWH"@);
            },
            Self::TwoDecimals => {
                reveal_strlit("NONE");
                reveal_strlit("TWO_DECIMALS");
                reveal_strlit("WHOLE_KWH");
                lemma_code_is_canonical("TWO_DECIMALS"@);
            },
        }
    }
}

impl std::str::FromStr for G685FinalRounding {
    type Err = ParseError;

    fn from_str(s: &str) -> (r: Result<G685FinalRounding, ParseError>)
        ensures
            match r {
                Ok(v) => Self::spec_parse(s@) == Some(v),
                Err(e) => {
                    &&& Self::spec_parse(s@).is_none()
                    &&& e.spec_type_label() == "G685FinalRounding"@
                    &&& e.spec_input() == s@
                    &&& e.spec_expected() matches Expected::OneOf(c) && Self::spec_is_codes(c@)
                },
            },
    {
        G685FinalRounding::parse_code(s)
    }
}

/// Input rounding per published G 685 Netzbetreiber practice: Zustandszahl
/// to 4 decimal places, Abrechnungsbrennwert to 3, then the final rounding.
#[derive(Debug, Clone, Copy, PartialEq, Eq, Structural)]
pub struct G685Rounding {
    /// Decimal places for the Zustandszahl (default 4).
    pub zustandszahl_dp: u32,
    /// Decimal places for the Abrechnungsbrennwert (default 3).
    pub brennwert_dp: u32,
    /// Final-amount rounding (default `Unrounded`).
    pub final_rounding: G685FinalRounding,
}

impl Default for G685Rounding {
    fn default() -> (r: Self)
        ensures
            r.zustandszahl_dp == 4,
            r.brennwert_dp == 3,
            r.final_rounding == G685FinalRounding::Unrounded,
    {
        Self { zustandszahl_dp: 4, brennwert_dp: 3, final_rounding: G685FinalRounding::Unrounded }
    }
}

/// Adjustments applied to a HeizkostenV § 9 Abs. 2 result; § 9 Abs. 2
/// Satz 6 does not make them exclusive, so more than one may hold.
#[derive(Debug, Clone, Copy, PartialEq, Eq, Default, Structural)]
pub struct WarmWaterAdjustments {
    /// "bei brennwertbezogener Abrechnung von Erdgas mit 1,11 zu
    /// multiplizieren".
    pub brennwert_erdgas: bool,
    /// "bei eigenständiger gewerblicher Wärmelieferung durch 1,15 zu
    /// dividieren".
    pub eigenstaendige_gewerbliche_waermelieferung: bool,
    /// "bei dem Betrieb einer monovalenten Wärmepumpe mit 0,30 zu
    /// multiplizieren".
    pub monovalente_waermepumpe: bool,
}

impl WarmWaterAdjustments {
    /// No adjustment.
    #[allow(non_snake_case)]
    pub fn NONE() -> (r: Self)
        ensures
            !r.brennwert_erdgas,
            !r.eigenstaendige_gewerbliche_waermelieferung,
            !r.monovalente_waermepumpe,
    {
        Self {
            brennwert_erdgas: false,
            eigenstaendige_gewerbliche_waermelieferung: false,
            monovalente_waermepumpe: false,
        }
    }
}


// ── arithmetic on possibly missing values ─────────────────────────────────────

/// `a × b` as rust_decimal's `*` computes it; `None` where an operand is
/// missing or the product overflows.
pub open spec fn product_of(a: Option<(int, nat, bool)>, b: Option<(int, nat, bool)>) -> Option<(int, nat, bool)> {
    match (a, b) {
        (Some(x), Some(y)) => decimal_checked_mul(x, y),
        _ => None,
    }
}

/// `a + b` as rust_decimal's `+` computes it.
pub open spec fn sum_of(a: Option<(int, nat, bool)>, b: Option<(int, nat, bool)>) -> Option<(int, nat, bool)> {
    match (a, b) {
        (Some(x), Some(y)) => decimal_checked_add(x, y),
        _ => None,
    }
}

/// `a - b` as rust_decimal's `-` computes it.
pub open spec fn difference_of(a: Option<(int, nat, bool)>, b: Option<(int, nat, bool)>) -> Option<(int, nat, bool)> {
    match (a, b) {
        (Some(x), Some(y)) => decimal_checked_sub(x, y),
        _ => None,
    }
}

/// `a ÷ b` as rust_decimal's `/` computes it; `None` also for a zero divisor.
pub open spec fn quotient_of(a: Option<(int, nat, bool)>, b: Option<(int, nat, bool)>) -> Option<(int, nat, bool)> {
    match (a, b) {
        (Some(x), Some(y)) => decimal_checked_div(x, y),
        _ => None,
    }
}

// ── m³ → kWh_Hs ───────────────────────────────────────────────────────────────

/// Parameters for a gas m³ → kWh_Hs conversion. Both are operator data,
/// published per supply area and billing period, so there is no default.
#[derive(Debug, Clone, Copy, PartialEq, Eq)]
pub struct GasConversionParams {
    /// Superior calorific value (Brennwert Hs) in kWh/m³, OBIS `7-0:54.0.ee`.
    pub hs_kwh_per_m3: Dec,
    /// Volume conversion factor (Zustandszahl), OBIS `7-0:52.0.22`.
    pub zustandszahl: Dec,
}

impl GasConversionParams {
    /// Parameters for a Betriebsvolumen, the volume at meter conditions.
    pub fn new(hs_kwh_per_m3: Dec, zustandszahl: Dec) -> (r: Self)
        ensures
            r.hs_kwh_per_m3 == hs_kwh_per_m3,
            r.zustandszahl == zustandszahl,
    {
        Self { hs_kwh_per_m3, zustandszahl }
    }

    /// Parameters for a volume a Mengenumwerter has already state-converted:
    /// the Zustandszahl is one, because it has already been applied.
    pub fn already_converted(hs_kwh_per_m3: Dec) -> (r: Self)
        ensures
            r.hs_kwh_per_m3 == hs_kwh_per_m3,
            r.zustandszahl@ == (1int, 0nat, false),
    {
        Self { hs_kwh_per_m3, zustandszahl: Dec::one() }
    }
}

/// `volume × hs × z`, multiplied left to right as rust_decimal does it;
/// `None` where a product overflows.
pub open spec fn spec_gas(volume: (int, nat, bool), hs: (int, nat, bool), z: (int, nat, bool)) -> Option<(int, nat, bool)> {
    product_of(product_of(Some(volume), Some(hs)), Some(z))
}

/// The scales add up to at most 28 and the products of the mantissas fit:
/// the case in which `volume × hs × z` is exact.
pub open spec fn gas_is_exact(volume: (int, nat, bool), hs: (int, nat, bool), z: (int, nat, bool)) -> bool {
    &&& volume.1 + hs.1 + z.1 <= 28
    &&& abs_int(volume.0 * hs.0) <= max_mantissa()
    &&& abs_int(volume.0 * hs.0 * z.0) <= max_mantissa()
}

fn gas_checked(volume_m3: Dec, hs_kwh_per_m3: Dec, zustandszahl: Dec) -> (r: Option<Dec>)
    ensures
        view_of(r) == spec_gas(volume_m3@, hs_kwh_per_m3@, zustandszahl@),
        gas_is_exact(volume_m3@, hs_kwh_per_m3@, zustandszahl@) ==> (r matches Some(k) && k.units()
            == volume_m3@.0 * hs_kwh_per_m3@.0 * zustandszahl@.0 * pow10(
            (28 - (volume_m3@.1 + hs_kwh_per_m3@.1 + zustandszahl@.1)) as nat,
        )),
{
    match volume_m3.checked_mul(&hs_kwh_per_m3) {
        Some(p) => {
            let r = p.checked_mul(&zustandszahl);
            proof {
                let v = volume_m3@;
                let h = hs_kwh_per_m3@;
                let z = zustandszahl@;
                if gas_is_exact(v, h, z) {
                    assert(p@ == exact_product(v, h));
                    if v.0 * h.0 == 0 {
                        assert(v.0 * h.0 * z.0 == 0) by (nonlinear_arith)
                            requires
                                v.0 * h.0 == 0,
                        ;
                        assert(p@.0 * z.0 == 0) by (nonlinear_arith)
                            requires
                                p@.0 == 0,
                        ;
                    } else {
                        assert(p@.0 * z.0 == v.0 * h.0 * z.0);
                    }
                }
            }
            r
        },
        None => None,
    }
}

/// Gas volume in m³ to energy in kWh_Hs: `volume × hs × zustandszahl`.
///
/// Pass a Betriebsvolumen; for a volume already state-converted pass a
/// Zustandszahl of one ([`GasConversionParams::already_converted`]).
pub fn gas_m3_to_kwh_hs(volume_m3: Dec, hs_kwh_per_m3: Dec, zustandszahl: Dec) -> (r: Dec)
    requires
        spec_gas(volume_m3@, hs_kwh_per_m3@, zustandszahl@) is Some,
    ensures
        Some(r@) == spec_gas(volume_m3@, hs_kwh_per_m3@, zustandszahl@),
        gas_is_exact(volume_m3@, hs_kwh_per_m3@, zustandszahl@) ==> r.units() == volume_m3@.0
            * hs_kwh_per_m3@.0 * zustandszahl@.0 * pow10(
            (28 - (volume_m3@.1 + hs_kwh_per_m3@.1 + zustandszahl@.1)) as nat,
        ),
{
    match gas_checked(volume_m3, hs_kwh_per_m3, zustandszahl) {
        Some(k) => k,
        None => {
            proof {
                assert(false);
            }
            volume_m3
        },
    }
}

/// [`gas_m3_to_kwh_hs`], or `None` where a product overflows.
pub fn checked_gas_m3_to_kwh_hs(volume_m3: Dec, hs_kwh_per_m3: Dec, zustandszahl: Dec) -> (r: Option<Dec>)
    ensures
        view_of(r) == spec_gas(volume_m3@, hs_kwh_per_m3@, zustandszahl@),
{
    if gas_checked(volume_m3, hs_kwh_per_m3, zustandszahl).is_some() {
        Some(gas_m3_to_kwh_hs(volume_m3, hs_kwh_per_m3, zustandszahl))
    } else {
        None
    }
}

/// The G 685 amount: the inputs rounded kaufmännisch (Brennwert to
/// `brennwert_dp`, Zustandszahl to `zustandszahl_dp` places), multiplied,
/// then the final rounding.
pub open spec fn spec_gas_rounded(
    volume: (int, nat, bool),
    hs: (int, nat, bool),
    z: (int, nat, bool),
    rounding: G685Rounding,
) -> Option<(int, nat, bool)> {
    match spec_gas(
        volume,
        round_half_away(hs, rounding.brennwert_dp as nat),
        round_half_away(z, rounding.zustandszahl_dp as nat),
    ) {
        Some(k) => Some(
            match rounding.final_rounding {
                G685FinalRounding::Unrounded => k,
                G685FinalRounding::WholeKwh => round_half_away(k, 0),
                G685FinalRounding::TwoDecimals => round_half_away(k, 2),
            },
        ),
        None => None,
    }
}

fn gas_rounded_checked(volume_m3: Dec, hs_kwh_per_m3: Dec, zustandszahl: Dec, rounding: G685Rounding) -> (r: Option<Dec>)
    ensures
        view_of(r) == spec_gas_rounded(volume_m3@, hs_kwh_per_m3@, zustandszahl@, rounding),
{
    let hs = hs_kwh_per_m3.round_dp_away(rounding.brennwert_dp);
    let z = zustandszahl.round_dp_away(rounding.zustandszahl_dp);
    match gas_checked(volume_m3, hs, z) {
        Some(kwh) => Some(
            match rounding.final_rounding {
                G685FinalRounding::Unrounded => kwh,
                G685FinalRounding::WholeKwh => kwh.round_dp_away(0),
                G685FinalRounding::TwoDecimals => kwh.round_dp_away(2),
            },
        ),
        None => None,
    }
}

/// G 685 thermal-energy calculation with explicit rounding:
/// `V × round(Hs, brennwert_dp) × round(z, zustandszahl_dp)`, then the
/// configured final rounding, every rounding half away from zero.
pub fn gas_m3_to_kwh_hs_rounded(volume_m3: Dec, hs_kwh_per_m3: Dec, zustandszahl: Dec, rounding: G685Rounding) -> (r: Dec)
    requires
        spec_gas_rounded(volume_m3@, hs_kwh_per_m3@, zustandszahl@, rounding) is Some,
    ensures
        Some(r@) == spec_gas_rounded(volume_m3@, hs_kwh_per_m3@, zustandszahl@, rounding),
{
    match gas_rounded_checked(volume_m3, hs_kwh_per_m3, zustandszahl, rounding) {
        Some(k) => k,
        None => {
            proof {
                assert(false);
            }
            volume_m3
        },
    }
}

/// [`gas_m3_to_kwh_hs_rounded`], or `None` where a product overflows.
pub fn checked_gas_m3_to_kwh_hs_rounded(
    volume_m3: Dec,
    hs_kwh_per_m3: Dec,
    zustandszahl: Dec,
    rounding: G685Rounding,
) -> (r: Option<Dec>)
    ensures
        view_of(r) == spec_gas_rounded(volume_m3@, hs_kwh_per_m3@, zustandszahl@, rounding),
{
    if gas_rounded_checked(volume_m3, hs_kwh_per_m3, zustandszahl, rounding).is_some() {
        Some(gas_m3_to_kwh_hs_rounded(volume_m3, hs_kwh_per_m3, zustandszahl, rounding))
    } else {
        None
    }
}


// ── Zustandszahl (DVGW G 685-3) ───────────────────────────────────────────────

/// Normzustand temperature: 273,15 K (0 °C), a defined value (DIN 1343).
#[allow(non_snake_case)]
pub fn NORMTEMPERATUR_K() -> (r: Dec)
    ensures
        r@ == (27315int, 2nat, false),
{
    Dec::new(27315, 2)
}

/// Normzustand pressure: 1013,25 mbar.
#[allow(non_snake_case)]
pub fn NORMDRUCK_MBAR() -> (r: Dec)
    ensures
        r@ == (101325int, 2nat, false),
{
    Dec::new(101325, 2)
}

/// The Abrechnungstemperatur G 685-3 fixes for gas billing: 15 °C.
#[allow(non_snake_case)]
pub fn ABRECHNUNGSTEMPERATUR_C() -> (r: Dec)
    ensures
        r@ == (15int, 0nat, false),
{
    Dec::new(15, 0)
}

/// Highest gauge pressure, in mbar, at which `K = 1` may be assumed.
#[allow(non_snake_case)]
pub fn K_EINS_GRENZE_MBAR() -> (r: Dec)
    ensures
        r@ == (1000int, 0nat, false),
{
    Dec::new(1000, 0)
}

/// What a [`zustandszahl`] is computed from. None of the four is defaulted:
/// the Zustandszahl multiplies a billed quantity.
#[derive(Debug, Clone, Copy, PartialEq, Eq)]
pub struct ZustandszahlParams {
    /// Mean air pressure of the Höhenzone at the meter, in mbar (`p_amb`).
    pub luftdruck_mbar: Dec,
    /// Gauge pressure of the gas inside the meter, in mbar (`p_eff`).
    pub effektivdruck_mbar: Dec,
    /// Abrechnungstemperatur in °C (`t`).
    pub abrechnungstemperatur_c: Dec,
    /// Kompressibilitätszahl `K`, from DVGW G 685-6.
    pub kompressibilitaetszahl: Dec,
}

impl ZustandszahlParams {
    /// The two pressures, with the values G 685-3 fixes for a Niederdruck
    /// connection (`t = 15 °C`, `K = 1`); `None` at or above
    /// [`K_EINS_GRENZE_MBAR`], where `K = 1` stops being a safe assumption.
    pub fn niederdruck(luftdruck_mbar: Dec, effektivdruck_mbar: Dec) -> (r: Option<Self>)
        ensures
            r is Some <==> effektivdruck_mbar.units() < units_of((1000int, 0nat, false)),
            r matches Some(p) ==> p.luftdruck_mbar == luftdruck_mbar && p.effektivdruck_mbar
                == effektivdruck_mbar && p.abrechnungstemperatur_c@ == (15int, 0nat, false)
                && p.kompressibilitaetszahl@ == (1int, 0nat, false),
    {
        if effektivdruck_mbar.lt(&K_EINS_GRENZE_MBAR()) {
            Some(
                Self {
                    luftdruck_mbar,
                    effektivdruck_mbar,
                    abrechnungstemperatur_c: ABRECHNUNGSTEMPERATUR_C(),
                    kompressibilitaetszahl: Dec::one(),
                },
            )
        } else {
            None
        }
    }

    /// All four inputs stated.
    pub fn new(
        luftdruck_mbar: Dec,
        effektivdruck_mbar: Dec,
        abrechnungstemperatur_c: Dec,
        kompressibilitaetszahl: Dec,
    ) -> (r: Self)
        ensures
            r.luftdruck_mbar == luftdruck_mbar,
            r.effektivdruck_mbar == effektivdruck_mbar,
            r.abrechnungstemperatur_c == abrechnungstemperatur_c,
            r.kompressibilitaetszahl == kompressibilitaetszahl,
    {
        Self { luftdruck_mbar, effektivdruck_mbar, abrechnungstemperatur_c, kompressibilitaetszahl }
    }

    /// Absolute pressure at the meter, `p_amb + p_eff`, in mbar: the
    /// Effektivdruck is a gauge pressure, so the gas law wants the sum.
    pub fn absolutdruck_mbar(&self) -> (r: Dec)
        requires
            abs_int(self.luftdruck_mbar.units() + self.effektivdruck_mbar.units()) <= crate::decimal::limit_at(0),
        ensures
            Some(r@) == decimal_checked_add(self.luftdruck_mbar@, self.effektivdruck_mbar@),
            crate::decimal::exact_at_larger_scale(
                self.luftdruck_mbar@,
                self.effektivdruck_mbar@,
                self.luftdruck_mbar.units() + self.effektivdruck_mbar.units(),
            ) ==> r.units() == self.luftdruck_mbar.units() + self.effektivdruck_mbar.units(),
    {
        match self.luftdruck_mbar.checked_add(&self.effektivdruck_mbar) {
            Some(p) => p,
            None => {
                proof {
                    assert(false);
                }
                self.luftdruck_mbar
            },
        }
    }
}

/// `1016 − 0,12 × hoehe`, as rust_decimal computes it.
pub open spec fn spec_hoehenzonen_luftdruck(hoehe: (int, nat, bool)) -> Option<(int, nat, bool)> {
    difference_of(Some((1016int, 0nat, false)), product_of(Some((12int, 2nat, false)), Some(hoehe)))
}

fn hoehenzonen_checked(hoehe_m: Dec) -> (r: Option<Dec>)
    ensures
        view_of(r) == spec_hoehenzonen_luftdruck(hoehe_m@),
{
    match Dec::new(12, 2).checked_mul(&hoehe_m) {
        Some(p) => Dec::new(1016, 0).checked_sub(&p),
        None => None,
    }
}

/// Mean air pressure of a Höhenzone of mean height `hoehe_m` metres, in
/// mbar: `1016 − 0,12 × H`, the linear approximation G 685-3 bills on.
pub fn hoehenzonen_luftdruck_mbar(hoehe_m: Dec) -> (r: Dec)
    requires
        spec_hoehenzonen_luftdruck(hoehe_m@) is Some,
    ensures
        Some(r@) == spec_hoehenzonen_luftdruck(hoehe_m@),
{
    match hoehenzonen_checked(hoehe_m) {
        Some(p) => p,
        None => {
            proof {
                assert(false);
            }
            hoehe_m
        },
    }
}

/// [`hoehenzonen_luftdruck_mbar`], or `None` where it overflows.
pub fn checked_hoehenzonen_luftdruck_mbar(hoehe_m: Dec) -> (r: Option<Dec>)
    ensures
        view_of(r) == spec_hoehenzonen_luftdruck(hoehe_m@),
{
    if hoehenzonen_checked(hoehe_m).is_some() {
        Some(hoehenzonen_luftdruck_mbar(hoehe_m))
    } else {
        None
    }
}

/// The Zustandszahl `(T_n × (p_amb + p_eff)) ÷ ((T_n + t) × p_n × K)`, as
/// rust_decimal computes it: `None` where an operation overflows or the
/// division has a zero divisor; `Some(None)` where `T_n + t`, `K` or the
/// numerator is not positive; else `Some(Some(z))`.
pub open spec fn spec_zustandszahl(p: ZustandszahlParams) -> Option<Option<(int, nat, bool)>> {
    let t_eff = sum_of(Some((27315int, 2nat, false)), Some(p.abrechnungstemperatur_c@));
    let denominator = product_of(
        product_of(t_eff, Some((101325int, 2nat, false))),
        Some(p.kompressibilitaetszahl@),
    );
    let numerator = product_of(
        Some((27315int, 2nat, false)),
        sum_of(Some(p.luftdruck_mbar@), Some(p.effektivdruck_mbar@)),
    );
    match (t_eff, denominator, numerator) {
        (Some(te), Some(d), Some(n)) => if units_of(te) > 0 && p.kompressibilitaetszahl.units() > 0
            && units_of(n) > 0 {
            match decimal_checked_div(n, d) {
                Some(q) => Some(Some(q)),
                None => None,
            }
        } else {
            Some(None)
        },
        _ => None,
    }
}

fn zustandszahl_checked(params: &ZustandszahlParams) -> (r: Option<Option<Dec>>)
    ensures
        match r {
            Some(x) => Some(view_of(x)) == spec_zustandszahl(*params),
            None => spec_zustandszahl(*params) is None,
        },
{
    let t_eff = match NORMTEMPERATUR_K().checked_add(&params.abrechnungstemperatur_c) {
        Some(t) => t,
        None => return None,
    };
    let d1 = match t_eff.checked_mul(&NORMDRUCK_MBAR()) {
        Some(d) => d,
        None => return None,
    };
    let denominator = match d1.checked_mul(&params.kompressibilitaetszahl) {
        Some(d) => d,
        None => return None,
    };
    let p_abs = match params.luftdruck_mbar.checked_add(&params.effektivdruck_mbar) {
        Some(p) => p,
        None => return None,
    };
    let numerator = match NORMTEMPERATUR_K().checked_mul(&p_abs) {
        Some(n) => n,
        None => return None,
    };
    let zero = Dec::zero();
    proof {
        crate::decimal::lemma_units_of_zero();
    }
    if t_eff.gt(&zero) && params.kompressibilitaetszahl.gt(&zero) && numerator.gt(&zero) {
        match numerator.checked_div(&denominator) {
            Some(q) => Some(Some(q)),
            None => None,
        }
    } else {
        Some(None)
    }
}

/// The Zustandszahl `z = T_n / T_eff × (p_amb + p_eff) / p_n × 1 / K`,
/// computed as one quotient so that there is one rounding; `None` where
/// `T_eff`, `K` or the absolute pressure is not positive, which is no gas
/// state.
pub fn zustandszahl(params: &ZustandszahlParams) -> (r: Option<Dec>)
    requires
        spec_zustandszahl(*params) is Some,
    ensures
        Some(view_of(r)) == spec_zustandszahl(*params),
        params.kompressibilitaetszahl.units() <= 0 ==> r is None,
{
    match zustandszahl_checked(params) {
        Some(z) => z,
        None => {
            proof {
                assert(false);
            }
            None
        },
    }
}

/// [`zustandszahl`], or `None` where rust_decimal would overflow or divide
/// by zero.
pub fn checked_zustandszahl(params: &ZustandszahlParams) -> (r: Option<Option<Dec>>)
    ensures
        match r {
            Some(x) => Some(view_of(x)) == spec_zustandszahl(*params),
            None => spec_zustandszahl(*params) is None,
        },
{
    if zustandszahl_checked(params).is_some() {
        Some(zustandszahl(params))
    } else {
        None
    }
}


// ── warm water → heat energy (HeizkostenV § 9 Abs. 2) ────────────────────────

/// A § 9 Abs. 2 result with the Satz 6 adjustments applied in turn: × 1,11
/// for brennwertbezogene Abrechnung von Erdgas, ÷ 1,15 for eigenständige
/// gewerbliche Wärmelieferung, × 0,30 for a monovalente Wärmepumpe.
pub open spec fn spec_adjusted(adj: WarmWaterAdjustments, base: (int, nat, bool)) -> Option<(int, nat, bool)> {
    let q1 = if adj.brennwert_erdgas {
        decimal_checked_mul(base, (111int, 2nat, false))
    } else {
        Some(base)
    };
    let q2 = if adj.eigenstaendige_gewerbliche_waermelieferung {
        quotient_of(q1, Some((115int, 2nat, false)))
    } else {
        q1
    };
    if adj.monovalente_waermepumpe {
        product_of(q2, Some((30int, 2nat, false)))
    } else {
        q2
    }
}

impl WarmWaterAdjustments {
    fn apply_checked(self, base: Dec) -> (r: Option<Dec>)
        ensures
            view_of(r) == spec_adjusted(self, base@),
            base@.0 == 0 ==> (r matches Some(q) && (q@ == base@ || q@ == (0int, 0nat, false))),
    {
        let mut q = base;
        if self.brennwert_erdgas {
            q = match q.checked_mul(&Dec::new(111, 2)) {
                Some(x) => x,
                None => return None,
            };
        }
        if self.eigenstaendige_gewerbliche_waermelieferung {
            q = match q.checked_div(&Dec::new(115, 2)) {
                Some(x) => x,
                None => return None,
            };
        }
        if self.monovalente_waermepumpe {
            q = match q.checked_mul(&Dec::new(30, 2)) {
                Some(x) => x,
                None => return None,
            };
        }
        Some(q)
    }
}

/// Two decimals of equal value differ by a difference rust_decimal computes
/// exactly.
proof fn lemma_exact_difference_of_equals(a: (int, nat, bool), b: (int, nat, bool))
    requires
        crate::decimal::is_decimal(a),
        crate::decimal::is_decimal(b),
        units_of(a) == units_of(b),
    ensures
        crate::decimal::exact_at_larger_scale(a, b, units_of(a) - units_of(b)),
{
    crate::decimal::lemma_units_within_limit(a);
    crate::decimal::lemma_units_within_limit(b);
}

/// `2,5 × volume × (temp − 10)`, then the adjustments.
pub open spec fn spec_warm_water(volume: (int, nat, bool), temp: (int, nat, bool), adj: WarmWaterAdjustments) -> Option<(int, nat, bool)> {
    match product_of(
        product_of(Some((25int, 1nat, false)), Some(volume)),
        difference_of(Some(temp), Some((10int, 0nat, false))),
    ) {
        Some(b) => spec_adjusted(adj, b),
        None => None,
    }
}

fn warm_water_checked(volume_m3: Dec, mean_temp_c: Dec, adjustments: WarmWaterAdjustments) -> (r: Option<Dec>)
    ensures
        view_of(r) == spec_warm_water(volume_m3@, mean_temp_c@, adjustments),
        mean_temp_c.units() == units_of((10int, 0nat, false)) ==> (r matches Some(q) ==> q@ == (0int, 0nat, false)),
{
    let p = match Dec::new(25, 1).checked_mul(&volume_m3) {
        Some(x) => x,
        None => return None,
    };
    let ten = Dec::new(10, 0);
    proof {
        if mean_temp_c.units() == units_of((10int, 0nat, false)) {
            use_type_invariant(&mean_temp_c);
            use_type_invariant(&ten);
            lemma_exact_difference_of_equals(mean_temp_c@, ten@);
        }
    }
    let d = match mean_temp_c.checked_sub(&ten) {
        Some(x) => x,
        None => return None,
    };
    proof {
        if mean_temp_c.units() == units_of((10int, 0nat, false)) {
            crate::decimal::lemma_pow10_positive((28 - d@.1) as nat);
            assert(d@.0 == 0) by (nonlinear_arith)
                requires
                    d@.0 * pow10((28 - d@.1) as nat) == 0,
                    pow10((28 - d@.1) as nat) >= 1,
            ;
        }
    }
    match p.checked_mul(&d) {
        Some(b) => adjustments.apply_checked(b),
        None => None,
    }
}

/// Heat of a central warm-water system from the metered volume, HeizkostenV
/// § 9 Abs. 2 Satz 2: `Q [kWh/a] = 2,5 × V [m³] × (t_w [°C] − 10)`, then the
/// Satz 6 adjustments. A Zahlenwertgleichung; Q is generator-input heat.
pub fn warm_water_heat_kwh(volume_m3: Dec, mean_temp_c: Dec, adjustments: WarmWaterAdjustments) -> (r: Dec)
    requires
        spec_warm_water(volume_m3@, mean_temp_c@, adjustments) is Some,
    ensures
        Some(r@) == spec_warm_water(volume_m3@, mean_temp_c@, adjustments),
        mean_temp_c.units() == units_of((10int, 0nat, false)) ==> r@ == (0int, 0nat, false),
{
    match warm_water_checked(volume_m3, mean_temp_c, adjustments) {
        Some(q) => q,
        None => {
            proof {
                assert(false);
            }
            volume_m3
        },
    }
}

/// [`warm_water_heat_kwh`], or `None` where rust_decimal would overflow.
pub fn checked_warm_water_heat_kwh(volume_m3: Dec, mean_temp_c: Dec, adjustments: WarmWaterAdjustments) -> (r: Option<Dec>)
    ensures
        view_of(r) == spec_warm_water(volume_m3@, mean_temp_c@, adjustments),
{
    if warm_water_checked(volume_m3, mean_temp_c, adjustments).is_some() {
        Some(warm_water_heat_kwh(volume_m3, mean_temp_c, adjustments))
    } else {
        None
    }
}

/// Heat of a central warm-water system from floor area, HeizkostenV § 9
/// Abs. 2 Satz 4: `Q [kWh/a] = 32 × A [m²]`, then the Satz 6 adjustments.
pub open spec fn spec_warm_water_unmetered(flaeche: (int, nat, bool), adj: WarmWaterAdjustments) -> Option<(int, nat, bool)> {
    match decimal_checked_mul((32int, 0nat, false), flaeche) {
        Some(b) => spec_adjusted(adj, b),
        None => None,
    }
}

fn warm_water_unmetered_checked(flaeche_m2: Dec, adjustments: WarmWaterAdjustments) -> (r: Option<Dec>)
    ensures
        view_of(r) == spec_warm_water_unmetered(flaeche_m2@, adjustments),
{
    match Dec::new(32, 0).checked_mul(&flaeche_m2) {
        Some(b) => adjustments.apply_checked(b),
        None => None,
    }
}

/// Heat of a central warm-water system from the supplied floor area, for
/// the exceptional case where neither heat nor volume can be measured.
pub fn warm_water_heat_kwh_unmetered(flaeche_m2: Dec, adjustments: WarmWaterAdjustments) -> (r: Dec)
    requires
        spec_warm_water_unmetered(flaeche_m2@, adjustments) is Some,
    ensures
        Some(r@) == spec_warm_water_unmetered(flaeche_m2@, adjustments),
{
    match warm_water_unmetered_checked(flaeche_m2, adjustments) {
        Some(q) => q,
        None => {
            proof {
                assert(false);
            }
            flaeche_m2
        },
    }
}

/// [`warm_water_heat_kwh_unmetered`], or `None` where rust_decimal would
/// overflow.
pub fn checked_warm_water_heat_kwh_unmetered(flaeche_m2: Dec, adjustments: WarmWaterAdjustments) -> (r: Option<Dec>)
    ensures
        view_of(r) == spec_warm_water_unmetered(flaeche_m2@, adjustments),
{
    if warm_water_unmetered_checked(flaeche_m2, adjustments).is_some() {
        Some(warm_water_heat_kwh_unmetered(flaeche_m2, adjustments))
    } else {
        None
    }
}

/// Why a reading could not be normalised to kWh.
#[derive(Debug, Clone, PartialEq, Eq)]
#[non_exhaustive]
pub enum ConversionError {
    /// The unit string matched nothing this crate knows.
    UnknownUnit(String),
    /// A volume was supplied without a Brennwert and Zustandszahl to convert
    /// it.
    MissingGasParameters,
    /// A power was supplied without the interval length to integrate it over.
    MissingDuration,
}

impl ConversionError {
    /// The message `Display` writes.
    pub open spec fn spec_message(&self) -> Seq<char> {
        match self {
            Self::UnknownUnit(u) => "unknown unit "@ + debug_quoted(u@)
                + " — see MeasurementUnit::parse_scaled for the accepted set"@,
            Self::MissingGasParameters => "a volume reading needs GasConversionParams (Brennwert and Zustandszahl)"@,
            Self::MissingDuration => "a power reading needs a positive interval duration to become an energy"@,
        }
    }

    /// The human-readable message.
    pub fn to_string(&self) -> (r: String)
        ensures
            r@ == self.spec_message(),
    {
        match self {
            Self::UnknownUnit(u) => {
                let mut r = String::from_str("unknown unit ");
                let q = crate::error::quote(u.as_str());
                r.append(q.as_str());
                r.append(" — see MeasurementUnit::parse_scaled for the accepted set");
                r
            },
            Self::MissingGasParameters => String::from_str(
                "a volume reading needs GasConversionParams (Brennwert and Zustandszahl)",
            ),
            Self::MissingDuration => String::from_str(
                "a power reading needs a positive interval duration to become an energy",
            ),
        }
    }
}


// ── normalising a reading to kWh ──────────────────────────────────────────────

/// `t` spells the power unit kW, in any ASCII casing.
pub open spec fn is_kw(t: Seq<char>) -> bool {
    lower_ascii(t) == "kw"@
}

/// `value × secs ÷ 3600`: a power held over `secs` seconds as an energy,
/// multiplied before dividing so that the quotient is rounded once.
pub open spec fn spec_power_energy(value: (int, nat, bool), secs: i64) -> Option<(int, nat, bool)> {
    quotient_of(decimal_checked_mul(value, signed(secs as int, 0nat)), Some((3600int, 0nat, false)))
}

/// A volume in `sc`'s unit, rescaled to m³ and converted with `g`.
pub open spec fn spec_volume_energy(value: (int, nat, bool), sc: UnitScale, g: GasConversionParams) -> Option<(int, nat, bool)> {
    match sc.spec_apply(value) {
        Some(m) => spec_gas(m, g.hs_kwh_per_m3@, g.zustandszahl@),
        None => None,
    }
}

/// The inputs on which [`normalize_to_kwh`] computes without a decimal
/// overflow.
pub open spec fn normalize_defined(
    value: (int, nat, bool),
    unit: Seq<char>,
    gas: Option<&GasConversionParams>,
    duration_secs: Option<i64>,
) -> bool {
    let t = trimmed(unit);
    if is_kw(t) {
        duration_secs is Some && duration_secs->0 > 0 ==> spec_power_energy(value, duration_secs->0) is Some
    } else {
        match MeasurementUnit::spec_parse_scaled(t) {
            Some(sc) => match sc.unit {
                MeasurementUnit::KiloWattHour => sc.spec_apply(value) is Some,
                MeasurementUnit::CubicMetre => gas matches Some(g) ==> spec_volume_energy(value, sc, *g) is Some,
            },
            None => true,
        }
    }
}

/// `r` is what normalising `value` in `unit` gives: a power in kW over the
/// positive duration, else `MissingDuration`; an energy unit rescaled; a
/// volume rescaled and converted with `gas`, else `MissingGasParameters`;
/// any other spelling `UnknownUnit` with the trimmed spelling.
pub open spec fn is_normalized(
    value: (int, nat, bool),
    unit: Seq<char>,
    gas: Option<&GasConversionParams>,
    duration_secs: Option<i64>,
    r: Result<Dec, ConversionError>,
) -> bool {
    let t = trimmed(unit);
    if is_kw(t) {
        match duration_secs {
            Some(s) => if s > 0 {
                r matches Ok(x) && Some(x@) == spec_power_energy(value, s)
            } else {
                r matches Err(ConversionError::MissingDuration)
            },
            None => r matches Err(ConversionError::MissingDuration),
        }
    } else {
        match MeasurementUnit::spec_parse_scaled(t) {
            None => r matches Err(ConversionError::UnknownUnit(u)) && u@ == t,
            Some(sc) => match sc.unit {
                MeasurementUnit::KiloWattHour => r matches Ok(x) && Some(x@) == sc.spec_apply(value),
                MeasurementUnit::CubicMetre => match gas {
                    None => r matches Err(ConversionError::MissingGasParameters),
                    Some(g) => r matches Ok(x) && Some(x@) == spec_volume_energy(value, sc, *g),
                },
            },
        }
    }
}

fn normalize_checked(
    value: Dec,
    unit: &str,
    gas: Option<&GasConversionParams>,
    duration_secs: Option<i64>,
) -> (r: Option<Result<Dec, ConversionError>>)
    ensures
        r is Some <==> normalize_defined(value@, unit@, gas, duration_secs),
        r matches Some(x) ==> is_normalized(value@, unit@, gas, duration_secs, x),
{
    let t = trim(unit);
    let l = to_ascii_lowercase(t);
    if str_eq(l.as_str(), "kw") {
        let secs = match duration_secs {
            Some(s) => s,
            None => return Some(Err(ConversionError::MissingDuration)),
        };
        if secs <= 0 {
            return Some(Err(ConversionError::MissingDuration));
        }
        let p = match value.checked_mul(&Dec::from_i64(secs)) {
            Some(p) => p,
            None => return None,
        };
        return match p.checked_div(&Dec::from_u64(3600)) {
            Some(q) => Some(Ok(q)),
            None => None,
        };
    }
    let scale = match MeasurementUnit::parse_scaled(t) {
        Some(sc) => sc,
        None => return Some(Err(ConversionError::UnknownUnit(t.to_owned()))),
    };
    match scale.unit {
        MeasurementUnit::KiloWattHour => match scale.checked_apply(value) {
            Some(x) => Some(Ok(x)),
            None => None,
        },
        MeasurementUnit::CubicMetre => match gas {
            None => Some(Err(ConversionError::MissingGasParameters)),
            Some(params) => match scale.checked_apply(value) {
                Some(m3) => match checked_gas_m3_to_kwh_hs(
                    m3,
                    params.hs_kwh_per_m3,
                    params.zustandszahl,
                ) {
                    Some(k) => Some(Ok(k)),
                    None => None,
                },
                None => None,
            },
        },
    }
}

/// Normalise a raw meter reading to kWh: an energy unit is rescaled, a
/// volume unit converted with `gas`, and `"kW"` — a power — integrated over
/// `duration_secs`. An unrecognised unit is an error, never assumed to be
/// kWh already; `"kvar"` is not accepted, since kvarh is no kWh.
pub fn normalize_to_kwh(
    value: Dec,
    unit: &str,
    gas: Option<&GasConversionParams>,
    duration_secs: Option<i64>,
) -> (r: Result<Dec, ConversionError>)
    requires
        normalize_defined(value@, unit@, gas, duration_secs),
    ensures
        is_normalized(value@, unit@, gas, duration_secs, r),
{
    match normalize_checked(value, unit, gas, duration_secs) {
        Some(r) => r,
        None => {
            proof {
                assert(false);
            }
            Err(ConversionError::MissingDuration)
        },
    }
}

/// [`normalize_to_kwh`], or `None` where rust_decimal would overflow.
pub fn checked_normalize_to_kwh(
    value: Dec,
    unit: &str,
    gas: Option<&GasConversionParams>,
    duration_secs: Option<i64>,
) -> (r: Option<Result<Dec, ConversionError>>)
    ensures
        r is Some <==> normalize_defined(value@, unit@, gas, duration_secs),
        r matches Some(x) ==> is_normalized(value@, unit@, gas, duration_secs, x),
{
    if normalize_checked(value, unit, gas, duration_secs).is_some() {
        Some(normalize_to_kwh(value, unit, gas, duration_secs))
    } else {
        None
    }
}

} // verus!
