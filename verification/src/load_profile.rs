//! German Standard Load Profiles (Standardlastprofile, SLP): the profile
//! codes of the 1999 VDEW profiles, the 2025 BDEW revision and the TUM/FfE
//! gas profiles, with their classification.

use vstd::prelude::*;

use crate::decimal::{decimal_checked_mul, round_half_even, Dec};
use crate::error::{Expected, ParseError};
use crate::text::{
    is_code_char, lemma_code_is_canonical, lemma_lower_code, lower_ascii, str_eq, to_ascii_lowercase,
    to_uppercase, trim, trimmed, uppercased,
};

verus! {
/// German Standard Load Profile identifier (BDEW Standardlastprofile for
/// electricity and gas).
#[derive(Debug, Clone, Copy, PartialEq, Eq, Hash, Structural)]
pub enum LoadProfile {
    /// H0 — Haushalt (residential household).
    H0,
    /// G0 — Gewerbe allgemein (general commercial).
    G0,
    /// G1 — Gewerbe wochentags (weekday-heavy commercial).
    G1,
    /// G2 — Gewerbe mit starkem Verbrauch abends (evening-heavy commercial).
    G2,
    /// G3 — Gewerbe durchlaufend (continuous round-the-clock commercial).
    G3,
    /// G4 — Laden/Friseur (retail shop with strong Saturday peak).
    G4,
    /// G5 — Bäckerei mit Backstube (bakery with overnight baking).
    G5,
    /// G6 — Wochenendbetrieb (weekend-only operation).
    G6,
    /// L0 — Landwirtschaft allgemein (general agricultural).
    L0,
    /// L1 — Landwirtschaft mit Milchwirtschaft (dairy farming).
    L1,
    /// L2 — Landwirtschaft Sonstige (other agricultural).
    L2,
    /// P0 — Pumpen (pumping stations).
    P0,
    /// H25 — aktualisiertes Haushaltsprofil (2025), delivered entdynamisiert.
    H25,
    /// G25 — aktualisiertes Gewerbeprofil (2025); no Dynamisierung.
    G25,
    /// L25 — aktualisiertes Landwirtschaftsprofil (2025); no Dynamisierung.
    L25,
    /// P25 — Kombinationsprofil PV (2025), entdynamisiert.
    P25,
    /// S25 — Kombinationsprofil PV + Speicher (2025), entdynamisiert.
    S25,
    /// HEF — Haushalt, Einfamilienhaushalt (heating gas).
    GasHEF,
    /// HMF — Haushalt, Mehrfamilienhaushalt (heating gas).
    GasHMF,
    /// HKO — Haushalt, Kochgas.
    GasHKO,
    /// GKO — Gebietskörperschaften, Kreditinstitute, Versicherungen, öffentliche Einrichtungen.
    GasGKO,
    /// GHA — Einzel- und Großhandel.
    GasGHA,
    /// GMK — Metall und Kfz.
    GasGMK,
    /// GBD — sonstige betriebliche Dienstleistungen.
    GasGBD,
    /// GGA — Gaststätten.
    GasGGA,
    /// GBH — Beherbergung.
    GasGBH,
    /// GWA — Wäschereien und chemische Reinigungen.
    GasGWA,
    /// GGB — Gartenbau.
    GasGGB,
    /// GBA — Backstuben.
    GasGBA,
    /// GPD — Papier und Druck.
    GasGPD,
    /// GMF — haushaltsähnliche Gewerbebetriebe.
    GasGMF,
    /// GHD — the Summenlastprofil Gewerbe, Handel, Dienstleistung.
    GasGHD,
    /// Custom profile — not a standard BDEW profile.
    Custom,
}

impl LoadProfile {
    /// Every variant, in declaration order.
    pub const ALL: [Self; 33] = [Self::H0, Self::G0, Self::G1, Self::G2, Self::G3, Self::G4, Self::G5, Self::G6, Self::L0, Self::L1, Self::L2, Self::P0, Self::H25, Self::G25, Self::L25, Self::P25, Self::S25, Self::GasHEF, Self::GasHMF, Self::GasHKO, Self::GasGKO, Self::GasGHA, Self::GasGMK, Self::GasGBD, Self::GasGGA, Self::GasGBH, Self::GasGWA, Self::GasGGB, Self::GasGBA, Self::GasGPD, Self::GasGMF, Self::GasGHD, Self::Custom];

    /// Every code [`as_str`](Self::as_str) writes, in the order of `ALL`.
    pub fn codes() -> (r: &'static [&'static str])
        ensures
            Self::spec_is_codes(r@),
    {
        &["H0", "G0", "G1", "G2", "G3", "G4", "G5", "G6", "L0", "L1", "L2", "P0", "H25", "G25", "L25", "P25", "S25", "HEF", "HMF", "HKO", "GKO", "GHA", "GMK", "GBD", "GGA", "GBH", "GWA", "GGB", "GBA", "GPD", "GMF", "GHD", "CUSTOM"]
    }

    /// `c` lists the codes of `ALL`, in order.
    pub open spec fn spec_is_codes(c: Seq<&'static str>) -> bool {
        &&& c.len() == 33
        &&& c[0]@ == Self::H0.spec_as_str()
        &&& c[1]@ == Self::G0.spec_as_str()
        &&& c[2]@ == Self::G1.spec_as_str()
        &&& c[3]@ == Self::G2.spec_as_str()
        &&& c[4]@ == Self::G3.spec_as_str()
        &&& c[5]@ == Self::G4.spec_as_str()
        &&& c[6]@ == Self::G5.spec_as_str()
        &&& c[7]@ == Self::G6.spec_as_str()
        &&& c[8]@ == Self::L0.spec_as_str()
        &&& c[9]@ == Self::L1.spec_as_str()
        &&& c[10]@ == Self::L2.spec_as_str()
        &&& c[11]@ == Self::P0.spec_as_str()
        &&& c[12]@ == Self::H25.spec_as_str()
        &&& c[13]@ == Self::G25.spec_as_str()
        &&& c[14]@ == Self::L25.spec_as_str()
        &&& c[15]@ == Self::P25.spec_as_str()
        &&& c[16]@ == Self::S25.spec_as_str()
        &&& c[17]@ == Self::GasHEF.spec_as_str()
        &&& c[18]@ == Self::GasHMF.spec_as_str()
        &&& c[19]@ == Self::GasHKO.spec_as_str()
        &&& c[20]@ == Self::GasGKO.spec_as_str()
        &&& c[21]@ == Self::GasGHA.spec_as_str()
        &&& c[22]@ == Self::GasGMK.spec_as_str()
        &&& c[23]@ == Self::GasGBD.spec_as_str()
        &&& c[24]@ == Self::GasGGA.spec_as_str()
        &&& c[25]@ == Self::GasGBH.spec_as_str()
        &&& c[26]@ == Self::GasGWA.spec_as_str()
        &&& c[27]@ == Self::GasGGB.spec_as_str()
        &&& c[28]@ == Self::GasGBA.spec_as_str()
        &&& c[29]@ == Self::GasGPD.spec_as_str()
        &&& c[30]@ == Self::GasGMF.spec_as_str()
        &&& c[31]@ == Self::GasGHD.spec_as_str()
        &&& c[32]@ == Self::Custom.spec_as_str()
    }

    pub open spec fn spec_as_str(self) -> Seq<char> {
        match self {
            Self::H0 => "H0"@,
            Self::G0 => "G0"@,
            Self::G1 => "G1"@,
            Self::G2 => "G2"@,
            Self::G3 => "G3"@,
            Self::G4 => "G4"@,
            Self::G5 => "G5"@,
            Self::G6 => "G6"@,
            Self::L0 => "L0"@,
            Self::L1 => "L1"@,
            Self::L2 => "L2"@,
            Self::P0 => "P0"@,
            Self::H25 => "H25"@,
            Self::G25 => "G25"@,
            Self::L25 => "L25"@,
            Self::P25 => "P25"@,
            Self::S25 => "S25"@,
            Self::GasHEF => "HEF"@,
            Self::GasHMF => "HMF"@,
            Self::GasHKO => "HKO"@,
            Self::GasGKO => "GKO"@,
            Self::GasGHA => "GHA"@,
            Self::GasGMK => "GMK"@,
            Self::GasGBD => "GBD"@,
            Self::GasGGA => "GGA"@,
            Self::GasGBH => "GBH"@,
            Self::GasGWA => "GWA"@,
            Self::GasGGB => "GGB"@,
            Self::GasGBA => "GBA"@,
            Self::GasGPD => "GPD"@,
            Self::GasGMF => "GMF"@,
            Self::GasGHD => "GHD"@,
            Self::Custom => "CUSTOM"@,
        }
    }

    /// The canonical BDEW profile identifier (UTILMD `MR+Z07`/`MR+Z08`).
    pub fn as_str(self) -> (r: &'static str)
        ensures
            r@ == self.spec_as_str(),
    {
        match self {
            Self::H0 => "H0",
            Self::G0 => "G0",
            Self::G1 => "G1",
            Self::G2 => "G2",
            Self::G3 => "G3",
            Self::G4 => "G4",
            Self::G5 => "G5",
            Self::G6 => "G6",
            Self::L0 => "L0",
            Self::L1 => "L1",
            Self::L2 => "L2",
            Self::P0 => "P0",
            Self::H25 => "H25",
            Self::G25 => "G25",
            Self::L25 => "L25",
            Self::P25 => "P25",
            Self::S25 => "S25",
            Self::GasHEF => "HEF",
            Self::GasHMF => "HMF",
            Self::GasHKO => "HKO",
            Self::GasGKO => "GKO",
            Self::GasGHA => "GHA",
            Self::GasGMK => "GMK",
            Self::GasGBD => "GBD",
            Self::GasGGA => "GGA",
            Self::GasGBH => "GBH",
            Self::GasGWA => "GWA",
            Self::GasGGB => "GGB",
            Self::GasGBA => "GBA",
            Self::GasGPD => "GPD",
            Self::GasGMF => "GMF",
            Self::GasGHD => "GHD",
            Self::Custom => "CUSTOM",
        }
    }

    /// The code as an owned string (what `Display` writes).
    pub fn to_string(&self) -> (r: String)
        ensures
            r@ == self.spec_as_str(),
    {
        self.as_str().to_owned()
    }

    /// The variant whose code is exactly `s`.
    pub open spec fn spec_from_code(s: Seq<char>) -> Option<Self> {
        if s == "H0"@ {
            Some(Self::H0)
        } else if s == "G0"@ {
            Some(Self::G0)
        } else if s == "G1"@ {
            Some(Self::G1)
        } else if s == "G2"@ {
            Some(Self::G2)
        } else if s == "G3"@ {
            Some(Self::G3)
        } else if s == "G4"@ {
            Some(Self::G4)
        } else if s == "G5"@ {
            Some(Self::G5)
        } else if s == "G6"@ {
            Some(Self::G6)
        } else if s == "L0"@ {
            Some(Self::L0)
        } else if s == "L1"@ {
            Some(Self::L1)
        } else if s == "L2"@ {
            Some(Self::L2)
        } else if s == "P0"@ {
            Some(Self::P0)
        } else if s == "H25"@ {
            Some(Self::H25)
        } else if s == "G25"@ {
            Some(Self::G25)
        } else if s == "L25"@ {
            Some(Self::L25)
        } else if s == "P25"@ {
            Some(Self::P25)
        } else if s == "S25"@ {
            Some(Self::S25)
        } else if s == "HEF"@ {
            Some(Self::GasHEF)
        } else if s == "HMF"@ {
            Some(Self::GasHMF)
        } else if s == "HKO"@ {
            Some(Self::GasHKO)
        } else if s == "GKO"@ {
            Some(Self::GasGKO)
        } else if s == "GHA"@ {
            Some(Self::GasGHA)
        } else if s == "GMK"@ {
            Some(Self::GasGMK)
        } else if s == "GBD"@ {
            Some(Self::GasGBD)
        } else if s == "GGA"@ {
            Some(Self::GasGGA)
        } else if s == "GBH"@ {
            Some(Self::GasGBH)
        } else if s == "GWA"@ {
            Some(Self::GasGWA)
        } else if s == "GGB"@ {
            Some(Self::GasGGB)
        } else if s == "GBA"@ {
            Some(Self::GasGBA)
        } else if s == "GPD"@ {
            Some(Self::GasGPD)
        } else if s == "GMF"@ {
            Some(Self::GasGMF)
        } else if s == "GHD"@ {
            Some(Self::GasGHD)
        } else if s == "CUSTOM"@ {
            Some(Self::Custom)
        } else {
            None
        }
    }

    /// The variant whose code is exactly `s`, case and whitespace included.
    pub fn from_code(s: &str) -> (r: Option<Self>)
        ensures
            r == Self::spec_from_code(s@),
    {
        if str_eq(s, "H0") {
            Some(Self::H0)
        } else if str_eq(s, "G0") {
            Some(Self::G0)
        } else if str_eq(s, "G1") {
            Some(Self::G1)
        } else if str_eq(s, "G2") {
            Some(Self::G2)
        } else if str_eq(s, "G3") {
            Some(Self::G3)
        } else if str_eq(s, "G4") {
            Some(Self::G4)
        } else if str_eq(s, "G5") {
            Some(Self::G5)
        } else if str_eq(s, "G6") {
            Some(Self::G6)
        } else if str_eq(s, "L0") {
            Some(Self::L0)
        } else if str_eq(s, "L1") {
            Some(Self::L1)
        } else if str_eq(s, "L2") {
            Some(Self::L2)
        } else if str_eq(s, "P0") {
            Some(Self::P0)
        } else if str_eq(s, "H25") {
            Some(Self::H25)
        } else if str_eq(s, "G25") {
            Some(Self::G25)
        } else if str_eq(s, "L25") {
            Some(Self::L25)
        } else if str_eq(s, "P25") {
            Some(Self::P25)
        } else if str_eq(s, "S25") {
            Some(Self::S25)
        } else if str_eq(s, "HEF") {
            Some(Self::GasHEF)
        } else if str_eq(s, "HMF") {
            Some(Self::GasHMF)
        } else if str_eq(s, "HKO") {
            Some(Self::GasHKO)
        } else if str_eq(s, "GKO") {
            Some(Self::GasGKO)
        } else if str_eq(s, "GHA") {
            Some(Self::GasGHA)
        } else if str_eq(s, "GMK") {
            Some(Self::GasGMK)
        } else if str_eq(s, "GBD") {
            Some(Self::GasGBD)
        } else if str_eq(s, "GGA") {
            Some(Self::GasGGA)
        } else if str_eq(s, "GBH") {
            Some(Self::GasGBH)
        } else if str_eq(s, "GWA") {
            Some(Self::GasGWA)
        } else if str_eq(s, "GGB") {
            Some(Self::GasGGB)
        } else if str_eq(s, "GBA") {
            Some(Self::GasGBA)
        } else if str_eq(s, "GPD") {
            Some(Self::GasGPD)
        } else if str_eq(s, "GMF") {
            Some(Self::GasGMF)
        } else if str_eq(s, "GHD") {
            Some(Self::GasGHD)
        } else if str_eq(s, "CUSTOM") {
            Some(Self::Custom)
        } else {
            None
        }
    }

    /// What parsing `s` yields: surrounding whitespace is ignored and the
    /// comparison is case-insensitive, and the input aliases are accepted.
    pub open spec fn spec_parse(s: Seq<char>) -> Option<Self> {
        let t = trimmed(s);
        let u = uppercased(t);
        if lower_ascii(t) == lower_ascii("EF"@) || u == "EF"@ {
            Some(Self::GasHEF)
        } else
        if lower_ascii(t) == lower_ascii("MF"@) || u == "MF"@ {
            Some(Self::GasHMF)
        } else
        {
            Self::spec_from_code(u)
        }
    }

    /// Parses a code, ignoring surrounding whitespace and case.
    pub fn parse_code(s: &str) -> (r: Result<Self, ParseError>)
        ensures
            match r {
                Ok(v) => Self::spec_parse(s@) == Some(v),
                Err(e) => {
                    &&& Self::spec_parse(s@).is_none()
                    &&& e.spec_type_label() == "LoadProfile"@
                    &&& e.spec_input() == s@
                    &&& e.spec_expected() matches Expected::OneOf(c) && Self::spec_is_codes(c@)
                },
            },
    {
        let t = trim(s);
        let lower = to_ascii_lowercase(t);
        let u = to_uppercase(t);
        if str_eq(lower.as_str(), to_ascii_lowercase("EF").as_str()) || str_eq(u.as_str(), "EF") {
            return Ok(Self::GasHEF);
        }
        if str_eq(lower.as_str(), to_ascii_lowercase("MF").as_str()) || str_eq(u.as_str(), "MF") {
            return Ok(Self::GasHMF);
        }
        match Self::from_code(u.as_str()) {
            Some(v) => Ok(v),
            None => Err(ParseError::one_of("LoadProfile", s, Self::codes())),
        }
    }

    /// Parsing the code of a variant gives the variant back.
    pub proof fn lemma_parse_as_str(v: Self)
        ensures
            Self::spec_parse(v.spec_as_str()) == Some(v),
    {
        match v {
            Self::H0 => Self::lemma_parse_code_0(),
            Self::G0 => Self::lemma_parse_code_1(),
            Self::G1 => Self::lemma_parse_code_2(),
            Self::G2 => Self::lemma_parse_code_3(),
            Self::G3 => Self::lemma_parse_code_4(),
            Self::G4 => Self::lemma_parse_code_5(),
            Self::G5 => Self::lemma_parse_code_6(),
            Self::G6 => Self::lemma_parse_code_7(),
            Self::L0 => Self::lemma_parse_code_8(),
            Self::L1 => Self::lemma_parse_code_9(),
            Self::L2 => Self::lemma_parse_code_10(),
            Self::P0 => Self::lemma_parse_code_11(),
            Self::H25 => Self::lemma_parse_code_12(),
            Self::G25 => Self::lemma_parse_code_13(),
            Self::L25 => Self::lemma_parse_code_14(),
            Self::P25 => Self::lemma_parse_code_15(),
            Self::S25 => Self::lemma_parse_code_16(),
            Self::GasHEF => Self::lemma_parse_code_17(),
            Self::GasHMF => Self::lemma_parse_code_18(),
            Self::GasHKO => Self::lemma_parse_code_19(),
            Self::GasGKO => Self::lemma_parse_code_20(),
            Self::GasGHA => Self::lemma_parse_code_21(),
            Self::GasGMK => Self::lemma_parse_code_22(),
            Self::GasGBD => Self::lemma_parse_code_23(),
            Self::GasGGA => Self::lemma_parse_code_24(),
            Self::GasGBH => Self::lemma_parse_code_25(),
            Self::GasGWA => Self::lemma_parse_code_26(),
            Self::GasGGB => Self::lemma_parse_code_27(),
            Self::GasGBA => Self::lemma_parse_code_28(),
            Self::GasGPD => Self::lemma_parse_code_29(),
            Self::GasGMF => Self::lemma_parse_code_30(),
            Self::GasGHD => Self::lemma_parse_code_31(),
            Self::Custom => Self::lemma_parse_code_32(),
        }
    }

    proof fn lemma_parse_code_0()
        ensures
            Self::spec_parse(Self::H0.spec_as_str()) == Some(Self::H0),
    {
        reveal_strlit("EF");
        reveal_strlit("H0");
        reveal_strlit("MF");
        lemma_code_is_canonical("H0"@);
        assert(lower_ascii("H0"@)[0] != lower_ascii("EF"@)[0]);
        assert("H0"@[0] != "EF"@[0]);
        assert(lower_ascii("H0"@)[0] != lower_ascii("MF"@)[0]);
        assert("H0"@[0] != "MF"@[0]);
    }

    proof fn lemma_parse_code_1()
        ensures
            Self::spec_parse(Self::G0.spec_as_str()) == Some(Self::G0),
    {
        reveal_strlit("EF");
        reveal_strlit("G0");
        reveal_strlit("H0");
        reveal_strlit("MF");
        lemma_code_is_canonical("G0"@);
        assert("G0"@[0] != "H0"@[0]);
        assert(lower_ascii("G0"@)[0] != lower_ascii("EF"@)[0]);
        assert("G0"@[0] != "EF"@[0]);
        assert(lower_ascii("G0"@)[0] != lower_ascii("MF"@)[0]);
        assert("G0"@[0] != "MF"@[0]);
    }

    proof fn lemma_parse_code_2()
        ensures
            Self::spec_parse(Self::G1.spec_as_str()) == Some(Self::G1),
    {
        reveal_strlit("EF");
        reveal_strlit("G0");
        reveal_strlit("G1");
        reveal_strlit("H0");
        reveal_strlit("MF");
        lemma_code_is_canonical("G1"@);
        assert("G1"@[0] != "H0"@[0]);
        assert("G1"@[1] != "G0"@[1]);
        assert(lower_ascii("G1"@)[0] != lower_ascii("EF"@)[0]);
        assert("G1"@[0] != "EF"@[0]);
        assert(lower_ascii("G1"@)[0] != lower_ascii("MF"@)[0]);
        assert("G1"@[0] != "MF"@[0]);
    }

    proof fn lemma_parse_code_3()
        ensures
            Self::spec_parse(Self::G2.spec_as_str()) == Some(Self::G2),
    {
        reveal_strlit("EF");
        reveal_strlit("G0");
        reveal_strlit("G1");
        reveal_strlit("G2");
        reveal_strlit("H0");
        reveal_strlit("MF");
        lemma_code_is_canonical("G2"@);
        assert("G2"@[0] != "H0"@[0]);
        assert("G2"@[1] != "G0"@[1]);
        assert("G2"@[1] != "G1"@[1]);
        assert(lower_ascii("G2"@)[0] != lower_ascii("EF"@)[0]);
        assert("G2"@[0] != "EF"@[0]);
        assert(lower_ascii("G2"@)[0] != lower_ascii("MF"@)[0]);
        assert("G2"@[0] != "MF"@[0]);
    }

    proof fn lemma_parse_code_4()
        ensures
            Self::spec_parse(Self::G3.spec_as_str()) == Some(Self::G3),
    {
        reveal_strlit("EF");
        reveal_strlit("G0");
        reveal_strlit("G1");
        reveal_strlit("G2");
        reveal_strlit("G3");
        reveal_strlit("H0");
        reveal_strlit("MF");
        lemma_code_is_canonical("G3"@);
        assert("G3"@[0] != "H0"@[0]);
        assert("G3"@[1] != "G0"@[1]);
        assert("G3"@[1] != "G1"@[1]);
        assert("G3"@[1] != "G2"@[1]);
        assert(lower_ascii("G3"@)[0] != lower_ascii("EF"@)[0]);
        assert("G3"@[0] != "EF"@[0]);
        assert(lower_ascii("G3"@)[0] != lower_ascii("MF"@)[0]);
        assert("G3"@[0] != "MF"@[0]);
    }

    proof fn lemma_parse_code_5()
        ensures
            Self::spec_parse(Self::G4.spec_as_str()) == Some(Self::G4),
    {
        reveal_strlit("EF");
        reveal_strlit("G0");
        reveal_strlit("G1");
        reveal_strlit("G2");
        reveal_strlit("G3");
        reveal_strlit("G4");
        reveal_strlit("H0");
        reveal_strlit("MF");
        lemma_code_is_canonical("G4"@);
        assert("G4"@[0] != "H0"@[0]);
        assert("G4"@[1] != "G0"@[1]);
        assert("G4"@[1] != "G1"@[1]);
        assert("G4"@[1] != "G2"@[1]);
        assert("G4"@[1] != "G3"@[1]);
        assert(lower_ascii("G4"@)[0] != lower_ascii("EF"@)[0]);
        assert("G4"@[0] != "EF"@[0]);
        assert(lower_ascii("G4"@)[0] != lower_ascii("MF"@)[0]);
        assert("G4"@[0] != "MF"@[0]);
    }

    proof fn lemma_parse_code_6()
        ensures
            Self::spec_parse(Self::G5.spec_as_str()) == Some(Self::G5),
    {
        reveal_strlit("EF");
        reveal_strlit("G0");
        reveal_strlit("G1");
        reveal_strlit("G2");
        reveal_strlit("G3");
        reveal_strlit("G4");
        reveal_strlit("G5");
        reveal_strlit("H0");
        reveal_strlit("MF");
        lemma_code_is_canonical("G5"@);
        assert("G5"@[0] != "H0"@[0]);
        assert("G5"@[1] != "G0"@[1]);
        assert("G5"@[1] != "G1"@[1]);
        assert("G5"@[1] != "G2"@[1]);
        assert("G5"@[1] != "G3"@[1]);
        assert("G5"@[1] != "G4"@[1]);
        assert(lower_ascii("G5"@)[0] != lower_ascii("EF"@)[0]);
        assert("G5"@[0] != "EF"@[0]);
        assert(lower_ascii("G5"@)[0] != lower_ascii("MF"@)[0]);
        assert("G5"@[0] != "MF"@[0]);
    }

    proof fn lemma_parse_code_7()
        ensures
            Self::spec_parse(Self::G6.spec_as_str()) == Some(Self::G6),
    {
        reveal_strlit("EF");
        reveal_strlit("G0");
        reveal_strlit("G1");
        reveal_strlit("G2");
        reveal_strlit("G3");
        reveal_strlit("G4");
        reveal_strlit("G5");
        reveal_strlit("G6");
        reveal_strlit("H0");
        reveal_strlit("MF");
        lemma_code_is_canonical("G6"@);
        assert("G6"@[0] != "H0"@[0]);
        assert("G6"@[1] != "G0"@[1]);
        assert("G6"@[1] != "G1"@[1]);
        assert("G6"@[1] != "G2"@[1]);
        assert("G6"@[1] != "G3"@[1]);
        assert("G6"@[1] != "G4"@[1]);
        assert("G6"@[1] != "G5"@[1]);
        assert(lower_ascii("G6"@)[0] != lower_ascii("EF"@)[0]);
        assert("G6"@[0] != "EF"@[0]);
        assert(lower_ascii("G6"@)[0] != lower_ascii("MF"@)[0]);
        assert("G6"@[0] != "MF"@[0]);
    }

    proof fn lemma_parse_code_8()
        ensures
            Self::spec_parse(Self::L0.spec_as_str()) == Some(Self::L0),
    {
        reveal_strlit("EF");
        reveal_strlit("G0");
        reveal_strlit("G1");
        reveal_strlit("G2");
        reveal_strlit("G3");
        reveal_strlit("G4");
        reveal_strlit("G5");
        reveal_strlit("G6");
        reveal_strlit("H0");
        reveal_strlit("L0");
        reveal_strlit("MF");
        lemma_code_is_canonical("L0"@);
        assert("L0"@[0] != "H0"@[0]);
        assert("L0"@[0] != "G0"@[0]);
        assert("L0"@[0] != "G1"@[0]);
        assert("L0"@[0] != "G2"@[0]);
        assert("L0"@[0] != "G3"@[0]);
        assert("L0"@[0] != "G4"@[0]);
        assert("L0"@[0] != "G5"@[0]);
        assert("L0"@[0] != "G6"@[0]);
        assert(lower_ascii("L0"@)[0] != lower_ascii("EF"@)[0]);
        assert("L0"@[0] != "EF"@[0]);
        assert(lower_ascii("L0"@)[0] != lower_ascii("MF"@)[0]);
        assert("L0"@[0] != "MF"@[0]);
    }

    proof fn lemma_parse_code_9()
        ensures
            Self::spec_parse(Self::L1.spec_as_str()) == Some(Self::L1),
    {
        reveal_strlit("EF");
        reveal_strlit("G0");
        reveal_strlit("G1");
        reveal_strlit("G2");
        reveal_strlit("G3");
        reveal_strlit("G4");
        reveal_strlit("G5");
        reveal_strlit("G6");
        reveal_strlit("H0");
        reveal_strlit("L0");
        reveal_strlit("L1");
        reveal_strlit("MF");
        lemma_code_is_canonical("L1"@);
        assert("L1"@[0] != "H0"@[0]);
        assert("L1"@[0] != "G0"@[0]);
        assert("L1"@[0] != "G1"@[0]);
        assert("L1"@[0] != "G2"@[0]);
        assert("L1"@[0] != "G3"@[0]);
        assert("L1"@[0] != "G4"@[0]);
        assert("L1"@[0] != "G5"@[0]);
        assert("L1"@[0] != "G6"@[0]);
        assert("L1"@[1] != "L0"@[1]);
        assert(lower_ascii("L1"@)[0] != lower_ascii("EF"@)[0]);
        assert("L1"@[0] != "EF"@[0]);
        assert(lower_ascii("L1"@)[0] != lower_ascii("MF"@)[0]);
        assert("L1"@[0] != "MF"@[0]);
    }

    proof fn lemma_parse_code_10()
        ensures
            Self::spec_parse(Self::L2.spec_as_str()) == Some(Self::L2),
    {
        reveal_strlit("EF");
        reveal_strlit("G0");
        reveal_strlit("G1");
        reveal_strlit("G2");
        reveal_strlit("G3");
        reveal_strlit("G4");
        reveal_strlit("G5");
        reveal_strlit("G6");
        reveal_strlit("H0");
        reveal_strlit("L0");
        reveal_strlit("L1");
        reveal_strlit("L2");
        reveal_strlit("MF");
        lemma_code_is_canonical("L2"@);
        assert("L2"@[0] != "H0"@[0]);
        assert("L2"@[0] != "G0"@[0]);
        assert("L2"@[0] != "G1"@[0]);
        assert("L2"@[0] != "G2"@[0]);
        assert("L2"@[0] != "G3"@[0]);
        assert("L2"@[0] != "G4"@[0]);
        assert("L2"@[0] != "G5"@[0]);
        assert("L2"@[0] != "G6"@[0]);
        assert("L2"@[1] != "L0"@[1]);
        assert("L2"@[1] != "L1"@[1]);
        assert(lower_ascii("L2"@)[0] != lower_ascii("EF"@)[0]);
        assert("L2"@[0] != "EF"@[0]);
        assert(lower_ascii("L2"@)[0] != lower_ascii("MF"@)[0]);
        assert("L2"@[0] != "MF"@[0]);
    }

    proof fn lemma_parse_code_11()
        ensures
            Self::spec_parse(Self::P0.spec_as_str()) == Some(Self::P0),
    {
        reveal_strlit("EF");
        reveal_strlit("G0");
        reveal_strlit("G1");
        reveal_strlit("G2");
        reveal_strlit("G3");
        reveal_strlit("G4");
        reveal_strlit("G5");
        reveal_strlit("G6");
        reveal_strlit("H0");
        reveal_strlit("L0");
        reveal_strlit("L1");
        reveal_strlit("L2");
        reveal_strlit("MF");
        reveal_strlit("P0");
        lemma_code_is_canonical("P0"@);
        assert("P0"@[0] != "H0"@[0]);
        assert("P0"@[0] != "G0"@[0]);
        assert("P0"@[0] != "G1"@[0]);
        assert("P0"@[0] != "G2"@[0]);
        assert("P0"@[0] != "G3"@[0]);
        assert("P0"@[0] != "G4"@[0]);
        assert("P0"@[0] != "G5"@[0]);
        assert("P0"@[0] != "G6"@[0]);
        assert("P0"@[0] != "L0"@[0]);
        assert("P0"@[0] != "L1"@[0]);
        assert("P0"@[0] != "L2"@[0]);
        assert(lower_ascii("P0"@)[0] != lower_ascii("EF"@)[0]);
        assert("P0"@[0] != "EF"@[0]);
        assert(lower_ascii("P0"@)[0] != lower_ascii("MF"@)[0]);
        assert("P0"@[0] != "MF"@[0]);
    }

    proof fn lemma_parse_code_12()
        ensures
            Self::spec_parse(Self::H25.spec_as_str()) == Some(Self::H25),
    {
        reveal_strlit("EF");
        reveal_strlit("G0");
        reveal_strlit("G1");
        reveal_strlit("G2");
        reveal_strlit("G3");
        reveal_strlit("G4");
        reveal_strlit("G5");
        reveal_strlit("G6");
        reveal_strlit("H0");
        reveal_strlit("H25");
        reveal_strlit("L0");
        reveal_strlit("L1");
        reveal_strlit("L2");
        reveal_strlit("MF");
        reveal_strlit("P0");
        lemma_code_is_canonical("H25"@);
        assert(lower_ascii("H25"@).len() != lower_ascii("EF"@).len());
        assert("H25"@.len() != "EF"@.len());
        assert(lower_ascii("H25"@).len() != lower_ascii("MF"@).len());
        assert("H25"@.len() != "MF"@.len());
    }

    proof fn lemma_parse_code_13()
        ensures
            Self::spec_parse(Self::G25.spec_as_str()) == Some(Self::G25),
    {
        reveal_strlit("EF");
        reveal_strlit("G0");
        reveal_strlit("G1");
        reveal_strlit("G2");
        reveal_strlit("G25");
        reveal_strlit("G3");
        reveal_strlit("G4");
        reveal_strlit("G5");
        reveal_strlit("G6");
        reveal_strlit("H0");
        reveal_strlit("H25");
        reveal_strlit("L0");
        reveal_strlit("L1");
        reveal_strlit("L2");
        reveal_strlit("MF");
        reveal_strlit("P0");
        lemma_code_is_canonical("G25"@);
        assert("G25"@[0] != "H25"@[0]);
        assert(lower_ascii("G25"@).len() != lower_ascii("EF"@).len());
        assert("G25"@.len() != "EF"@.len());
        assert(lower_ascii("G25"@).len() != lower_ascii("MF"@).len());
        assert("G25"@.len() != "MF"@.len());
    }

    proof fn lemma_parse_code_14()
        ensures
            Self::spec_parse(Self::L25.spec_as_str()) == Some(Self::L25),
    {
        reveal_strlit("EF");
        reveal_strlit("G0");
        reveal_strlit("G1");
        reveal_strlit("G2");
        reveal_strlit("G25");
        reveal_strlit("G3");
        reveal_strlit("G4");
        reveal_strlit("G5");
        reveal_strlit("G6");
        reveal_strlit("H0");
        reveal_strlit("H25");
        reveal_strlit("L0");
        reveal_strlit("L1");
        reveal_strlit("L2");
        reveal_strlit("L25");
        reveal_strlit("MF");
        reveal_strlit("P0");
        lemma_code_is_canonical("L25"@);
        assert("L25"@[0] != "H25"@[0]);
        assert("L25"@[0] != "G25"@[0]);
        assert(lower_ascii("L25"@).len() != lower_ascii("EF"@).len());
        assert("L25"@.len() != "EF"@.len());
        assert(lower_ascii("L25"@).len() != lower_ascii("MF"@).len());
        assert("L25"@.len() != "MF"@.len());
    }

    proof fn lemma_parse_code_15()
        ensures
            Self::spec_parse(Self::P25.spec_as_str()) == Some(Self::P25),
    {
        reveal_strlit("EF");
        reveal_strlit("G0");
        reveal_strlit("G1");
        reveal_strlit("G2");
        reveal_strlit("G25");
        reveal_strlit("G3");
        reveal_strlit("G4");
        reveal_strlit("G5");
        reveal_strlit("G6");
        reveal_strlit("H0");
        reveal_strlit("H25");
        reveal_strlit("L0");
        reveal_strlit("L1");
        reveal_strlit("L2");
        reveal_strlit("L25");
        reveal_strlit("MF");
        reveal_strlit("P0");
        reveal_strlit("P25");
        lemma_code_is_canonical("P25"@);
        assert("P25"@[0] != "H25"@[0]);
        assert("P25"@[0] != "G25"@[0]);
        assert("P25"@[0] != "L25"@[0]);
        assert(lower_ascii("P25"@).len() != lower_ascii("EF"@).len());
        assert("P25"@.len() != "EF"@.len());
        assert(lower_ascii("P25"@).len() != lower_ascii("MF"@).len());
        assert("P25"@.len() != "MF"@.len());
    }

    proof fn lemma_parse_code_16()
        ensures
            Self::spec_parse(Self::S25.spec_as_str()) == Some(Self::S25),
    {
        reveal_strlit("EF");
        reveal_strlit("G0");
        reveal_strlit("G1");
        reveal_strlit("G2");
        reveal_strlit("G25");
        reveal_strlit("G3");
        reveal_strlit("G4");
        reveal_strlit("G5");
        reveal_strlit("G6");
        reveal_strlit("H0");
        reveal_strlit("H25");
        reveal_strlit("L0");
        reveal_strlit("L1");
        reveal_strlit("L2");
        reveal_strlit("L25");
        reveal_strlit("MF");
        reveal_strlit("P0");
        reveal_strlit("P25");
        reveal_strlit("S25");
        lemma_code_is_canonical("S25"@);
        assert("S25"@[0] != "H25"@[0]);
        assert("S25"@[0] != "G25"@[0]);
        assert("S25"@[0] != "L25"@[0]);
        assert("S25"@[0] != "P25"@[0]);
        assert(lower_ascii("S25"@).len() != lower_ascii("EF"@).len());
        assert("S25"@.len() != "EF"@.len());
        assert(lower_ascii("S25"@).len() != lower_ascii("MF"@).len());
        assert("S25"@.len() != "MF"@.len());
    }

    proof fn lemma_parse_code_17()
        ensures
            Self::spec_parse(Self::GasHEF.spec_as_str()) == Some(Self::GasHEF),
    {
        reveal_strlit("EF");
        reveal_strlit("G0");
        reveal_strlit("G1");
        reveal_strlit("G2");
        reveal_strlit("G25");
        reveal_strlit("G3");
        reveal_strlit("G4");
        reveal_strlit("G5");
        reveal_strlit("G6");
        reveal_strlit("H0");
        reveal_strlit("H25");
        reveal_strlit("HEF");
        reveal_strlit("L0");
        reveal_strlit("L1");
        reveal_strlit("L2");
        reveal_strlit("L25");
        reveal_strlit("MF");
        reveal_strlit("P0");
        reveal_strlit("P25");
        reveal_strlit("S25");
        lemma_code_is_canonical("HEF"@);
        assert("HEF"@[1] != "H25"@[1]);
        assert("HEF"@[0] != "G25"@[0]);
        assert("HEF"@[0] != "L25"@[0]);
        assert("HEF"@[0] != "P25"@[0]);
        assert("HEF"@[0] != "S25"@[0]);
        assert(lower_ascii("HEF"@).len() != lower_ascii("EF"@).len());
        assert("HEF"@.len() != "EF"@.len());
        assert(lower_ascii("HEF"@).len() != lower_ascii("MF"@).len());
        assert("HEF"@.len() != "MF"@.len());
    }

    proof fn lemma_parse_code_18()
        ensures
            Self::spec_parse(Self::GasHMF.spec_as_str()) == Some(Self::GasHMF),
    {
        reveal_strlit("EF");
        reveal_strlit("G0");
        reveal_strlit("G1");
        reveal_strlit("G2");
        reveal_strlit("G25");
        reveal_strlit("G3");
        reveal_strlit("G4");
        reveal_strlit("G5");
        reveal_strlit("G6");
        reveal_strlit("H0");
        reveal_strlit("H25");
        reveal_strlit("HEF");
        reveal_strlit("HMF");
        reveal_strlit("L0");
        reveal_strlit("L1");
        reveal_strlit("L2");
        reveal_strlit("L25");
        reveal_strlit("MF");
        reveal_strlit("P0");
        reveal_strlit("P25");
        reveal_strlit("S25");
        lemma_code_is_canonical("HMF"@);
        assert("HMF"@[1] != "H25"@[1]);
        assert("HMF"@[0] != "G25"@[0]);
        assert("HMF"@[0] != "L25"@[0]);
        assert("HMF"@[0] != "P25"@[0]);
        assert("HMF"@[0] != "S25"@[0]);
        assert("HMF"@[1] != "HEF"@[1]);
        assert(lower_ascii("HMF"@).len() != lower_ascii("EF"@).len());
        assert("HMF"@.len() != "EF"@.len());
        assert(lower_ascii("HMF"@).len() != lower_ascii("MF"@).len());
        assert("HMF"@.len() != "MF"@.len());
    }

    proof fn lemma_parse_code_19()
        ensures
            Self::spec_parse(Self::GasHKO.spec_as_str()) == Some(Self::GasHKO),
    {
        reveal_strlit("EF");
        reveal_strlit("G0");
        reveal_strlit("G1");
        reveal_strlit("G2");
        reveal_strlit("G25");
        reveal_strlit("G3");
        reveal_strlit("G4");
        reveal_strlit("G5");
        reveal_strlit("G6");
        reveal_strlit("H0");
        reveal_strlit("H25");
        reveal_strlit("HEF");
        reveal_strlit("HKO");
        reveal_strlit("HMF");
        reveal_strlit("L0");
        reveal_strlit("L1");
        reveal_strlit("L2");
        reveal_strlit("L25");
        reveal_strlit("MF");
        reveal_strlit("P0");
        reveal_strlit("P25");
        reveal_strlit("S25");
        lemma_code_is_canonical("HKO"@);
        assert("HKO"@[1] != "H25"@[1]);
        assert("HKO"@[0] != "G25"@[0]);
        assert("HKO"@[0] != "L25"@[0]);
        assert("HKO"@[0] != "P25"@[0]);
        assert("HKO"@[0] != "S25"@[0]);
        assert("HKO"@[1] != "HEF"@[1]);
        assert("HKO"@[1] != "HMF"@[1]);
        assert(lower_ascii("HKO"@).len() != lower_ascii("EF"@).len());
        assert("HKO"@.len() != "EF"@.len());
        assert(lower_ascii("HKO"@).len() != lower_ascii("MF"@).len());
        assert("HKO"@.len() != "MF"@.len());
    }

    proof fn lemma_parse_code_20()
        ensures
            Self::spec_parse(Self::GasGKO.spec_as_str()) == Some(Self::GasGKO),
    {
        reveal_strlit("EF");
        reveal_strlit("G0");
        reveal_strlit("G1");
        reveal_strlit("G2");
        reveal_strlit("G25");
        reveal_strlit("G3");
        reveal_strlit("G4");
        reveal_strlit("G5");
        reveal_strlit("G6");
        reveal_strlit("GKO");
        reveal_strlit("H0");
        reveal_strlit("H25");
        reveal_strlit("HEF");
        reveal_strlit("HKO");
        reveal_strlit("HMF");
        reveal_strlit("L0");
        reveal_strlit("L1");
        reveal_strlit("L2");
        reveal_strlit("L25");
        reveal_strlit("MF");
        reveal_strlit("P0");
        reveal_strlit("P25");
        reveal_strlit("S25");
        lemma_code_is_canonical("GKO"@);
        assert("GKO"@[0] != "H25"@[0]);
        assert("GKO"@[1] != "G25"@[1]);
        assert("GKO"@[0] != "L25"@[0]);
        assert("GKO"@[0] != "P25"@[0]);
        assert("GKO"@[0] != "S25"@[0]);
        assert("GKO"@[0] != "HEF"@[0]);
        assert("GKO"@[0] != "HMF"@[0]);
        assert("GKO"@[0] != "HKO"@[0]);
        assert(lower_ascii("GKO"@).len() != lower_ascii("EF"@).len());
        assert("GKO"@.len() != "EF"@.len());
        assert(lower_ascii("GKO"@).len() != lower_ascii("MF"@).len());
        assert("GKO"@.len() != "MF"@.len());
    }

    proof fn lemma_parse_code_21()
        ensures
            Self::spec_parse(Self::GasGHA.spec_as_str()) == Some(Self::GasGHA),
    {
        reveal_strlit("EF");
        reveal_strlit("G0");
        reveal_strlit("G1");
        reveal_strlit("G2");
        reveal_strlit("G25");
        reveal_strlit("G3");
        reveal_strlit("G4");
        reveal_strlit("G5");
        reveal_strlit("G6");
        reveal_strlit("GHA");
        reveal_strlit("GKO");
        reveal_strlit("H0");
        reveal_strlit("H25");
        reveal_strlit("HEF");
        reveal_strlit("HKO");
        reveal_strlit("HMF");
        reveal_strlit("L0");
        reveal_strlit("L1");
        reveal_strlit("L2");
        reveal_strlit("L25");
        reveal_strlit("MF");
        reveal_strlit("P0");
        reveal_strlit("P25");
        reveal_strlit("S25");
        lemma_code_is_canonical("GHA"@);
        assert("GHA"@[0] != "H25"@[0]);
        assert("GHA"@[1] != "G25"@[1]);
        assert("GHA"@[0] != "L25"@[0]);
        assert("GHA"@[0] != "P25"@[0]);
        assert("GHA"@[0] != "S25"@[0]);
        assert("GHA"@[0] != "HEF"@[0]);
        assert("GHA"@[0] != "HMF"@[0]);
        assert("GHA"@[0] != "HKO"@[0]);
        assert("GHA"@[1] != "GKO"@[1]);
        assert(lower_ascii("GHA"@).len() != lower_ascii("EF"@).len());
        assert("GHA"@.len() != "EF"@.len());
        assert(lower_ascii("GHA"@).len() != lower_ascii("MF"@).len());
        assert("GHA"@.len() != "MF"@.len());
    }

    proof fn lemma_parse_code_22()
        ensures
            Self::spec_parse(Self::GasGMK.spec_as_str()) == Some(Self::GasGMK),
    {
        reveal_strlit("EF");
        reveal_strlit("G0");
        reveal_strlit("G1");
        reveal_strlit("G2");
        reveal_strlit("G25");
        reveal_strlit("G3");
        reveal_strlit("G4");
        reveal_strlit("G5");
        reveal_strlit("G6");
        reveal_strlit("GHA");
        reveal_strlit("GKO");
        reveal_strlit("GMK");
        reveal_strlit("H0");
        reveal_strlit("H25");
        reveal_strlit("HEF");
        reveal_strlit("HKO");
        reveal_strlit("HMF");
        reveal_strlit("L0");
        reveal_strlit("L1");
        reveal_strlit("L2");
        reveal_strlit("L25");
        reveal_strlit("MF");
        reveal_strlit("P0");
        reveal_strlit("P25");
        reveal_strlit("S25");
        lemma_code_is_canonical("GMK"@);
        assert("GMK"@[0] != "H25"@[0]);
        assert("GMK"@[1] != "G25"@[1]);
        assert("GMK"@[0] != "L25"@[0]);
        assert("GMK"@[0] != "P25"@[0]);
        assert("GMK"@[0] != "S25"@[0]);
        assert("GMK"@[0] != "HEF"@[0]);
        assert("GMK"@[0] != "HMF"@[0]);
        assert("GMK"@[0] != "HKO"@[0]);
        assert("GMK"@[1] != "GKO"@[1]);
        assert("GMK"@[1] != "GHA"@[1]);
        assert(lower_ascii("GMK"@).len() != lower_ascii("EF"@).len());
        assert("GMK"@.len() != "EF"@.len());
        assert(lower_ascii("GMK"@).len() != lower_ascii("MF"@).len());
        assert("GMK"@.len() != "MF"@.len());
    }

    proof fn lemma_parse_code_23()
        ensures
            Self::spec_parse(Self::GasGBD.spec_as_str()) == Some(Self::GasGBD),
    {
        reveal_strlit("EF");
        reveal_strlit("G0");
        reveal_strlit("G1");
        reveal_strlit("G2");
        reveal_strlit("G25");
        reveal_strlit("G3");
        reveal_strlit("G4");
        reveal_strlit("G5");
        reveal_strlit("G6");
        reveal_strlit("GBD");
        reveal_strlit("GHA");
        reveal_strlit("GKO");
        reveal_strlit("GMK");
        reveal_strlit("H0");
        reveal_strlit("H25");
        reveal_strlit("HEF");
        reveal_strlit("HKO");
        reveal_strlit("HMF");
        reveal_strlit("L0");
        reveal_strlit("L1");
        reveal_strlit("L2");
        reveal_strlit("L25");
        reveal_strlit("MF");
        reveal_strlit("P0");
        reveal_strlit("P25");
        reveal_strlit("S25");
        lemma_code_is_canonical("GBD"@);
        assert("GBD"@[0] != "H25"@[0]);
        assert("GBD"@[1] != "G25"@[1]);
        assert("GBD"@[0] != "L25"@[0]);
        assert("GBD"@[0] != "P25"@[0]);
        assert("GBD"@[0] != "S25"@[0]);
        assert("GBD"@[0] != "HEF"@[0]);
        assert("GBD"@[0] != "HMF"@[0]);
        assert("GBD"@[0] != "HKO"@[0]);
        assert("GBD"@[1] != "GKO"@[1]);
        assert("GBD"@[1] != "GHA"@[1]);
        assert("GBD"@[1] != "GMK"@[1]);
        assert(lower_ascii("GBD"@).len() != lower_ascii("EF"@).len());
        assert("GBD"@.len() != "EF"@.len());
        assert(lower_ascii("GBD"@).len() != lower_ascii("MF"@).len());
        assert("GBD"@.len() != "MF"@.len());
    }

    proof fn lemma_parse_code_24()
        ensures
            Self::spec_parse(Self::GasGGA.spec_as_str()) == Some(Self::GasGGA),
    {
        reveal_strlit("EF");
        reveal_strlit("G0");
        reveal_strlit("G1");
        reveal_strlit("G2");
        reveal_strlit("G25");
        reveal_strlit("G3");
        reveal_strlit("G4");
        reveal_strlit("G5");
        reveal_strlit("G6");
        reveal_strlit("GBD");
        reveal_strlit("GGA");
        reveal_strlit("GHA");
        reveal_strlit("GKO");
        reveal_strlit("GMK");
        reveal_strlit("H0");
        reveal_strlit("H25");
        reveal_strlit("HEF");
        reveal_strlit("HKO");
        reveal_strlit("HMF");
        reveal_strlit("L0");
        reveal_strlit("L1");
        reveal_strlit("L2");
        reveal_strlit("L25");
        reveal_strlit("MF");
        reveal_strlit("P0");
        reveal_strlit("P25");
        reveal_strlit("S25");
        lemma_code_is_canonical("GGA"@);
        assert("GGA"@[0] != "H25"@[0]);
        assert("GGA"@[1] != "G25"@[1]);
        assert("GGA"@[0] != "L25"@[0]);
        assert("GGA"@[0] != "P25"@[0]);
        assert("GGA"@[0] != "S25"@[0]);
        assert("GGA"@[0] != "HEF"@[0]);
        assert("GGA"@[0] != "HMF"@[0]);
        assert("GGA"@[0] != "HKO"@[0]);
        assert("GGA"@[1] != "GKO"@[1]);
        assert("GGA"@[1] != "GHA"@[1]);
        assert("GGA"@[1] != "GMK"@[1]);
        assert("GGA"@[1] != "GBD"@[1]);
        assert(lower_ascii("GGA"@).len() != lower_ascii("EF"@).len());
        assert("GGA"@.len() != "EF"@.len());
        assert(lower_ascii("GGA"@).len() != lower_ascii("MF"@).len());
        assert("GGA"@.len() != "MF"@.len());
    }

    proof fn lemma_parse_code_25()
        ensures
            Self::spec_parse(Self::GasGBH.spec_as_str()) == Some(Self::GasGBH),
    {
        reveal_strlit("EF");
        reveal_strlit("G0");
        reveal_strlit("G1");
        reveal_strlit("G2");
        reveal_strlit("G25");
        reveal_strlit("G3");
        reveal_strlit("G4");
        reveal_strlit("G5");
        reveal_strlit("G6");
        reveal_strlit("GBD");
        reveal_strlit("GBH");
        reveal_strlit("GGA");
        reveal_strlit("GHA");
        reveal_strlit("GKO");
        reveal_strlit("GMK");
        reveal_strlit("H0");
        reveal_strlit("H25");
        reveal_strlit("HEF");
        reveal_strlit("HKO");
        reveal_strlit("HMF");
        reveal_strlit("L0");
        reveal_strlit("L1");
        reveal_strlit("L2");
        reveal_strlit("L25");
        reveal_strlit("MF");
        reveal_strlit("P0");
        reveal_strlit("P25");
        reveal_strlit("S25");
        lemma_code_is_canonical("GBH"@);
        assert("GBH"@[0] != "H25"@[0]);
        assert("GBH"@[1] != "G25"@[1]);
        assert("GBH"@[0] != "L25"@[0]);
        assert("GBH"@[0] != "P25"@[0]);
        assert("GBH"@[0] != "S25"@[0]);
        assert("GBH"@[0] != "HEF"@[0]);
        assert("GBH"@[0] != "HMF"@[0]);
        assert("GBH"@[0] != "HKO"@[0]);
        assert("GBH"@[1] != "GKO"@[1]);
        assert("GBH"@[1] != "GHA"@[1]);
        assert("GBH"@[1] != "GMK"@[1]);
        assert("GBH"@[2] != "GBD"@[2]);
        assert("GBH"@[1] != "GGA"@[1]);
        assert(lower_ascii("GBH"@).len() != lower_ascii("EF"@).len());
        assert("GBH"@.len() != "EF"@.len());
        assert(lower_ascii("GBH"@).len() != lower_ascii("MF"@).len());
        assert("GBH"@.len() != "MF"@.len());
    }

    proof fn lemma_parse_code_26()
        ensures
            Self::spec_parse(Self::GasGWA.spec_as_str()) == Some(Self::GasGWA),
    {
        reveal_strlit("EF");
        reveal_strlit("G0");
        reveal_strlit("G1");
        reveal_strlit("G2");
        reveal_strlit("G25");
        reveal_strlit("G3");
        reveal_strlit("G4");
        reveal_strlit("G5");
        reveal_strlit("G6");
        reveal_strlit("GBD");
        reveal_strlit("GBH");
        reveal_strlit("GGA");
        reveal_strlit("GHA");
        reveal_strlit("GKO");
        reveal_strlit("GMK");
        reveal_strlit("GWA");
        reveal_strlit("H0");
        reveal_strlit("H25");
        reveal_strlit("HEF");
        reveal_strlit("HKO");
        reveal_strlit("HMF");
        reveal_strlit("L0");
        reveal_strlit("L1");
        reveal_strlit("L2");
        reveal_strlit("L25");
        reveal_strlit("MF");
        reveal_strlit("P0");
        reveal_strlit("P25");
        reveal_strlit("S25");
        lemma_code_is_canonical("GWA"@);
        assert("GWA"@[0] != "H25"@[0]);
        assert("GWA"@[1] != "G25"@[1]);
        assert("GWA"@[0] != "L25"@[0]);
        assert("GWA"@[0] != "P25"@[0]);
        assert("GWA"@[0] != "S25"@[0]);
        assert("GWA"@[0] != "HEF"@[0]);
        assert("GWA"@[0] != "HMF"@[0]);
        assert("GWA"@[0] != "HKO"@[0]);
        assert("GWA"@[1] != "GKO"@[1]);
        assert("GWA"@[1] != "GHA"@[1]);
        assert("GWA"@[1] != "GMK"@[1]);
        assert("GWA"@[1] != "GBD"@[1]);
        assert("GWA"@[1] != "GGA"@[1]);
        assert("GWA"@[1] != "GBH"@[1]);
        assert(lower_ascii("GWA"@).len() != lower_ascii("EF"@).len());
        assert("GWA"@.len() != "EF"@.len());
        assert(lower_ascii("GWA"@).len() != lower_ascii("MF"@).len());
        assert("GWA"@.len() != "MF"@.len());
    }

    proof fn lemma_parse_code_27()
        ensures
            Self::spec_parse(Self::GasGGB.spec_as_str()) == Some(Self::GasGGB),
    {
        reveal_strlit("EF");
        reveal_strlit("G0");
        reveal_strlit("G1");
        reveal_strlit("G2");
        reveal_strlit("G25");
        reveal_strlit("G3");
        reveal_strlit("G4");
        reveal_strlit("G5");
        reveal_strlit("G6");
        reveal_strlit("GBD");
        reveal_strlit("GBH");
        reveal_strlit("GGA");
        reveal_strlit("GGB");
        reveal_strlit("GHA");
        reveal_strlit("GKO");
        reveal_strlit("GMK");
        reveal_strlit("GWA");
        reveal_strlit("H0");
        reveal_strlit("H25");
        reveal_strlit("HEF");
        reveal_strlit("HKO");
        reveal_strlit("HMF");
        reveal_strlit("L0");
        reveal_strlit("L1");
        reveal_strlit("L2");
        reveal_strlit("L25");
        reveal_strlit("MF");
        reveal_strlit("P0");
        reveal_strlit("P25");
        reveal_strlit("S25");
        lemma_code_is_canonical("GGB"@);
        assert("GGB"@[0] != "H25"@[0]);
        assert("GGB"@[1] != "G25"@[1]);
        assert("GGB"@[0] != "L25"@[0]);
        assert("GGB"@[0] != "P25"@[0]);
        assert("GGB"@[0] != "S25"@[0]);
        assert("GGB"@[0] != "HEF"@[0]);
        assert("GGB"@[0] != "HMF"@[0]);
        assert("GGB"@[0] != "HKO"@[0]);
        assert("GGB"@[1] != "GKO"@[1]);
        assert("GGB"@[1] != "GHA"@[1]);
        assert("GGB"@[1] != "GMK"@[1]);
        assert("GGB"@[1] != "GBD"@[1]);
        assert("GGB"@[2] != "GGA"@[2]);
        assert("GGB"@[1] != "GBH"@[1]);
        assert("GGB"@[1] != "GWA"@[1]);
        assert(lower_ascii("GGB"@).len() != lower_ascii("EF"@).len());
        assert("GGB"@.len() != "EF"@.len());
        assert(lower_ascii("GGB"@).len() != lower_ascii("MF"@).len());
        assert("GGB"@.len() != "MF"@.len());
    }

    proof fn lemma_parse_code_28()
        ensures
            Self::spec_parse(Self::GasGBA.spec_as_str()) == Some(Self::GasGBA),
    {
        reveal_strlit("EF");
        reveal_strlit("G0");
        reveal_strlit("G1");
        reveal_strlit("G2");
        reveal_strlit("G25");
        reveal_strlit("G3");
        reveal_strlit("G4");
        reveal_strlit("G5");
        reveal_strlit("G6");
        reveal_strlit("GBA");
        reveal_strlit("GBD");
        reveal_strlit("GBH");
        reveal_strlit("GGA");
        reveal_strlit("GGB");
        reveal_strlit("GHA");
        reveal_strlit("GKO");
        reveal_strlit("GMK");
        reveal_strlit("GWA");
        reveal_strlit("H0");
        reveal_strlit("H25");
        reveal_strlit("HEF");
        reveal_strlit("HKO");
        reveal_strlit("HMF");
        reveal_strlit("L0");
        reveal_strlit("L1");
        reveal_strlit("L2");
        reveal_strlit("L25");
        reveal_strlit("MF");
        reveal_strlit("P0");
        reveal_strlit("P25");
        reveal_strlit("S25");
        lemma_code_is_canonical("GBA"@);
        assert("GBA"@[0] != "H25"@[0]);
        assert("GBA"@[1] != "G25"@[1]);
        assert("GBA"@[0] != "L25"@[0]);
        assert("GBA"@[0] != "P25"@[0]);
        assert("GBA"@[0] != "S25"@[0]);
        assert("GBA"@[0] != "HEF"@[0]);
        assert("GBA"@[0] != "HMF"@[0]);
        assert("GBA"@[0] != "HKO"@[0]);
        assert("GBA"@[1] != "GKO"@[1]);
        assert("GBA"@[1] != "GHA"@[1]);
        assert("GBA"@[1] != "GMK"@[1]);
        assert("GBA"@[2] != "GBD"@[2]);
        assert("GBA"@[1] != "GGA"@[1]);
        assert("GBA"@[2] != "GBH"@[2]);
        assert("GBA"@[1] != "GWA"@[1]);
        assert("GBA"@[1] != "GGB"@[1]);
        assert(lower_ascii("GBA"@).len() != lower_ascii("EF"@).len());
        assert("GBA"@.len() != "EF"@.len());
        assert(lower_ascii("GBA"@).len() != lower_ascii("MF"@).len());
        assert("GBA"@.len() != "MF"@.len());
    }

    proof fn lemma_parse_code_29()
        ensures
            Self::spec_parse(Self::GasGPD.spec_as_str()) == Some(Self::GasGPD),
    {
        reveal_strlit("EF");
        reveal_strlit("G0");
        reveal_strlit("G1");
        reveal_strlit("G2");
        reveal_strlit("G25");
        reveal_strlit("G3");
        reveal_strlit("G4");
        reveal_strlit("G5");
        reveal_strlit("G6");
        reveal_strlit("GBA");
        reveal_strlit("GBD");
        reveal_strlit("GBH");
        reveal_strlit("GGA");
        reveal_strlit("GGB");
        reveal_strlit("GHA");
        reveal_strlit("GKO");
        reveal_strlit("GMK");
        reveal_strlit("GPD");
        reveal_strlit("GWA");
        reveal_strlit("H0");
        reveal_strlit("H25");
        reveal_strlit("HEF");
        reveal_strlit("HKO");
        reveal_strlit("HMF");
        reveal_strlit("L0");
        reveal_strlit("L1");
        reveal_strlit("L2");
        reveal_strlit("L25");
        reveal_strlit("MF");
        reveal_strlit("P0");
        reveal_strlit("P25");
        reveal_strlit("S25");
        lemma_code_is_canonical("GPD"@);
        assert("GPD"@[0] != "H25"@[0]);
        assert("GPD"@[1] != "G25"@[1]);
        assert("GPD"@[0] != "L25"@[0]);
        assert("GPD"@[0] != "P25"@[0]);
        assert("GPD"@[0] != "S25"@[0]);
        assert("GPD"@[0] != "HEF"@[0]);
        assert("GPD"@[0] != "HMF"@[0]);
        assert("GPD"@[0] != "HKO"@[0]);
        assert("GPD"@[1] != "GKO"@[1]);
        assert("GPD"@[1] != "GHA"@[1]);
        assert("GPD"@[1] != "GMK"@[1]);
        assert("GPD"@[1] != "GBD"@[1]);
        assert("GPD"@[1] != "GGA"@[1]);
        assert("GPD"@[1] != "GBH"@[1]);
        assert("GPD"@[1] != "GWA"@[1]);
        assert("GPD"@[1] != "GGB"@[1]);
        assert("GPD"@[1] != "GBA"@[1]);
        assert(lower_ascii("GPD"@).len() != lower_ascii("EF"@).len());
        assert("GPD"@.len() != "EF"@.len());
        assert(lower_ascii("GPD"@).len() != lower_ascii("MF"@).len());
        assert("GPD"@.len() != "MF"@.len());
    }

    proof fn lemma_parse_code_30()
        ensures
            Self::spec_parse(Self::GasGMF.spec_as_str()) == Some(Self::GasGMF),
    {
        reveal_strlit("EF");
        reveal_strlit("G0");
        reveal_strlit("G1");
        reveal_strlit("G2");
        reveal_strlit("G25");
        reveal_strlit("G3");
        reveal_strlit("G4");
        reveal_strlit("G5");
        reveal_strlit("G6");
        reveal_strlit("GBA");
        reveal_strlit("GBD");
        reveal_strlit("GBH");
        reveal_strlit("GGA");
        reveal_strlit("GGB");
        reveal_strlit("GHA");
        reveal_strlit("GKO");
        reveal_strlit("GMF");
        reveal_strlit("GMK");
        reveal_strlit("GPD");
        reveal_strlit("GWA");
        reveal_strlit("H0");
        reveal_strlit("H25");
        reveal_strlit("HEF");
        reveal_strlit("HKO");
        reveal_strlit("HMF");
        reveal_strlit("L0");
        reveal_strlit("L1");
        reveal_strlit("L2");
        reveal_strlit("L25");
        reveal_strlit("MF");
        reveal_strlit("P0");
        reveal_strlit("P25");
        reveal_strlit("S25");
        lemma_code_is_canonical("GMF"@);
        assert("GMF"@[0] != "H25"@[0]);
        assert("GMF"@[1] != "G25"@[1]);
        assert("GMF"@[0] != "L25"@[0]);
        assert("GMF"@[0] != "P25"@[0]);
        assert("GMF"@[0] != "S25"@[0]);
        assert("GMF"@[0] != "HEF"@[0]);
        assert("GMF"@[0] != "HMF"@[0]);
        assert("GMF"@[0] != "HKO"@[0]);
        assert("GMF"@[1] != "GKO"@[1]);
        assert("GMF"@[1] != "GHA"@[1]);
        assert("GMF"@[2] != "GMK"@[2]);
        assert("GMF"@[1] != "GBD"@[1]);
        assert("GMF"@[1] != "GGA"@[1]);
        assert("GMF"@[1] != "GBH"@[1]);
        assert("GMF"@[1] != "GWA"@[1]);
        assert("GMF"@[1] != "GGB"@[1]);
        assert("GMF"@[1] != "GBA"@[1]);
        assert("GMF"@[1] != "GPD"@[1]);
        assert(lower_ascii("GMF"@).len() != lower_ascii("EF"@).len());
        assert("GMF"@.len() != "EF"@.len());
        assert(lower_ascii("GMF"@).len() != lower_ascii("MF"@).len());
        assert("GMF"@.len() != "MF"@.len());
    }

    proof fn lemma_parse_code_31()
        ensures
            Self::spec_parse(Self::GasGHD.spec_as_str()) == Some(Self::GasGHD),
    {
        reveal_strlit("EF");
        reveal_strlit("G0");
        reveal_strlit("G1");
        reveal_strlit("G2");
        reveal_strlit("G25");
        reveal_strlit("G3");
        reveal_strlit("G4");
        reveal_strlit("G5");
        reveal_strlit("G6");
        reveal_strlit("GBA");
        reveal_strlit("GBD");
        reveal_strlit("GBH");
        reveal_strlit("GGA");
        reveal_strlit("GGB");
        reveal_strlit("GHA");
        reveal_strlit("GHD");
        reveal_strlit("GKO");
        reveal_strlit("GMF");
        reveal_strlit("GMK");
        reveal_strlit("GPD");
        reveal_strlit("GWA");
        reveal_strlit("H0");
        reveal_strlit("H25");
        reveal_strlit("HEF");
        reveal_strlit("HKO");
        reveal_strlit("HMF");
        reveal_strlit("L0");
        reveal_strlit("L1");
        reveal_strlit("L2");
        reveal_strlit("L25");
        reveal_strlit("MF");
        reveal_strlit("P0");
        reveal_strlit("P25");
        reveal_strlit("S25");
        lemma_code_is_canonical("GHD"@);
        assert("GHD"@[0] != "H25"@[0]);
        assert("GHD"@[1] != "G25"@[1]);
        assert("GHD"@[0] != "L25"@[0]);
        assert("GHD"@[0] != "P25"@[0]);
        assert("GHD"@[0] != "S25"@[0]);
        assert("GHD"@[0] != "HEF"@[0]);
        assert("GHD"@[0] != "HMF"@[0]);
        assert("GHD"@[0] != "HKO"@[0]);
        assert("GHD"@[1] != "GKO"@[1]);
        assert("GHD"@[2] != "GHA"@[2]);
        assert("GHD"@[1] != "GMK"@[1]);
        assert("GHD"@[1] != "GBD"@[1]);
        assert("GHD"@[1] != "GGA"@[1]);
        assert("GHD"@[1] != "GBH"@[1]);
        assert("GHD"@[1] != "GWA"@[1]);
        assert("GHD"@[1] != "GGB"@[1]);
        assert("GHD"@[1] != "GBA"@[1]);
        assert("GHD"@[1] != "GPD"@[1]);
        assert("GHD"@[1] != "GMF"@[1]);
        assert(lower_ascii("GHD"@).len() != lower_ascii("EF"@).len());
        assert("GHD"@.len() != "EF"@.len());
        assert(lower_ascii("GHD"@).len() != lower_ascii("MF"@).len());
        assert("GHD"@.len() != "MF"@.len());
    }

    proof fn lemma_parse_code_32()
        ensures
            Self::spec_parse(Self::Custom.spec_as_str()) == Some(Self::Custom),
    {
        reveal_strlit("CUSTOM");
        reveal_strlit("EF");
        reveal_strlit("G0");
        reveal_strlit("G1");
        reveal_strlit("G2");
        reveal_strlit("G25");
        reveal_strlit("G3");
        reveal_strlit("G4");
        reveal_strlit("G5");
        reveal_strlit("G6");
        reveal_strlit("GBA");
        reveal_strlit("GBD");
        reveal_strlit("GBH");
        reveal_strlit("GGA");
        reveal_strlit("GGB");
        reveal_strlit("GHA");
        reveal_strlit("GHD");
        reveal_strlit("GKO");
        reveal_strlit("GMF");
        reveal_strlit("GMK");
        reveal_strlit("GPD");
        reveal_strlit("GWA");
        reveal_strlit("H0");
        reveal_strlit("H25");
        reveal_strlit("HEF");
        reveal_strlit("HKO");
        reveal_strlit("HMF");
        reveal_strlit("L0");
        reveal_strlit("L1");
        reveal_strlit("L2");
        reveal_strlit("L25");
        reveal_strlit("MF");
        reveal_strlit("P0");
        reveal_strlit("P25");
        reveal_strlit("S25");
        lemma_code_is_canonical("CUSTOM"@);
        assert(lower_ascii("CUSTOM"@).len() != lower_ascii("EF"@).len());
        assert("CUSTOM"@.len() != "EF"@.len());
        assert(lower_ascii("CUSTOM"@).len() != lower_ascii("MF"@).len());
        assert("CUSTOM"@.len() != "MF"@.len());
    }
}

impl std::str::FromStr for LoadProfile {
    type Err = ParseError;

    fn from_str(s: &str) -> (r: Result<LoadProfile, ParseError>)
        ensures
            match r {
                Ok(v) => Self::spec_parse(s@) == Some(v),
                Err(e) => {
                    &&& Self::spec_parse(s@).is_none()
                    &&& e.spec_type_label() == "LoadProfile"@
                    &&& e.spec_input() == s@
                    &&& e.spec_expected() matches Expected::OneOf(c) && Self::spec_is_codes(c@)
                },
            },
    {
        LoadProfile::parse_code(s)
    }
}

impl LoadProfile {
    /// The profile a BDEW identifier names, case-insensitively and ignoring
    /// surrounding whitespace; the earlier codes `EF` and `MF` are accepted
    /// for HEF and HMF. `None` for an unknown code.
    pub fn parse(s: &str) -> (r: Option<Self>)
        ensures
            r == Self::spec_parse(s@),
    {
        match Self::parse_code(s) {
            Ok(p) => Some(p),
            Err(_) => None,
        }
    }

    pub open spec fn spec_is_residential(self) -> bool {
        self is H0 || self is H25 || self is P25 || self is S25 || self is GasHEF || self is GasHMF
            || self is GasHKO
    }

    /// `true` for a residential profile: H0, H25, P25, S25 and the three gas
    /// household types.
    pub fn is_residential(self) -> (r: bool)
        ensures
            r == self.spec_is_residential(),
    {
        matches!(self, Self::H0 | Self::H25 | Self::P25 | Self::S25 | Self::GasHEF | Self::GasHMF | Self::GasHKO)
    }

    pub open spec fn spec_requires_dynamization(self) -> bool {
        self is H0 || self is H25 || self is P25 || self is S25
    }

    /// `true` for the profiles to which the Dynamisierungsfunktion must be
    /// applied: H0 (1999) and the entdynamisiert H25, P25, S25.
    pub fn requires_dynamization(self) -> (r: bool)
        ensures
            r == self.spec_requires_dynamization(),
    {
        matches!(self, Self::H0 | Self::H25 | Self::P25 | Self::S25)
    }

    pub open spec fn spec_is_gas(self) -> bool {
        self is GasHEF || self is GasHMF || self is GasHKO || self is GasGKO || self is GasGHA || self is GasGMK
            || self is GasGBD || self is GasGGA || self is GasGBH || self is GasGWA || self is GasGGB
            || self is GasGBA || self is GasGPD || self is GasGMF || self is GasGHD
    }

    pub open spec fn spec_is_commercial(self) -> bool {
        self is G0 || self is G1 || self is G2 || self is G3 || self is G4 || self is G5 || self is G6
            || self is G25 || (self.spec_is_gas() && !(self is GasHEF || self is GasHMF || self is GasHKO))
    }

    /// `true` for a commercial profile: G0–G6, G25 and the eleven gas
    /// Gewerbe types with the GHD Summenlastprofil.
    pub fn is_commercial(self) -> (r: bool)
        ensures
            r == self.spec_is_commercial(),
    {
        matches!(
            self,
            Self::G0 | Self::G1 | Self::G2 | Self::G3 | Self::G4 | Self::G5 | Self::G6 | Self::G25 | Self::GasGKO
                | Self::GasGHA | Self::GasGMK | Self::GasGBD | Self::GasGGA | Self::GasGBH | Self::GasGWA
                | Self::GasGGB | Self::GasGBA | Self::GasGPD | Self::GasGMF | Self::GasGHD
        )
    }

    pub open spec fn spec_is_agricultural(self) -> bool {
        self is L0 || self is L1 || self is L2
    }

    /// `true` for an agricultural profile (L0–L2).
    pub fn is_agricultural(self) -> (r: bool)
        ensures
            r == self.spec_is_agricultural(),
    {
        matches!(self, Self::L0 | Self::L1 | Self::L2)
    }

    /// `true` for one of the fifteen gas SLP profiles.
    pub fn is_gas(self) -> (r: bool)
        ensures
            r == self.spec_is_gas(),
    {
        matches!(
            self,
            Self::GasHEF | Self::GasHMF | Self::GasHKO | Self::GasGKO | Self::GasGHA | Self::GasGMK | Self::GasGBD
                | Self::GasGGA | Self::GasGBH | Self::GasGWA | Self::GasGGB | Self::GasGBA | Self::GasGPD
                | Self::GasGMF | Self::GasGHD
        )
    }

    /// `true` for the GHD Summenlastprofil, the one gas aggregate.
    pub fn is_gas_aggregate(self) -> (r: bool)
        ensures
            r == (self is GasGHD),
    {
        matches!(self, Self::GasGHD)
    }

    /// A profile is never both residential and commercial, and a gas profile
    /// is exactly one of the two.
    pub proof fn lemma_classes_are_disjoint(p: Self)
        ensures
            !(p.spec_is_residential() && p.spec_is_commercial()),
            !(p.spec_is_agricultural() && (p.spec_is_residential() || p.spec_is_commercial())),
            p.spec_is_gas() ==> (p.spec_is_residential() != p.spec_is_commercial()),
            p.spec_requires_dynamization() ==> p.spec_is_residential(),
    {
    }

    /// The characters of a profile code are code characters.
    proof fn lemma_as_str_is_code(p: Self)
        ensures
            forall|i: int| 0 <= i < p.spec_as_str().len() ==> is_code_char(#[trigger] p.spec_as_str()[i]),
    {
        match p {
            Self::H0 => {
                reveal_strlit("H0");
            },
            Self::G0 => {
                reveal_strlit("G0");
            },
            Self::G1 => {
                reveal_strlit("G1");
            },
            Self::G2 => {
                reveal_strlit("G2");
            },
            Self::G3 => {
                reveal_strlit("G3");
            },
            Self::G4 => {
                reveal_strlit("G4");
            },
            Self::G5 => {
                reveal_strlit("G5");
            },
            Self::G6 => {
                reveal_strlit("G6");
            },
            Self::L0 => {
                reveal_strlit("L0");
            },
            Self::L1 => {
                reveal_strlit("L1");
            },
            Self::L2 => {
                reveal_strlit("L2");
            },
            Self::P0 => {
                reveal_strlit("P0");
            },
            Self::H25 => {
                reveal_strlit("H25");
            },
            Self::G25 => {
                reveal_strlit("G25");
            },
            Self::L25 => {
                reveal_strlit("L25");
            },
            Self::P25 => {
                reveal_strlit("P25");
            },
            Self::S25 => {
                reveal_strlit("S25");
            },
            Self::GasHEF => {
                reveal_strlit("HEF");
            },
            Self::GasHMF => {
                reveal_strlit("HMF");
            },
            Self::GasHKO => {
                reveal_strlit("HKO");
            },
            Self::GasGKO => {
                reveal_strlit("GKO");
            },
            Self::GasGHA => {
                reveal_strlit("GHA");
            },
            Self::GasGMK => {
                reveal_strlit("GMK");
            },
            Self::GasGBD => {
                reveal_strlit("GBD");
            },
            Self::GasGGA => {
                reveal_strlit("GGA");
            },
            Self::GasGBH => {
                reveal_strlit("GBH");
            },
            Self::GasGWA => {
                reveal_strlit("GWA");
            },
            Self::GasGGB => {
                reveal_strlit("GGB");
            },
            Self::GasGBA => {
                reveal_strlit("GBA");
            },
            Self::GasGPD => {
                reveal_strlit("GPD");
            },
            Self::GasGMF => {
                reveal_strlit("GMF");
            },
            Self::GasGHD => {
                reveal_strlit("GHD");
            },
            Self::Custom => {
                reveal_strlit("CUSTOM");
            },
        }
    }

    /// The fifteen gas profiles, in the order of `ALL`.
    pub open spec fn spec_gas_profiles() -> Seq<Self> {
        seq![Self::GasHEF, Self::GasHMF, Self::GasHKO, Self::GasGKO, Self::GasGHA, Self::GasGMK, Self::GasGBD, Self::GasGGA, Self::GasGBH, Self::GasGWA, Self::GasGGB, Self::GasGBA, Self::GasGPD, Self::GasGMF, Self::GasGHD]
    }

    /// The fifteen gas profile codes the BDEW Leitfaden publishes.
    pub open spec fn spec_gas_codes() -> Seq<Seq<char>> {
        seq!["HEF"@, "HMF"@, "HKO"@, "GKO"@, "GHA"@, "GMK"@, "GBD"@, "GGA"@, "GBH"@, "GWA"@, "GGB"@, "GBA"@, "GPD"@, "GMF"@, "GHD"@]
    }

    /// A profile is a gas profile exactly when its code is one of the fifteen
    /// gas codes.
    pub proof fn lemma_gas_iff_gas_code(p: Self)
        ensures
            p.spec_is_gas() <==> Self::spec_gas_codes().contains(p.spec_as_str()),
    {
        let g = Self::spec_gas_profiles();
        let c = Self::spec_gas_codes();
        assert forall|i: int| 0 <= i < 15 implies #[trigger] c[i] == g[i].spec_as_str() && g[i].spec_is_gas() by {}
        if p.spec_is_gas() {
            let k: int = choose|k: int| 0 <= k < 15 && g[k] == p;
            assert(exists|k: int| 0 <= k < 15 && g[k] == p) by {
                match p {
                    Self::GasHEF => { assert(g[0] == p); },
                    Self::GasHMF => { assert(g[1] == p); },
                    Self::GasHKO => { assert(g[2] == p); },
                    Self::GasGKO => { assert(g[3] == p); },
                    Self::GasGHA => { assert(g[4] == p); },
                    Self::GasGMK => { assert(g[5] == p); },
                    Self::GasGBD => { assert(g[6] == p); },
                    Self::GasGGA => { assert(g[7] == p); },
                    Self::GasGBH => { assert(g[8] == p); },
                    Self::GasGWA => { assert(g[9] == p); },
                    Self::GasGGB => { assert(g[10] == p); },
                    Self::GasGBA => { assert(g[11] == p); },
                    Self::GasGPD => { assert(g[12] == p); },
                    Self::GasGMF => { assert(g[13] == p); },
                    Self::GasGHD => { assert(g[14] == p); },
                    _ => {},
                }
            }
            assert(c[k] == p.spec_as_str());
        }
        if c.contains(p.spec_as_str()) {
            let k: int = choose|k: int| 0 <= k < c.len() && c[k] == p.spec_as_str();
            Self::lemma_parse_as_str(p);
            Self::lemma_parse_as_str(g[k]);
            assert(g[k] == p);
        }
    }

    /// Exactly fifteen members of `ALL` are gas profiles, the fifteen at
    /// positions 17 to 31, and their codes are the fifteen gas codes, no two
    /// alike.
    pub proof fn lemma_fifteen_gas_profiles()
        ensures
            Self::spec_gas_codes().len() == 15,
            Self::spec_gas_codes().no_duplicates(),
            forall|i: int| 0 <= i < 33 ==> (#[trigger] Self::ALL@[i].spec_is_gas() <==> 17 <= i < 32),
            forall|i: int| 0 <= i < 15 ==> #[trigger] Self::ALL@[17 + i].spec_as_str() == Self::spec_gas_codes()[i],
    {
        let g = Self::spec_gas_profiles();
        let c = Self::spec_gas_codes();
        assert forall|i: int| 0 <= i < 15 implies #[trigger] c[i] == g[i].spec_as_str() && Self::ALL@[17 + i] == g[i] by {}
        assert forall|i: int, j: int| 0 <= i < c.len() && 0 <= j < c.len() && i != j implies c[i] != c[j] by {
            Self::lemma_parse_as_str(g[i]);
            Self::lemma_parse_as_str(g[j]);
        }
    }

    /// Every profile's code parses back to the profile, and so does the code
    /// written in lower case.
    pub proof fn lemma_parse_round_trip(p: Self)
        ensures
            Self::spec_parse(p.spec_as_str()) == Some(p),
            Self::spec_parse(lower_ascii(p.spec_as_str())) == Some(p),
    {
        let code = p.spec_as_str();
        Self::lemma_parse_as_str(p);
        Self::lemma_as_str_is_code(p);
        lemma_code_is_canonical(code);
        lemma_lower_code(code);
    }
}

/// Whether the values of a profile table are dynamized: those of a profile
/// that requires it, and those of a table whose profile is not given.
pub open spec fn spec_table_is_dynamized(profile: Option<LoadProfile>) -> bool {
    match profile {
        Some(p) => p.spec_requires_dynamization(),
        None => true,
    }
}

/// A profile value times the dynamization factor, rounded half to even to
/// three places; `None` where the product overflows.
pub fn dynamize(value: Dec, factor: Dec) -> (r: Option<Dec>)
    ensures
        r is Some <==> decimal_checked_mul(value@, factor@) is Some,
        r matches Some(v) ==> v@ == round_half_even(decimal_checked_mul(value@, factor@)->0, 3),
{
    match value.checked_mul(&factor) {
        Some(p) => Some(p.round_dp(3)),
        None => None,
    }
}

/// The value a table lookup yields for the table's `raw` entry: `raw` where
/// the table is not dynamized; else the dynamized value when a factor is
/// given, and no value without one. The outer `None` is an overflowing
/// product.
pub fn table_value(profile: Option<LoadProfile>, raw: Dec, factor: Option<Dec>) -> (r: Option<Option<Dec>>)
    ensures
        !spec_table_is_dynamized(profile) ==> r == Some(Some(raw)),
        spec_table_is_dynamized(profile) && factor is None ==> r == Some(None::<Dec>),
        spec_table_is_dynamized(profile) && factor is Some ==> match decimal_checked_mul(raw@, factor->0@) {
            Some(p) => r matches Some(Some(v)) && v@ == round_half_even(p, 3),
            None => r is None,
        },
{
    let dynamized = match profile {
        Some(p) => p.requires_dynamization(),
        None => true,
    };
    if !dynamized {
        return Some(Some(raw));
    }
    match factor {
        None => Some(None),
        Some(f) => match dynamize(raw, f) {
            Some(v) => Some(Some(v)),
            None => None,
        },
    }
}

/// The day type an SLP value table is keyed by.
#[derive(Debug, Clone, Copy, PartialEq, Eq, Hash, PartialOrd, Ord, Structural)]
pub enum SlpDayType {
    /// Werktag (Mon–Fri, not a public holiday).
    Werktag,
    /// Samstag (not a public holiday).
    Samstag,
    /// Sonn- und Feiertag (Bundesland-specific holiday calendar).
    SonnFeiertag,
}

impl SlpDayType {
    /// Every variant, in declaration order.
    pub const ALL: [Self; 3] = [Self::Werktag, Self::Samstag, Self::SonnFeiertag];

    /// Every code [`as_str`](Self::as_str) writes, in the order of `ALL`.
    pub fn codes() -> (r: &'static [&'static str])
        ensures
            Self::spec_is_codes(r@),
    {
        &["WERKTAG", "SAMSTAG", "SONN_FEIERTAG"]
    }

    /// `c` lists the codes of `ALL`, in order.
    pub open spec fn spec_is_codes(c: Seq<&'static str>) -> bool {
        &&& c.len() == 3
        &&& c[0]@ == Self::Werktag.spec_as_str()
        &&& c[1]@ == Self::Samstag.spec_as_str()
        &&& c[2]@ == Self::SonnFeiertag.spec_as_str()
    }

    pub open spec fn spec_as_str(self) -> Seq<char> {
        match self {
            Self::Werktag => "WERKTAG"@,
            Self::Samstag => "SAMSTAG"@,
            Self::SonnFeiertag => "SONN_FEIERTAG"@,
        }
    }

    /// Stable DB/wire label; the `FromStr` input and the code `to_string` writes.
    pub fn as_str(self) -> (r: &'static str)
        ensures
            r@ == self.spec_as_str(),
    {
        match self {
            Self::Werktag => "WERKTAG",
            Self::Samstag => "SAMSTAG",
            Self::SonnFeiertag => "SONN_FEIERTAG",
        }
    }

    /// The code as an owned string (what `Display` writes).
    pub fn to_string(&self) -> (r: String)
        ensures
            r@ == self.spec_as_str(),
    {
        self.as_str().to_owned()
    }

    /// The variant whose code is exactly `s`.
    pub open spec fn spec_from_code(s: Seq<char>) -> Option<Self> {
        if s == "WERKTAG"@ {
            Some(Self::Werktag)
        } else if s == "SAMSTAG"@ {
            Some(Self::Samstag)
        } else if s == "SONN_FEIERTAG"@ {
            Some(Self::SonnFeiertag)
        } else {
            None
        }
    }

    /// The variant whose code is exactly `s`, case and whitespace included.
    pub fn from_code(s: &str) -> (r: Option<Self>)
        ensures
            r == Self::spec_from_code(s@),
    {
        if str_eq(s, "WERKTAG") {
            Some(Self::Werktag)
        } else if str_eq(s, "SAMSTAG") {
            Some(Self::Samstag)
        } else if str_eq(s, "SONN_FEIERTAG") {
            Some(Self::SonnFeiertag)
        } else {
            None
        }
    }

    /// What parsing `s` yields: surrounding whitespace is ignored and the
    /// comparison is case-insensitive.
    pub open spec fn spec_parse(s: Seq<char>) -> Option<Self> {
        let t = trimmed(s);
        let u = uppercased(t);
        Self::spec_from_code(u)
    }

    /// Parses a code, ignoring surrounding whitespace and case.
    pub fn parse_code(s: &str) -> (r: Result<Self, ParseError>)
        ensures
            match r {
                Ok(v) => Self::spec_parse(s@) == Some(v),
                Err(e) => {
                    &&& Self::spec_parse(s@).is_none()
                    &&& e.spec_type_label() == "SlpDayType"@
                    &&& e.spec_input() == s@
                    &&& e.spec_expected() matches Expected::OneOf(c) && Self::spec_is_codes(c@)
                },
            },
    {
        let t = trim(s);
        let u = to_uppercase(t);
        match Self::from_code(u.as_str()) {
            Some(v) => Ok(v),
            None => Err(ParseError::one_of("SlpDayType", s, Self::codes())),
        }
    }

    /// Parsing the code of a variant gives the variant back.
    pub proof fn lemma_parse_as_str(v: Self)
        ensures
            Self::spec_parse(v.spec_as_str()) == Some(v),
    {
        match v {
            Self::Werktag => {
                reveal_strlit("WERKTAG");
                lemma_code_is_canonical("WERKTAG"@);
            },
            Self::Samstag => {
                reveal_strlit("SAMSTAG");
                reveal_strlit("WERKTAG");
                lemma_code_is_canonical("SAMSTAG"@);
                assert("SAMSTAG"@[0] != "WERKTAG"@[0]);
            },
            Self::SonnFeiertag => {
                reveal_strlit("SAMSTAG");
                reveal_strlit("SONN_FEIERTAG");
                reveal_strlit("WERKTAG");
                lemma_code_is_canonical("SONN_FEIERTAG"@);
            },
        }
    }
}

impl std::str::FromStr for SlpDayType {
    type Err = ParseError;

    fn from_str(s: &str) -> (r: Result<SlpDayType, ParseError>)
        ensures
            match r {
                Ok(v) => Self::spec_parse(s@) == Some(v),
                Err(e) => {
                    &&& Self::spec_parse(s@).is_none()
                    &&& e.spec_type_label() == "SlpDayType"@
                    &&& e.spec_input() == s@
                    &&& e.spec_expected() matches Expected::OneOf(c) && Self::spec_is_codes(c@)
                },
            },
    {
        SlpDayType::parse_code(s)
    }
}

} // verus!
