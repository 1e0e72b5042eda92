//! German statutory holidays for day-type classification: the sixteen
//! [`Bundesland`] codes and the [`Holiday`] calendar scopes.
//!
//! Only nine holidays are common to all sixteen Länder; the rest are set by
//! Landesrecht, so the calendar of a delivery point is the calendar of the
//! Land it sits in. Municipal scope (Fronleichnam in parts of Sachsen and
//! Thüringen, Mariä Himmelfahrt in parts of Bayern) is not modelled.

use vstd::prelude::*;

use crate::error::{Expected, ParseError};
use crate::calendar::{
    lemma_march_step, date_before, day_number, lemma_day_number_increases, lemma_day_number_injective, spec_is_valid_date,
    weekday_of_day_number, CalendarDate, Weekday, MAX_YEAR, MIN_YEAR,
};
use crate::load_profile::SlpDayType;
use crate::text::{
    chars_of, is_code_char, lemma_code_is_canonical, lemma_lower_code, lower_ascii, str_eq, to_uppercase, trim, trimmed, uppercased,
};

verus! {
/// A German federal state, identified by its ISO 3166-2:DE code.
#[derive(Debug, Clone, Copy, PartialEq, Eq, PartialOrd, Ord, Hash, Structural)]
pub enum Bundesland {
    /// Baden-Württemberg.
    Bw,
    /// Bayern.
    By,
    /// Berlin.
    Be,
    /// Brandenburg.
    Bb,
    /// Bremen.
    Hb,
    /// Hamburg.
    Hh,
    /// Hessen.
    He,
    /// Mecklenburg-Vorpommern.
    Mv,
    /// Niedersachsen.
    Ni,
    /// Nordrhein-Westfalen.
    Nw,
    /// Rheinland-Pfalz.
    Rp,
    /// Saarland.
    Sl,
    /// Sachsen.
    Sn,
    /// Sachsen-Anhalt.
    St,
    /// Schleswig-Holstein.
    Sh,
    /// Thüringen.
    Th,
}

impl Bundesland {
    /// Every Land, in ISO-code order.
    pub const ALL: [Self; 16] = [Self::Bw, Self::By, Self::Be, Self::Bb, Self::Hb, Self::Hh, Self::He, Self::Mv, Self::Ni, Self::Nw, Self::Rp, Self::Sl, Self::Sn, Self::St, Self::Sh, Self::Th];

    /// Every code [`as_str`](Self::as_str) writes, in the order of `ALL`.
    pub fn codes() -> (r: &'static [&'static str])
        ensures
            Self::spec_is_codes(r@),
    {
        &["BW", "BY", "BE", "BB", "HB", "HH", "HE", "MV", "NI", "NW", "RP", "SL", "SN", "ST", "SH", "TH"]
    }

    /// `c` lists the codes of `ALL`, in order.
    pub open spec fn spec_is_codes(c: Seq<&'static str>) -> bool {
        &&& c.len() == 16
        &&& c[0]@ == Self::Bw.spec_as_str()
        &&& c[1]@ == Self::By.spec_as_str()
        &&& c[2]@ == Self::Be.spec_as_str()
        &&& c[3]@ == Self::Bb.spec_as_str()
        &&& c[4]@ == Self::Hb.spec_as_str()
        &&& c[5]@ == Self::Hh.spec_as_str()
        &&& c[6]@ == Self::He.spec_as_str()
        &&& c[7]@ == Self::Mv.spec_as_str()
        &&& c[8]@ == Self::Ni.spec_as_str()
        &&& c[9]@ == Self::Nw.spec_as_str()
        &&& c[10]@ == Self::Rp.spec_as_str()
        &&& c[11]@ == Self::Sl.spec_as_str()
        &&& c[12]@ == Self::Sn.spec_as_str()
        &&& c[13]@ == Self::St.spec_as_str()
        &&& c[14]@ == Self::Sh.spec_as_str()
        &&& c[15]@ == Self::Th.spec_as_str()
    }

    pub open spec fn spec_as_str(self) -> Seq<char> {
        match self {
            Self::Bw => "BW"@,
            Self::By => "BY"@,
            Self::Be => "BE"@,
            Self::Bb => "BB"@,
            Self::Hb => "HB"@,
            Self::Hh => "HH"@,
            Self::He => "HE"@,
            Self::Mv => "MV"@,
            Self::Ni => "NI"@,
            Self::Nw => "NW"@,
            Self::Rp => "RP"@,
            Self::Sl => "SL"@,
            Self::Sn => "SN"@,
            Self::St => "ST"@,
            Self::Sh => "SH"@,
            Self::Th => "TH"@,
        }
    }

    /// The ISO 3166-2:DE subdivision code without the `DE-` prefix, e.g. `BY`.
    pub fn as_str(self) -> (r: &'static str)
        ensures
            r@ == self.spec_as_str(),
    {
        match self {
            Self::Bw => "BW",
            Self::By => "BY",
            Self::Be => "BE",
            Self::Bb => "BB",
            Self::Hb => "HB",
            Self::Hh => "HH",
            Self::He => "HE",
            Self::Mv => "MV",
            Self::Ni => "NI",
            Self::Nw => "NW",
            Self::Rp => "RP",
            Self::Sl => "SL",
            Self::Sn => "SN",
            Self::St => "ST",
            Self::Sh => "SH",
            Self::Th => "TH",
        }
    }

    /// The code as an owned string (what `Display` writes).
    pub fn to_string(&self) -> (r: String)
        ensures
            r@ == self.spec_as_str(),
    {
        self.as_str().to_owned()
    }

    /// The variant whose code is exactly `s`.
    pub open spec fn spec_from_code(s: Seq<char>) -> Option<Self> {
        if s == "BW"@ {
            Some(Self::Bw)
        } else if s == "BY"@ {
            Some(Self::By)
        } else if s == "BE"@ {
            Some(Self::Be)
        } else if s == "BB"@ {
            Some(Self::Bb)
        } else if s == "HB"@ {
            Some(Self::Hb)
        } else if s == "HH"@ {
            Some(Self::Hh)
        } else if s == "HE"@ {
            Some(Self::He)
        } else if s == "MV"@ {
            Some(Self::Mv)
        } else if s == "NI"@ {
            Some(Self::Ni)
        } else if s == "NW"@ {
            Some(Self::Nw)
        } else if s == "RP"@ {
            Some(Self::Rp)
        } else if s == "SL"@ {
            Some(Self::Sl)
        } else if s == "SN"@ {
            Some(Self::Sn)
        } else if s == "ST"@ {
            Some(Self::St)
        } else if s == "SH"@ {
            Some(Self::Sh)
        } else if s == "TH"@ {
            Some(Self::Th)
        } else {
            None
        }
    }

    /// The variant whose code is exactly `s`, case and whitespace included.
    pub fn from_code(s: &str) -> (r: Option<Self>)
        ensures
            r == Self::spec_from_code(s@),
    {
        if str_eq(s, "BW") {
            Some(Self::Bw)
        } else if str_eq(s, "BY") {
            Some(Self::By)
        } else if str_eq(s, "BE") {
            Some(Self::Be)
        } else if str_eq(s, "BB") {
            Some(Self::Bb)
        } else if str_eq(s, "HB") {
            Some(Self::Hb)
        } else if str_eq(s, "HH") {
            Some(Self::Hh)
        } else if str_eq(s, "HE") {
            Some(Self::He)
        } else if str_eq(s, "MV") {
            Some(Self::Mv)
        } else if str_eq(s, "NI") {
            Some(Self::Ni)
        } else if str_eq(s, "NW") {
            Some(Self::Nw)
        } else if str_eq(s, "RP") {
            Some(Self::Rp)
        } else if str_eq(s, "SL") {
            Some(Self::Sl)
        } else if str_eq(s, "SN") {
            Some(Self::Sn)
        } else if str_eq(s, "ST") {
            Some(Self::St)
        } else if str_eq(s, "SH") {
            Some(Self::Sh)
        } else if str_eq(s, "TH") {
            Some(Self::Th)
        } else {
            None
        }
    }

    /// What parsing `s` yields: surrounding whitespace is ignored and the
    /// comparison is case-insensitive.
    pub open spec fn spec_parse(s: Seq<char>) -> Option<Self> {
        let t = trimmed(s);
        let u = uppercased(t);
        let code = if u.len() >= 3 && u.subrange(0, 3) == "DE-"@ {
            u.subrange(3, u.len() as int)
        } else {
            u
        };
        Self::spec_from_code(code)
    }

    /// Parses a code, ignoring surrounding whitespace and case.
    pub fn parse_code(s: &str) -> (r: Result<Self, ParseError>)
        ensures
            match r {
                Ok(v) => Self::spec_parse(s@) == Some(v),
                Err(e) => {
                    &&& Self::spec_parse(s@).is_none()
                    &&& e.spec_type_label() == "Bundesland"@
                    &&& e.spec_input() == s@
                    &&& e.spec_expected() matches Expected::OneOf(c) && Self::spec_is_codes(c@)
                },
            },
    {
        let t = trim(s);
        let u = to_uppercase(t);
        proof {
            reveal_strlit("DE-");
        }
        let v = chars_of(u.as_str());
        let n = v.len();
        let code = if n >= 3 && v[0] == 'D' && v[1] == 'E' && v[2] == '-' {
            assert(v@.subrange(0, 3) =~= "DE-"@);
            u.as_str().substring_char(3, n)
        } else {
            proof {
                if n >= 3 && v@.subrange(0, 3) == "DE-"@ {
                    assert(v@.subrange(0, 3)[0] == 'D');
                    assert(v@.subrange(0, 3)[1] == 'E');
                    assert(v@.subrange(0, 3)[2] == '-');
                }
            }
            u.as_str()
        };
        match Self::from_code(code) {
            Some(v) => Ok(v),
            None => Err(ParseError::one_of("Bundesland", s, Self::codes())),
        }
    }

    /// Parsing the code of a variant gives the variant back.
    pub proof fn lemma_parse_as_str(v: Self)
        ensures
            Self::spec_parse(v.spec_as_str()) == Some(v),
    {
        match v {
            Self::Bw => Self::lemma_parse_code_0(),
            Self::By => Self::lemma_parse_code_1(),
            Self::Be => Self::lemma_parse_code_2(),
            Self::Bb => Self::lemma_parse_code_3(),
            Self::Hb => Self::lemma_parse_code_4(),
            Self::Hh => Self::lemma_parse_code_5(),
            Self::He => Self::lemma_parse_code_6(),
            Self::Mv => Self::lemma_parse_code_7(),
            Self::Ni => Self::lemma_parse_code_8(),
            Self::Nw => Self::lemma_parse_code_9(),
            Self::Rp => Self::lemma_parse_code_10(),
            Self::Sl => Self::lemma_parse_code_11(),
            Self::Sn => Self::lemma_parse_code_12(),
            Self::St => Self::lemma_parse_code_13(),
            Self::Sh => Self::lemma_parse_code_14(),
            Self::Th => Self::lemma_parse_code_15(),
        }
    }

    proof fn lemma_parse_code_0()
        ensures
            Self::spec_parse(Self::Bw.spec_as_str()) == Some(Self::Bw),
    {
        reveal_strlit("BW");
        lemma_code_is_canonical("BW"@);
    }

    proof fn lemma_parse_code_1()
        ensures
            Self::spec_parse(Self::By.spec_as_str()) == Some(Self::By),
    {
        reveal_strlit("BW");
        reveal_strlit("BY");
        lemma_code_is_canonical("BY"@);
        assert("BY"@[1] != "BW"@[1]);
    }

    proof fn lemma_parse_code_2()
        ensures
            Self::spec_parse(Self::Be.spec_as_str()) == Some(Self::Be),
    {
        reveal_strlit("BE");
        reveal_strlit("BW");
        reveal_strlit("BY");
        lemma_code_is_canonical("BE"@);
        assert("BE"@[1] != "BW"@[1]);
        assert("BE"@[1] != "BY"@[1]);
    }

    proof fn lemma_parse_code_3()
        ensures
            Self::spec_parse(Self::Bb.spec_as_str()) == Some(Self::Bb),
    {
        reveal_strlit("BB");
        reveal_strlit("BE");
        reveal_strlit("BW");
        reveal_strlit("BY");
        lemma_code_is_canonical("BB"@);
        assert("BB"@[1] != "BW"@[1]);
        assert("BB"@[1] != "BY"@[1]);
        assert("BB"@[1] != "BE"@[1]);
    }

    proof fn lemma_parse_code_4()
        ensures
            Self::spec_parse(Self::Hb.spec_as_str()) == Some(Self::Hb),
    {
        reveal_strlit("BB");
        reveal_strlit("BE");
        reveal_strlit("BW");
        reveal_strlit("BY");
        reveal_strlit("HB");
        lemma_code_is_canonical("HB"@);
        assert("HB"@[0] != "BW"@[0]);
        assert("HB"@[0] != "BY"@[0]);
        assert("HB"@[0] != "BE"@[0]);
        assert("HB"@[0] != "BB"@[0]);
    }

    proof fn lemma_parse_code_5()
        ensures
            Self::spec_parse(Self::Hh.spec_as_str()) == Some(Self::Hh),
    {
        reveal_strlit("BB");
        reveal_strlit("BE");
        reveal_strlit("BW");
        reveal_strlit("BY");
        reveal_strlit("HB");
        reveal_strlit("HH");
        lemma_code_is_canonical("HH"@);
        assert("HH"@[0] != "BW"@[0]);
        assert("HH"@[0] != "BY"@[0]);
        assert("HH"@[0] != "BE"@[0]);
        assert("HH"@[0] != "BB"@[0]);
        assert("HH"@[1] != "HB"@[1]);
    }

    proof fn lemma_parse_code_6()
        ensures
            Self::spec_parse(Self::He.spec_as_str()) == Some(Self::He),
    {
        reveal_strlit("BB");
        reveal_strlit("BE");
        reveal_strlit("BW");
        reveal_strlit("BY");
        reveal_strlit("HB");
        reveal_strlit("HE");
        reveal_strlit("HH");
        lemma_code_is_canonical("HE"@);
        assert("HE"@[0] != "BW"@[0]);
        assert("HE"@[0] != "BY"@[0]);
        assert("HE"@[0] != "BE"@[0]);
        assert("HE"@[0] != "BB"@[0]);
        assert("HE"@[1] != "HB"@[1]);
        assert("HE"@[1] != "HH"@[1]);
    }

    proof fn lemma_parse_code_7()
        ensures
            Self::spec_parse(Self::Mv.spec_as_str()) == Some(Self::Mv),
    {
        reveal_strlit("BB");
        reveal_strlit("BE");
        reveal_strlit("BW");
        reveal_strlit("BY");
        reveal_strlit("HB");
        reveal_strlit("HE");
        reveal_strlit("HH");
        reveal_strlit("MV");
        lemma_code_is_canonical("MV"@);
        assert("MV"@[0] != "BW"@[0]);
        assert("MV"@[0] != "BY"@[0]);
        assert("MV"@[0] != "BE"@[0]);
        assert("MV"@[0] != "BB"@[0]);
        assert("MV"@[0] != "HB"@[0]);
        assert("MV"@[0] != "HH"@[0]);
        assert("MV"@[0] != "HE"@[0]);
    }

    proof fn lemma_parse_code_8()
        ensures
            Self::spec_parse(Self::Ni.spec_as_str()) == Some(Self::Ni),
    {
        reveal_strlit("BB");
        reveal_strlit("BE");
        reveal_strlit("BW");
        reveal_strlit("BY");
        reveal_strlit("HB");
        reveal_strlit("HE");
        reveal_strlit("HH");
        reveal_strlit("MV");
        reveal_strlit("NI");
        lemma_code_is_canonical("NI"@);
        assert("NI"@[0] != "BW"@[0]);
        assert("NI"@[0] != "BY"@[0]);
        assert("NI"@[0] != "BE"@[0]);
        assert("NI"@[0] != "BB"@[0]);
        assert("NI"@[0] != "HB"@[0]);
        assert("NI"@[0] != "HH"@[0]);
        assert("NI"@[0] != "HE"@[0]);
        assert("NI"@[0] != "MV"@[0]);
    }

    proof fn lemma_parse_code_9()
        ensures
            Self::spec_parse(Self::Nw.spec_as_str()) == Some(Self::Nw),
    {
        reveal_strlit("BB");
        reveal_strlit("BE");
        reveal_strlit("BW");
        reveal_strlit("BY");
        reveal_strlit("HB");
        reveal_strlit("HE");
        reveal_strlit("HH");
        reveal_strlit("MV");
        reveal_strlit("NI");
        reveal_strlit("NW");
        lemma_code_is_canonical("NW"@);
        assert("NW"@[0] != "BW"@[0]);
        assert("NW"@[0] != "BY"@[0]);
        assert("NW"@[0] != "BE"@[0]);
        assert("NW"@[0] != "BB"@[0]);
        assert("NW"@[0] != "HB"@[0]);
        assert("NW"@[0] != "HH"@[0]);
        assert("NW"@[0] != "HE"@[0]);
        assert("NW"@[0] != "MV"@[0]);
        assert("NW"@[1] != "NI"@[1]);
    }

    proof fn lemma_parse_code_10()
        ensures
            Self::spec_parse(Self::Rp.spec_as_str()) == Some(Self::Rp),
    {
        reveal_strlit("BB");
        reveal_strlit("BE");
        reveal_strlit("BW");
        reveal_strlit("BY");
        reveal_strlit("HB");
        reveal_strlit("HE");
        reveal_strlit("HH");
        reveal_strlit("MV");
        reveal_strlit("NI");
        reveal_strlit("NW");
        reveal_strlit("RP");
        lemma_code_is_canonical("RP"@);
        assert("RP"@[0] != "BW"@[0]);
        assert("RP"@[0] != "BY"@[0]);
        assert("RP"@[0] != "BE"@[0]);
        assert("RP"@[0] != "BB"@[0]);
        assert("RP"@[0] != "HB"@[0]);
        assert("RP"@[0] != "HH"@[0]);
        assert("RP"@[0] != "HE"@[0]);
        assert("RP"@[0] != "MV"@[0]);
        assert("RP"@[0] != "NI"@[0]);
        assert("RP"@[0] != "NW"@[0]);
    }

    proof fn lemma_parse_code_11()
        ensures
            Self::spec_parse(Self::Sl.spec_as_str()) == Some(Self::Sl),
    {
        reveal_strlit("BB");
        reveal_strlit("BE");
        reveal_strlit("BW");
        reveal_strlit("BY");
        reveal_strlit("HB");
        reveal_strlit("HE");
        reveal_strlit("HH");
        reveal_strlit("MV");
        reveal_strlit("NI");
        reveal_strlit("NW");
        reveal_strlit("RP");
        reveal_strlit("SL");
        lemma_code_is_canonical("SL"@);
        assert("SL"@[0] != "BW"@[0]);
        assert("SL"@[0] != "BY"@[0]);
        assert("SL"@[0] != "BE"@[0]);
        assert("SL"@[0] != "BB"@[0]);
        assert("SL"@[0] != "HB"@[0]);
        assert("SL"@[0] != "HH"@[0]);
        assert("SL"@[0] != "HE"@[0]);
        assert("SL"@[0] != "MV"@[0]);
        assert("SL"@[0] != "NI"@[0]);
        assert("SL"@[0] != "NW"@[0]);
        assert("SL"@[0] != "RP"@[0]);
    }

    proof fn lemma_parse_code_12()
        ensures
            Self::spec_parse(Self::Sn.spec_as_str()) == Some(Self::Sn),
    {
        reveal_strlit("BB");
        reveal_strlit("BE");
        reveal_strlit("BW");
        reveal_strlit("BY");
        reveal_strlit("HB");
        reveal_strlit("HE");
        reveal_strlit("HH");
        reveal_strlit("MV");
        reveal_strlit("NI");
        reveal_strlit("NW");
        reveal_strlit("RP");
        reveal_strlit("SL");
        reveal_strlit("SN");
        lemma_code_is_canonical("SN"@);
        assert("SN"@[0] != "BW"@[0]);
        assert("SN"@[0] != "BY"@[0]);
        assert("SN"@[0] != "BE"@[0]);
        assert("SN"@[0] != "BB"@[0]);
        assert("SN"@[0] != "HB"@[0]);
        assert("SN"@[0] != "HH"@[0]);
        assert("SN"@[0] != "HE"@[0]);
        assert("SN"@[0] != "MV"@[0]);
        assert("SN"@[0] != "NI"@[0]);
        assert("SN"@[0] != "NW"@[0]);
        assert("SN"@[0] != "RP"@[0]);
        assert("SN"@[1] != "SL"@[1]);
    }

    proof fn lemma_parse_code_13()
        ensures
            Self::spec_parse(Self::St.spec_as_str()) == Some(Self::St),
    {
        reveal_strlit("BB");
        reveal_strlit("BE");
        reveal_strlit("BW");
        reveal_strlit("BY");
        reveal_strlit("HB");
        reveal_strlit("HE");
        reveal_strlit("HH");
        reveal_strlit("MV");
        reveal_strlit("NI");
        reveal_strlit("NW");
        reveal_strlit("RP");
        reveal_strlit("SL");
        reveal_strlit("SN");
        reveal_strlit("ST");
        lemma_code_is_canonical("ST"@);
        assert("ST"@[0] != "BW"@[0]);
        assert("ST"@[0] != "BY"@[0]);
        assert("ST"@[0] != "BE"@[0]);
        assert("ST"@[0] != "BB"@[0]);
        assert("ST"@[0] != "HB"@[0]);
        assert("ST"@[0] != "HH"@[0]);
        assert("ST"@[0] != "HE"@[0]);
        assert("ST"@[0] != "MV"@[0]);
        assert("ST"@[0] != "NI"@[0]);
        assert("ST"@[0] != "NW"@[0]);
        assert("ST"@[0] != "RP"@[0]);
        assert("ST"@[1] != "SL"@[1]);
        assert("ST"@[1] != "SN"@[1]);
    }

    proof fn lemma_parse_code_14()
        ensures
            Self::spec_parse(Self::Sh.spec_as_str()) == Some(Self::Sh),
    {
        reveal_strlit("BB");
        reveal_strlit("BE");
        reveal_strlit("BW");
        reveal_strlit("BY");
        reveal_strlit("HB");
        reveal_strlit("HE");
        reveal_strlit("HH");
        reveal_strlit("MV");
        reveal_strlit("NI");
        reveal_strlit("NW");
        reveal_strlit("RP");
        reveal_strlit("SH");
        reveal_strlit("SL");
        reveal_strlit("SN");
        reveal_strlit("ST");
        lemma_code_is_canonical("SH"@);
        assert("SH"@[0] != "BW"@[0]);
        assert("SH"@[0] != "BY"@[0]);
        assert("SH"@[0] != "BE"@[0]);
        assert("SH"@[0] != "BB"@[0]);
        assert("SH"@[0] != "HB"@[0]);
        assert("SH"@[0] != "HH"@[0]);
        assert("SH"@[0] != "HE"@[0]);
        assert("SH"@[0] != "MV"@[0]);
        assert("SH"@[0] != "NI"@[0]);
        assert("SH"@[0] != "NW"@[0]);
        assert("SH"@[0] != "RP"@[0]);
        assert("SH"@[1] != "SL"@[1]);
        assert("SH"@[1] != "SN"@[1]);
        assert("SH"@[1] != "ST"@[1]);
    }

    proof fn lemma_parse_code_15()
        ensures
            Self::spec_parse(Self::Th.spec_as_str()) == Some(Self::Th),
    {
        reveal_strlit("BB");
        reveal_strlit("BE");
        reveal_strlit("BW");
        reveal_strlit("BY");
        reveal_strlit("HB");
        reveal_strlit("HE");
        reveal_strlit("HH");
        reveal_strlit("MV");
        reveal_strlit("NI");
        reveal_strlit("NW");
        reveal_strlit("RP");
        reveal_strlit("SH");
        reveal_strlit("SL");
        reveal_strlit("SN");
        reveal_strlit("ST");
        reveal_strlit("TH");
        lemma_code_is_canonical("TH"@);
        assert("TH"@[0] != "BW"@[0]);
        assert("TH"@[0] != "BY"@[0]);
        assert("TH"@[0] != "BE"@[0]);
        assert("TH"@[0] != "BB"@[0]);
        assert("TH"@[0] != "HB"@[0]);
        assert("TH"@[0] != "HH"@[0]);
        assert("TH"@[0] != "HE"@[0]);
        assert("TH"@[0] != "MV"@[0]);
        assert("TH"@[0] != "NI"@[0]);
        assert("TH"@[0] != "NW"@[0]);
        assert("TH"@[0] != "RP"@[0]);
        assert("TH"@[0] != "SL"@[0]);
        assert("TH"@[0] != "SN"@[0]);
        assert("TH"@[0] != "ST"@[0]);
        assert("TH"@[0] != "SH"@[0]);
    }

    /// The characters of a Land's code are code characters.
    proof fn lemma_as_str_is_code(b: Self)
        ensures
            forall|i: int| 0 <= i < b.spec_as_str().len() ==> is_code_char(#[trigger] b.spec_as_str()[i]),
            b.spec_as_str().len() == 2,
    {
        match b {
            Self::Bw => {
                reveal_strlit("BW");
            },
            Self::By => {
                reveal_strlit("BY");
            },
            Self::Be => {
                reveal_strlit("BE");
            },
            Self::Bb => {
                reveal_strlit("BB");
            },
            Self::Hb => {
                reveal_strlit("HB");
            },
            Self::Hh => {
                reveal_strlit("HH");
            },
            Self::He => {
                reveal_strlit("HE");
            },
            Self::Mv => {
                reveal_strlit("MV");
            },
            Self::Ni => {
                reveal_strlit("NI");
            },
            Self::Nw => {
                reveal_strlit("NW");
            },
            Self::Rp => {
                reveal_strlit("RP");
            },
            Self::Sl => {
                reveal_strlit("SL");
            },
            Self::Sn => {
                reveal_strlit("SN");
            },
            Self::St => {
                reveal_strlit("ST");
            },
            Self::Sh => {
                reveal_strlit("SH");
            },
            Self::Th => {
                reveal_strlit("TH");
            },
        }
    }

    /// Each Land's code parses back to the Land, both bare and as `de-`
    /// followed by the code in lower case, and no two Länder share a code.
    pub proof fn lemma_code_round_trip(b: Self, other: Self)
        ensures
            Self::spec_parse(b.spec_as_str()) == Some(b),
            Self::spec_parse("de-"@ + lower_ascii(b.spec_as_str())) == Some(b),
            b != other ==> b.spec_as_str() != other.spec_as_str(),
    {
        let code = b.spec_as_str();
        Self::lemma_parse_as_str(b);
        Self::lemma_parse_as_str(other);
        Self::lemma_as_str_is_code(b);
        lemma_code_is_canonical(code);
        reveal_strlit("DE-");
        reveal_strlit("de-");
        let d = "DE-"@ + code;
        assert forall|i: int| 0 <= i < d.len() implies is_code_char(#[trigger] d[i]) by {
            if i >= 3 {
                assert(d[i] == code[i - 3]);
            }
        }
        lemma_lower_code(d);
        assert(lower_ascii(d) =~= "de-"@ + lower_ascii(code));
        assert(d.subrange(0, 3) =~= "DE-"@);
        assert(d.subrange(3, d.len() as int) =~= code);
    }

    /// The codes [`codes`](Self::codes) lists are the codes of `ALL`, in
    /// order, and no two of them are alike.
    pub proof fn lemma_codes_follow_all(c: Seq<&'static str>)
        requires
            Self::spec_is_codes(c),
        ensures
            forall|i: int| 0 <= i < 16 ==> #[trigger] c[i]@ == Self::ALL@[i].spec_as_str(),
            forall|i: int, j: int| 0 <= i < 16 && 0 <= j < 16 && i != j ==> #[trigger] c[i]@ != #[trigger] c[j]@,
    {
        assert forall|i: int| 0 <= i < 16 implies #[trigger] c[i]@ == Self::ALL@[i].spec_as_str() by {}
        assert forall|i: int, j: int| 0 <= i < 16 && 0 <= j < 16 && i != j implies #[trigger] c[i]@ != #[trigger] c[j]@ by {
            Self::lemma_code_round_trip(Self::ALL@[i], Self::ALL@[j]);
        }
    }
}

impl std::str::FromStr for Bundesland {
    type Err = ParseError;

    fn from_str(s: &str) -> (r: Result<Bundesland, ParseError>)
        ensures
            match r {
                Ok(v) => Self::spec_parse(s@) == Some(v),
                Err(e) => {
                    &&& Self::spec_parse(s@).is_none()
                    &&& e.spec_type_label() == "Bundesland"@
                    &&& e.spec_input() == s@
                    &&& e.spec_expected() matches Expected::OneOf(c) && Self::spec_is_codes(c@)
                },
            },
    {
        Bundesland::parse_code(s)
    }
}

impl Bundesland {
    /// The sixteen Länder, in the order of `ALL`.
    pub open spec fn spec_all() -> Seq<Self> {
        seq![Self::Bw, Self::By, Self::Be, Self::Bb, Self::Hb, Self::Hh, Self::He, Self::Mv, Self::Ni, Self::Nw, Self::Rp, Self::Sl, Self::Sn, Self::St, Self::Sh, Self::Th]
    }

    pub open spec fn spec_name(self) -> Seq<char> {
        match self {
            Self::Bw => "Baden-Württemberg"@,
            Self::By => "Bayern"@,
            Self::Be => "Berlin"@,
            Self::Bb => "Brandenburg"@,
            Self::Hb => "Bremen"@,
            Self::Hh => "Hamburg"@,
            Self::He => "Hessen"@,
            Self::Mv => "Mecklenburg-Vorpommern"@,
            Self::Ni => "Niedersachsen"@,
            Self::Nw => "Nordrhein-Westfalen"@,
            Self::Rp => "Rheinland-Pfalz"@,
            Self::Sl => "Saarland"@,
            Self::Sn => "Sachsen"@,
            Self::St => "Sachsen-Anhalt"@,
            Self::Sh => "Schleswig-Holstein"@,
            Self::Th => "Thüringen"@,
        }
    }

    /// The Land's full German name.
    pub fn name(self) -> (r: &'static str)
        ensures
            r@ == self.spec_name(),
    {
        match self {
            Self::Bw => "Baden-Württemberg",
            Self::By => "Bayern",
            Self::Be => "Berlin",
            Self::Bb => "Brandenburg",
            Self::Hb => "Bremen",
            Self::Hh => "Hamburg",
            Self::He => "Hessen",
            Self::Mv => "Mecklenburg-Vorpommern",
            Self::Ni => "Niedersachsen",
            Self::Nw => "Nordrhein-Westfalen",
            Self::Rp => "Rheinland-Pfalz",
            Self::Sl => "Saarland",
            Self::Sn => "Sachsen",
            Self::St => "Sachsen-Anhalt",
            Self::Sh => "Schleswig-Holstein",
            Self::Th => "Thüringen",
        }
    }

    /// Every Land is in [`ALL`](Self::ALL).
    pub proof fn lemma_all_contains(b: Self)
        ensures
            Self::spec_all().contains(b),
    {
        match b {
            Self::Bw => assert(Self::spec_all()[0] == b),
            Self::By => assert(Self::spec_all()[1] == b),
            Self::Be => assert(Self::spec_all()[2] == b),
            Self::Bb => assert(Self::spec_all()[3] == b),
            Self::Hb => assert(Self::spec_all()[4] == b),
            Self::Hh => assert(Self::spec_all()[5] == b),
            Self::He => assert(Self::spec_all()[6] == b),
            Self::Mv => assert(Self::spec_all()[7] == b),
            Self::Ni => assert(Self::spec_all()[8] == b),
            Self::Nw => assert(Self::spec_all()[9] == b),
            Self::Rp => assert(Self::spec_all()[10] == b),
            Self::Sl => assert(Self::spec_all()[11] == b),
            Self::Sn => assert(Self::spec_all()[12] == b),
            Self::St => assert(Self::spec_all()[13] == b),
            Self::Sh => assert(Self::spec_all()[14] == b),
            Self::Th => assert(Self::spec_all()[15] == b),
        }
    }

    /// The ISO code with the `DE-` prefix parses to the same Land.
    pub proof fn lemma_parse_prefixed(b: Self)
        ensures
            Self::spec_parse("DE-"@ + b.spec_as_str()) == Some(b),
    {
        reveal_strlit("DE-");
        Self::lemma_parse_as_str(b);
        let code = b.spec_as_str();
        let t = "DE-"@ + code;
        assert(code.len() == 2 && is_code_char(code[0]) && is_code_char(code[1])) by {
            match b {
                Self::Bw => reveal_strlit("BW"),
                Self::By => reveal_strlit("BY"),
                Self::Be => reveal_strlit("BE"),
                Self::Bb => reveal_strlit("BB"),
                Self::Hb => reveal_strlit("HB"),
                Self::Hh => reveal_strlit("HH"),
                Self::He => reveal_strlit("HE"),
                Self::Mv => reveal_strlit("MV"),
                Self::Ni => reveal_strlit("NI"),
                Self::Nw => reveal_strlit("NW"),
                Self::Rp => reveal_strlit("RP"),
                Self::Sl => reveal_strlit("SL"),
                Self::Sn => reveal_strlit("SN"),
                Self::St => reveal_strlit("ST"),
                Self::Sh => reveal_strlit("SH"),
                Self::Th => reveal_strlit("TH"),
            }
        }
        assert forall|i: int| 0 <= i < code.len() implies is_code_char(#[trigger] code[i]) by {
            if i == 0 {
            } else {
            }
        }
        assert(Self::spec_parse(code) == Some(b));
        lemma_code_is_canonical(code);
        assert forall|i: int| 0 <= i < t.len() implies is_code_char(#[trigger] t[i]) by {
            if i >= 3 {
                assert(t[i] == code[i - 3]);
            }
        }
        lemma_code_is_canonical(t);
        assert(t.subrange(0, 3) =~= "DE-"@);
        assert(t.subrange(3, t.len() as int) =~= code);
    }
}

/// A German statutory holiday (gesetzlicher Feiertag).
#[derive(Debug, Clone, Copy, PartialEq, Eq, PartialOrd, Ord, Hash, Structural)]
pub enum Holiday {
    /// Neujahr — 1 January. All Länder.
    Neujahr,
    /// Heilige Drei Könige — 6 January. BW, BY, ST.
    HeiligeDreiKoenige,
    /// Internationaler Frauentag — 8 March. BE, MV.
    Frauentag,
    /// Karfreitag — Easter − 2 days. All Länder.
    Karfreitag,
    /// Ostersonntag — Easter. Statutory in **BB only**.
    Ostersonntag,
    /// Ostermontag — Easter + 1 day. All Länder.
    Ostermontag,
    /// Tag der Arbeit — 1 May. All Länder.
    TagDerArbeit,
    /// Christi Himmelfahrt — Easter + 39 days. All Länder.
    ChristiHimmelfahrt,
    /// Pfingstsonntag — Easter + 49 days. Statutory in **BB only**.
    Pfingstsonntag,
    /// Pfingstmontag — Easter + 50 days. All Länder.
    Pfingstmontag,
    /// Fronleichnam — Easter + 60 days. BW, BY, HE, NW, RP, SL (municipal
    /// scope in parts of SN and TH is not modelled).
    Fronleichnam,
    /// Mariä Himmelfahrt — 15 August. SL (municipal scope in BY is not
    /// modelled).
    MariaeHimmelfahrt,
    /// Weltkindertag — 20 September. TH.
    Weltkindertag,
    /// Tag der Deutschen Einheit — 3 October. All Länder.
    TagDerDeutschenEinheit,
    /// Reformationstag — 31 October. BB, HB, HH, MV, NI, SH, SN, ST, TH.
    Reformationstag,
    /// Allerheiligen — 1 November. BW, BY, NW, RP, SL.
    Allerheiligen,
    /// Buß- und Bettag — the Wednesday before 23 November. SN.
    BussUndBettag,
    /// Erster Weihnachtstag — 25 December. All Länder.
    ErsterWeihnachtstag,
    /// Zweiter Weihnachtstag — 26 December. All Länder.
    ZweiterWeihnachtstag,
}

impl Holiday {
    /// Every modelled holiday, in the order it falls in the year.
    pub const ALL: [Self; 19] = [Self::Neujahr, Self::HeiligeDreiKoenige, Self::Frauentag, Self::Karfreitag, Self::Ostersonntag, Self::Ostermontag, Self::TagDerArbeit, Self::ChristiHimmelfahrt, Self::Pfingstsonntag, Self::Pfingstmontag, Self::Fronleichnam, Self::MariaeHimmelfahrt, Self::Weltkindertag, Self::TagDerDeutschenEinheit, Self::Reformationstag, Self::Allerheiligen, Self::BussUndBettag, Self::ErsterWeihnachtstag, Self::ZweiterWeihnachtstag];

    /// The nine holidays observed in every Bundesland.
    pub const NATIONWIDE: [Self; 9] = [Self::Neujahr, Self::Karfreitag, Self::Ostermontag, Self::TagDerArbeit, Self::ChristiHimmelfahrt, Self::Pfingstmontag, Self::TagDerDeutschenEinheit, Self::ErsterWeihnachtstag, Self::ZweiterWeihnachtstag];

    pub open spec fn spec_name(self) -> Seq<char> {
        match self {
            Self::Neujahr => "Neujahr"@,
            Self::HeiligeDreiKoenige => "Heilige Drei Könige"@,
            Self::Frauentag => "Internationaler Frauentag"@,
            Self::Karfreitag => "Karfreitag"@,
            Self::Ostersonntag => "Ostersonntag"@,
            Self::Ostermontag => "Ostermontag"@,
            Self::TagDerArbeit => "Tag der Arbeit"@,
            Self::ChristiHimmelfahrt => "Christi Himmelfahrt"@,
            Self::Pfingstsonntag => "Pfingstsonntag"@,
            Self::Pfingstmontag => "Pfingstmontag"@,
            Self::Fronleichnam => "Fronleichnam"@,
            Self::MariaeHimmelfahrt => "Mariä Himmelfahrt"@,
            Self::Weltkindertag => "Weltkindertag"@,
            Self::TagDerDeutschenEinheit => "Tag der Deutschen Einheit"@,
            Self::Reformationstag => "Reformationstag"@,
            Self::Allerheiligen => "Allerheiligen"@,
            Self::BussUndBettag => "Buß- und Bettag"@,
            Self::ErsterWeihnachtstag => "Erster Weihnachtstag"@,
            Self::ZweiterWeihnachtstag => "Zweiter Weihnachtstag"@,
        }
    }

    /// The holiday's German name (what `Display` writes).
    pub fn name(self) -> (r: &'static str)
        ensures
            r@ == self.spec_name(),
    {
        match self {
            Self::Neujahr => "Neujahr",
            Self::HeiligeDreiKoenige => "Heilige Drei Könige",
            Self::Frauentag => "Internationaler Frauentag",
            Self::Karfreitag => "Karfreitag",
            Self::Ostersonntag => "Ostersonntag",
            Self::Ostermontag => "Ostermontag",
            Self::TagDerArbeit => "Tag der Arbeit",
            Self::ChristiHimmelfahrt => "Christi Himmelfahrt",
            Self::Pfingstsonntag => "Pfingstsonntag",
            Self::Pfingstmontag => "Pfingstmontag",
            Self::Fronleichnam => "Fronleichnam",
            Self::MariaeHimmelfahrt => "Mariä Himmelfahrt",
            Self::Weltkindertag => "Weltkindertag",
            Self::TagDerDeutschenEinheit => "Tag der Deutschen Einheit",
            Self::Reformationstag => "Reformationstag",
            Self::Allerheiligen => "Allerheiligen",
            Self::BussUndBettag => "Buß- und Bettag",
            Self::ErsterWeihnachtstag => "Erster Weihnachtstag",
            Self::ZweiterWeihnachtstag => "Zweiter Weihnachtstag",
        }
    }

    /// The name as an owned string.
    pub fn to_string(&self) -> (r: String)
        ensures
            r@ == self.spec_name(),
    {
        self.name().to_owned()
    }

    /// The Länder this holiday is statutory in, in ISO-code order.
    pub open spec fn spec_laender(self) -> Seq<Bundesland> {
        match self {
            Self::Neujahr => Bundesland::spec_all(),
            Self::HeiligeDreiKoenige => seq![Bundesland::Bw, Bundesland::By, Bundesland::St],
            Self::Frauentag => seq![Bundesland::Be, Bundesland::Mv],
            Self::Karfreitag => Bundesland::spec_all(),
            Self::Ostersonntag => seq![Bundesland::Bb],
            Self::Ostermontag => Bundesland::spec_all(),
            Self::TagDerArbeit => Bundesland::spec_all(),
            Self::ChristiHimmelfahrt => Bundesland::spec_all(),
            Self::Pfingstsonntag => seq![Bundesland::Bb],
            Self::Pfingstmontag => Bundesland::spec_all(),
            Self::Fronleichnam => seq![Bundesland::Bw, Bundesland::By, Bundesland::He, Bundesland::Nw, Bundesland::Rp, Bundesland::Sl],
            Self::MariaeHimmelfahrt => seq![Bundesland::Sl],
            Self::Weltkindertag => seq![Bundesland::Th],
            Self::TagDerDeutschenEinheit => Bundesland::spec_all(),
            Self::Reformationstag => seq![Bundesland::Bb, Bundesland::Hb, Bundesland::Hh, Bundesland::Mv, Bundesland::Ni, Bundesland::Sh, Bundesland::Sn, Bundesland::St, Bundesland::Th],
            Self::Allerheiligen => seq![Bundesland::Bw, Bundesland::By, Bundesland::Nw, Bundesland::Rp, Bundesland::Sl],
            Self::BussUndBettag => seq![Bundesland::Sn],
            Self::ErsterWeihnachtstag => Bundesland::spec_all(),
            Self::ZweiterWeihnachtstag => Bundesland::spec_all(),
        }
    }

    /// The Länder this holiday is statutory in.
    pub fn laender(self) -> (r: &'static [Bundesland])
        ensures
            r@ == self.spec_laender(),
    {
        let r: &'static [Bundesland] = match self {
            Self::Neujahr => &Bundesland::ALL,
            Self::HeiligeDreiKoenige => &[Bundesland::Bw, Bundesland::By, Bundesland::St],
            Self::Frauentag => &[Bundesland::Be, Bundesland::Mv],
            Self::Karfreitag => &Bundesland::ALL,
            Self::Ostersonntag => &[Bundesland::Bb],
            Self::Ostermontag => &Bundesland::ALL,
            Self::TagDerArbeit => &Bundesland::ALL,
            Self::ChristiHimmelfahrt => &Bundesland::ALL,
            Self::Pfingstsonntag => &[Bundesland::Bb],
            Self::Pfingstmontag => &Bundesland::ALL,
            Self::Fronleichnam => &[Bundesland::Bw, Bundesland::By, Bundesland::He, Bundesland::Nw, Bundesland::Rp, Bundesland::Sl],
            Self::MariaeHimmelfahrt => &[Bundesland::Sl],
            Self::Weltkindertag => &[Bundesland::Th],
            Self::TagDerDeutschenEinheit => &Bundesland::ALL,
            Self::Reformationstag => &[Bundesland::Bb, Bundesland::Hb, Bundesland::Hh, Bundesland::Mv, Bundesland::Ni, Bundesland::Sh, Bundesland::Sn, Bundesland::St, Bundesland::Th],
            Self::Allerheiligen => &[Bundesland::Bw, Bundesland::By, Bundesland::Nw, Bundesland::Rp, Bundesland::Sl],
            Self::BussUndBettag => &[Bundesland::Sn],
            Self::ErsterWeihnachtstag => &Bundesland::ALL,
            Self::ZweiterWeihnachtstag => &Bundesland::ALL,
        };
        assert(r@ =~= self.spec_laender());
        r
    }

    /// The holidays of [`ALL`](Self::ALL), in order.
    pub open spec fn spec_all() -> Seq<Self> {
        seq![Self::Neujahr, Self::HeiligeDreiKoenige, Self::Frauentag, Self::Karfreitag, Self::Ostersonntag, Self::Ostermontag, Self::TagDerArbeit, Self::ChristiHimmelfahrt, Self::Pfingstsonntag, Self::Pfingstmontag, Self::Fronleichnam, Self::MariaeHimmelfahrt, Self::Weltkindertag, Self::TagDerDeutschenEinheit, Self::Reformationstag, Self::Allerheiligen, Self::BussUndBettag, Self::ErsterWeihnachtstag, Self::ZweiterWeihnachtstag]
    }

    /// The holidays of [`NATIONWIDE`](Self::NATIONWIDE), in order.
    pub open spec fn spec_nationwide() -> Seq<Self> {
        seq![Self::Neujahr, Self::Karfreitag, Self::Ostermontag, Self::TagDerArbeit, Self::ChristiHimmelfahrt, Self::Pfingstmontag, Self::TagDerDeutschenEinheit, Self::ErsterWeihnachtstag, Self::ZweiterWeihnachtstag]
    }

    pub open spec fn spec_is_nationwide(self) -> bool {
        self.spec_laender().len() == 16
    }

    /// `true` when this holiday is statutory in every Bundesland.
    pub fn is_nationwide(self) -> (r: bool)
        ensures
            r == self.spec_is_nationwide(),
    {
        self.laender().len() == Bundesland::ALL.len()
    }

    /// `true` when this holiday is statutory in `land`.
    pub fn applies_in(self, land: Bundesland) -> (r: bool)
        ensures
            r == self.spec_laender().contains(land),
    {
        let l = self.laender();
        let mut i: usize = 0;
        while i < l.len()
            invariant
                i <= l@.len(),
                l@ == self.spec_laender(),
                forall|j: int| 0 <= j < i ==> l@[j] != land,
            decreases l@.len() - i,
        {
            if l[i] == land {
                assert(l@[i as int] == land);
                return true;
            }
            i = i + 1;
        }
        false
    }

    /// The holidays a Land keeps beyond the nationwide ones: Heilige Drei
    /// Könige in BW, BY and ST; Frauentag in BE and MV; Oster- and
    /// Pfingstsonntag in BB; Fronleichnam in BW, BY, HE, NW, RP and SL; Mariä
    /// Himmelfahrt in SL; Weltkindertag in TH; Reformationstag in BB, HB, HH,
    /// MV, NI, SH, SN, ST and TH; Allerheiligen in BW, BY, NW, RP and SL; Buß-
    /// und Bettag in SN.
    pub open spec fn spec_regional_holidays(land: Bundesland) -> Seq<Holiday> {
        match land {
            Bundesland::Bw => seq![Holiday::HeiligeDreiKoenige, Holiday::Fronleichnam, Holiday::Allerheiligen],
            Bundesland::By => seq![Holiday::HeiligeDreiKoenige, Holiday::Fronleichnam, Holiday::Allerheiligen],
            Bundesland::Be => seq![Holiday::Frauentag],
            Bundesland::Bb => seq![Holiday::Ostersonntag, Holiday::Pfingstsonntag, Holiday::Reformationstag],
            Bundesland::Hb => seq![Holiday::Reformationstag],
            Bundesland::Hh => seq![Holiday::Reformationstag],
            Bundesland::He => seq![Holiday::Fronleichnam],
            Bundesland::Mv => seq![Holiday::Frauentag, Holiday::Reformationstag],
            Bundesland::Ni => seq![Holiday::Reformationstag],
            Bundesland::Nw => seq![Holiday::Fronleichnam, Holiday::Allerheiligen],
            Bundesland::Rp => seq![Holiday::Fronleichnam, Holiday::Allerheiligen],
            Bundesland::Sl => seq![Holiday::Fronleichnam, Holiday::MariaeHimmelfahrt, Holiday::Allerheiligen],
            Bundesland::Sn => seq![Holiday::Reformationstag, Holiday::BussUndBettag],
            Bundesland::St => seq![Holiday::HeiligeDreiKoenige, Holiday::Reformationstag],
            Bundesland::Sh => seq![Holiday::Reformationstag],
            Bundesland::Th => seq![Holiday::Weltkindertag, Holiday::Reformationstag],
        }
    }

    /// A holiday is statutory in a Land exactly when it is nationwide or one
    /// of the regional holidays that Land keeps.
    pub proof fn lemma_laender_by_land(h: Self, land: Bundesland)
        ensures
            h.spec_laender().contains(land) <==> (h.spec_is_nationwide() || Self::spec_regional_holidays(
                land,
            ).contains(h)),
    {
        broadcast use vstd::seq_lib::group_seq_properties;

        match land {
            Bundesland::Bw => {},
            Bundesland::By => {},
            Bundesland::Be => {},
            Bundesland::Bb => {},
            Bundesland::Hb => {},
            Bundesland::Hh => {},
            Bundesland::He => {},
            Bundesland::Mv => {},
            Bundesland::Ni => {},
            Bundesland::Nw => {},
            Bundesland::Rp => {},
            Bundesland::Sl => {},
            Bundesland::Sn => {},
            Bundesland::St => {},
            Bundesland::Sh => {},
            Bundesland::Th => {},
        }
    }

    /// A holiday is nationwide exactly when it applies in every Land, and the
    /// nine of [`NATIONWIDE`](Self::NATIONWIDE) are exactly the nationwide
    /// ones.
    pub proof fn lemma_nationwide_iff_everywhere(h: Self)
        ensures
            h.spec_is_nationwide() <==> (forall|b: Bundesland| h.spec_laender().contains(b)),
            h.spec_is_nationwide() <==> Self::spec_nationwide().contains(h),
    {
        match h {
            Self::Neujahr => Self::lemma_scope_0(),
            Self::HeiligeDreiKoenige => Self::lemma_scope_1(),
            Self::Frauentag => Self::lemma_scope_2(),
            Self::Karfreitag => Self::lemma_scope_3(),
            Self::Ostersonntag => Self::lemma_scope_4(),
            Self::Ostermontag => Self::lemma_scope_5(),
            Self::TagDerArbeit => Self::lemma_scope_6(),
            Self::ChristiHimmelfahrt => Self::lemma_scope_7(),
            Self::Pfingstsonntag => Self::lemma_scope_8(),
            Self::Pfingstmontag => Self::lemma_scope_9(),
            Self::Fronleichnam => Self::lemma_scope_10(),
            Self::MariaeHimmelfahrt => Self::lemma_scope_11(),
            Self::Weltkindertag => Self::lemma_scope_12(),
            Self::TagDerDeutschenEinheit => Self::lemma_scope_13(),
            Self::Reformationstag => Self::lemma_scope_14(),
            Self::Allerheiligen => Self::lemma_scope_15(),
            Self::BussUndBettag => Self::lemma_scope_16(),
            Self::ErsterWeihnachtstag => Self::lemma_scope_17(),
            Self::ZweiterWeihnachtstag => Self::lemma_scope_18(),
        }
    }

    proof fn lemma_scope_0()
        ensures
            Self::Neujahr.spec_is_nationwide() <==> (forall|b: Bundesland| Self::Neujahr.spec_laender().contains(b)),
            Self::Neujahr.spec_is_nationwide() <==> Self::spec_nationwide().contains(Self::Neujahr),
    {
        let h = Self::Neujahr;
        let nw = Self::spec_nationwide();
        assert forall|b: Bundesland| h.spec_laender().contains(b) by {
            Bundesland::lemma_all_contains(b);
        }
        assert(nw[0] == h);
    }

    proof fn lemma_scope_1()
        ensures
            Self::HeiligeDreiKoenige.spec_is_nationwide() <==> (forall|b: Bundesland| Self::HeiligeDreiKoenige.spec_laender().contains(b)),
            Self::HeiligeDreiKoenige.spec_is_nationwide() <==> Self::spec_nationwide().contains(Self::HeiligeDreiKoenige),
    {
        let h = Self::HeiligeDreiKoenige;
        let nw = Self::spec_nationwide();
        let s = h.spec_laender();
        assert forall|i: int| 0 <= i < s.len() implies s[i] != Bundesland::Be by {
            if i == 0 {} else if i == 1 {} else {}
        }
        assert(!s.contains(Bundesland::Be));
        assert forall|i: int| 0 <= i < nw.len() implies nw[i] != h by {
            if i == 0 {} else if i == 1 {} else if i == 2 {} else if i == 3 {} else if i == 4 {} else if i == 5 {} else if i == 6 {} else if i == 7 {} else {}
        }
    }

    proof fn lemma_scope_2()
        ensures
            Self::Frauentag.spec_is_nationwide() <==> (forall|b: Bundesland| Self::Frauentag.spec_laender().contains(b)),
            Self::Frauentag.spec_is_nationwide() <==> Self::spec_nationwide().contains(Self::Frauentag),
    {
        let h = Self::Frauentag;
        let nw = Self::spec_nationwide();
        let s = h.spec_laender();
        assert forall|i: int| 0 <= i < s.len() implies s[i] != Bundesland::Bw by {
            if i == 0 {} else {}
        }
        assert(!s.contains(Bundesland::Bw));
        assert forall|i: int| 0 <= i < nw.len() implies nw[i] != h by {
            if i == 0 {} else if i == 1 {} else if i == 2 {} else if i == 3 {} else if i == 4 {} else if i == 5 {} else if i == 6 {} else if i == 7 {} else {}
        }
    }

    proof fn lemma_scope_3()
        ensures
            Self::Karfreitag.spec_is_nationwide() <==> (forall|b: Bundesland| Self::Karfreitag.spec_laender().contains(b)),
            Self::Karfreitag.spec_is_nationwide() <==> Self::spec_nationwide().contains(Self::Karfreitag),
    {
        let h = Self::Karfreitag;
        let nw = Self::spec_nationwide();
        assert forall|b: Bundesland| h.spec_laender().contains(b) by {
            Bundesland::lemma_all_contains(b);
        }
        assert(nw[1] == h);
    }

    proof fn lemma_scope_4()
        ensures
            Self::Ostersonntag.spec_is_nationwide() <==> (forall|b: Bundesland| Self::Ostersonntag.spec_laender().contains(b)),
            Self::Ostersonntag.spec_is_nationwide() <==> Self::spec_nationwide().contains(Self::Ostersonntag),
    {
        let h = Self::Ostersonntag;
        let nw = Self::spec_nationwide();
        let s = h.spec_laender();
        assert forall|i: int| 0 <= i < s.len() implies s[i] != Bundesland::Bw by {
        }
        assert(!s.contains(Bundesland::Bw));
        assert forall|i: int| 0 <= i < nw.len() implies nw[i] != h by {
            if i == 0 {} else if i == 1 {} else if i == 2 {} else if i == 3 {} else if i == 4 {} else if i == 5 {} else if i == 6 {} else if i == 7 {} else {}
        }
    }

    proof fn lemma_scope_5()
        ensures
            Self::Ostermontag.spec_is_nationwide() <==> (forall|b: Bundesland| Self::Ostermontag.spec_laender().contains(b)),
            Self::Ostermontag.spec_is_nationwide() <==> Self::spec_nationwide().contains(Self::Ostermontag),
    {
        let h = Self::Ostermontag;
        let nw = Self::spec_nationwide();
        assert forall|b: Bundesland| h.spec_laender().contains(b) by {
            Bundesland::lemma_all_contains(b);
        }
        assert(nw[2] == h);
    }

    proof fn lemma_scope_6()
        ensures
            Self::TagDerArbeit.spec_is_nationwide() <==> (forall|b: Bundesland| Self::TagDerArbeit.spec_laender().contains(b)),
            Self::TagDerArbeit.spec_is_nationwide() <==> Self::spec_nationwide().contains(Self::TagDerArbeit),
    {
        let h = Self::TagDerArbeit;
        let nw = Self::spec_nationwide();
        assert forall|b: Bundesland| h.spec_laender().contains(b) by {
            Bundesland::lemma_all_contains(b);
        }
        assert(nw[3] == h);
    }

    proof fn lemma_scope_7()
        ensures
            Self::ChristiHimmelfahrt.spec_is_nationwide() <==> (forall|b: Bundesland| Self::ChristiHimmelfahrt.spec_laender().contains(b)),
            Self::ChristiHimmelfahrt.spec_is_nationwide() <==> Self::spec_nationwide().contains(Self::ChristiHimmelfahrt),
    {
        let h = Self::ChristiHimmelfahrt;
        let nw = Self::spec_nationwide();
        assert forall|b: Bundesland| h.spec_laender().contains(b) by {
            Bundesland::lemma_all_contains(b);
        }
        assert(nw[4] == h);
    }

    proof fn lemma_scope_8()
        ensures
            Self::Pfingstsonntag.spec_is_nationwide() <==> (forall|b: Bundesland| Self::Pfingstsonntag.spec_laender().contains(b)),
            Self::Pfingstsonntag.spec_is_nationwide() <==> Self::spec_nationwide().contains(Self::Pfingstsonntag),
    {
        let h = Self::Pfingstsonntag;
        let nw = Self::spec_nationwide();
        let s = h.spec_laender();
        assert forall|i: int| 0 <= i < s.len() implies s[i] != Bundesland::Bw by {
        }
        assert(!s.contains(Bundesland::Bw));
        assert forall|i: int| 0 <= i < nw.len() implies nw[i] != h by {
            if i == 0 {} else if i == 1 {} else if i == 2 {} else if i == 3 {} else if i == 4 {} else if i == 5 {} else if i == 6 {} else if i == 7 {} else {}
        }
    }

    proof fn lemma_scope_9()
        ensures
            Self::Pfingstmontag.spec_is_nationwide() <==> (forall|b: Bundesland| Self::Pfingstmontag.spec_laender().contains(b)),
            Self::Pfingstmontag.spec_is_nationwide() <==> Self::spec_nationwide().contains(Self::Pfingstmontag),
    {
        let h = Self::Pfingstmontag;
        let nw = Self::spec_nationwide();
        assert forall|b: Bundesland| h.spec_laender().contains(b) by {
            Bundesland::lemma_all_contains(b);
        }
        assert(nw[5] == h);
    }

    proof fn lemma_scope_10()
        ensures
            Self::Fronleichnam.spec_is_nationwide() <==> (forall|b: Bundesland| Self::Fronleichnam.spec_laender().contains(b)),
            Self::Fronleichnam.spec_is_nationwide() <==> Self::spec_nationwide().contains(Self::Fronleichnam),
    {
        let h = Self::Fronleichnam;
        let nw = Self::spec_nationwide();
        let s = h.spec_laender();
        assert forall|i: int| 0 <= i < s.len() implies s[i] != Bundesland::Be by {
            if i == 0 {} else if i == 1 {} else if i == 2 {} else if i == 3 {} else if i == 4 {} else {}
        }
        assert(!s.contains(Bundesland::Be));
        assert forall|i: int| 0 <= i < nw.len() implies nw[i] != h by {
            if i == 0 {} else if i == 1 {} else if i == 2 {} else if i == 3 {} else if i == 4 {} else if i == 5 {} else if i == 6 {} else if i == 7 {} else {}
        }
    }

    proof fn lemma_scope_11()
        ensures
            Self::MariaeHimmelfahrt.spec_is_nationwide() <==> (forall|b: Bundesland| Self::MariaeHimmelfahrt.spec_laender().contains(b)),
            Self::MariaeHimmelfahrt.spec_is_nationwide() <==> Self::spec_nationwide().contains(Self::MariaeHimmelfahrt),
    {
        let h = Self::MariaeHimmelfahrt;
        let nw = Self::spec_nationwide();
        let s = h.spec_laender();
        assert forall|i: int| 0 <= i < s.len() implies s[i] != Bundesland::Bw by {
        }
        assert(!s.contains(Bundesland::Bw));
        assert forall|i: int| 0 <= i < nw.len() implies nw[i] != h by {
            if i == 0 {} else if i == 1 {} else if i == 2 {} else if i == 3 {} else if i == 4 {} else if i == 5 {} else if i == 6 {} else if i == 7 {} else {}
        }
    }

    proof fn lemma_scope_12()
        ensures
            Self::Weltkindertag.spec_is_nationwide() <==> (forall|b: Bundesland| Self::Weltkindertag.spec_laender().contains(b)),
            Self::Weltkindertag.spec_is_nationwide() <==> Self::spec_nationwide().contains(Self::Weltkindertag),
    {
        let h = Self::Weltkindertag;
        let nw = Self::spec_nationwide();
        let s = h.spec_laender();
        assert forall|i: int| 0 <= i < s.len() implies s[i] != Bundesland::Bw by {
        }
        assert(!s.contains(Bundesland::Bw));
        assert forall|i: int| 0 <= i < nw.len() implies nw[i] != h by {
            if i == 0 {} else if i == 1 {} else if i == 2 {} else if i == 3 {} else if i == 4 {} else if i == 5 {} else if i == 6 {} else if i == 7 {} else {}
        }
    }

    proof fn lemma_scope_13()
        ensures
            Self::TagDerDeutschenEinheit.spec_is_nationwide() <==> (forall|b: Bundesland| Self::TagDerDeutschenEinheit.spec_laender().contains(b)),
            Self::TagDerDeutschenEinheit.spec_is_nationwide() <==> Self::spec_nationwide().contains(Self::TagDerDeutschenEinheit),
    {
        let h = Self::TagDerDeutschenEinheit;
        let nw = Self::spec_nationwide();
        assert forall|b: Bundesland| h.spec_laender().contains(b) by {
            Bundesland::lemma_all_contains(b);
        }
        assert(nw[6] == h);
    }

    proof fn lemma_scope_14()
        ensures
            Self::Reformationstag.spec_is_nationwide() <==> (forall|b: Bundesland| Self::Reformationstag.spec_laender().contains(b)),
            Self::Reformationstag.spec_is_nationwide() <==> Self::spec_nationwide().contains(Self::Reformationstag),
    {
        let h = Self::Reformationstag;
        let nw = Self::spec_nationwide();
        let s = h.spec_laender();
        assert forall|i: int| 0 <= i < s.len() implies s[i] != Bundesland::Bw by {
            if i == 0 {} else if i == 1 {} else if i == 2 {} else if i == 3 {} else if i == 4 {} else if i == 5 {} else if i == 6 {} else if i == 7 {} else {}
        }
        assert(!s.contains(Bundesland::Bw));
        assert forall|i: int| 0 <= i < nw.len() implies nw[i] != h by {
            if i == 0 {} else if i == 1 {} else if i == 2 {} else if i == 3 {} else if i == 4 {} else if i == 5 {} else if i == 6 {} else if i == 7 {} else {}
        }
    }

    proof fn lemma_scope_15()
        ensures
            Self::Allerheiligen.spec_is_nationwide() <==> (forall|b: Bundesland| Self::Allerheiligen.spec_laender().contains(b)),
            Self::Allerheiligen.spec_is_nationwide() <==> Self::spec_nationwide().contains(Self::Allerheiligen),
    {
        let h = Self::Allerheiligen;
        let nw = Self::spec_nationwide();
        let s = h.spec_laender();
        assert forall|i: int| 0 <= i < s.len() implies s[i] != Bundesland::Be by {
            if i == 0 {} else if i == 1 {} else if i == 2 {} else if i == 3 {} else {}
        }
        assert(!s.contains(Bundesland::Be));
        assert forall|i: int| 0 <= i < nw.len() implies nw[i] != h by {
            if i == 0 {} else if i == 1 {} else if i == 2 {} else if i == 3 {} else if i == 4 {} else if i == 5 {} else if i == 6 {} else if i == 7 {} else {}
        }
    }

    proof fn lemma_scope_16()
        ensures
            Self::BussUndBettag.spec_is_nationwide() <==> (forall|b: Bundesland| Self::BussUndBettag.spec_laender().contains(b)),
            Self::BussUndBettag.spec_is_nationwide() <==> Self::spec_nationwide().contains(Self::BussUndBettag),
    {
        let h = Self::BussUndBettag;
        let nw = Self::spec_nationwide();
        let s = h.spec_laender();
        assert forall|i: int| 0 <= i < s.len() implies s[i] != Bundesland::Bw by {
        }
        assert(!s.contains(Bundesland::Bw));
        assert forall|i: int| 0 <= i < nw.len() implies nw[i] != h by {
            if i == 0 {} else if i == 1 {} else if i == 2 {} else if i == 3 {} else if i == 4 {} else if i == 5 {} else if i == 6 {} else if i == 7 {} else {}
        }
    }

    proof fn lemma_scope_17()
        ensures
            Self::ErsterWeihnachtstag.spec_is_nationwide() <==> (forall|b: Bundesland| Self::ErsterWeihnachtstag.spec_laender().contains(b)),
            Self::ErsterWeihnachtstag.spec_is_nationwide() <==> Self::spec_nationwide().contains(Self::ErsterWeihnachtstag),
    {
        let h = Self::ErsterWeihnachtstag;
        let nw = Self::spec_nationwide();
        assert forall|b: Bundesland| h.spec_laender().contains(b) by {
            Bundesland::lemma_all_contains(b);
        }
        assert(nw[7] == h);
    }

    proof fn lemma_scope_18()
        ensures
            Self::ZweiterWeihnachtstag.spec_is_nationwide() <==> (forall|b: Bundesland| Self::ZweiterWeihnachtstag.spec_laender().contains(b)),
            Self::ZweiterWeihnachtstag.spec_is_nationwide() <==> Self::spec_nationwide().contains(Self::ZweiterWeihnachtstag),
    {
        let h = Self::ZweiterWeihnachtstag;
        let nw = Self::spec_nationwide();
        assert forall|b: Bundesland| h.spec_laender().contains(b) by {
            Bundesland::lemma_all_contains(b);
        }
        assert(nw[8] == h);
    }
}

// ── dates ───────────────────────────────────────────────────────────────────

/// The day number of a day in range, when the day exists.
pub open spec fn fixed_day(year: int, month: int, day: int) -> Option<int> {
    if spec_is_valid_date(year, month, day) {
        Some(day_number(year, month, day))
    } else {
        None
    }
}

/// Easter Sunday's month and day in `year` (Gregorian): the Anonymous
/// Gregorian algorithm of Meeus, Jones and Butcher.
pub open spec fn easter_month_day(year: int) -> (int, int) {
    let a = year % 19;
    let b = year / 100;
    let c = year % 100;
    let d = b / 4;
    let e = b % 4;
    let f = (b + 8) / 25;
    let g = (b - f + 1) / 3;
    let h = (19 * a + b - d - g + 15) % 30;
    let i = c / 4;
    let k = c % 4;
    let l = (32 + 2 * e + 2 * i - h - k) % 7;
    let m = (a + 11 * h + 22 * l) / 451;
    ((h + l - 7 * m + 114) / 31, (h + l - 7 * m + 114) % 31 + 1)
}

/// The day number of Easter Sunday, when that day is in range.
pub open spec fn easter_day(year: int) -> Option<int> {
    fixed_day(year, easter_month_day(year).0, easter_month_day(year).1)
}

/// The day number `offset` days from Easter Sunday.
pub open spec fn from_easter(year: int, offset: int) -> Option<int> {
    match easter_day(year) {
        Some(n) => Some(n + offset),
        None => None,
    }
}

/// How far 23 November lies after the Wednesday before it: a full week when
/// it is itself a Wednesday.
pub open spec fn days_back_to_wednesday(weekday: int) -> int {
    if weekday == 2 {
        7
    } else {
        (weekday - 2 + 7) % 7
    }
}

/// Buß- und Bettag: the Wednesday before 23 November.
pub open spec fn buss_und_bettag_day(year: int) -> Option<int> {
    match fixed_day(year, 11, 23) {
        Some(n) => Some(n - days_back_to_wednesday(weekday_of_day_number(n))),
        None => None,
    }
}

/// A day number within the supported years.
pub open spec fn in_range(n: int) -> bool {
    CalendarDate::spec_min_day_number() <= n <= CalendarDate::spec_max_day_number()
}

/// The computus lands between 22 March and 25 April, in every year.
pub proof fn lemma_easter_in_range(year: int)
    ensures
        easter_month_day(year).0 == 3 && 22 <= easter_month_day(year).1 <= 31 || easter_month_day(
            year,
        ).0 == 4 && 1 <= easter_month_day(year).1 <= 25,
{
    let a = year % 19;
    let b = year / 100;
    let c = year % 100;
    let d = b / 4;
    let e = b % 4;
    let f = (b + 8) / 25;
    let g = (b - f + 1) / 3;
    let h = (19 * a + b - d - g + 15) % 30;
    let i = c / 4;
    let k = c % 4;
    let l = (32 + 2 * e + 2 * i - h - k) % 7;
    let m = (a + 11 * h + 22 * l) / 451;
    assert(0 <= a < 19 && 0 <= h < 30 && 0 <= l < 7);
    assert(0 <= m <= 1);
    if m == 1 {
        assert(a + 11 * h + 22 * l >= 451);
    } else {
        assert(a + 11 * h + 22 * l < 451);
    }
    assert(0 <= h + l - 7 * m <= 34);
}

/// Easter Sunday in `year`, or `None` when the year is out of range; it
/// falls between 22 March and 25 April.
pub fn easter_sunday(year: i32) -> (r: Option<CalendarDate>)
    ensures
        match r {
            Some(d) => d.spec_valid() && easter_day(year as int) == Some(d.spec_day_number()),
            None => easter_day(year as int) is None,
        },
        r matches Some(d) ==> (d.month == 3 && d.day >= 22) || (d.month == 4 && d.day <= 25),
{
    proof {
        lemma_easter_in_range(year as int);
    }
    if year < MIN_YEAR || year > MAX_YEAR {
        return None;
    }
    let y = year as i64;
    let a = y.checked_rem_euclid(19).unwrap();
    let b = y.checked_div_euclid(100).unwrap();
    let c = y.checked_rem_euclid(100).unwrap();
    let d = b.checked_div_euclid(4).unwrap();
    let e = b.checked_rem_euclid(4).unwrap();
    let f = (b + 8).checked_div_euclid(25).unwrap();
    let g = (b - f + 1).checked_div_euclid(3).unwrap();
    let h = (19 * a + b - d - g + 15).checked_rem_euclid(30).unwrap();
    let i = c.checked_div_euclid(4).unwrap();
    let k = c.checked_rem_euclid(4).unwrap();
    let l = (32 + 2 * e + 2 * i - h - k).checked_rem_euclid(7).unwrap();
    let m = (a + 11 * h + 22 * l).checked_div_euclid(451).unwrap();
    let month = (h + l - 7 * m + 114).checked_div_euclid(31).unwrap();
    let day = (h + l - 7 * m + 114).checked_rem_euclid(31).unwrap() + 1;
    assert(month == easter_month_day(year as int).0 && day == easter_month_day(year as int).1);
    if month < 1 || month > 12 || day < 1 || day > 31 {
        return None;
    }
    CalendarDate::new(year, month as u8, day as u8)
}

/// The day `offset` days from Easter Sunday.
fn easter_offset(year: i32, offset: i64) -> (r: Option<CalendarDate>)
    requires
        -100 <= offset <= 100,
    ensures
        match r {
            Some(d) => d.spec_valid() && from_easter(year as int, offset as int) == Some(d.spec_day_number()),
            None => !(from_easter(year as int, offset as int) matches Some(n) && in_range(n)),
        },
{
    match easter_sunday(year) {
        Some(e) => e.checked_add_days(offset),
        None => None,
    }
}

/// Buß- und Bettag in `year`: the Wednesday **before** 23 November, never
/// the 23rd itself.
fn buss_und_bettag(year: i32) -> (r: Option<CalendarDate>)
    ensures
        match r {
            Some(d) => d.spec_valid() && buss_und_bettag_day(year as int) == Some(d.spec_day_number()),
            None => !(buss_und_bettag_day(year as int) matches Some(n) && in_range(n)),
        },
{
    let reference = match CalendarDate::new(year, 11, 23) {
        Some(d) => d,
        None => return None,
    };
    let back: i64 = match reference.weekday() {
        Weekday::Wednesday => 7,
        Weekday::Thursday => 1,
        Weekday::Friday => 2,
        Weekday::Saturday => 3,
        Weekday::Sunday => 4,
        Weekday::Monday => 5,
        Weekday::Tuesday => 6,
    };
    reference.checked_add_days(-back)
}

/// A valid date lies within the supported day numbers.
pub proof fn lemma_valid_in_range(d: CalendarDate)
    requires
        d.spec_valid(),
    ensures
        in_range(d.spec_day_number()),
{
    let first = CalendarDate { year: MIN_YEAR, month: 1, day: 1 };
    let last = CalendarDate { year: MAX_YEAR, month: 12, day: 31 };
    if date_before(first, d) {
        lemma_day_number_increases(first, d);
    }
    if date_before(d, last) {
        lemma_day_number_increases(d, last);
    }
}

/// Easter Sunday falls between 15 March and 26 April (the algorithm's
/// coarse range; the calendar narrows it to 22 March – 25 April).
proof fn lemma_easter_bounds(year: int)
    requires
        easter_day(year) is Some,
    ensures
        day_number(year, 3, 15) <= easter_day(year)->0 <= day_number(year, 4, 26),
{
    let a = year % 19;
    let b = year / 100;
    let c = year % 100;
    let d = b / 4;
    let e = b % 4;
    let f = (b + 8) / 25;
    let g = (b - f + 1) / 3;
    let h = (19 * a + b - d - g + 15) % 30;
    let i = c / 4;
    let k = c % 4;
    let l = (32 + 2 * e + 2 * i - h - k) % 7;
    let m = (a + 11 * h + 22 * l) / 451;
    assert(0 <= a + 11 * h + 22 * l <= 18 + 11 * 29 + 22 * 6);
    assert(0 <= m <= 1);
    let v = h + l - 7 * m + 114;
    assert(107 <= v <= 149);
    let (mo, da) = easter_month_day(year);
    assert(mo == v / 31 && da == v % 31 + 1);
    if v < 124 {
        assert(mo == 3 && da == v - 92);
    } else {
        assert(mo == 4 && da == v - 123);
    }
}

/// A valid date whose number lies within a year's first and last day is in
/// that year.
proof fn lemma_year_of_number(d: CalendarDate, year: int)
    requires
        d.spec_valid(),
        MIN_YEAR <= year <= MAX_YEAR,
        day_number(year, 1, 1) <= d.spec_day_number() <= day_number(year, 12, 31),
    ensures
        d.year == year,
{
    let first = CalendarDate { year: year as i32, month: 1, day: 1 };
    let last = CalendarDate { year: year as i32, month: 12, day: 31 };
    if (d.year as int) < year {
        assert(date_before(d, first));
        lemma_day_number_increases(d, first);
    } else if (d.year as int) > year {
        assert(date_before(last, d));
        lemma_day_number_increases(last, d);
    }
}

impl Holiday {
    /// The date a holiday falls on in `year` is in `year`: every holiday is
    /// at least two days after 1 January and before 31 December.
    proof fn lemma_stays_in_year(h: Self, year: i32, d: CalendarDate)
        requires
            d.spec_valid(),
            h.spec_day(year as int) == Some(d.spec_day_number()),
        ensures
            d.year == year,
    {
        lemma_march_step(year as int - 1);
        match h {
            Self::Neujahr => {
                lemma_day_number_injective(d, CalendarDate { year, month: 1, day: 1 });
            },
            Self::HeiligeDreiKoenige => {
                lemma_day_number_injective(d, CalendarDate { year, month: 1, day: 6 });
            },
            Self::Frauentag => {
                lemma_day_number_injective(d, CalendarDate { year, month: 3, day: 8 });
            },
            Self::TagDerArbeit => {
                lemma_day_number_injective(d, CalendarDate { year, month: 5, day: 1 });
            },
            Self::MariaeHimmelfahrt => {
                lemma_day_number_injective(d, CalendarDate { year, month: 8, day: 15 });
            },
            Self::Weltkindertag => {
                lemma_day_number_injective(d, CalendarDate { year, month: 9, day: 20 });
            },
            Self::TagDerDeutschenEinheit => {
                lemma_day_number_injective(d, CalendarDate { year, month: 10, day: 3 });
            },
            Self::Reformationstag => {
                lemma_day_number_injective(d, CalendarDate { year, month: 10, day: 31 });
            },
            Self::Allerheiligen => {
                lemma_day_number_injective(d, CalendarDate { year, month: 11, day: 1 });
            },
            Self::ErsterWeihnachtstag => {
                lemma_day_number_injective(d, CalendarDate { year, month: 12, day: 25 });
            },
            Self::ZweiterWeihnachtstag => {
                lemma_day_number_injective(d, CalendarDate { year, month: 12, day: 26 });
            },
            Self::Karfreitag | Self::Ostersonntag | Self::Ostermontag | Self::ChristiHimmelfahrt | Self::Pfingstsonntag | Self::Pfingstmontag | Self::Fronleichnam => {
                lemma_easter_bounds(year as int);
                lemma_within_year(d, year);
            },
            Self::BussUndBettag => {
                lemma_within_year(d, year);
            },
        }
    }
}

/// The Easter- and November-anchored holidays lie between 13 March and
/// 25 June of their year.
proof fn lemma_within_year(d: CalendarDate, year: i32)
    requires
        d.spec_valid(),
        day_number(year as int, 3, 13) <= d.spec_day_number() <= day_number(year as int, 11, 30),
        MIN_YEAR <= year <= MAX_YEAR,
    ensures
        d.year == year,
{
    lemma_march_step(year as int - 1);
    lemma_year_of_number(d, year as int);
}

impl Holiday {
    /// The position of the holiday in [`ALL`](Self::ALL).
    pub open spec fn spec_index(self) -> int {
        match self {
            Self::Neujahr => 0,
            Self::HeiligeDreiKoenige => 1,
            Self::Frauentag => 2,
            Self::Karfreitag => 3,
            Self::Ostersonntag => 4,
            Self::Ostermontag => 5,
            Self::TagDerArbeit => 6,
            Self::ChristiHimmelfahrt => 7,
            Self::Pfingstsonntag => 8,
            Self::Pfingstmontag => 9,
            Self::Fronleichnam => 10,
            Self::MariaeHimmelfahrt => 11,
            Self::Weltkindertag => 12,
            Self::TagDerDeutschenEinheit => 13,
            Self::Reformationstag => 14,
            Self::Allerheiligen => 15,
            Self::BussUndBettag => 16,
            Self::ErsterWeihnachtstag => 17,
            Self::ZweiterWeihnachtstag => 18,
        }
    }

    /// The day number the holiday falls on in `year`, when its defining date
    /// (1 January, Easter Sunday, 23 November, …) exists.
    pub open spec fn spec_day(self, year: int) -> Option<int> {
        match self {
            Self::Neujahr => fixed_day(year, 1, 1),
            Self::HeiligeDreiKoenige => fixed_day(year, 1, 6),
            Self::Frauentag => fixed_day(year, 3, 8),
            Self::Karfreitag => from_easter(year, -2),
            Self::Ostersonntag => from_easter(year, 0),
            Self::Ostermontag => from_easter(year, 1),
            Self::TagDerArbeit => fixed_day(year, 5, 1),
            Self::ChristiHimmelfahrt => from_easter(year, 39),
            Self::Pfingstsonntag => from_easter(year, 49),
            Self::Pfingstmontag => from_easter(year, 50),
            Self::Fronleichnam => from_easter(year, 60),
            Self::MariaeHimmelfahrt => fixed_day(year, 8, 15),
            Self::Weltkindertag => fixed_day(year, 9, 20),
            Self::TagDerDeutschenEinheit => fixed_day(year, 10, 3),
            Self::Reformationstag => fixed_day(year, 10, 31),
            Self::Allerheiligen => fixed_day(year, 11, 1),
            Self::BussUndBettag => buss_und_bettag_day(year),
            Self::ErsterWeihnachtstag => fixed_day(year, 12, 25),
            Self::ZweiterWeihnachtstag => fixed_day(year, 12, 26),
        }
    }

    /// The holiday falls on `date`.
    pub open spec fn spec_falls_on(self, date: CalendarDate) -> bool {
        date.spec_valid() && self.spec_day(date.year as int) == Some(date.spec_day_number())
    }

    /// The date this holiday falls on in `year`; `None` only for a year whose
    /// arithmetic leaves the supported years.
    pub fn date_in(self, year: i32) -> (r: Option<CalendarDate>)
        ensures
            match r {
                Some(d) => d.spec_valid() && d.year == year && self.spec_day(year as int) == Some(
                    d.spec_day_number(),
                ),
                None => !(self.spec_day(year as int) matches Some(n) && in_range(n)),
            },
    {
        let r = match self {
            Self::Neujahr => CalendarDate::new(year, 1, 1),
            Self::HeiligeDreiKoenige => CalendarDate::new(year, 1, 6),
            Self::Frauentag => CalendarDate::new(year, 3, 8),
            Self::Karfreitag => easter_offset(year, -2),
            Self::Ostersonntag => easter_sunday(year),
            Self::Ostermontag => easter_offset(year, 1),
            Self::TagDerArbeit => CalendarDate::new(year, 5, 1),
            Self::ChristiHimmelfahrt => easter_offset(year, 39),
            Self::Pfingstsonntag => easter_offset(year, 49),
            Self::Pfingstmontag => easter_offset(year, 50),
            Self::Fronleichnam => easter_offset(year, 60),
            Self::MariaeHimmelfahrt => CalendarDate::new(year, 8, 15),
            Self::Weltkindertag => CalendarDate::new(year, 9, 20),
            Self::TagDerDeutschenEinheit => CalendarDate::new(year, 10, 3),
            Self::Reformationstag => CalendarDate::new(year, 10, 31),
            Self::Allerheiligen => CalendarDate::new(year, 11, 1),
            Self::BussUndBettag => buss_und_bettag(year),
            Self::ErsterWeihnachtstag => CalendarDate::new(year, 12, 25),
            Self::ZweiterWeihnachtstag => CalendarDate::new(year, 12, 26),
        };
        proof {
            if let Some(d) = r {
                Self::lemma_stays_in_year(self, year, d);
            }
        }
        r
    }
}

impl Holiday {
    /// The holidays among the first `n` of [`ALL`](Self::ALL) that fall on
    /// `date`, in that order.
    pub open spec fn spec_on_prefix(date: CalendarDate, n: int) -> Seq<Self>
        decreases n,
    {
        if n <= 0 {
            Seq::empty()
        } else {
            let prev = Self::spec_on_prefix(date, n - 1);
            let h = Self::spec_all()[n - 1];
            if h.spec_falls_on(date) {
                prev.push(h)
            } else {
                prev
            }
        }
    }

    /// Every holiday of [`ALL`](Self::ALL) that falls on `date`, in order.
    pub open spec fn spec_on(date: CalendarDate) -> Seq<Self> {
        Self::spec_on_prefix(date, 19)
    }

    /// Every holiday falling on `date` anywhere in Germany, in
    /// [`ALL`](Self::ALL) order: more than one can coincide (1 May 2008 was
    /// both Tag der Arbeit and Christi Himmelfahrt).
    pub fn on(date: CalendarDate) -> (r: Vec<Self>)
        ensures
            r@ == Self::spec_on(date),
    {
        let mut r: Vec<Self> = Vec::new();
        let all = Self::ALL;
        let mut i: usize = 0;
        while i < 19
            invariant
                i <= 19,
                all@ == Self::spec_all(),
                r@ == Self::spec_on_prefix(date, i as int),
            decreases 19 - i,
        {
            let h = all[i];
            let hit = match h.date_in(date.year) {
                Some(d) => {
                    proof {
                        if h.spec_falls_on(date) {
                            lemma_day_number_injective(d, date);
                        }
                    }
                    d == date
                },
                None => {
                    proof {
                        if date.spec_valid() {
                            lemma_valid_in_range(date);
                        }
                    }
                    false
                },
            };
            if hit {
                r.push(h);
            }
            i = i + 1;
        }
        r
    }

    /// The first holiday of `s` that is statutory in `land`.
    pub open spec fn spec_first_in(s: Seq<Self>, land: Bundesland) -> Option<Self>
        decreases s.len(),
    {
        if s.len() == 0 {
            None
        } else if s[0].spec_laender().contains(land) {
            Some(s[0])
        } else {
            Self::spec_first_in(s.drop_first(), land)
        }
    }
}

/// The first holiday of `s` statutory in `land`.
fn first_applying(s: &Vec<Holiday>, land: Bundesland) -> (r: Option<Holiday>)
    ensures
        r == Holiday::spec_first_in(s@, land),
{
    let mut j: usize = 0;
    assert(s@.subrange(0, s@.len() as int) =~= s@);
    while j < s.len()
        invariant
            j <= s@.len(),
            Holiday::spec_first_in(s@, land) == Holiday::spec_first_in(s@.subrange(j as int, s@.len() as int), land),
        decreases s@.len() - j,
    {
        let h = s[j];
        proof {
            let rest = s@.subrange(j as int, s@.len() as int);
            assert(rest[0] == h);
            assert(rest.drop_first() =~= s@.subrange(j + 1, s@.len() as int));
        }
        if h.applies_in(land) {
            return Some(h);
        }
        j = j + 1;
    }
    proof {
        assert(s@.subrange(j as int, s@.len() as int).len() == 0);
    }
    None
}

impl Bundesland {
    /// The statutory holiday falling on `date` in this Land, if any; when two
    /// coincide, the earlier one in [`Holiday::ALL`].
    pub fn holiday(self, date: CalendarDate) -> (r: Option<Holiday>)
        ensures
            r == Holiday::spec_first_in(Holiday::spec_on(date), self),
    {
        let on = Holiday::on(date);
        first_applying(&on, self)
    }

    /// `true` when `date` is a statutory holiday in this Land.
    pub fn is_holiday(self, date: CalendarDate) -> (r: bool)
        ensures
            r == (Holiday::spec_first_in(Holiday::spec_on(date), self) is Some),
    {
        self.holiday(date).is_some()
    }
}

/// The BDEW Standardlastprofil day type of `date` in `land`: a Sunday or a
/// statutory holiday of the Land is Sonn-/Feiertag — a holiday outranks the
/// weekday — a Saturday otherwise Samstag, any other day Werktag.
pub fn slp_day_type(date: CalendarDate, land: Bundesland) -> (r: SlpDayType)
    requires
        date.spec_valid(),
    ensures
        r == (if date.spec_weekday() == 6 || Holiday::spec_first_in(Holiday::spec_on(date), land) is Some {
            SlpDayType::SonnFeiertag
        } else if date.spec_weekday() == 5 {
            SlpDayType::Samstag
        } else {
            SlpDayType::Werktag
        }),
{
    let weekday = date.weekday();
    if weekday == Weekday::Sunday || land.is_holiday(date) {
        SlpDayType::SonnFeiertag
    } else if weekday == Weekday::Saturday {
        SlpDayType::Samstag
    } else {
        SlpDayType::Werktag
    }
}

/// Buß- und Bettag is a Wednesday between 16 and 22 November — never the
/// 23rd, even when the 23rd is a Wednesday.
#[verifier::spinoff_prover]
pub proof fn lemma_buss_und_bettag_is_a_wednesday(d: CalendarDate)
    requires
        d.spec_valid(),
        Holiday::BussUndBettag.spec_day(d.year as int) == Some(d.spec_day_number()),
    ensures
        d.month == 11,
        16 <= d.day <= 22,
        d.spec_weekday() == 2,
{
    let y = d.year as int;
    let n23 = day_number(y, 11, 23);
    let w = weekday_of_day_number(n23);
    let back = days_back_to_wednesday(w);
    assert(buss_und_bettag_day(y) == Some(n23 - back));
    lemma_wednesday_before(n23);
    let k = 23 - back;
    lemma_day_number_shift(y, 11, 23, back);
    let c = CalendarDate { year: d.year, month: 11, day: k as u8 };
    assert(c.spec_day_number() == day_number(y, 11, k));
    assert(c.spec_valid());
    lemma_day_number_injective(d, c);
}

/// Stepping back from a day to the Wednesday before it takes one to seven
/// days and lands on a Wednesday.
proof fn lemma_wednesday_before(n: int)
    ensures
        1 <= days_back_to_wednesday(weekday_of_day_number(n)) <= 7,
        weekday_of_day_number(n - days_back_to_wednesday(weekday_of_day_number(n))) == 2,
{
    let w = weekday_of_day_number(n);
    let back = days_back_to_wednesday(w);
    assert((n + 3) % 7 == w);
    assert(0 <= w < 7);
    if w == 0 {
        assert(back == 5);
    } else if w == 1 {
        assert(back == 6);
    } else if w == 2 {
        assert(back == 7);
    } else if w == 3 {
        assert(back == 1);
    } else if w == 4 {
        assert(back == 2);
    } else if w == 5 {
        assert(back == 3);
    } else {
        assert(back == 4);
    }
}

/// Within a month, the day number moves with the day.
proof fn lemma_day_number_shift(y: int, m: int, d: int, k: int)
    ensures
        day_number(y, m, d - k) == day_number(y, m, d) - k,
{
}

impl Holiday {
    /// The holiday at position `i` of [`ALL`](Self::ALL) has index `i`.
    pub proof fn lemma_all_index(i: int)
        requires
            0 <= i < 19,
        ensures
            Self::spec_all()[i].spec_index() == i,
    {
        if i == 0 {
            assert(Self::spec_all()[0] == Self::Neujahr);
        } else if i == 1 {
            assert(Self::spec_all()[1] == Self::HeiligeDreiKoenige);
        } else if i == 2 {
            assert(Self::spec_all()[2] == Self::Frauentag);
        } else if i == 3 {
            assert(Self::spec_all()[3] == Self::Karfreitag);
        } else if i == 4 {
            assert(Self::spec_all()[4] == Self::Ostersonntag);
        } else if i == 5 {
            assert(Self::spec_all()[5] == Self::Ostermontag);
        } else if i == 6 {
            assert(Self::spec_all()[6] == Self::TagDerArbeit);
        } else if i == 7 {
            assert(Self::spec_all()[7] == Self::ChristiHimmelfahrt);
        } else if i == 8 {
            assert(Self::spec_all()[8] == Self::Pfingstsonntag);
        } else if i == 9 {
            assert(Self::spec_all()[9] == Self::Pfingstmontag);
        } else if i == 10 {
            assert(Self::spec_all()[10] == Self::Fronleichnam);
        } else if i == 11 {
            assert(Self::spec_all()[11] == Self::MariaeHimmelfahrt);
        } else if i == 12 {
            assert(Self::spec_all()[12] == Self::Weltkindertag);
        } else if i == 13 {
            assert(Self::spec_all()[13] == Self::TagDerDeutschenEinheit);
        } else if i == 14 {
            assert(Self::spec_all()[14] == Self::Reformationstag);
        } else if i == 15 {
            assert(Self::spec_all()[15] == Self::Allerheiligen);
        } else if i == 16 {
            assert(Self::spec_all()[16] == Self::BussUndBettag);
        } else if i == 17 {
            assert(Self::spec_all()[17] == Self::ErsterWeihnachtstag);
        } else if i == 18 {
            assert(Self::spec_all()[18] == Self::ZweiterWeihnachtstag);
        }
    }

    /// Different holidays have different indices.
    pub proof fn lemma_index_injective(a: Self, b: Self)
        requires
            a.spec_index() == b.spec_index(),
        ensures
            a == b,
    {
    }
}

/// An entry `(date, holiday)` of a holiday list comes before another: by
/// date, and on one date by the holiday's position in [`Holiday::ALL`].
pub open spec fn entry_before(a: (CalendarDate, Holiday), b: (CalendarDate, Holiday)) -> bool {
    date_before(a.0, b.0) || (a.0 == b.0 && a.1.spec_index() < b.1.spec_index())
}

/// Every entry comes before the ones after it.
pub open spec fn entries_sorted(s: Seq<(CalendarDate, Holiday)>) -> bool {
    forall|i: int, j: int| 0 <= i < j < s.len() ==> entry_before(#[trigger] s[i], #[trigger] s[j])
}

/// Inserts `e` into a sorted list whose holidays all come earlier in
/// [`Holiday::ALL`], keeping it sorted.
fn insert_entry(r: &mut Vec<(CalendarDate, Holiday)>, e: (CalendarDate, Holiday))
    requires
        entries_sorted(old(r)@),
        forall|k: int| 0 <= k < old(r)@.len() ==> (#[trigger] old(r)@[k]).1.spec_index() < e.1.spec_index(),
    ensures
        entries_sorted(final(r)@),
        forall|x: (CalendarDate, Holiday)| final(r)@.contains(x) <==> (old(r)@.contains(x) || x == e),
{
    let d = e.0;
    let mut p: usize = 0;
    while p < r.len()
        invariant
            p <= r@.len(),
            r@ == old(r)@,
            forall|q: int| 0 <= q < p ==> !date_before(d, #[trigger] r@[q].0),
        ensures
            p <= r@.len(),
            r@ == old(r)@,
            forall|q: int| 0 <= q < p ==> !date_before(d, #[trigger] r@[q].0),
            p < r@.len() ==> date_before(d, r@[p as int].0),
        decreases r@.len() - p,
    {
        if d.is_before(r[p].0) {
            break;
        }
        p = p + 1;
    }
    let ghost old_r = r@;
    r.insert(p, e);
    proof {
        assert(r@ == old_r.insert(p as int, e));
        assert forall|a: int, b: int| 0 <= a < b < r@.len() implies entry_before(#[trigger] r@[a], #[trigger] r@[b]) by {
            if b < p {
                assert(r@[a] == old_r[a] && r@[b] == old_r[b]);
            } else if b == p {
                assert(r@[a] == old_r[a]);
            } else if a == p {
                assert(r@[b] == old_r[b - 1]);
                if b - 1 > p {
                    assert(entry_before(old_r[p as int], old_r[b - 1]));
                }
            } else if a < p {
                assert(r@[a] == old_r[a] && r@[b] == old_r[b - 1]);
            } else {
                assert(r@[a] == old_r[a - 1] && r@[b] == old_r[b - 1]);
            }
        }
        assert forall|x: (CalendarDate, Holiday)| r@.contains(x) <==> (old_r.contains(x) || x == e) by {
            if r@.contains(x) {
                let k = choose|k: int| 0 <= k < r@.len() && r@[k] == x;
                if k < p {
                    assert(old_r[k] == x);
                } else if k > p {
                    assert(old_r[k - 1] == x);
                }
            }
            if old_r.contains(x) {
                let k = choose|k: int| 0 <= k < old_r.len() && old_r[k] == x;
                if k < p {
                    assert(r@[k] == x);
                } else {
                    assert(r@[k + 1] == x);
                }
            }
            if x == e {
                assert(r@[p as int] == x);
            }
        }
        assert(old_r == old(r)@);
        assert(forall|x: (CalendarDate, Holiday)| r@.contains(x) <==> (old(r)@.contains(x) || x == e));
    }
}

impl Bundesland {
    /// `(date, holiday)` belongs to this Land's holiday list for `year`.
    pub open spec fn spec_is_entry(self, year: int, e: (CalendarDate, Holiday)) -> bool {
        &&& e.1.spec_laender().contains(self)
        &&& e.0.spec_valid()
        &&& e.0.year == year
        &&& e.1.spec_day(year) == Some(e.0.spec_day_number())
    }

    /// The holiday is statutory here and falls within the supported years in
    /// `year`.
    pub open spec fn spec_has_holiday_in(self, year: int, h: Holiday) -> bool {
        h.spec_laender().contains(self) && (h.spec_day(year) matches Some(n) && in_range(n))
    }

    /// Every statutory holiday in this Land in `year`, in date order (and in
    /// [`Holiday::ALL`] order on one date).
    pub fn holidays_in_year(self, year: i32) -> (r: Vec<(CalendarDate, Holiday)>)
        ensures
            forall|x: (CalendarDate, Holiday)| #[trigger] r@.contains(x) ==> self.spec_is_entry(year as int, x),
            forall|h: Holiday|
                #[trigger] self.spec_has_holiday_in(year as int, h) ==> exists|x: (CalendarDate, Holiday)|
                    #[trigger] r@.contains(x) && x.1 == h,
            entries_sorted(r@),
    {
        let mut r: Vec<(CalendarDate, Holiday)> = Vec::new();
        let all = Holiday::ALL;
        let mut i: usize = 0;
        while i < 19
            invariant
                i <= 19,
                all@ == Holiday::spec_all(),
                forall|x: (CalendarDate, Holiday)|
                    #[trigger] r@.contains(x) ==> self.spec_is_entry(year as int, x) && x.1.spec_index() < i,
                forall|h: Holiday|
                    #[trigger] self.spec_has_holiday_in(year as int, h) && h.spec_index() < i ==> exists|x: (CalendarDate, Holiday)|
                        #[trigger] r@.contains(x) && x.1 == h,
                entries_sorted(r@),
            decreases 19 - i,
        {
            let h = all[i];
            proof {
                Holiday::lemma_all_index(i as int);
            }
            let ghost before = r@;
            if h.applies_in(self) {
                match h.date_in(year) {
                    Some(d) => {
                        proof {
                            assert forall|k: int| 0 <= k < r@.len() implies (#[trigger] r@[k]).1.spec_index() < h.spec_index() by {
                                assert(r@.contains(r@[k]));
                            }
                        }
                        insert_entry(&mut r, (d, h));
                        proof {
                            assert(r@.contains((d, h)));
                        }
                    },
                    None => {},
                }
            }
            proof {
                assert forall|x: Holiday|
                    #[trigger] self.spec_has_holiday_in(year as int, x) && x.spec_index() < i + 1 implies exists|y: (CalendarDate, Holiday)|
                        #[trigger] r@.contains(y) && y.1 == x by {
                    if x.spec_index() == i {
                        Holiday::lemma_index_injective(x, h);
                    } else {
                        let y = choose|y: (CalendarDate, Holiday)| #[trigger] before.contains(y) && y.1 == x;
                        assert(r@.contains(y));
                    }
                }
            }
            i = i + 1;
        }
        r
    }
}

} // verus!
