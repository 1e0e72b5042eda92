//! Typed market identifiers — [`MaloId`], [`MeloId`], [`BdewCode`] and [`Eic`].
//!
//! An identifier held as a `String` is validated nowhere, so a transposed
//! digit becomes a different, plausible-looking key. Each type here is built
//! only by its parser, which enforces the Bildungsvorschrift — for the
//! MaLo-ID and the EIC including the check digit — and keeps the one
//! canonical spelling, so what a value writes parses back to that value.
//!
//! ## The Lok- und Waggon check digit
//!
//! BDEW *Identifikatoren in der Marktkommunikation* §6.1: the digits in odd
//! positions are summed, the digits in even positions are summed and the sum
//! is **doubled** (this is not Luhn), and the check digit is the distance of
//! the total to the next multiple of ten, `0` when that distance is ten.
//!
//! ```text
//! 4 1 3 7 3 5 5 9 2 4 →  17 + (1+7+5+9+4) × 2 = 69  →  70 − 69 = 1
//! ```
//!
//! Doubling the *sum* means a ±5 change in an even position shifts the total
//! by exactly ten and goes unnoticed; every other single-digit change is
//! caught.

use vstd::prelude::*;
use vstd::utf8::is_ascii_chars;

use crate::error::{Expected, ParseError};
use crate::text::{
    all_digits, chars_of, digit_value, digits_in, is_digit, is_lower, is_upper, lemma_code_is_canonical,
    lower_ascii, str_eq, to_ascii_uppercase, to_uppercase,
    trim, trim_end_ws, trim_start_ws, trimmed, upper_ascii, upper_char, uppercased,
};

verus! {
/// Which Codevergabestelle issued a [`MaloId`], read off its first digit.
#[derive(Debug, Clone, Copy, PartialEq, Eq, Hash, Structural)]
pub enum MaloIssuer {
    /// First digit `1`–`3` — DVGW Service & Consult GmbH.
    Dvgw,
    /// First digit `4`–`9` — Energie Codes und Services GmbH (BDEW).
    Bdew,
}

impl MaloIssuer {
    /// Every variant, in declaration order.
    pub const ALL: [Self; 2] = [Self::Dvgw, Self::Bdew];

    /// Every code [`as_str`](Self::as_str) writes, in the order of `ALL`.
    pub fn codes() -> (r: &'static [&'static str])
        ensures
            Self::spec_is_codes(r@),
    {
        &["DVGW", "BDEW"]
    }

    /// `c` lists the codes of `ALL`, in order.
    pub open spec fn spec_is_codes(c: Seq<&'static str>) -> bool {
        &&& c.len() == 2
        &&& c[0]@ == Self::Dvgw.spec_as_str()
        &&& c[1]@ == Self::Bdew.spec_as_str()
    }

    pub open spec fn spec_as_str(self) -> Seq<char> {
        match self {
            Self::Dvgw => "DVGW"@,
            Self::Bdew => "BDEW"@,
        }
    }

    /// Stable DB/wire label; the `FromStr` input.
    pub fn as_str(self) -> (r: &'static str)
        ensures
            r@ == self.spec_as_str(),
    {
        match self {
            Self::Dvgw => "DVGW",
            Self::Bdew => "BDEW",
        }
    }

    /// The code as an owned string (what `Display` writes).
    pub fn to_string(&self) -> (r: String)
        ensures
            r@ == self.spec_as_str(),
    {
        self.as_str().to_owned()
    }

    /// The variant whose code is exactly `s`.
    pub open spec fn spec_from_code(s: Seq<char>) -> Option<Self> {
        if s == "DVGW"@ {
            Some(Self::Dvgw)
        } else if s == "BDEW"@ {
            Some(Self::Bdew)
        } else {
            None
        }
    }

    /// The variant whose code is exactly `s`, case and whitespace included.
    pub fn from_code(s: &str) -> (r: Option<Self>)
        ensures
            r == Self::spec_from_code(s@),
    {
        if str_eq(s, "DVGW") {
            Some(Self::Dvgw)
        } else if str_eq(s, "BDEW") {
            Some(Self::Bdew)
        } else {
            None
        }
    }

    /// What parsing `s` yields: surrounding whitespace is ignored and the
    /// comparison is case-insensitive.
    pub open spec fn spec_parse(s: Seq<char>) -> Option<Self> {
        let t = trimmed(s);
        let u = uppercased(t);
        Self::spec_from_code(u)
    }

    /// Parses a code, ignoring surrounding whitespace and case.
    pub fn parse_code(s: &str) -> (r: Result<Self, ParseError>)
        ensures
            match r {
                Ok(v) => Self::spec_parse(s@) == Some(v),
                Err(e) => {
                    &&& Self::spec_parse(s@).is_none()
                    &&& e.spec_type_label() == "MaloIssuer"@
                    &&& e.spec_input() == s@
                    &&& e.spec_expected() matches Expected::OneOf(c) && Self::spec_is_codes(c@)
                },
            },
    {
        let t = trim(s);
        let u = to_uppercase(t);
        match Self::from_code(u.as_str()) {
            Some(v) => Ok(v),
            None => Err(ParseError::one_of("MaloIssuer", s, Self::codes())),
        }
    }

    /// Parsing the code of a variant gives the variant back.
    pub proof fn lemma_parse_as_str(v: Self)
        ensures
            Self::spec_parse(v.spec_as_str()) == Some(v),
    {
        match v {
            Self::Dvgw => {
                reveal_strlit("DVGW");
                lemma_code_is_canonical("DVGW"@);
            },
            Self::Bdew => {
                reveal_strlit("BDEW");
                reveal_strlit("DVGW");
                lemma_code_is_canonical("BDEW"@);
                assert("BDEW"@[0] != "DVGW"@[0]);
            },
        }
    }
}

impl std::str::FromStr for MaloIssuer {
    type Err = ParseError;

    fn from_str(s: &str) -> (r: Result<MaloIssuer, ParseError>)
        ensures
            match r {
                Ok(v) => Self::spec_parse(s@) == Some(v),
                Err(e) => {
                    &&& Self::spec_parse(s@).is_none()
                    &&& e.spec_type_label() == "MaloIssuer"@
                    &&& e.spec_input() == s@
                    &&& e.spec_expected() matches Expected::OneOf(c) && Self::spec_is_codes(c@)
                },
            },
    {
        MaloIssuer::parse_code(s)
    }
}

// ── the Lok- und Waggon-Kennzeichnungsverfahren ─────────────────────────────

/// The weight of the digit at 0-based index `i`: positions 1, 3, 5, … (even
/// indices) count once, positions 2, 4, 6, … count twice.
pub open spec fn lok_waggon_weight(i: int) -> int {
    if i % 2 == 0 {
        1
    } else {
        2
    }
}

/// The odd-position sum plus twice the even-position sum.
pub open spec fn lok_waggon_total(s: Seq<char>) -> int
    decreases s.len(),
{
    if s.len() == 0 {
        0
    } else {
        lok_waggon_total(s.drop_last()) + lok_waggon_weight(s.len() - 1) * digit_value(s.last())
    }
}

/// The check digit: the distance of the total to the next multiple of ten,
/// and `0` when that distance is ten.
pub open spec fn lok_waggon_digit(s: Seq<char>) -> int {
    (10 - lok_waggon_total(s) % 10) % 10
}

/// The check digit of `v[..n]`, or `None` unless those are all digits and
/// there is at least one.
fn lok_waggon_check_digit(v: &Vec<char>, n: usize) -> (r: Option<u8>)
    requires
        n <= v@.len(),
        n <= 64,
    ensures
        r == (if n > 0 && all_digits(v@.take(n as int)) {
            Some(lok_waggon_digit(v@.take(n as int)) as u8)
        } else {
            None
        }),
{
    if n == 0 || !digits_in(v, 0, n) {
        return None;
    }
    assert(v@.subrange(0, n as int) == v@.take(n as int));
    let mut total: u32 = 0;
    let mut i: usize = 0;
    while i < n
        invariant
            i <= n <= v@.len(),
            n <= 64,
            all_digits(v@.take(n as int)),
            total == lok_waggon_total(v@.take(i as int)),
            total <= 18 * i,
        decreases n - i,
    {
        let c = v[i];
        proof {
            assert(v@.take(n as int)[i as int] == c);
            assert(is_digit(c));
            let t = v@.take(i + 1);
            assert(t.drop_last() =~= v@.take(i as int));
            assert(t.last() == c);
        }
        let d = (c as u32) - ('0' as u32);
        if i % 2 == 0 {
            total = total + d;
        } else {
            total = total + 2 * d;
        }
        i = i + 1;
    }
    let check = (10 - total % 10) % 10;
    Some(check as u8)
}

proof fn lemma_total_update(s: Seq<char>, p: int, c: char)
    requires
        0 <= p < s.len(),
    ensures
        lok_waggon_total(s.update(p, c)) == lok_waggon_total(s) + lok_waggon_weight(p) * (digit_value(c)
            - digit_value(s[p])),
    decreases s.len(),
{
    if p == s.len() - 1 {
        assert(s.update(p, c).drop_last() =~= s.drop_last());
    } else {
        lemma_total_update(s.drop_last(), p, c);
        assert(s.update(p, c).drop_last() =~= s.drop_last().update(p, c));
        assert(s.update(p, c).last() == s.last());
    }
}

/// The MaLo check digit catches every single-digit error but one: a change
/// of ±5 in an even position (1-based; an odd index here), which moves the
/// weighted total by exactly ten. Changing the digit at index `p` of a valid
/// MaLo-ID to another digit `c` gives a valid one exactly in that case.
pub proof fn lemma_malo_single_digit_errors(t: Seq<char>, p: int, c: char)
    requires
        is_malo_id(t),
        0 <= p < 11,
        is_digit(c),
        c != t[p],
    ensures
        is_malo_id(t.update(p, c)) <==> (p % 2 == 1 && p < 10 && (digit_value(c) - digit_value(t[p]) == 5
            || digit_value(t[p]) - digit_value(c) == 5)),
{
    let u = t.update(p, c);
    assert(all_digits(u)) by {
        assert forall|i: int| 0 <= i < u.len() implies is_digit(#[trigger] u[i]) by {
            if i != p {
                assert(u[i] == t[i]);
            }
        }
    }
    if p < 10 {
        assert(u.take(10) =~= t.take(10).update(p, c));
        lemma_total_update(t.take(10), p, c);
        assert(u[10] == t[10]);
        let x = lok_waggon_total(t.take(10));
        let dd = digit_value(c) - digit_value(t[p]);
        assert(-9 <= dd <= 9 && dd != 0);
        if p % 2 == 1 {
            assert(lok_waggon_total(u.take(10)) == x + 2 * dd);
        } else {
            assert(lok_waggon_total(u.take(10)) == x + dd);
        }
        if p == 0 {
            assert(u[0] == c);
        } else {
            assert(u[0] == t[0]);
        }
    } else {
        assert(u.take(10) =~= t.take(10));
    }
}

// ── MaloId ──────────────────────────────────────────────────────────────────

/// The shape [`MaloId`] accepts, as rendered in a [`ParseError`].
pub const MALO_FORMAT: &'static str = "an 11-digit MaLo-ID with a valid check digit, first digit 1-9, e.g. 41373559241";

/// The Bildungsvorschrift of a MaLo-ID: eleven digits, the first not `0`,
/// the last the check digit of the ten before it.
pub open spec fn is_malo_id(t: Seq<char>) -> bool {
    &&& t.len() == 11
    &&& all_digits(t)
    &&& t[0] != '0'
    &&& digit_value(t[10]) == lok_waggon_digit(t.take(10))
}

/// A validated 11-digit Marktlokations-Identifikationsnummer.
///
/// Built only by [`parse`](Self::parse), which enforces the Bildungsvorschrift
/// including the check digit; the value holds the eleven digits and nothing
/// else.
#[derive(Debug, PartialEq, Eq, PartialOrd, Ord, Hash)]
pub struct MaloId {
    digits: String,
}

impl Clone for MaloId {
    fn clone(&self) -> (r: Self)
        ensures
            r@ == self@,
    {
        proof {
            use_type_invariant(self);
        }
        MaloId { digits: self.digits.clone() }
    }
}

impl View for MaloId {
    type V = Seq<char>;

    closed spec fn view(&self) -> Seq<char> {
        self.digits@
    }
}

impl MaloId {
    /// The identifier's length: always eleven digits.
    pub const LEN: usize = 11;

    #[verifier::type_invariant]
    spec fn well_formed(self) -> bool {
        is_malo_id(self.digits@)
    }

    /// The check digit for ten leading digits, so an issuing or test system
    /// can complete an ID. `None` unless `digits` is exactly ten ASCII digits.
    pub fn compute_check_digit(digits: &str) -> (r: Option<u8>)
        ensures
            r == (if digits@.len() == 10 && all_digits(digits@) {
                Some(lok_waggon_digit(digits@) as u8)
            } else {
                None
            }),
    {
        let v = chars_of(digits);
        if v.len() != 10 {
            return None;
        }
        assert(v@.take(10) =~= v@);
        lok_waggon_check_digit(&v, 10)
    }

    /// Parses eleven digits, ignoring surrounding whitespace. A wrong length,
    /// a non-digit, a leading `0` and a check-digit mismatch are refused.
    pub fn parse(s: &str) -> (r: Result<Self, ParseError>)
        ensures
            match r {
                Ok(id) => is_malo_id(trimmed(s@)) && id@ == trimmed(s@),
                Err(e) => {
                    &&& !is_malo_id(trimmed(s@))
                    &&& e.spec_type_label() == "MaloId"@
                    &&& e.spec_input() == s@
                    &&& e.spec_expected() == Expected::Format(MALO_FORMAT)
                },
            },
    {
        let t = trim(s);
        let v = chars_of(t);
        if v.len() != 11 || !digits_in(&v, 0, 11) || v[0] == '0' {
            proof {
                if v@.len() == 11 {
                    assert(v@.subrange(0, 11) =~= v@);
                }
            }
            return Err(ParseError::format("MaloId", s, MALO_FORMAT));
        }
        assert(v@.subrange(0, 11) =~= v@);
        assert(all_digits(v@.take(10)));
        let expected = match lok_waggon_check_digit(&v, 10) {
            Some(d) => d,
            None => return Err(ParseError::format("MaloId", s, MALO_FORMAT)),
        };
        assert(is_digit(v@[10]));
        let last = (v[10] as u32) - ('0' as u32);
        if last != expected as u32 {
            return Err(ParseError::format("MaloId", s, MALO_FORMAT));
        }
        Ok(MaloId { digits: t.to_owned() })
    }

    /// The check digit this ID carries (its eleventh digit).
    pub fn check_digit(&self) -> (r: u8)
        ensures
            r == digit_value(self@[10]),
            r == lok_waggon_digit(self@.take(10)),
    {
        proof {
            use_type_invariant(self);
        }
        let c = self.digits.as_str().get_char(10);
        assert(is_digit(c));
        ((c as u32) - ('0' as u32)) as u8
    }

    /// Which Codevergabestelle issued this ID: first digit `1`–`3` DVGW,
    /// anything else BDEW.
    pub fn issuer(&self) -> (r: MaloIssuer)
        ensures
            r == (if '1' <= self@[0] <= '3' {
                MaloIssuer::Dvgw
            } else {
                MaloIssuer::Bdew
            }),
    {
        proof {
            use_type_invariant(self);
        }
        let c = self.digits.as_str().get_char(0);
        if c >= '1' && c <= '3' {
            MaloIssuer::Dvgw
        } else {
            MaloIssuer::Bdew
        }
    }

    /// The eleven digits.
    pub fn as_str(&self) -> (r: &str)
        ensures
            r@ == self@,
            is_malo_id(self@),
    {
        proof {
            use_type_invariant(self);
        }
        self.digits.as_str()
    }

    /// The eleven digits as an owned string (what `Display` writes).
    pub fn to_string(&self) -> (r: String)
        ensures
            r@ == self@,
    {
        self.digits.clone()
    }

    /// The written form of a MaLo-ID is already trimmed, so parsing what
    /// [`to_string`](Self::to_string) wrote accepts it and gives the same
    /// digits back.
    pub proof fn lemma_text_round_trip(t: Seq<char>)
        requires
            is_malo_id(t),
        ensures
            trimmed(t) == t,
            is_malo_id(trimmed(t)),
    {
        assert forall|i: int| 0 <= i < t.len() implies crate::text::is_code_char(#[trigger] t[i]) by {
            assert(is_digit(t[i]));
        }
        lemma_code_is_canonical(t);
    }
}

impl std::str::FromStr for MaloId {
    type Err = ParseError;

    fn from_str(s: &str) -> (r: Result<MaloId, ParseError>)
        ensures
            match r {
                Ok(id) => is_malo_id(trimmed(s@)) && id@ == trimmed(s@),
                Err(e) => {
                    &&& !is_malo_id(trimmed(s@))
                    &&& e.spec_type_label() == "MaloId"@
                    &&& e.spec_input() == s@
                    &&& e.spec_expected() == Expected::Format(MALO_FORMAT)
                },
            },
    {
        MaloId::parse(s)
    }
}

// ── BdewCode ────────────────────────────────────────────────────────────────

/// Which Codevergabestelle issued a [`BdewCode`], read off its first two
/// digits: `99` BDEW/Strom, `98` DVGW/Gas.
#[derive(Debug, Clone, Copy, PartialEq, Eq, Hash, Structural)]
pub enum CodeVergabestelle {
    /// `99` — BDEW / Energie Codes und Services GmbH, Sparte Strom.
    BdewStrom,
    /// `98` — DVGW Service & Consult GmbH, Sparte Gas.
    DvgwGas,
    /// Anything else, in practice a GS1 **GLN** used as a Marktpartner-ID:
    /// well-formed, simply not issued by BDEW or DVGW.
    Gs1OrOther,
}

impl CodeVergabestelle {
    /// Every variant, in declaration order.
    pub const ALL: [Self; 3] = [Self::BdewStrom, Self::DvgwGas, Self::Gs1OrOther];

    /// Every code [`as_str`](Self::as_str) writes, in the order of `ALL`.
    pub fn codes() -> (r: &'static [&'static str])
        ensures
            Self::spec_is_codes(r@),
    {
        &["BDEW_STROM", "DVGW_GAS", "GS1_OR_OTHER"]
    }

    /// `c` lists the codes of `ALL`, in order.
    pub open spec fn spec_is_codes(c: Seq<&'static str>) -> bool {
        &&& c.len() == 3
        &&& c[0]@ == Self::BdewStrom.spec_as_str()
        &&& c[1]@ == Self::DvgwGas.spec_as_str()
        &&& c[2]@ == Self::Gs1OrOther.spec_as_str()
    }

    pub open spec fn spec_as_str(self) -> Seq<char> {
        match self {
            Self::BdewStrom => "BDEW_STROM"@,
            Self::DvgwGas => "DVGW_GAS"@,
            Self::Gs1OrOther => "GS1_OR_OTHER"@,
        }
    }

    /// Stable DB/wire label; the `FromStr` input.
    pub fn as_str(self) -> (r: &'static str)
        ensures
            r@ == self.spec_as_str(),
    {
        match self {
            Self::BdewStrom => "BDEW_STROM",
            Self::DvgwGas => "DVGW_GAS",
            Self::Gs1OrOther => "GS1_OR_OTHER",
        }
    }

    /// The code as an owned string (what `Display` writes).
    pub fn to_string(&self) -> (r: String)
        ensures
            r@ == self.spec_as_str(),
    {
        self.as_str().to_owned()
    }

    /// The variant whose code is exactly `s`.
    pub open spec fn spec_from_code(s: Seq<char>) -> Option<Self> {
        if s == "BDEW_STROM"@ {
            Some(Self::BdewStrom)
        } else if s == "DVGW_GAS"@ {
            Some(Self::DvgwGas)
        } else if s == "GS1_OR_OTHER"@ {
            Some(Self::Gs1OrOther)
        } else {
            None
        }
    }

    /// The variant whose code is exactly `s`, case and whitespace included.
    pub fn from_code(s: &str) -> (r: Option<Self>)
        ensures
            r == Self::spec_from_code(s@),
    {
        if str_eq(s, "BDEW_STROM") {
            Some(Self::BdewStrom)
        } else if str_eq(s, "DVGW_GAS") {
            Some(Self::DvgwGas)
        } else if str_eq(s, "GS1_OR_OTHER") {
            Some(Self::Gs1OrOther)
        } else {
            None
        }
    }

    /// What parsing `s` yields: surrounding whitespace is ignored and the
    /// comparison is case-insensitive.
    pub open spec fn spec_parse(s: Seq<char>) -> Option<Self> {
        let t = trimmed(s);
        let u = uppercased(t);
        Self::spec_from_code(u)
    }

    /// Parses a code, ignoring surrounding whitespace and case.
    pub fn parse_code(s: &str) -> (r: Result<Self, ParseError>)
        ensures
            match r {
                Ok(v) => Self::spec_parse(s@) == Some(v),
                Err(e) => {
                    &&& Self::spec_parse(s@).is_none()
                    &&& e.spec_type_label() == "CodeVergabestelle"@
                    &&& e.spec_input() == s@
                    &&& e.spec_expected() matches Expected::OneOf(c) && Self::spec_is_codes(c@)
                },
            },
    {
        let t = trim(s);
        let u = to_uppercase(t);
        match Self::from_code(u.as_str()) {
            Some(v) => Ok(v),
            None => Err(ParseError::one_of("CodeVergabestelle", s, Self::codes())),
        }
    }

    /// Parsing the code of a variant gives the variant back.
    pub proof fn lemma_parse_as_str(v: Self)
        ensures
            Self::spec_parse(v.spec_as_str()) == Some(v),
    {
        match v {
            Self::BdewStrom => {
                reveal_strlit("BDEW_STROM");
                lemma_code_is_canonical("BDEW_STROM"@);
            },
            Self::DvgwGas => {
                reveal_strlit("BDEW_STROM");
                reveal_strlit("DVGW_GAS");
                lemma_code_is_canonical("DVGW_GAS"@);
            },
            Self::Gs1OrOther => {
                reveal_strlit("BDEW_STROM");
                reveal_strlit("DVGW_GAS");
                reveal_strlit("GS1_OR_OTHER");
                lemma_code_is_canonical("GS1_OR_OTHER"@);
            },
        }
    }
}

impl std::str::FromStr for CodeVergabestelle {
    type Err = ParseError;

    fn from_str(s: &str) -> (r: Result<CodeVergabestelle, ParseError>)
        ensures
            match r {
                Ok(v) => Self::spec_parse(s@) == Some(v),
                Err(e) => {
                    &&& Self::spec_parse(s@).is_none()
                    &&& e.spec_type_label() == "CodeVergabestelle"@
                    &&& e.spec_input() == s@
                    &&& e.spec_expected() matches Expected::OneOf(c) && Self::spec_is_codes(c@)
                },
            },
    {
        CodeVergabestelle::parse_code(s)
    }
}

/// The shape [`BdewCode`] accepts, as rendered in a [`ParseError`].
pub const BDEW_CODE_FORMAT: &'static str = "a 13-digit BDEW/DVGW Marktpartner-ID, e.g. 9900987654321 (99 = BDEW/Strom, 98 = DVGW/Gas)";

/// Thirteen decimal digits.
pub open spec fn is_bdew_code(t: Seq<char>) -> bool {
    t.len() == 13 && all_digits(t)
}

/// A 13-digit Marktpartner-Identifikationsnummer (BDEW- or DVGW-Codenummer).
///
/// The check digit is **reported, not enforced**: a GS1-issued GLN is a
/// legitimate Marktpartner-ID with another check procedure, so
/// [`has_bdew_check_digit`](Self::has_bdew_check_digit) says whether the BDEW
/// procedure holds and the parse accepts the code either way.
#[derive(Debug, PartialEq, Eq, PartialOrd, Ord, Hash)]
pub struct BdewCode {
    digits: String,
}

impl Clone for BdewCode {
    fn clone(&self) -> (r: Self)
        ensures
            r@ == self@,
    {
        proof {
            use_type_invariant(self);
        }
        BdewCode { digits: self.digits.clone() }
    }
}

impl View for BdewCode {
    type V = Seq<char>;

    closed spec fn view(&self) -> Seq<char> {
        self.digits@
    }
}

impl BdewCode {
    /// The identifier's length: always thirteen digits.
    pub const LEN: usize = 13;

    #[verifier::type_invariant]
    spec fn well_formed(self) -> bool {
        is_bdew_code(self.digits@)
    }

    /// The check digit for twelve leading digits by the Lok- und
    /// Waggon-Kennzeichnungsverfahren. `None` unless `digits` is exactly
    /// twelve ASCII digits.
    pub fn compute_check_digit(digits: &str) -> (r: Option<u8>)
        ensures
            r == (if digits@.len() == 12 && all_digits(digits@) {
                Some(lok_waggon_digit(digits@) as u8)
            } else {
                None
            }),
    {
        let v = chars_of(digits);
        if v.len() != 12 {
            return None;
        }
        assert(v@.take(12) =~= v@);
        lok_waggon_check_digit(&v, 12)
    }

    /// Parses thirteen digits, ignoring surrounding whitespace. The check
    /// digit is not enforced.
    pub fn parse(s: &str) -> (r: Result<Self, ParseError>)
        ensures
            match r {
                Ok(code) => is_bdew_code(trimmed(s@)) && code@ == trimmed(s@),
                Err(e) => {
                    &&& !is_bdew_code(trimmed(s@))
                    &&& e.spec_type_label() == "BdewCode"@
                    &&& e.spec_input() == s@
                    &&& e.spec_expected() == Expected::Format(BDEW_CODE_FORMAT)
                },
            },
    {
        let t = trim(s);
        let v = chars_of(t);
        if v.len() != 13 || !digits_in(&v, 0, 13) {
            proof {
                if v@.len() == 13 {
                    assert(v@.subrange(0, 13) =~= v@);
                }
            }
            return Err(ParseError::format("BdewCode", s, BDEW_CODE_FORMAT));
        }
        assert(v@.subrange(0, 13) =~= v@);
        Ok(BdewCode { digits: t.to_owned() })
    }

    /// The check digit this code carries (its thirteenth digit).
    pub fn check_digit(&self) -> (r: u8)
        ensures
            r == digit_value(self@[12]),
    {
        proof {
            use_type_invariant(self);
        }
        let c = self.digits.as_str().get_char(12);
        assert(is_digit(c));
        ((c as u32) - ('0' as u32)) as u8
    }

    /// `true` when the thirteenth digit is what the BDEW procedure computes
    /// for the twelve before it. Advisory: `false` may be a GS1 GLN.
    pub fn has_bdew_check_digit(&self) -> (r: bool)
        ensures
            r == (digit_value(self@[12]) == lok_waggon_digit(self@.take(12))),
    {
        proof {
            use_type_invariant(self);
        }
        let v = chars_of(self.digits.as_str());
        assert(all_digits(v@.take(12)));
        match lok_waggon_check_digit(&v, 12) {
            Some(expected) => expected == self.check_digit(),
            None => false,
        }
    }

    /// Which Codevergabestelle issued this code: `99` BDEW/Strom, `98`
    /// DVGW/Gas, anything else GS1 or other.
    pub fn vergabestelle(&self) -> (r: CodeVergabestelle)
        ensures
            r == (if self@[0] == '9' && self@[1] == '9' {
                CodeVergabestelle::BdewStrom
            } else if self@[0] == '9' && self@[1] == '8' {
                CodeVergabestelle::DvgwGas
            } else {
                CodeVergabestelle::Gs1OrOther
            }),
    {
        proof {
            use_type_invariant(self);
        }
        let a = self.digits.as_str().get_char(0);
        let b = self.digits.as_str().get_char(1);
        if a == '9' && b == '9' {
            CodeVergabestelle::BdewStrom
        } else if a == '9' && b == '8' {
            CodeVergabestelle::DvgwGas
        } else {
            CodeVergabestelle::Gs1OrOther
        }
    }

    /// The thirteen digits.
    pub fn as_str(&self) -> (r: &str)
        ensures
            r@ == self@,
            is_bdew_code(self@),
    {
        proof {
            use_type_invariant(self);
        }
        self.digits.as_str()
    }

    /// The thirteen digits as an owned string (what `Display` writes).
    pub fn to_string(&self) -> (r: String)
        ensures
            r@ == self@,
    {
        self.digits.clone()
    }
}

impl std::str::FromStr for BdewCode {
    type Err = ParseError;

    fn from_str(s: &str) -> (r: Result<BdewCode, ParseError>)
        ensures
            match r {
                Ok(code) => is_bdew_code(trimmed(s@)) && code@ == trimmed(s@),
                Err(e) => {
                    &&& !is_bdew_code(trimmed(s@))
                    &&& e.spec_type_label() == "BdewCode"@
                    &&& e.spec_input() == s@
                    &&& e.spec_expected() == Expected::Format(BDEW_CODE_FORMAT)
                },
            },
    {
        BdewCode::parse(s)
    }
}

// ── MeloId ──────────────────────────────────────────────────────────────────

/// The shape [`MeloId`] accepts, as rendered in a [`ParseError`].
pub const MELO_FORMAT: &'static str = "a 33-character Zählpunktbezeichnung: 2 uppercase letters, 6-digit Netzbetreiber number, then 25 alphanumeric characters (VDE-AR-N 4400)";

pub open spec fn is_ascii_alnum(c: char) -> bool {
    is_digit(c) || is_upper(c) || is_lower(c)
}

/// The canonical (uppercase) Zählpunktbezeichnung: 33 characters of `A`–`Z`
/// and `0`–`9`, letters in positions 1–2, digits in positions 3–8.
pub open spec fn is_melo_id(u: Seq<char>) -> bool {
    &&& u.len() == 33
    &&& forall|i: int| 0 <= i < u.len() ==> is_digit(#[trigger] u[i]) || is_upper(u[i])
    &&& is_upper(u[0])
    &&& is_upper(u[1])
    &&& all_digits(u.subrange(2, 8))
}

/// What the MeLo-ID parser accepts of a trimmed text: 33 ASCII
/// alphanumerics whose uppercase form is a Zählpunktbezeichnung.
pub open spec fn melo_accepts(t: Seq<char>) -> bool {
    &&& t.len() == 33
    &&& forall|i: int| 0 <= i < t.len() ==> is_ascii_alnum(#[trigger] t[i])
    &&& is_melo_id(upper_ascii(t))
}

/// Every character of `v` is an ASCII letter or digit.
fn all_alnum(v: &Vec<char>) -> (r: bool)
    ensures
        r == (forall|i: int| 0 <= i < v@.len() ==> is_ascii_alnum(#[trigger] v@[i])),
{
    let mut i: usize = 0;
    while i < v.len()
        invariant
            i <= v@.len(),
            forall|j: int| 0 <= j < i ==> is_ascii_alnum(#[trigger] v@[j]),
        decreases v@.len() - i,
    {
        let c = v[i];
        if !((c >= '0' && c <= '9') || (c >= 'A' && c <= 'Z') || (c >= 'a' && c <= 'z')) {
            assert(!is_ascii_alnum(v@[i as int]));
            return false;
        }
        i = i + 1;
    }
    true
}

/// A validated 33-character Messlokations-Identifikationsnummer
/// (Zählpunktbezeichnung), held uppercase.
///
/// There is no check digit, so the structure is what is enforced; lowercase
/// input is accepted and canonicalised, so two casings of one Messlokation
/// are one value.
#[derive(Debug, PartialEq, Eq, PartialOrd, Ord, Hash)]
pub struct MeloId {
    value: String,
}

impl Clone for MeloId {
    fn clone(&self) -> (r: Self)
        ensures
            r@ == self@,
    {
        proof {
            use_type_invariant(self);
        }
        MeloId { value: self.value.clone() }
    }
}

impl View for MeloId {
    type V = Seq<char>;

    closed spec fn view(&self) -> Seq<char> {
        self.value@
    }
}

impl MeloId {
    /// The identifier's length: always 33 characters.
    pub const LEN: usize = 33;

    #[verifier::type_invariant]
    spec fn well_formed(self) -> bool {
        is_melo_id(self.value@)
    }

    /// Parses a Zählpunktbezeichnung, ignoring surrounding whitespace and
    /// canonicalising to uppercase. The Postleitzahl group is not required to
    /// be numeric.
    pub fn parse(s: &str) -> (r: Result<Self, ParseError>)
        ensures
            match r {
                Ok(id) => melo_accepts(trimmed(s@)) && id@ == upper_ascii(trimmed(s@)),
                Err(e) => {
                    &&& !melo_accepts(trimmed(s@))
                    &&& e.spec_type_label() == "MeloId"@
                    &&& e.spec_input() == s@
                    &&& e.spec_expected() == Expected::Format(MELO_FORMAT)
                },
            },
    {
        let t = trim(s);
        let v = chars_of(t);
        if v.len() != 33 || !all_alnum(&v) {
            return Err(ParseError::format("MeloId", s, MELO_FORMAT));
        }
        let value = to_ascii_uppercase(t);
        let u = chars_of(value.as_str());
        assert forall|i: int| 0 <= i < u@.len() implies is_digit(#[trigger] u@[i]) || is_upper(u@[i]) by {
            assert(u@[i] == crate::text::upper_char(v@[i]));
            assert(is_ascii_alnum(v@[i]));
        }
        if !(u[0] >= 'A' && u[0] <= 'Z') || !(u[1] >= 'A' && u[1] <= 'Z') || !digits_in(&u, 2, 8) {
            return Err(ParseError::format("MeloId", s, MELO_FORMAT));
        }
        Ok(MeloId { value })
    }

    /// The identifier, uppercase.
    pub fn as_str(&self) -> (r: &str)
        ensures
            r@ == self@,
            is_melo_id(self@),
    {
        proof {
            use_type_invariant(self);
        }
        self.value.as_str()
    }

    /// The identifier as an owned string (what `Display` writes).
    pub fn to_string(&self) -> (r: String)
        ensures
            r@ == self@,
    {
        self.value.clone()
    }

    /// The two-letter country code (positions 1–2), `"DE"` in the German
    /// market.
    pub fn country(&self) -> (r: &str)
        ensures
            r@ == self@.subrange(0, 2),
    {
        proof {
            use_type_invariant(self);
        }
        self.value.as_str().substring_char(0, 2)
    }

    /// The six-digit Netzbetreiber number (positions 3–8).
    pub fn netzbetreiber_nr(&self) -> (r: &str)
        ensures
            r@ == self@.subrange(2, 8),
    {
        proof {
            use_type_invariant(self);
        }
        self.value.as_str().substring_char(2, 8)
    }

    /// A canonical Zählpunktbezeichnung is written trimmed and uppercase, and
    /// its lowercase spelling is accepted and canonicalises back to it: one
    /// Messlokation, one key, whatever the casing.
    pub proof fn lemma_casing_is_one_key(u: Seq<char>)
        requires
            is_melo_id(u),
        ensures
            trimmed(u) == u,
            melo_accepts(u),
            upper_ascii(u) == u,
            trimmed(lower_ascii(u)) == lower_ascii(u),
            melo_accepts(lower_ascii(u)),
            upper_ascii(lower_ascii(u)) == u,
    {
        assert forall|i: int| 0 <= i < u.len() implies crate::text::is_code_char(#[trigger] u[i]) by {
            assert(is_digit(u[i]) || is_upper(u[i]));
        }
        lemma_code_is_canonical(u);
        assert(upper_ascii(u) =~= u);
        let l = lower_ascii(u);
        assert forall|i: int| 0 <= i < l.len() implies is_ascii_alnum(#[trigger] l[i]) by {
            assert(is_digit(u[i]) || is_upper(u[i]));
        }
        assert forall|i: int| 0 <= i < l.len() implies upper_ascii(l)[i] == u[i] by {
            assert(is_digit(u[i]) || is_upper(u[i]));
        }
        assert(upper_ascii(l) =~= u);
        assert(is_ascii_chars(l));
        assert(is_digit(l[0]) || is_lower(l[0]));
        assert(trim_start_ws(l) == l);
        assert(is_digit(l.last()) || is_lower(l.last()));
        assert(trim_end_ws(l) == l);
    }
}

impl std::str::FromStr for MeloId {
    type Err = ParseError;

    fn from_str(s: &str) -> (r: Result<MeloId, ParseError>)
        ensures
            match r {
                Ok(id) => melo_accepts(trimmed(s@)) && id@ == upper_ascii(trimmed(s@)),
                Err(e) => {
                    &&& !melo_accepts(trimmed(s@))
                    &&& e.spec_type_label() == "MeloId"@
                    &&& e.spec_input() == s@
                    &&& e.spec_expected() == Expected::Format(MELO_FORMAT)
                },
            },
    {
        MeloId::parse(s)
    }
}

// ── Eic ─────────────────────────────────────────────────────────────────────

/// What an [`Eic`] identifies, read off its third character. The code **is**
/// the letter the market writes; [`name`](Self::name) carries the
/// description.
#[derive(Debug, Clone, Copy, PartialEq, Eq, PartialOrd, Ord, Hash, Structural)]
pub enum EicType {
    /// `X` — a **party**: a market participant, TSO, supplier, trader,
    /// Bilanzkreisverantwortlicher.
    Party,
    /// `Y` — an **area or domain**: a bidding zone, a control area, a
    /// Bilanzierungsgebiet, a Metering Grid Area.
    Area,
    /// `Z` — a **measurement point**.
    MeasurementPoint,
    /// `W` — a **resource object**: a generation, consumption or storage unit.
    ResourceObject,
    /// `T` — a **tie line** or other connecting object.
    TieLine,
    /// `V` — a **location**, physical or logical, or an IT system.
    Location,
    /// `A` — a **substation** or topological node.
    Substation,
}

impl EicType {
    /// Every variant, in declaration order.
    pub const ALL: [Self; 7] = [Self::Party, Self::Area, Self::MeasurementPoint, Self::ResourceObject, Self::TieLine, Self::Location, Self::Substation];

    /// Every code [`as_str`](Self::as_str) writes, in the order of `ALL`.
    pub fn codes() -> (r: &'static [&'static str])
        ensures
            Self::spec_is_codes(r@),
    {
        &["X", "Y", "Z", "W", "T", "V", "A"]
    }

    /// `c` lists the codes of `ALL`, in order.
    pub open spec fn spec_is_codes(c: Seq<&'static str>) -> bool {
        &&& c.len() == 7
        &&& c[0]@ == Self::Party.spec_as_str()
        &&& c[1]@ == Self::Area.spec_as_str()
        &&& c[2]@ == Self::MeasurementPoint.spec_as_str()
        &&& c[3]@ == Self::ResourceObject.spec_as_str()
        &&& c[4]@ == Self::TieLine.spec_as_str()
        &&& c[5]@ == Self::Location.spec_as_str()
        &&& c[6]@ == Self::Substation.spec_as_str()
    }

    pub open spec fn spec_as_str(self) -> Seq<char> {
        match self {
            Self::Party => "X"@,
            Self::Area => "Y"@,
            Self::MeasurementPoint => "Z"@,
            Self::ResourceObject => "W"@,
            Self::TieLine => "T"@,
            Self::Location => "V"@,
            Self::Substation => "A"@,
        }
    }

    /// The EIC object-type letter; the `FromStr` input.
    pub fn as_str(self) -> (r: &'static str)
        ensures
            r@ == self.spec_as_str(),
    {
        match self {
            Self::Party => "X",
            Self::Area => "Y",
            Self::MeasurementPoint => "Z",
            Self::ResourceObject => "W",
            Self::TieLine => "T",
            Self::Location => "V",
            Self::Substation => "A",
        }
    }

    /// The code as an owned string (what `Display` writes).
    pub fn to_string(&self) -> (r: String)
        ensures
            r@ == self.spec_as_str(),
    {
        self.as_str().to_owned()
    }

    /// The variant whose code is exactly `s`.
    pub open spec fn spec_from_code(s: Seq<char>) -> Option<Self> {
        if s == "X"@ {
            Some(Self::Party)
        } else if s == "Y"@ {
            Some(Self::Area)
        } else if s == "Z"@ {
            Some(Self::MeasurementPoint)
        } else if s == "W"@ {
            Some(Self::ResourceObject)
        } else if s == "T"@ {
            Some(Self::TieLine)
        } else if s == "V"@ {
            Some(Self::Location)
        } else if s == "A"@ {
            Some(Self::Substation)
        } else {
            None
        }
    }

    /// The variant whose code is exactly `s`, case and whitespace included.
    pub fn from_code(s: &str) -> (r: Option<Self>)
        ensures
            r == Self::spec_from_code(s@),
    {
        if str_eq(s, "X") {
            Some(Self::Party)
        } else if str_eq(s, "Y") {
            Some(Self::Area)
        } else if str_eq(s, "Z") {
            Some(Self::MeasurementPoint)
        } else if str_eq(s, "W") {
            Some(Self::ResourceObject)
        } else if str_eq(s, "T") {
            Some(Self::TieLine)
        } else if str_eq(s, "V") {
            Some(Self::Location)
        } else if str_eq(s, "A") {
            Some(Self::Substation)
        } else {
            None
        }
    }

    /// What parsing `s` yields: surrounding whitespace is ignored and the
    /// comparison is case-insensitive.
    pub open spec fn spec_parse(s: Seq<char>) -> Option<Self> {
        let t = trimmed(s);
        let u = uppercased(t);
        Self::spec_from_code(u)
    }

    /// Parses a code, ignoring surrounding whitespace and case.
    pub fn parse_code(s: &str) -> (r: Result<Self, ParseError>)
        ensures
            match r {
                Ok(v) => Self::spec_parse(s@) == Some(v),
                Err(e) => {
                    &&& Self::spec_parse(s@).is_none()
                    &&& e.spec_type_label() == "EicType"@
                    &&& e.spec_input() == s@
                    &&& e.spec_expected() matches Expected::OneOf(c) && Self::spec_is_codes(c@)
                },
            },
    {
        let t = trim(s);
        let u = to_uppercase(t);
        match Self::from_code(u.as_str()) {
            Some(v) => Ok(v),
            None => Err(ParseError::one_of("EicType", s, Self::codes())),
        }
    }

    /// Parsing the code of a variant gives the variant back.
    pub proof fn lemma_parse_as_str(v: Self)
        ensures
            Self::spec_parse(v.spec_as_str()) == Some(v),
    {
        match v {
            Self::Party => {
                reveal_strlit("X");
                lemma_code_is_canonical("X"@);
            },
            Self::Area => {
                reveal_strlit("X");
                reveal_strlit("Y");
                lemma_code_is_canonical("Y"@);
                assert("Y"@[0] != "X"@[0]);
            },
            Self::MeasurementPoint => {
                reveal_strlit("X");
                reveal_strlit("Y");
                reveal_strlit("Z");
                lemma_code_is_canonical("Z"@);
                assert("Z"@[0] != "X"@[0]);
                assert("Z"@[0] != "Y"@[0]);
            },
            Self::ResourceObject => {
                reveal_strlit("W");
                reveal_strlit("X");
                reveal_strlit("Y");
                reveal_strlit("Z");
                lemma_code_is_canonical("W"@);
                assert("W"@[0] != "X"@[0]);
                assert("W"@[0] != "Y"@[0]);
                assert("W"@[0] != "Z"@[0]);
            },
            Self::TieLine => {
                reveal_strlit("T");
                reveal_strlit("W");
                reveal_strlit("X");
                reveal_strlit("Y");
                reveal_strlit("Z");
                lemma_code_is_canonical("T"@);
                assert("T"@[0] != "X"@[0]);
                assert("T"@[0] != "Y"@[0]);
                assert("T"@[0] != "Z"@[0]);
                assert("T"@[0] != "W"@[0]);
            },
            Self::Location => {
                reveal_strlit("T");
                reveal_strlit("V");
                reveal_strlit("W");
                reveal_strlit("X");
                reveal_strlit("Y");
                reveal_strlit("Z");
                lemma_code_is_canonical("V"@);
                assert("V"@[0] != "X"@[0]);
                assert("V"@[0] != "Y"@[0]);
                assert("V"@[0] != "Z"@[0]);
                assert("V"@[0] != "W"@[0]);
                assert("V"@[0] != "T"@[0]);
            },
            Self::Substation => {
                reveal_strlit("A");
                reveal_strlit("T");
                reveal_strlit("V");
                reveal_strlit("W");
                reveal_strlit("X");
                reveal_strlit("Y");
                reveal_strlit("Z");
                lemma_code_is_canonical("A"@);
                assert("A"@[0] != "X"@[0]);
                assert("A"@[0] != "Y"@[0]);
                assert("A"@[0] != "Z"@[0]);
                assert("A"@[0] != "W"@[0]);
                assert("A"@[0] != "T"@[0]);
                assert("A"@[0] != "V"@[0]);
            },
        }
    }
}

impl std::str::FromStr for EicType {
    type Err = ParseError;

    fn from_str(s: &str) -> (r: Result<EicType, ParseError>)
        ensures
            match r {
                Ok(v) => Self::spec_parse(s@) == Some(v),
                Err(e) => {
                    &&& Self::spec_parse(s@).is_none()
                    &&& e.spec_type_label() == "EicType"@
                    &&& e.spec_input() == s@
                    &&& e.spec_expected() matches Expected::OneOf(c) && Self::spec_is_codes(c@)
                },
            },
    {
        EicType::parse_code(s)
    }
}

impl EicType {
    pub open spec fn spec_name(self) -> Seq<char> {
        match self {
            Self::Party => "Party"@,
            Self::Area => "Area or Domain"@,
            Self::MeasurementPoint => "Measurement point"@,
            Self::ResourceObject => "Resource object"@,
            Self::TieLine => "Tie-line"@,
            Self::Location => "Location"@,
            Self::Substation => "Substation"@,
        }
    }

    /// The EIC Reference Manual's own description of the type.
    pub fn name(self) -> (r: &'static str)
        ensures
            r@ == self.spec_name(),
    {
        match self {
            Self::Party => "Party",
            Self::Area => "Area or Domain",
            Self::MeasurementPoint => "Measurement point",
            Self::ResourceObject => "Resource object",
            Self::TieLine => "Tie-line",
            Self::Location => "Location",
            Self::Substation => "Substation",
        }
    }

    /// The type a letter names: `X`, `Y`, `Z`, `W`, `T`, `V`, `A`.
    pub open spec fn spec_from_letter(letter: u8) -> Option<Self> {
        if letter == 88 {
            Some(Self::Party)
        } else if letter == 89 {
            Some(Self::Area)
        } else if letter == 90 {
            Some(Self::MeasurementPoint)
        } else if letter == 87 {
            Some(Self::ResourceObject)
        } else if letter == 84 {
            Some(Self::TieLine)
        } else if letter == 86 {
            Some(Self::Location)
        } else if letter == 65 {
            Some(Self::Substation)
        } else {
            None
        }
    }

    /// The type a letter names, or `None` for a letter the manual does not
    /// list.
    pub fn from_letter(letter: u8) -> (r: Option<Self>)
        ensures
            r == Self::spec_from_letter(letter),
    {
        match letter {
            88 => Some(Self::Party),
            89 => Some(Self::Area),
            90 => Some(Self::MeasurementPoint),
            87 => Some(Self::ResourceObject),
            84 => Some(Self::TieLine),
            86 => Some(Self::Location),
            65 => Some(Self::Substation),
            _ => None,
        }
    }
}

/// One of the four German **Regelzonen**, read off position 4 of a
/// Bilanzierungsgebiet's EIC: `N` TenneT, `R` Amprion, `V` 50Hertz, `W`
/// TransnetBW.
#[derive(Debug, Clone, Copy, PartialEq, Eq, PartialOrd, Ord, Hash, Structural)]
pub enum Regelzone {
    /// `N` — TenneT TSO GmbH.
    TenneT,
    /// `R` — Amprion GmbH.
    Amprion,
    /// `V` — 50Hertz Transmission GmbH.
    FiftyHertz,
    /// `W` — TransnetBW GmbH.
    TransnetBw,
}

impl Regelzone {
    /// Every variant, in declaration order.
    pub const ALL: [Self; 4] = [Self::TenneT, Self::Amprion, Self::FiftyHertz, Self::TransnetBw];

    /// Every code [`as_str`](Self::as_str) writes, in the order of `ALL`.
    pub fn codes() -> (r: &'static [&'static str])
        ensures
            Self::spec_is_codes(r@),
    {
        &["TENNET", "AMPRION", "FIFTY_HERTZ", "TRANSNET_BW"]
    }

    /// `c` lists the codes of `ALL`, in order.
    pub open spec fn spec_is_codes(c: Seq<&'static str>) -> bool {
        &&& c.len() == 4
        &&& c[0]@ == Self::TenneT.spec_as_str()
        &&& c[1]@ == Self::Amprion.spec_as_str()
        &&& c[2]@ == Self::FiftyHertz.spec_as_str()
        &&& c[3]@ == Self::TransnetBw.spec_as_str()
    }

    pub open spec fn spec_as_str(self) -> Seq<char> {
        match self {
            Self::TenneT => "TENNET"@,
            Self::Amprion => "AMPRION"@,
            Self::FiftyHertz => "FIFTY_HERTZ"@,
            Self::TransnetBw => "TRANSNET_BW"@,
        }
    }

    /// Stable DB/wire label; the `FromStr` input.
    pub fn as_str(self) -> (r: &'static str)
        ensures
            r@ == self.spec_as_str(),
    {
        match self {
            Self::TenneT => "TENNET",
            Self::Amprion => "AMPRION",
            Self::FiftyHertz => "FIFTY_HERTZ",
            Self::TransnetBw => "TRANSNET_BW",
        }
    }

    /// The code as an owned string (what `Display` writes).
    pub fn to_string(&self) -> (r: String)
        ensures
            r@ == self.spec_as_str(),
    {
        self.as_str().to_owned()
    }

    /// The variant whose code is exactly `s`.
    pub open spec fn spec_from_code(s: Seq<char>) -> Option<Self> {
        if s == "TENNET"@ {
            Some(Self::TenneT)
        } else if s == "AMPRION"@ {
            Some(Self::Amprion)
        } else if s == "FIFTY_HERTZ"@ {
            Some(Self::FiftyHertz)
        } else if s == "TRANSNET_BW"@ {
            Some(Self::TransnetBw)
        } else {
            None
        }
    }

    /// The variant whose code is exactly `s`, case and whitespace included.
    pub fn from_code(s: &str) -> (r: Option<Self>)
        ensures
            r == Self::spec_from_code(s@),
    {
        if str_eq(s, "TENNET") {
            Some(Self::TenneT)
        } else if str_eq(s, "AMPRION") {
            Some(Self::Amprion)
        } else if str_eq(s, "FIFTY_HERTZ") {
            Some(Self::FiftyHertz)
        } else if str_eq(s, "TRANSNET_BW") {
            Some(Self::TransnetBw)
        } else {
            None
        }
    }

    /// What parsing `s` yields: surrounding whitespace is ignored and the
    /// comparison is case-insensitive.
    pub open spec fn spec_parse(s: Seq<char>) -> Option<Self> {
        let t = trimmed(s);
        let u = uppercased(t);
        Self::spec_from_code(u)
    }

    /// Parses a code, ignoring surrounding whitespace and case.
    pub fn parse_code(s: &str) -> (r: Result<Self, ParseError>)
        ensures
            match r {
                Ok(v) => Self::spec_parse(s@) == Some(v),
                Err(e) => {
                    &&& Self::spec_parse(s@).is_none()
                    &&& e.spec_type_label() == "Regelzone"@
                    &&& e.spec_input() == s@
                    &&& e.spec_expected() matches Expected::OneOf(c) && Self::spec_is_codes(c@)
                },
            },
    {
        let t = trim(s);
        let u = to_uppercase(t);
        match Self::from_code(u.as_str()) {
            Some(v) => Ok(v),
            None => Err(ParseError::one_of("Regelzone", s, Self::codes())),
        }
    }

    /// Parsing the code of a variant gives the variant back.
    pub proof fn lemma_parse_as_str(v: Self)
        ensures
            Self::spec_parse(v.spec_as_str()) == Some(v),
    {
        match v {
            Self::TenneT => {
                reveal_strlit("TENNET");
                lemma_code_is_canonical("TENNET"@);
            },
            Self::Amprion => {
                reveal_strlit("AMPRION");
                reveal_strlit("TENNET");
                lemma_code_is_canonical("AMPRION"@);
            },
            Self::FiftyHertz => {
                reveal_strlit("AMPRION");
                reveal_strlit("FIFTY_HERTZ");
                reveal_strlit("TENNET");
                lemma_code_is_canonical("FIFTY_HERTZ"@);
            },
            Self::TransnetBw => {
                reveal_strlit("AMPRION");
                reveal_strlit("FIFTY_HERTZ");
                reveal_strlit("TENNET");
                reveal_strlit("TRANSNET_BW");
                lemma_code_is_canonical("TRANSNET_BW"@);
                assert("TRANSNET_BW"@[0] != "FIFTY_HERTZ"@[0]);
            },
        }
    }
}

impl std::str::FromStr for Regelzone {
    type Err = ParseError;

    fn from_str(s: &str) -> (r: Result<Regelzone, ParseError>)
        ensures
            match r {
                Ok(v) => Self::spec_parse(s@) == Some(v),
                Err(e) => {
                    &&& Self::spec_parse(s@).is_none()
                    &&& e.spec_type_label() == "Regelzone"@
                    &&& e.spec_input() == s@
                    &&& e.spec_expected() matches Expected::OneOf(c) && Self::spec_is_codes(c@)
                },
            },
    {
        Regelzone::parse_code(s)
    }
}

impl Regelzone {
    pub open spec fn spec_name(self) -> Seq<char> {
        match self {
            Self::TenneT => "TenneT TSO"@,
            Self::Amprion => "Amprion"@,
            Self::FiftyHertz => "50Hertz Transmission"@,
            Self::TransnetBw => "TransnetBW"@,
        }
    }

    /// The operator's own spelling — a description, not a code.
    pub fn name(self) -> (r: &'static str)
        ensures
            r@ == self.spec_name(),
    {
        match self {
            Self::TenneT => "TenneT TSO",
            Self::Amprion => "Amprion",
            Self::FiftyHertz => "50Hertz Transmission",
            Self::TransnetBw => "TransnetBW",
        }
    }

    pub open spec fn spec_eic_letter(self) -> char {
        match self {
            Self::TenneT => 'N',
            Self::Amprion => 'R',
            Self::FiftyHertz => 'V',
            Self::TransnetBw => 'W',
        }
    }

    /// The letter this Regelzone occupies position 4 of a Bilanzierungsgebiet
    /// EIC with.
    pub fn eic_letter(self) -> (r: char)
        ensures
            r == self.spec_eic_letter(),
    {
        match self {
            Self::TenneT => 'N',
            Self::Amprion => 'R',
            Self::FiftyHertz => 'V',
            Self::TransnetBw => 'W',
        }
    }

    /// The Regelzone a position-4 letter names: `N`, `R`, `V`, `W`.
    pub open spec fn spec_from_eic_letter(letter: u8) -> Option<Self> {
        if letter == 78 {
            Some(Self::TenneT)
        } else if letter == 82 {
            Some(Self::Amprion)
        } else if letter == 86 {
            Some(Self::FiftyHertz)
        } else if letter == 87 {
            Some(Self::TransnetBw)
        } else {
            None
        }
    }

    /// The Regelzone a position-4 letter names, or `None` for any other
    /// letter.
    pub fn from_eic_letter(letter: u8) -> (r: Option<Self>)
        ensures
            r == Self::spec_from_eic_letter(letter),
    {
        match letter {
            78 => Some(Self::TenneT),
            82 => Some(Self::Amprion),
            86 => Some(Self::FiftyHertz),
            87 => Some(Self::TransnetBw),
            _ => None,
        }
    }

    pub open spec fn spec_control_area_eic(self) -> Seq<char> {
        match self {
            Self::TenneT => "10YDE-EON------1"@,
            Self::Amprion => "10YDE-RWENET---I"@,
            Self::FiftyHertz => "10YDE-VE-------2"@,
            Self::TransnetBw => "10YDE-ENBW-----N"@,
        }
    }

    /// The ENTSO-E **control-area** code of this Regelzone: a `Y` code of the
    /// Central Issuing Office (`10`), not one of the BDEW's
    /// Bilanzierungsgebiet codes.
    pub fn control_area_eic(self) -> (r: Eic)
        ensures
            r@ == self.spec_control_area_eic(),
    {
        proof {
            lemma_control_area_codes();
        }
        let code = match self {
            Self::TenneT => "10YDE-EON------1",
            Self::Amprion => "10YDE-RWENET---I",
            Self::FiftyHertz => "10YDE-VE-------2",
            Self::TransnetBw => "10YDE-ENBW-----N",
        };
        Eic { chars: code.to_owned() }
    }

    /// Reading the letter back names the same Regelzone.
    pub proof fn lemma_eic_letter_round_trip(z: Self)
        ensures
            Self::spec_from_eic_letter(z.spec_eic_letter() as u8) == Some(z),
    {
    }
}

/// The shape [`Eic`] accepts, as rendered in a [`ParseError`].
pub const EIC_FORMAT: &'static str = "a 16-character EIC: 2 characters of issuing office, an object-type letter, 12 characters of `0-9`, `A-Z` or `-`, and a check character (ENTSO-E EIC Reference Manual)";

/// A character an EIC may hold: `0`–`9`, `A`–`Z` and `-`.
pub open spec fn is_eic_char(c: char) -> bool {
    is_digit(c) || is_upper(c) || c == '-'
}

/// `0`–`9` → 0–9, `A`–`Z` → 10–35, `-` → 36.
pub open spec fn eic_value(c: char) -> int {
    if is_digit(c) {
        digit_value(c)
    } else if is_upper(c) {
        (c as int) - ('A' as int) + 10
    } else {
        36
    }
}

/// Every character of `s` is an EIC character.
pub open spec fn all_eic_chars(s: Seq<char>) -> bool
    decreases s.len(),
{
    s.len() == 0 || (is_eic_char(s.last()) && all_eic_chars(s.drop_last()))
}

/// The weighted sum of the values: the character at 0-based index `i` is
/// weighted `16 - i`.
pub open spec fn eic_total(s: Seq<char>) -> int
    decreases s.len(),
{
    if s.len() == 0 {
        0
    } else {
        eic_total(s.drop_last()) + eic_value(s.last()) * (17 - s.len())
    }
}

/// The character whose value is `v`, where a check character may have one:
/// `0`–`9` and `A`–`Z`, never the minus.
pub open spec fn eic_check_char(v: int) -> Option<char> {
    if 0 <= v <= 9 {
        Some(((48 + v) as u8) as char)
    } else if 10 <= v <= 35 {
        Some(((55 + v) as u8) as char)
    } else {
        None
    }
}

/// The check character of a fifteen-character body: the character whose
/// value is `36 - ((Σ - 1) mod 37)`; `None` for a body of another length or
/// with a character outside the set, and when the value is 36.
pub open spec fn eic_check_character(s: Seq<char>) -> Option<char> {
    if s.len() == 15 && all_eic_chars(s) {
        eic_check_char(36 - ((eic_total(s) + 36) % 37))
    } else {
        None
    }
}

/// A canonical EIC: sixteen EIC characters, a letter in position 3 and the
/// check character in position 16.
pub open spec fn is_eic(u: Seq<char>) -> bool {
    &&& u.len() == 16
    &&& all_eic_chars(u)
    &&& is_upper(u[2])
    &&& eic_check_character(u.take(15)) == Some(u[15])
}

/// What the EIC parser accepts of a trimmed text: sixteen characters whose
/// ASCII-uppercase form is a canonical EIC.
pub open spec fn eic_accepts(t: Seq<char>) -> bool {
    t.len() == 16 && is_eic(upper_ascii(t))
}

proof fn lemma_all_eic_chars(s: Seq<char>)
    ensures
        all_eic_chars(s) <==> forall|i: int| 0 <= i < s.len() ==> is_eic_char(#[trigger] s[i]),
    decreases s.len(),
{
    if s.len() > 0 {
        lemma_all_eic_chars(s.drop_last());
        if all_eic_chars(s) {
            assert forall|i: int| 0 <= i < s.len() implies is_eic_char(#[trigger] s[i]) by {
                if i < s.len() - 1 {
                    assert(s.drop_last()[i] == s[i]);
                }
            }
        }
        if forall|i: int| 0 <= i < s.len() ==> is_eic_char(#[trigger] s[i]) {
            assert forall|i: int| 0 <= i < s.drop_last().len() implies is_eic_char(
                #[trigger] s.drop_last()[i],
            ) by {
                assert(s.drop_last()[i] == s[i]);
            }
            assert(is_eic_char(s[s.len() - 1]));
        }
    }
}

fn eic_char_value(c: char) -> (r: Option<u32>)
    ensures
        r == (if is_eic_char(c) {
            Some(eic_value(c) as u32)
        } else {
            None
        }),
{
    if c >= '0' && c <= '9' {
        Some((c as u32) - ('0' as u32))
    } else if c >= 'A' && c <= 'Z' {
        Some((c as u32) - ('A' as u32) + 10)
    } else if c == '-' {
        Some(36)
    } else {
        None
    }
}

/// The check character of the body `v[..15]`.
fn eic_check_of(v: &Vec<char>) -> (r: Option<char>)
    requires
        v@.len() >= 15,
    ensures
        r == eic_check_character(v@.take(15)),
{
    let ghost body = v@.take(15);
    let mut sum: u32 = 0;
    let mut i: usize = 0;
    while i < 15
        invariant
            i <= 15 <= v@.len(),
            body == v@.take(15),
            all_eic_chars(v@.take(i as int)),
            sum == eic_total(v@.take(i as int)),
            sum <= 36 * 16 * i,
        decreases 15 - i,
    {
        let c = v[i];
        proof {
            let t = v@.take(i + 1);
            assert(t.drop_last() =~= v@.take(i as int));
            assert(t.last() == c);
        }
        let value = match eic_char_value(c) {
            Some(x) => x,
            None => {
                proof {
                    lemma_all_eic_chars(body);
                    assert(body[i as int] == c);
                }
                return None;
            },
        };
        assert(value * (16 - i) <= 36 * 16) by (nonlinear_arith)
            requires
                value <= 36,
                i < 15,
        ;
        assert(36 * 16 * i + 36 * 16 == 36 * 16 * (i + 1)) by (nonlinear_arith);
        sum = sum + value * (16 - i as u32);
        i = i + 1;
    }
    let check = 36 - ((sum + 36) % 37);
    if check <= 9 {
        Some(((48 + check) as u8) as char)
    } else if check <= 35 {
        Some(((55 + check) as u8) as char)
    } else {
        None
    }
}

/// A check-character-validated Energy Identification Code, held uppercase.
///
/// Sixteen characters: two of Local Issuing Office, the object-type letter,
/// twelve assigned by the office, and the check character, which the parse
/// enforces.
#[derive(Debug, PartialEq, Eq, PartialOrd, Ord, Hash)]
pub struct Eic {
    chars: String,
}

impl Clone for Eic {
    fn clone(&self) -> (r: Self)
        ensures
            r@ == self@,
    {
        proof {
            use_type_invariant(self);
        }
        Eic { chars: self.chars.clone() }
    }
}

impl View for Eic {
    type V = Seq<char>;

    closed spec fn view(&self) -> Seq<char> {
        self.chars@
    }
}

impl Eic {
    /// The identifier's length: always 16 characters.
    pub const LEN: usize = 16;

    /// The Local Issuing Office of the German electricity market: `11`, the
    /// BDEW.
    pub const GERMAN_LIO: &'static str = "11";

    #[verifier::type_invariant]
    spec fn well_formed(self) -> bool {
        is_eic(self.chars@)
    }

    /// The check character for the first fifteen characters of a code.
    /// `None` when `body` is not exactly fifteen permitted characters, and
    /// when the algorithm yields the minus sign, which is never a check
    /// character.
    pub fn compute_check_character(body: &str) -> (r: Option<char>)
        ensures
            r == eic_check_character(body@),
    {
        let v = chars_of(body);
        if v.len() != 15 {
            return None;
        }
        assert(v@.take(15) =~= v@);
        eic_check_of(&v)
    }

    /// Parses a 16-character EIC, ignoring surrounding whitespace and
    /// canonicalising to uppercase. The length, the character set, a letter
    /// in position 3 and the check character are enforced.
    pub fn parse(s: &str) -> (r: Result<Self, ParseError>)
        ensures
            match r {
                Ok(eic) => eic_accepts(trimmed(s@)) && eic@ == upper_ascii(trimmed(s@)),
                Err(e) => {
                    &&& !eic_accepts(trimmed(s@))
                    &&& e.spec_type_label() == "Eic"@
                    &&& e.spec_input() == s@
                    &&& e.spec_expected() == Expected::Format(EIC_FORMAT)
                },
            },
    {
        let t = trim(s);
        let v = chars_of(t);
        if v.len() != 16 {
            return Err(ParseError::format("Eic", s, EIC_FORMAT));
        }
        let upper = to_ascii_uppercase(t);
        let u = chars_of(upper.as_str());
        let mut i: usize = 0;
        while i < 16
            invariant
                i <= 16 == u@.len(),
                u@ == upper_ascii(trimmed(s@)),
                forall|j: int| 0 <= j < i ==> is_eic_char(#[trigger] u@[j]),
            decreases 16 - i,
        {
            if eic_char_value(u[i]).is_none() {
                proof {
                    lemma_all_eic_chars(u@);
                }
                return Err(ParseError::format("Eic", s, EIC_FORMAT));
            }
            i = i + 1;
        }
        proof {
            lemma_all_eic_chars(u@);
        }
        if !(u[2] >= 'A' && u[2] <= 'Z') {
            return Err(ParseError::format("Eic", s, EIC_FORMAT));
        }
        match eic_check_of(&u) {
            Some(c) => {
                if c != u[15] {
                    return Err(ParseError::format("Eic", s, EIC_FORMAT));
                }
            },
            None => {
                return Err(ParseError::format("Eic", s, EIC_FORMAT));
            },
        }
        Ok(Eic { chars: upper })
    }

    /// The code, uppercase.
    pub fn as_str(&self) -> (r: &str)
        ensures
            r@ == self@,
            is_eic(self@),
    {
        proof {
            use_type_invariant(self);
        }
        self.chars.as_str()
    }

    /// The code as an owned string (what `Display` writes).
    pub fn to_string(&self) -> (r: String)
        ensures
            r@ == self@,
    {
        self.chars.clone()
    }

    /// The Local Issuing Office (positions 1–2), not required to be digits.
    pub fn issuing_office(&self) -> (r: &str)
        ensures
            r@ == self@.subrange(0, 2),
    {
        proof {
            use_type_invariant(self);
        }
        self.chars.as_str().substring_char(0, 2)
    }

    /// What this code identifies, or `None` for a type letter the manual's
    /// list does not contain — the list is ENTSO-E's to extend, so an
    /// unlisted letter is no parse failure.
    pub fn object_type(&self) -> (r: Option<EicType>)
        ensures
            r == EicType::spec_from_letter(self@[2] as u8),
    {
        proof {
            use_type_invariant(self);
        }
        let c = self.chars.as_str().get_char(2);
        EicType::from_letter(c as u8)
    }

    /// The check character (position 16).
    pub fn check_character(&self) -> (r: char)
        ensures
            r == self@[15],
    {
        proof {
            use_type_invariant(self);
        }
        self.chars.as_str().get_char(15)
    }

    /// `true` when this code was issued by the German LIO, `11`.
    pub fn is_german(&self) -> (r: bool)
        ensures
            r == (self@[0] == '1' && self@[1] == '1'),
    {
        proof {
            use_type_invariant(self);
        }
        let s = self.chars.as_str();
        s.get_char(0) == '1' && s.get_char(1) == '1'
    }

    /// The Regelzone a German Bilanzierungsgebiet code names in position 4:
    /// `Some` only for a code of the German LIO, of type `Y`, with `N`, `R`,
    /// `V` or `W` there.
    pub fn regelzone(&self) -> (r: Option<Regelzone>)
        ensures
            r == (if self@[0] == '1' && self@[1] == '1' && self@[2] == 'Y' {
                Regelzone::spec_from_eic_letter(self@[3] as u8)
            } else {
                None
            }),
    {
        proof {
            use_type_invariant(self);
        }
        let s = self.chars.as_str();
        if s.get_char(0) != '1' || s.get_char(1) != '1' || s.get_char(2) != 'Y' {
            return None;
        }
        Regelzone::from_eic_letter(s.get_char(3) as u8)
    }

    /// A canonical EIC is written trimmed and uppercase, so parsing what
    /// [`to_string`](Self::to_string) wrote gives the same code back.
    pub proof fn lemma_text_round_trip(u: Seq<char>)
        requires
            is_eic(u),
        ensures
            trimmed(u) == u,
            upper_ascii(u) == u,
            eic_accepts(trimmed(u)),
    {
        lemma_all_eic_chars(u);
        assert(is_ascii_chars(u));
        assert(upper_ascii(u) =~= u);
        assert(is_eic_char(u[0]));
        assert(trim_start_ws(u) == u);
        assert(is_eic_char(u.last()));
        assert(trim_end_ws(u) == u);
    }
}

/// The weighted sum of the first `k` characters, written as a sum over
/// positions.
spec fn eic_partial(b: Seq<char>, k: int) -> int
    decreases k,
{
    if k <= 0 {
        0
    } else {
        eic_partial(b, k - 1) + eic_value(b[k - 1]) * (17 - k)
    }
}

proof fn lemma_eic_total_partial(b: Seq<char>, k: int)
    requires
        0 <= k <= b.len(),
    ensures
        eic_total(b.take(k)) == eic_partial(b, k),
    decreases k,
{
    if k > 0 {
        lemma_eic_total_partial(b, k - 1);
        assert(b.take(k).drop_last() =~= b.take(k - 1));
    }
}

/// The four ENTSO-E control-area codes are valid EICs.
proof fn lemma_control_area_codes()
    ensures
        is_eic("10YDE-EON------1"@),
        is_eic("10YDE-RWENET---I"@),
        is_eic("10YDE-VE-------2"@),
        is_eic("10YDE-ENBW-----N"@),
{
    let u = seq!['1', '0', 'Y', 'D', 'E', '-', 'E', 'O', 'N', '-', '-', '-', '-', '-', '-', '1'];
    assert(eic_partial(u, 15) == 2737) by {
        reveal_with_fuel(eic_partial, 16);
    }
    assert(eic_check_char(1) == Some(u[15]));
    lemma_control_area_code(u);
    reveal_strlit("10YDE-EON------1");
    assert("10YDE-EON------1"@ =~= u);
    let u = seq!['1', '0', 'Y', 'D', 'E', '-', 'R', 'W', 'E', 'N', 'E', 'T', '-', '-', '-', 'I'];
    assert(eic_partial(u, 15) == 2609) by {
        reveal_with_fuel(eic_partial, 16);
    }
    assert(eic_check_char(18) == Some(u[15]));
    lemma_control_area_code(u);
    reveal_strlit("10YDE-RWENET---I");
    assert("10YDE-RWENET---I"@ =~= u);
    let u = seq!['1', '0', 'Y', 'D', 'E', '-', 'V', 'E', '-', '-', '-', '-', '-', '-', '-', '2'];
    assert(eic_partial(u, 15) == 2921) by {
        reveal_with_fuel(eic_partial, 16);
    }
    assert(eic_check_char(2) == Some(u[15]));
    lemma_control_area_code(u);
    reveal_strlit("10YDE-VE-------2");
    assert("10YDE-VE-------2"@ =~= u);
    let u = seq!['1', '0', 'Y', 'D', 'E', '-', 'E', 'N', 'B', 'W', '-', '-', '-', '-', '-', 'N'];
    assert(eic_partial(u, 15) == 2604) by {
        reveal_with_fuel(eic_partial, 16);
    }
    assert(eic_check_char(23) == Some(u[15]));
    lemma_control_area_code(u);
    reveal_strlit("10YDE-ENBW-----N");
    assert("10YDE-ENBW-----N"@ =~= u);
}

/// A sixteen-character code whose check character is right is an EIC.
proof fn lemma_control_area_code(u: Seq<char>)
    requires
        u.len() == 16,
        forall|i: int| 0 <= i < 16 ==> is_eic_char(#[trigger] u[i]),
        is_upper(u[2]),
        eic_check_char(36 - ((eic_partial(u, 15) + 36) % 37)) == Some(u[15]),
    ensures
        is_eic(u),
{
    lemma_all_eic_chars(u);
    lemma_eic_total_partial(u, 15);
    assert(u.take(15).take(15) =~= u.take(15));
    assert forall|i: int| 0 <= i < 15 implies is_eic_char(#[trigger] u.take(15)[i]) by {
        assert(u.take(15)[i] == u[i]);
    }
    lemma_all_eic_chars(u.take(15));
    assert forall|k: int| 0 <= k <= 15 implies eic_partial(u.take(15), k) == eic_partial(u, k) by {
        lemma_eic_partial_prefix(u, k);
    }
    lemma_eic_total_partial(u.take(15), 15);
}

proof fn lemma_eic_partial_prefix(u: Seq<char>, k: int)
    requires
        0 <= k <= 15,
        u.len() == 16,
    ensures
        eic_partial(u.take(15), k) == eic_partial(u, k),
    decreases k,
{
    if k > 0 {
        lemma_eic_partial_prefix(u, k - 1);
        assert(u.take(15)[k - 1] == u[k - 1]);
    }
}

impl std::str::FromStr for Eic {
    type Err = ParseError;

    fn from_str(s: &str) -> (r: Result<Eic, ParseError>)
        ensures
            match r {
                Ok(eic) => eic_accepts(trimmed(s@)) && eic@ == upper_ascii(trimmed(s@)),
                Err(e) => {
                    &&& !eic_accepts(trimmed(s@))
                    &&& e.spec_type_label() == "Eic"@
                    &&& e.spec_input() == s@
                    &&& e.spec_expected() == Expected::Format(EIC_FORMAT)
                },
            },
    {
        Eic::parse(s)
    }
}

} // verus!
