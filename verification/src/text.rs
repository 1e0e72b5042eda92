//! Text primitives shared by every parser: trimming, case mapping and
//! comparison of string slices, stated over their character sequences.

use vstd::prelude::*;
use vstd::utf8::*;
use vstd::string::*;

verus! {

broadcast use vstd::utf8::encode_utf8_decode_utf8, vstd::string::is_ascii_spec_bytes;

/// The 25 characters carrying the Unicode `White_Space` property: tab to
/// carriage return, space, next line, no-break space, ogham space mark, the
/// spaces from en quad to hair space, line and paragraph separator, narrow
/// no-break space, medium mathematical space and ideographic space.
pub open spec fn is_white_space(c: char) -> bool {
    ||| '\t' <= c <= '\r'
    ||| c == ' '
    ||| c == '\u{85}'
    ||| c == '\u{a0}'
    ||| c == '\u{1680}'
    ||| '\u{2000}' <= c <= '\u{200a}'
    ||| c == '\u{2028}'
    ||| c == '\u{2029}'
    ||| c == '\u{202f}'
    ||| c == '\u{205f}'
    ||| c == '\u{3000}'
}

/// `s` without its leading white space.
pub open spec fn trim_start_ws(s: Seq<char>) -> Seq<char>
    decreases s.len(),
{
    if s.len() > 0 && is_white_space(s[0]) {
        trim_start_ws(s.drop_first())
    } else {
        s
    }
}

/// `s` without its trailing white space.
pub open spec fn trim_end_ws(s: Seq<char>) -> Seq<char>
    decreases s.len(),
{
    if s.len() > 0 && is_white_space(s.last()) {
        trim_end_ws(s.drop_last())
    } else {
        s
    }
}

/// `s` without leading and trailing white space.
pub open spec fn trim_ws(s: Seq<char>) -> Seq<char> {
    trim_end_ws(trim_start_ws(s))
}

pub open spec fn upper_char(c: char) -> char {
    if 'a' <= c && c <= 'z' {
        ((c as u32) - 32) as char
    } else {
        c
    }
}

pub open spec fn lower_char(c: char) -> char {
    if 'A' <= c && c <= 'Z' {
        ((c as u32) + 32) as char
    } else {
        c
    }
}

/// ASCII upper-casing, character by character.
pub open spec fn upper_ascii(s: Seq<char>) -> Seq<char> {
    Seq::new(s.len(), |i: int| upper_char(s[i]))
}

/// ASCII lower-casing, character by character.
pub open spec fn lower_ascii(s: Seq<char>) -> Seq<char> {
    Seq::new(s.len(), |i: int| lower_char(s[i]))
}

pub open spec fn is_digit(c: char) -> bool {
    '0' <= c && c <= '9'
}

pub open spec fn is_upper(c: char) -> bool {
    'A' <= c && c <= 'Z'
}

pub open spec fn is_lower(c: char) -> bool {
    'a' <= c && c <= 'z'
}

pub open spec fn is_alnum(c: char) -> bool {
    is_digit(c) || is_upper(c) || is_lower(c)
}

/// The value of a decimal digit character.
pub open spec fn digit_value(c: char) -> int {
    (c as int) - ('0' as int)
}

/// What `str::to_uppercase` gives back for `s`.
pub uninterp spec fn std_to_uppercase(s: Seq<char>) -> Seq<char>;

/// What `str::to_lowercase` gives back for `s`.
pub uninterp spec fn std_to_lowercase(s: Seq<char>) -> Seq<char>;

/// `str::trim`: the slice without its leading and trailing characters of
/// the Unicode `White_Space` property, those of [`is_white_space`].
#[verifier::external_body]
pub(crate) fn trim(s: &str) -> (r: &str)
    ensures
        r@ == trimmed(s@),
{
    s.trim()
}

/// `str::to_uppercase`: Unicode upper-casing, which on ASCII text is the
/// ASCII mapping; on other text the result is only named.
#[verifier::external_body]
pub(crate) fn to_uppercase(s: &str) -> (r: String)
    ensures
        r@ == uppercased(s@),
        !is_ascii_chars(s@) ==> r@ == std_to_uppercase(s@),
        is_ascii_chars(s@) ==> r@ == upper_ascii(s@),
{
    s.to_uppercase()
}

/// `str::to_lowercase`: Unicode lower-casing, which on ASCII text is the
/// ASCII mapping; on other text the result is only named.
#[verifier::external_body]
pub(crate) fn to_lowercase(s: &str) -> (r: String)
    ensures
        r@ == lowercased(s@),
        !is_ascii_chars(s@) ==> r@ == std_to_lowercase(s@),
        is_ascii_chars(s@) ==> r@ == lower_ascii(s@),
{
    s.to_lowercase()
}

/// `str::to_ascii_uppercase`: only `a`–`z` change.
#[verifier::external_body]
pub(crate) fn to_ascii_uppercase(s: &str) -> (r: String)
    ensures
        r@ == upper_ascii(s@),
{
    s.to_ascii_uppercase()
}

/// `str::to_ascii_lowercase`: only `A`–`Z` change.
#[verifier::external_body]
pub(crate) fn to_ascii_lowercase(s: &str) -> (r: String)
    ensures
        r@ == lower_ascii(s@),
{
    s.to_ascii_lowercase()
}

/// Two string slices hold the same characters.
pub fn str_eq(a: &str, b: &str) -> (r: bool)
    ensures
        r == (a@ == b@),
{
    let x = a.as_bytes();
    let y = b.as_bytes();
    proof {
        encode_utf8_decode_utf8(a@);
        encode_utf8_decode_utf8(b@);
    }
    if x.len() != y.len() {
        return false;
    }
    let mut i: usize = 0;
    while i < x.len()
        invariant
            x@ == a.spec_bytes(),
            y@ == b.spec_bytes(),
            x@.len() == y@.len(),
            i <= x@.len(),
            forall|j: int| 0 <= j < i ==> x@[j] == y@[j],
        decreases x@.len() - i,
    {
        if x[i] != y[i] {
            return false;
        }
        i = i + 1;
    }
    assert(x@ =~= y@);
    true
}


/// The characters a code may hold: `A`–`Z`, `0`–`9`, `_` and `-`.
pub open spec fn is_code_char(c: char) -> bool {
    is_upper(c) || is_digit(c) || c == '_' || c == '-'
}

/// Trimming as `str::trim` does it.
pub open spec fn trimmed(s: Seq<char>) -> Seq<char> {
    trim_ws(s)
}

/// Upper-casing as `str::to_uppercase` does it.
pub open spec fn uppercased(s: Seq<char>) -> Seq<char> {
    if is_ascii_chars(s) {
        upper_ascii(s)
    } else {
        std_to_uppercase(s)
    }
}

/// Lower-casing as `str::to_lowercase` does it.
pub open spec fn lowercased(s: Seq<char>) -> Seq<char> {
    if is_ascii_chars(s) {
        lower_ascii(s)
    } else {
        std_to_lowercase(s)
    }
}

/// A code made of `A`–`Z`, `0`–`9`, `_` and `-` is left alone by trimming and
/// upper-casing.
pub proof fn lemma_code_is_canonical(c: Seq<char>)
    requires
        forall|i: int| 0 <= i < c.len() ==> is_code_char(#[trigger] c[i]),
    ensures
        is_ascii_chars(c),
        trimmed(c) == c,
        uppercased(c) == c,
{
    assert(is_ascii_chars(c));
    assert(trim_start_ws(c) == c);
    assert(trim_end_ws(c) == c);
    assert(upper_ascii(c) =~= c);
}

/// A code written in lower case: still ASCII with nothing to trim,
/// upper-casing gives the code back, and lower-casing again changes nothing.
pub proof fn lemma_lower_code(c: Seq<char>)
    requires
        forall|i: int| 0 <= i < c.len() ==> is_code_char(#[trigger] c[i]),
    ensures
        is_ascii_chars(lower_ascii(c)),
        trimmed(lower_ascii(c)) == lower_ascii(c),
        uppercased(lower_ascii(c)) == c,
        lower_ascii(lower_ascii(c)) == lower_ascii(c),
{
    let l = lower_ascii(c);
    assert forall|i: int| 0 <= i < l.len() implies {
        &&& '\0' <= #[trigger] l[i] <= '\u{7f}'
        &&& !is_white_space(l[i])
        &&& upper_char(l[i]) == c[i]
        &&& lower_char(l[i]) == l[i]
    } by {
        assert(is_code_char(c[i]));
    }
    assert(is_ascii_chars(l));
    assert(trim_start_ws(l) == l);
    assert(trim_end_ws(l) == l);
    assert(upper_ascii(l) =~= c);
    assert(lower_ascii(l) =~= l);
}

/// The characters of `s`, in order.
pub fn chars_of(s: &str) -> (v: Vec<char>)
    ensures
        v@ == s@,
{
    broadcast use vstd::string::group_string_axioms;
    let mut v: Vec<char> = Vec::new();
    for c in it: s.chars()
        invariant
            it.seq() == s@,
            v@ == s@.take(it.index() as int),
    {
        v.push(c);
    }
    assert(v@ =~= s@);
    v
}

/// `i` is the first position of `c` in `s`.
pub open spec fn is_first(s: Seq<char>, c: char, i: int) -> bool {
    &&& 0 <= i < s.len()
    &&& s[i] == c
    &&& forall|j: int| 0 <= j < i ==> s[j] != c
}

/// The first position of `c` in `s`, as `str::split_once` finds it.
pub open spec fn find(s: Seq<char>, c: char) -> Option<int> {
    if exists|i: int| is_first(s, c, i) {
        Some(choose|i: int| is_first(s, c, i))
    } else {
        None
    }
}

/// The first position is unique.
pub proof fn lemma_find_is_first(s: Seq<char>, c: char, i: int)
    requires
        is_first(s, c, i),
    ensures
        find(s, c) == Some(i),
{
    let k = choose|k: int| is_first(s, c, k);
    if k < i {
        assert(s[k] != c);
    } else if i < k {
        assert(s[i] != c);
    }
}

/// A sequence without `c` has no first position of it.
pub proof fn lemma_find_absent(s: Seq<char>, c: char)
    requires
        forall|j: int| 0 <= j < s.len() ==> s[j] != c,
    ensures
        find(s, c).is_none(),
{
}

/// The first position of `c` in `v[lo..hi]`, as an index into `v`.
pub fn find_in(v: &Vec<char>, lo: usize, hi: usize, c: char) -> (r: Option<usize>)
    requires
        lo <= hi <= v@.len(),
    ensures
        match r {
            Some(i) => lo <= i < hi && find(v@.subrange(lo as int, hi as int), c) == Some(i - lo),
            None => find(v@.subrange(lo as int, hi as int), c).is_none(),
        },
{
    let ghost sub = v@.subrange(lo as int, hi as int);
    let mut i = lo;
    while i < hi
        invariant
            lo <= i <= hi <= v@.len(),
            sub == v@.subrange(lo as int, hi as int),
            forall|j: int| 0 <= j < i - lo ==> sub[j] != c,
        decreases hi - i,
    {
        if v[i] == c {
            proof {
                lemma_find_is_first(sub, c, i - lo);
            }
            return Some(i);
        }
        i = i + 1;
    }
    proof {
        lemma_find_absent(sub, c);
    }
    None
}

/// Every character of `s` is a decimal digit.
pub open spec fn all_digits(s: Seq<char>) -> bool {
    forall|i: int| 0 <= i < s.len() ==> is_digit(#[trigger] s[i])
}

/// The number a run of decimal digits spells.
pub open spec fn digits_value(s: Seq<char>) -> int
    decreases s.len(),
{
    if s.len() == 0 {
        0
    } else {
        digits_value(s.drop_last()) * 10 + digit_value(s.last())
    }
}

/// Appending digits never makes the number smaller.
pub proof fn lemma_digits_value_prefix(s: Seq<char>, k: int)
    requires
        all_digits(s),
        0 <= k <= s.len(),
    ensures
        0 <= digits_value(s.subrange(0, k)) <= digits_value(s),
    decreases s.len() - k,
{
    if k < s.len() {
        lemma_digits_value_prefix(s, k + 1);
        let t = s.subrange(0, k + 1);
        assert(t.drop_last() =~= s.subrange(0, k));
        assert(is_digit(t.last()));
    } else {
        assert(s.subrange(0, k) =~= s);
        lemma_digits_value_nonneg(s);
    }
}

pub proof fn lemma_digits_value_nonneg(s: Seq<char>)
    requires
        all_digits(s),
    ensures
        digits_value(s) >= 0,
    decreases s.len(),
{
    if s.len() > 0 {
        lemma_digits_value_nonneg(s.drop_last());
        assert(is_digit(s.last()));
    }
}

/// Every character of `v[lo..hi]` is a decimal digit.
pub fn digits_in(v: &Vec<char>, lo: usize, hi: usize) -> (r: bool)
    requires
        lo <= hi <= v@.len(),
    ensures
        r == all_digits(v@.subrange(lo as int, hi as int)),
{
    let ghost sub = v@.subrange(lo as int, hi as int);
    let mut i = lo;
    while i < hi
        invariant
            lo <= i <= hi <= v@.len(),
            sub == v@.subrange(lo as int, hi as int),
            forall|j: int| 0 <= j < i - lo ==> is_digit(#[trigger] sub[j]),
        decreases hi - i,
    {
        if !(v[i] >= '0' && v[i] <= '9') {
            assert(!is_digit(sub[i - lo]));
            return false;
        }
        i = i + 1;
    }
    true
}

/// A value group: one or more decimal digits spelling a number up to 255.
pub open spec fn group(s: Seq<char>) -> Option<u8> {
    if s.len() > 0 && all_digits(s) && digits_value(s) <= 255 {
        Some(digits_value(s) as u8)
    } else {
        None
    }
}

/// The value group `v[lo..hi]`.
pub fn group_in(v: &Vec<char>, lo: usize, hi: usize) -> (r: Option<u8>)
    requires
        lo <= hi <= v@.len(),
    ensures
        r == group(v@.subrange(lo as int, hi as int)),
{
    let ghost sub = v@.subrange(lo as int, hi as int);
    if lo == hi {
        return None;
    }
    let mut i = lo;
    while i < hi
        invariant
            lo <= i <= hi <= v@.len(),
            sub == v@.subrange(lo as int, hi as int),
            forall|j: int| 0 <= j < i - lo ==> is_digit(#[trigger] sub[j]),
        decreases hi - i,
    {
        if !(v[i] >= '0' && v[i] <= '9') {
            assert(!is_digit(sub[i - lo]));
            return None;
        }
        i = i + 1;
    }
    assert(all_digits(sub));
    let mut acc: u32 = 0;
    let mut i = lo;
    while i < hi
        invariant
            lo <= i <= hi <= v@.len(),
            sub == v@.subrange(lo as int, hi as int),
            all_digits(sub),
            acc == digits_value(sub.subrange(0, i - lo)),
            acc <= 255,
        decreases hi - i,
    {
        proof {
            let t = sub.subrange(0, i - lo + 1);
            assert(t.drop_last() =~= sub.subrange(0, i - lo));
            assert(t.last() == v@[i as int]);
            assert(is_digit(sub[i - lo]));
        }
        let d = (v[i] as u32) - ('0' as u32);
        acc = acc * 10 + d;
        if acc > 255 {
            proof {
                lemma_digits_value_prefix(sub, i - lo + 1);
            }
            return None;
        }
        i = i + 1;
    }
    assert(sub.subrange(0, sub.len() as int) =~= sub);
    Some(acc as u8)
}

/// The decimal digit character for `d` (0–9).
pub open spec fn digit_char(d: int) -> char {
    ((48 + d) as u32) as char
}

/// The decimal spelling of `n`, without leading zeros.
pub open spec fn u8_text(n: u8) -> Seq<char> {
    if n < 10 {
        seq![digit_char(n as int)]
    } else if n < 100 {
        seq![digit_char((n / 10) as int), digit_char((n % 10) as int)]
    } else {
        seq![digit_char((n / 100) as int), digit_char(((n / 10) % 10) as int), digit_char((n % 10) as int)]
    }
}

/// The spelling of a number is a value group spelling that number.
pub proof fn lemma_u8_text(n: u8)
    ensures
        u8_text(n).len() > 0,
        all_digits(u8_text(n)),
        digits_value(u8_text(n)) == n,
        group(u8_text(n)) == Some(n),
{
    let t = u8_text(n);
    if n < 10 {
        lemma_digit_char(n as int);
        assert(t.drop_last() =~= Seq::<char>::empty());
        assert(digits_value(t) == digits_value(t.drop_last()) * 10 + digit_value(t.last()));
    } else if n < 100 {
        let hi = (n / 10) as int;
        let lo = (n % 10) as int;
        lemma_digit_char(hi);
        lemma_digit_char(lo);
        let p = t.drop_last();
        assert(p =~= seq![digit_char(hi)]);
        assert(p.drop_last() =~= Seq::<char>::empty());
        assert(digits_value(p) == digits_value(p.drop_last()) * 10 + digit_value(p.last()));
        assert(digits_value(p) == hi);
        assert(digits_value(t) == hi * 10 + lo);
    } else {
        let h = (n / 100) as int;
        let m = ((n / 10) % 10) as int;
        let l = (n % 10) as int;
        lemma_digit_char(h);
        lemma_digit_char(m);
        lemma_digit_char(l);
        let p = t.drop_last();
        let q = p.drop_last();
        assert(p =~= seq![digit_char(h), digit_char(m)]);
        assert(q =~= seq![digit_char(h)]);
        assert(q.drop_last() =~= Seq::<char>::empty());
        assert(digits_value(q) == digits_value(q.drop_last()) * 10 + digit_value(q.last()));
        assert(digits_value(q) == h);
        assert(digits_value(p) == h * 10 + m);
        assert(digits_value(t) == (h * 10 + m) * 10 + l);
        assert(h * 100 + m * 10 + l == n);
    }
}

/// The digit character of `d` is a digit worth `d`.
pub proof fn lemma_digit_char(d: int)
    requires
        0 <= d < 10,
    ensures
        is_digit(digit_char(d)),
        digit_value(digit_char(d)) == d,
{
    assert(digit_char(d) as int == 48 + d);
}

fn digit_str(d: u8) -> (r: &'static str)
    requires
        d < 10,
    ensures
        r@ == seq![digit_char(d as int)],
{
    proof {
        reveal_strlit("0");
        reveal_strlit("1");
        reveal_strlit("2");
        reveal_strlit("3");
        reveal_strlit("4");
        reveal_strlit("5");
        reveal_strlit("6");
        reveal_strlit("7");
        reveal_strlit("8");
        reveal_strlit("9");
    }
    let r = match d {
        0 => "0",
        1 => "1",
        2 => "2",
        3 => "3",
        4 => "4",
        5 => "5",
        6 => "6",
        7 => "7",
        8 => "8",
        _ => "9",
    };
    assert(r@ =~= seq![digit_char(d as int)]);
    r
}

/// Appends the decimal spelling of `n`.
pub fn push_u8(r: &mut String, n: u8)
    ensures
        final(r)@ == old(r)@ + u8_text(n),
{
    if n < 10 {
        r.append(digit_str(n));
    } else if n < 100 {
        r.append(digit_str(n / 10));
        r.append(digit_str(n % 10));
    } else {
        r.append(digit_str(n / 100));
        r.append(digit_str((n / 10) % 10));
        r.append(digit_str(n % 10));
    }
    assert(r@ =~= old(r)@ + u8_text(n));
}

} // verus!
