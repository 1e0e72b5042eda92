//! [`ParseError`]: the one error every parser in this crate returns.

use vstd::prelude::*;

verus! {

/// What a parser would have accepted.
#[derive(Debug, Clone, PartialEq, Eq)]
pub enum Expected {
    /// A closed set of codes.
    OneOf(&'static [&'static str]),
    /// A free-form shape, e.g. `"A-B:C.D.E*F"`.
    Format(&'static str),
}

/// A string that could not be parsed into one of this crate's types.
#[derive(Debug, Clone, PartialEq, Eq)]
pub struct ParseError {
    type_label: &'static str,
    input: String,
    expected: Expected,
}

/// What `format!("{:?}", s)` writes for a string: the text quoted and
/// escaped the way `Debug` does it.
pub uninterp spec fn debug_quoted(s: Seq<char>) -> Seq<char>;

/// `<str as Debug>::fmt`: the quoted, escaped form of `s`.
#[verifier::external_body]
pub(crate) fn quote(s: &str) -> (r: String)
    ensures
        r@ == debug_quoted(s@),
{
    format!("{:?}", s)
}

/// `codes` joined with `", "` between them.
pub open spec fn joined(codes: Seq<&'static str>) -> Seq<char>
    decreases codes.len(),
{
    if codes.len() == 0 {
        Seq::empty()
    } else if codes.len() == 1 {
        codes[0]@
    } else {
        joined(codes.drop_last()) + ", "@ + codes.last()@
    }
}

impl ParseError {
    pub closed spec fn spec_type_label(&self) -> Seq<char> {
        self.type_label@
    }

    pub closed spec fn spec_input(&self) -> Seq<char> {
        self.input@
    }

    pub closed spec fn spec_expected(&self) -> Expected {
        self.expected
    }

    /// A value rejected against a closed set of codes.
    pub fn one_of(type_label: &'static str, input: &str, codes: &'static [&'static str]) -> (e: Self)
        ensures
            e.spec_type_label() == type_label@,
            e.spec_input() == input@,
            e.spec_expected() == Expected::OneOf(codes),
    {
        ParseError { type_label, input: input.to_owned(), expected: Expected::OneOf(codes) }
    }

    /// A value rejected against a format description.
    pub fn format(type_label: &'static str, input: &str, shape: &'static str) -> (e: Self)
        ensures
            e.spec_type_label() == type_label@,
            e.spec_input() == input@,
            e.spec_expected() == Expected::Format(shape),
    {
        ParseError { type_label, input: input.to_owned(), expected: Expected::Format(shape) }
    }

    /// The type that rejected the input, e.g. `"Sparte"`.
    pub fn type_label(&self) -> (r: &'static str)
        ensures
            r@ == self.spec_type_label(),
    {
        self.type_label
    }

    /// The input that was rejected, verbatim.
    pub fn input(&self) -> (r: &str)
        ensures
            r@ == self.spec_input(),
    {
        self.input.as_str()
    }

    /// The accepted codes, when the type has a closed set of them.
    pub fn expected_values(&self) -> (r: Option<&'static [&'static str]>)
        ensures
            r == (match self.spec_expected() {
                Expected::OneOf(c) => Some(c),
                Expected::Format(_) => None,
            }),
    {
        match self.expected {
            Expected::OneOf(codes) => Some(codes),
            Expected::Format(_) => None,
        }
    }

    /// The message `Display` writes:
    /// `invalid <type> <quoted input>: expected <what>`.
    pub open spec fn spec_message(&self) -> Seq<char> {
        "invalid "@ + self.spec_type_label() + " "@ + debug_quoted(self.spec_input()) + ": expected "@
            + match self.spec_expected() {
            Expected::OneOf(codes) => "one of "@ + joined(codes@),
            Expected::Format(shape) => shape@,
        }
    }

    /// The human-readable message, naming the type, the input and what would
    /// have been accepted.
    pub fn to_string(&self) -> (r: String)
        ensures
            r@ == self.spec_message(),
    {
        let mut r = String::from_str("invalid ");
        r.append(self.type_label);
        r.append(" ");
        let q = quote(self.input.as_str());
        r.append(q.as_str());
        r.append(": expected ");
        let ghost head = r@;
        match self.expected {
            Expected::OneOf(codes) => {
                r.append("one of ");
                let ghost base = r@;
                let mut i: usize = 0;
                while i < codes.len()
                    invariant
                        0 <= i <= codes@.len(),
                        r@ == base + joined(codes@.subrange(0, i as int)),
                    decreases codes@.len() - i,
                {
                    proof {
                        let t = codes@.subrange(0, i as int + 1);
                        assert(t.drop_last() =~= codes@.subrange(0, i as int));
                        assert(t.last() == codes@[i as int]);
                    }
                    if i > 0 {
                        r.append(", ");
                    }
                    r.append(codes[i]);
                    i = i + 1;
                }
                assert(codes@.subrange(0, codes@.len() as int) =~= codes@);
            },
            Expected::Format(shape) => {
                r.append(shape);
            },
        }
        r
    }
}

} // verus!
