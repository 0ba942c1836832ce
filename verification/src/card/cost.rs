//! The `Cost` scalar: a resource cost that is either a number in `0..=255`
//! or the symbolic `X` ("variable, decided at play time").

use crate::digits::{dec_rep, spec_parse_u8};
use vstd::prelude::*;

verus! {

/// A printed card cost.  `X` is a distinct atom: it never equals a number
/// and never coerces to or from one.
#[derive(Clone, Copy, Debug, PartialEq, Eq, Structural)]
pub enum Cost {
    Number(u8),
    X,
}

/// Raised when a string is neither a `u8` numeral nor `"X"`.
/// Holds the offending input text.
#[derive(Debug, PartialEq, Eq)]
pub struct ParseCostError(pub String);

impl ParseCostError {
    /// A human-readable description of the failure.
    pub fn message(&self) -> (r: String)
        ensures
            r@ == self.0@ + " is not a Number or X"@,
    {
        self.0.clone().concat(" is not a Number or X")
    }
}

impl Cost {
    /// The textual grammar: a `u8` numeral parses as `Number`, the exact
    /// string `"X"` parses as `X`, and nothing else parses.
    pub open spec fn spec_parse(s: Seq<char>) -> Option<Cost> {
        if spec_parse_u8(s) is Some {
            Some(Cost::Number(spec_parse_u8(s)->0))
        } else if s.len() == 1 && s[0] == 'X' {
            Some(Cost::X)
        } else {
            None
        }
    }

    /// The canonical rendering: the decimal numeral, or `"X"`.
    pub open spec fn spec_text(self) -> Seq<char> {
        match self {
            Cost::Number(n) => dec_rep(n as int),
            Cost::X => seq!['X'],
        }
    }

    /// Parse a cost from its textual encoding.
    pub fn from_str(value: &str) -> (r: Result<Cost, ParseCostError>)
        ensures
            match r {
                Ok(p) => Self::spec_parse(value@) == Some(p),
                Err(e) => Self::spec_parse(value@) is None && e.0@ == value@,
            },
    {
        let n = value.unicode_len();
        proof {
            assert(value@.subrange(0, n as int) =~= value@);
        }
        if let Some(num) = crate::digits::parse_u8_range(value, 0, n) {
            Ok(Cost::Number(num))
        } else if n == 1 && value.get_char(0) == 'X' {
            Ok(Cost::X)
        } else {
            Err(ParseCostError(String::from_str(value)))
        }
    }

    /// Render this cost back to its textual encoding.
    pub fn to_text(&self) -> (r: String)
        ensures
            r@ == self.spec_text(),
    {
        match self {
            Cost::Number(n) => crate::digits::u8_to_string(*n),
            Cost::X => {
                let r = String::from_str("X");
                proof {
                    reveal_strlit("X");
                    assert(r@ =~= seq!['X']);
                }
                r
            },
        }
    }
}

} // verus!
