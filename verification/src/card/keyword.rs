//! The `Keyword` scalar: a mixed vocabulary of parameterized entries
//! (`"Incite N"`, `"Hinder N"`) and bare tags, parsed from one free-text
//! token.

use crate::digits::{all_digits, dec_rep, digits_val, lemma_digits_val_nonneg, spec_parse_u8};
use crate::strutil::str_eq;
use vstd::prelude::*;

verus! {

/// A keyword printed on a card side.
#[derive(Clone, Copy, Debug, PartialEq, Eq, Structural)]
pub enum Keyword {
    Incite(u8),
    Hinder(u8),
    Quickstrike,
    Stalwart,
    Steady,
    Toughness,
}

/// Raised when a token is not a recognized keyword.  Each variant holds the
/// offending input text.
#[derive(Debug, PartialEq, Eq)]
pub enum ParseKeywordError {
    /// The token matches no keyword at all.
    UnknownVariant(String),
    /// The token is `Incite`/`Hinder` with a numeric argument out of range.
    InvalidValueX(String),
}

/// Does the string start with the parameterized keyword `head` (either
/// `"Incite "` or `"Hinder "`, both seven characters long)?
pub open spec fn has_keyword_head(s: Seq<char>, head: Seq<char>) -> bool {
    s.len() > 7 && s.subrange(0, 7) == head
}

/// An `Incite`/`Hinder` token whose argument is all digits but too large
/// for a `u8`.
pub open spec fn spec_argument_overflow(s: Seq<char>) -> bool {
    &&& (has_keyword_head(s, "Incite "@) || has_keyword_head(s, "Hinder "@))
    &&& all_digits(s.subrange(7, s.len() as int))
    &&& digits_val(s.subrange(7, s.len() as int)) > 255
}

impl Keyword {
    /// The textual grammar: the four bare tags parse to their unit
    /// variants; `"Incite N"` / `"Hinder N"` parse to the parameterized
    /// variants when `N` is a `u8` numeral; nothing else parses.
    pub open spec fn spec_parse(s: Seq<char>) -> Option<Keyword> {
        if s == "Quickstrike"@ {
            Some(Keyword::Quickstrike)
        } else if s == "Stalwart"@ {
            Some(Keyword::Stalwart)
        } else if s == "Steady"@ {
            Some(Keyword::Steady)
        } else if s == "Toughness"@ {
            Some(Keyword::Toughness)
        } else if has_keyword_head(s, "Incite "@) && spec_parse_u8(
            s.subrange(7, s.len() as int),
        ) is Some {
            Some(Keyword::Incite(spec_parse_u8(s.subrange(7, s.len() as int))->0))
        } else if has_keyword_head(s, "Hinder "@) && spec_parse_u8(
            s.subrange(7, s.len() as int),
        ) is Some {
            Some(Keyword::Hinder(spec_parse_u8(s.subrange(7, s.len() as int))->0))
        } else {
            None
        }
    }

    /// The canonical rendering of a keyword.
    pub open spec fn spec_text(self) -> Seq<char> {
        match self {
            Keyword::Incite(n) => "Incite "@ + dec_rep(n as int),
            Keyword::Hinder(n) => "Hinder "@ + dec_rep(n as int),
            Keyword::Quickstrike => "Quickstrike"@,
            Keyword::Stalwart => "Stalwart"@,
            Keyword::Steady => "Steady"@,
            Keyword::Toughness => "Toughness"@,
        }
    }

    /// Parse a keyword from its textual encoding.  An `Incite`/`Hinder`
    /// token whose all-digit argument exceeds a `u8` is rejected as
    /// `InvalidValueX`; every other failure is `UnknownVariant`.
    pub fn from_str(value: &str) -> (r: Result<Keyword, ParseKeywordError>)
        ensures
            match r {
                Ok(k) => Self::spec_parse(value@) == Some(k),
                Err(ParseKeywordError::InvalidValueX(t)) => {
                    &&& Self::spec_parse(value@) is None
                    &&& spec_argument_overflow(value@)
                    &&& t@ == value@
                },
                Err(ParseKeywordError::UnknownVariant(t)) => {
                    &&& Self::spec_parse(value@) is None
                    &&& !spec_argument_overflow(value@)
                    &&& t@ == value@
                },
            },
    {
        if str_eq(value, "Quickstrike") {
            return Ok(Keyword::Quickstrike);
        }
        if str_eq(value, "Stalwart") {
            return Ok(Keyword::Stalwart);
        }
        if str_eq(value, "Steady") {
            return Ok(Keyword::Steady);
        }
        if str_eq(value, "Toughness") {
            return Ok(Keyword::Toughness);
        }
        let n = value.unicode_len();
        if n > 7 {
            let head = value.substring_char(0, 7);
            let is_incite = str_eq(head, "Incite ");
            let is_hinder = if is_incite {
                false
            } else {
                str_eq(head, "Hinder ")
            };
            proof {
                // The two heads differ, so at most one spec branch applies.
                reveal_strlit("Incite ");
                reveal_strlit("Hinder ");
            }
            if is_incite || is_hinder {
                let ghost tail = value@.subrange(7, n as int);
                if crate::digits::all_digits_range(value, 7, n) {
                    match crate::digits::parse_u8_range(value, 7, n) {
                        Some(v) => {
                            if is_incite {
                                return Ok(Keyword::Incite(v));
                            } else {
                                return Ok(Keyword::Hinder(v));
                            }
                        },
                        None => {
                            proof {
                                lemma_digits_val_nonneg(tail);
                            }
                            return Err(ParseKeywordError::InvalidValueX(String::from_str(value)));
                        },
                    }
                }
            }
        }
        Err(ParseKeywordError::UnknownVariant(String::from_str(value)))
    }

    /// Render this keyword back to its textual encoding.
    pub fn to_text(&self) -> (r: String)
        ensures
            r@ == self.spec_text(),
    {
        match self {
            Keyword::Incite(n) => String::from_str("Incite ").concat(
                crate::digits::u8_to_string(*n).as_str(),
            ),
            Keyword::Hinder(n) => String::from_str("Hinder ").concat(
                crate::digits::u8_to_string(*n).as_str(),
            ),
            Keyword::Quickstrike => String::from_str("Quickstrike"),
            Keyword::Stalwart => String::from_str("Stalwart"),
            Keyword::Steady => String::from_str("Steady"),
            Keyword::Toughness => String::from_str("Toughness"),
        }
    }
}

} // verus!
