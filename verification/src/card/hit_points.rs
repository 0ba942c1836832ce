//! The `HitPoints` scalar: a flat number, or a number multiplied by the
//! count of participating players (written `"N:player:"` in the source
//! document).

use crate::digits::{dec_rep, spec_parse_u8};
use vstd::prelude::*;

verus! {

/// Printed hit points.  `PerPlayer(n)` means "`n` times the number of
/// players", a distinct notion that never equals a flat `Number`.
#[derive(Clone, Copy, Debug, PartialEq, Eq, Structural)]
pub enum HitPoints {
    Number(u8),
    PerPlayer(u8),
}

/// Raised when a string is neither a `u8` numeral nor a per-player count.
/// Holds the offending input text.
#[derive(Debug, PartialEq, Eq)]
pub struct ParseHitPointsError(pub String);

impl ParseHitPointsError {
    /// A human-readable description of the failure.
    pub fn message(&self) -> (r: String)
        ensures
            r@ == self.0@ + " is not a Number or per player"@,
    {
        self.0.clone().concat(" is not a Number or per player")
    }
}

/// Does the string end in the `:player:` marker?
pub open spec fn has_player_suffix(s: Seq<char>) -> bool {
    let n = s.len() as int;
    &&& n >= 8
    &&& s[n - 8] == ':'
    &&& s[n - 7] == 'p'
    &&& s[n - 6] == 'l'
    &&& s[n - 5] == 'a'
    &&& s[n - 4] == 'y'
    &&& s[n - 3] == 'e'
    &&& s[n - 2] == 'r'
    &&& s[n - 1] == ':'
}

impl HitPoints {
    /// The textual grammar: a `u8` numeral parses as `Number`; a `u8`
    /// numeral followed by `:player:` parses as `PerPlayer`; nothing else
    /// parses.
    pub open spec fn spec_parse(s: Seq<char>) -> Option<HitPoints> {
        if spec_parse_u8(s) is Some {
            Some(HitPoints::Number(spec_parse_u8(s)->0))
        } else if has_player_suffix(s) && spec_parse_u8(s.subrange(0, s.len() - 8)) is Some {
            Some(HitPoints::PerPlayer(spec_parse_u8(s.subrange(0, s.len() - 8))->0))
        } else {
            None
        }
    }

    /// The canonical rendering: the decimal numeral, or `"N per Player"`.
    pub open spec fn spec_text(self) -> Seq<char> {
        match self {
            HitPoints::Number(n) => dec_rep(n as int),
            HitPoints::PerPlayer(n) => dec_rep(n as int) + " per Player"@,
        }
    }

    /// Parse hit points from their textual encoding.
    pub fn from_str(value: &str) -> (r: Result<HitPoints, ParseHitPointsError>)
        ensures
            match r {
                Ok(p) => Self::spec_parse(value@) == Some(p),
                Err(e) => Self::spec_parse(value@) is None && e.0@ == value@,
            },
    {
        let n = value.unicode_len();
        proof {
            assert(value@.subrange(0, n as int) =~= value@);
        }
        if let Some(num) = crate::digits::parse_u8_range(value, 0, n) {
            return Ok(HitPoints::Number(num));
        }
        if n >= 9 && value.get_char(n - 8) == ':' && value.get_char(n - 7) == 'p'
            && value.get_char(n - 6) == 'l' && value.get_char(n - 5) == 'a' && value.get_char(
            n - 4,
        ) == 'y' && value.get_char(n - 3) == 'e' && value.get_char(n - 2) == 'r' && value.get_char(
            n - 1,
        ) == ':' {
            if let Some(num) = crate::digits::parse_u8_range(value, 0, n - 8) {
                return Ok(HitPoints::PerPlayer(num));
            }
        }
        Err(ParseHitPointsError(String::from_str(value)))
    }

    /// Render these hit points back to their textual encoding.
    pub fn to_text(&self) -> (r: String)
        ensures
            r@ == self.spec_text(),
    {
        match self {
            HitPoints::Number(n) => crate::digits::u8_to_string(*n),
            HitPoints::PerPlayer(n) => crate::digits::u8_to_string(*n).concat(" per Player"),
        }
    }
}

} // verus!
