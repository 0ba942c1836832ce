//! Decimal digit grammar shared by the scalar card attributes.
//!
//! The catalog's scalar values (`BasicPower`, `Cost`, `HitPoints`, `Keyword`
//! arguments) all embed small unsigned decimal numerals in their textual
//! encodings.  This module defines the numeral grammar once: what a digit is,
//! the value of a digit string, parsing a character range of a `&str` as a
//! `u8`, and rendering a `u8` back to its canonical decimal text.

use vstd::prelude::*;

verus! {

/// A decimal digit, `'0'` through `'9'`.
pub open spec fn is_digit_char(c: char) -> bool {
    48 <= c as u32 <= 57
}

/// The numeric value of one digit character.
pub open spec fn digit_val(c: char) -> int {
    c as u32 - 48
}

/// The digit character for a value in `0..=9`.
pub open spec fn digit_char(d: int) -> char {
    if d == 0 {
        '0'
    } else if d == 1 {
        '1'
    } else if d == 2 {
        '2'
    } else if d == 3 {
        '3'
    } else if d == 4 {
        '4'
    } else if d == 5 {
        '5'
    } else if d == 6 {
        '6'
    } else if d == 7 {
        '7'
    } else if d == 8 {
        '8'
    } else {
        '9'
    }
}

/// Every character of the sequence is a decimal digit.
pub open spec fn all_digits(s: Seq<char>) -> bool {
    forall|i: int| 0 <= i < s.len() ==> is_digit_char(#[trigger] s[i])
}

/// The value of a digit string read most-significant first.
/// Leading zeroes are allowed and do not change the value.
pub open spec fn digits_val(s: Seq<char>) -> int
    decreases s.len(),
{
    if s.len() == 0 {
        0
    } else {
        digits_val(s.drop_last()) * 10 + digit_val(s.last())
    }
}

/// The numeral grammar for a `u8`: a non-empty, all-digit string whose value
/// fits in `0..=255`.  Anything else is not a `u8` numeral.
pub open spec fn spec_parse_u8(s: Seq<char>) -> Option<u8> {
    if s.len() > 0 && all_digits(s) && 0 <= digits_val(s) <= 255 {
        Some(digits_val(s) as u8)
    } else {
        None
    }
}

/// The canonical decimal rendering of a non-negative number: no sign and no
/// leading zeroes (a lone `0` for zero).
pub open spec fn dec_rep(n: int) -> Seq<char>
    decreases n,
{
    if n < 10 {
        seq![digit_char(n)]
    } else {
        dec_rep(n / 10).push(digit_char(n % 10))
    }
}

/// A digit string is worth at least as much as any of its prefixes.
proof fn lemma_digits_val_prefix(s: Seq<char>, k: int)
    requires
        0 <= k <= s.len(),
        all_digits(s),
    ensures
        digits_val(s) >= digits_val(s.subrange(0, k)),
        digits_val(s) >= 0,
    decreases s.len(),
{
    if s.len() == 0 {
        assert(s.subrange(0, k) =~= s);
    } else {
        let t = s.drop_last();
        assert(t =~= s.subrange(0, s.len() - 1));
        let k2 = if k <= t.len() { k } else { t.len() as int };
        lemma_digits_val_prefix(t, k2);
        assert(is_digit_char(s.last()));
        assert(digits_val(s) >= digits_val(t));
        if k == s.len() {
            assert(s.subrange(0, k) =~= s);
        } else {
            assert(s.subrange(0, k) =~= t.subrange(0, k));
        }
    }
}

/// The value of an all-digit string is never negative.
pub proof fn lemma_digits_val_nonneg(s: Seq<char>)
    requires
        all_digits(s),
    ensures
        digits_val(s) >= 0,
{
    lemma_digits_val_prefix(s, 0);
}

/// Parse the character range `[from, to)` of `s` as a `u8` numeral.
pub fn parse_u8_range(s: &str, from: usize, to: usize) -> (r: Option<u8>)
    requires
        from <= to <= s@.len(),
    ensures
        r == spec_parse_u8(s@.subrange(from as int, to as int)),
{
    let ghost whole = s@.subrange(from as int, to as int);
    if from == to {
        return None;
    }
    let mut i = from;
    let mut val: u32 = 0;
    while i < to
        invariant
            from <= i <= to <= s@.len(),
            all_digits(s@.subrange(from as int, i as int)),
            val == digits_val(s@.subrange(from as int, i as int)),
            val <= 255,
            whole == s@.subrange(from as int, to as int),
        decreases to - i,
    {
        let c = s.get_char(i);
        let d = c as u32;
        if d < 48 || d > 57 {
            proof {
                assert(whole[i - from] == s@[i as int]);
                assert(!all_digits(whole));
            }
            return None;
        }
        let next: u32 = val * 10 + (d - 48);
        proof {
            let pre = s@.subrange(from as int, i as int);
            let ext = s@.subrange(from as int, i + 1);
            assert(ext.drop_last() =~= pre);
            assert(ext.last() == s@[i as int]);
            assert(digits_val(ext) == next);
        }
        if next > 255 {
            proof {
                let ext = s@.subrange(from as int, i + 1);
                if all_digits(whole) {
                    lemma_digits_val_prefix(whole, i + 1 - from);
                    assert(whole.subrange(0, i + 1 - from) =~= ext);
                    assert(digits_val(whole) > 255);
                }
            }
            return None;
        }
        val = next;
        i = i + 1;
    }
    proof {
        assert(whole =~= s@.subrange(from as int, i as int));
    }
    Some(val as u8)
}

/// Does the character range `[from, to)` of `s` consist of digits only?
/// (True for an empty range.)
pub fn all_digits_range(s: &str, from: usize, to: usize) -> (r: bool)
    requires
        from <= to <= s@.len(),
    ensures
        r == all_digits(s@.subrange(from as int, to as int)),
{
    let ghost whole = s@.subrange(from as int, to as int);
    let mut i = from;
    while i < to
        invariant
            from <= i <= to <= s@.len(),
            all_digits(s@.subrange(from as int, i as int)),
            whole == s@.subrange(from as int, to as int),
        decreases to - i,
    {
        let c = s.get_char(i);
        let d = c as u32;
        if d < 48 || d > 57 {
            proof {
                assert(whole[i - from] == s@[i as int]);
            }
            return false;
        }
        proof {
            let ext = s@.subrange(from as int, i + 1);
            assert(forall|j: int| 0 <= j < ext.len() ==> is_digit_char(#[trigger] ext[j]));
        }
        i = i + 1;
    }
    proof {
        assert(whole =~= s@.subrange(from as int, i as int));
    }
    true
}

/// The single-character string for one digit value.
pub fn digit_to_str(d: u8) -> (s: &'static str)
    requires
        d <= 9,
    ensures
        s@ =~= seq![digit_char(d as int)],
{
    match d {
        0 => {
            proof {
                reveal_strlit("0");
            }
            "0"
        },
        1 => {
            proof {
                reveal_strlit("1");
            }
            "1"
        },
        2 => {
            proof {
                reveal_strlit("2");
            }
            "2"
        },
        3 => {
            proof {
                reveal_strlit("3");
            }
            "3"
        },
        4 => {
            proof {
                reveal_strlit("4");
            }
            "4"
        },
        5 => {
            proof {
                reveal_strlit("5");
            }
            "5"
        },
        6 => {
            proof {
                reveal_strlit("6");
            }
            "6"
        },
        7 => {
            proof {
                reveal_strlit("7");
            }
            "7"
        },
        8 => {
            proof {
                reveal_strlit("8");
            }
            "8"
        },
        _ => {
            proof {
                reveal_strlit("9");
            }
            "9"
        },
    }
}

/// Render a `u8` as its canonical decimal text.
pub fn u8_to_string(n: u8) -> (r: String)
    ensures
        r@ == dec_rep(n as int),
{
    if n < 10 {
        let r = String::from_str(digit_to_str(n));
        proof {
            assert(r@ =~= dec_rep(n as int));
        }
        r
    } else if n < 100 {
        let hi: u8 = n / 10;
        let lo: u8 = n % 10;
        let r = String::from_str(digit_to_str(hi)).concat(digit_to_str(lo));
        proof {
            assert(dec_rep(n as int) == dec_rep(n as int / 10).push(digit_char(n as int % 10)));
            assert(r@ =~= dec_rep(n as int));
        }
        r
    } else {
        let hi: u8 = n / 100;
        let mid: u8 = (n / 10) % 10;
        let lo: u8 = n % 10;
        let r = String::from_str(digit_to_str(hi)).concat(digit_to_str(mid)).concat(
            digit_to_str(lo),
        );
        proof {
            let m = n as int;
            assert(dec_rep(m) == dec_rep(m / 10).push(digit_char(m % 10)));
            assert(dec_rep(m / 10) == dec_rep(m / 10 / 10).push(digit_char(m / 10 % 10)));
            assert(m / 10 / 10 == m / 100) by (nonlinear_arith);
            assert(r@ =~= dec_rep(m));
        }
        r
    }
}

} // verus!
