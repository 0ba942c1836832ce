//! The filter-matching combinators.
//!
//! Every queryable entity is matched against a partially-specified filter
//! object: an omitted filter field imposes no constraint, a present scalar
//! field demands value equality, and a present collection field demands a
//! non-empty intersection (or, for an explicit null, that the entity's
//! collection is absent too).  This module defines the shared intersection
//! semantics; the per-entity rules live with the entities.

use crate::card::card_trait::Trait;
use crate::strutil::string_eq;
use vstd::prelude::*;

verus! {

/// Two sequences share at least one element.
pub open spec fn seq_intersects<T>(a: Seq<T>, b: Seq<T>) -> bool {
    exists|i: int, j: int| 0 <= i < a.len() && 0 <= j < b.len() && a[i] == b[j]
}

/// Do two position lists share a position?
pub fn u32_intersects(a: &Vec<u32>, b: &Vec<u32>) -> (r: bool)
    ensures
        r == seq_intersects(a@, b@),
{
    let mut i: usize = 0;
    while i < a.len()
        invariant
            0 <= i <= a@.len(),
            forall|i2: int, j2: int|
                0 <= i2 < i && 0 <= j2 < b@.len() ==> a@[i2] != b@[j2],
        decreases a@.len() - i,
    {
        let mut j: usize = 0;
        while j < b.len()
            invariant
                0 <= i < a@.len(),
                0 <= j <= b@.len(),
                forall|j2: int| 0 <= j2 < j ==> a@[i as int] != b@[j2],
            decreases b@.len() - j,
        {
            if a[i] == b[j] {
                return true;
            }
            j = j + 1;
        }
        i = i + 1;
    }
    false
}

/// Do two trait lists share a trait?
pub fn trait_intersects(a: &Vec<Trait>, b: &Vec<Trait>) -> (r: bool)
    ensures
        r == seq_intersects(a@, b@),
{
    let mut i: usize = 0;
    while i < a.len()
        invariant
            0 <= i <= a@.len(),
            forall|i2: int, j2: int|
                0 <= i2 < i && 0 <= j2 < b@.len() ==> a@[i2] != b@[j2],
        decreases a@.len() - i,
    {
        let mut j: usize = 0;
        while j < b.len()
            invariant
                0 <= i < a@.len(),
                0 <= j <= b@.len(),
                forall|j2: int| 0 <= j2 < j ==> a@[i as int] != b@[j2],
            decreases b@.len() - j,
        {
            if a[i] == b[j] {
                return true;
            }
            j = j + 1;
        }
        i = i + 1;
    }
    false
}

/// Do two name lists share a name (by character content)?
pub fn string_intersects(a: &Vec<String>, b: &Vec<String>) -> (r: bool)
    ensures
        r == seq_intersects(a.deep_view(), b.deep_view()),
{
    let mut i: usize = 0;
    while i < a.len()
        invariant
            0 <= i <= a@.len(),
            forall|i2: int, j2: int|
                0 <= i2 < i && 0 <= j2 < b@.len() ==> a.deep_view()[i2] != b.deep_view()[j2],
        decreases a@.len() - i,
    {
        let mut j: usize = 0;
        while j < b.len()
            invariant
                0 <= i < a@.len(),
                0 <= j <= b@.len(),
                forall|j2: int| 0 <= j2 < j ==> a.deep_view()[i as int] != b.deep_view()[j2],
            decreases b@.len() - j,
        {
            if string_eq(&a[i], &b[j]) {
                proof {
                    assert(a.deep_view()[i as int] == b.deep_view()[j as int]);
                }
                return true;
            }
            j = j + 1;
        }
        i = i + 1;
    }
    false
}

/// The optional-equality rule for character strings: both absent, or both
/// present with the same characters.
pub open spec fn opt_str_eq(a: Option<String>, b: Option<String>) -> bool {
    match (a, b) {
        (Option::None, Option::None) => true,
        (Option::Some(x), Option::Some(y)) => x@ == y@,
        _ => false,
    }
}

/// Decide `opt_str_eq` executably.
pub fn opt_string_eq(a: &Option<String>, b: &Option<String>) -> (r: bool)
    ensures
        r == opt_str_eq(*a, *b),
{
    match (a, b) {
        (Option::None, Option::None) => true,
        (Option::Some(x), Option::Some(y)) => string_eq(x, y),
        _ => false,
    }
}

} // verus!
