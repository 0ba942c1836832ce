//! A card's membership in a named product set.

use crate::catalog::{spec_find_set, Ctx};
use crate::filter::{seq_intersects, u32_intersects};
use crate::product::SetType;
use crate::strutil::string_eq;
use vstd::prelude::*;

verus! {

/// A reference from a card product to a named set, with the card's
/// positions inside that set.
#[derive(Clone, Debug)]
pub struct CardSet {
    pub name: String,
    pub positions: Option<Vec<u32>>,
}

/// A filter over card sets; every field is optional.
#[derive(Clone, Debug)]
pub struct CardSetInput {
    pub name: Option<String>,
    pub positions: Option<Option<Vec<u32>>>,
    pub set_type: Option<SetType>,
}

impl Default for CardSetInput {
    /// The empty card-set filter: no constraints.
    fn default() -> (r: CardSetInput)
        ensures
            r.name is None,
            r.positions is None,
            r.set_type is None,
    {
        CardSetInput { name: None, positions: None, set_type: None }
    }
}

impl CardSet {
    /// The set's kind, resolved through the catalog index.
    pub fn set_type<'a>(&self, context: &'a Ctx) -> (r: Option<&'a SetType>)
        ensures
            match r {
                Some(t) => {
                    &&& spec_find_set(context.sets@, self.name@) is Some
                    &&& *t == spec_find_set(context.sets@, self.name@)->0.set_type
                },
                None => spec_find_set(context.sets@, self.name@) is None,
            },
    {
        match context.set(self.name.as_str()) {
            Some(s) => Some(&s.set_type),
            None => None,
        }
    }

    /// A card set satisfies a filter when: a present `name` is equal; a
    /// present `positions` is an explicit null and the set has none, or a
    /// concrete list sharing at least one position with the set's; and a
    /// present `set_type` equals the kind of the set this name resolves to
    /// in the catalog (an unresolved name never matches).
    pub open spec fn spec_included(self, input: CardSetInput, ctx: Ctx) -> bool {
        &&& match input.name {
            Option::None => true,
            Option::Some(n) => self.name@ == n@,
        }
        &&& match input.positions {
            Option::None => true,
            Option::Some(Option::None) => self.positions is None,
            Option::Some(Option::Some(v)) => self.positions is Some && seq_intersects(
                v@,
                self.positions->0@,
            ),
        }
        &&& match input.set_type {
            Option::None => true,
            Option::Some(t) => spec_find_set(ctx.sets@, self.name@) is Some && spec_find_set(
                ctx.sets@,
                self.name@,
            )->0.set_type == t,
        }
    }

    /// Decide whether this card set satisfies the filter.
    pub fn included(&self, input: &CardSetInput, context: &Ctx) -> (r: bool)
        ensures
            r == self.spec_included(*input, *context),
    {
        let name_ok = match &input.name {
            Option::None => true,
            Option::Some(n) => string_eq(&self.name, n),
        };
        let positions_ok = match &input.positions {
            Option::None => true,
            Option::Some(inner) => match (inner, &self.positions) {
                (Option::None, Option::None) => true,
                (Option::Some(v), Option::Some(e)) => u32_intersects(v, e),
                _ => false,
            },
        };
        let type_ok = match &input.set_type {
            Option::None => true,
            Option::Some(t) => match self.set_type(context) {
                Some(st) => *st == *t,
                None => false,
            },
        };
        name_ok && positions_ok && type_ok
    }

    /// The empty filter is the identity of card-set matching: a filter
    /// with every field absent matches every card set, whatever the
    /// catalog holds.
    pub proof fn lemma_empty_filter_matches(self, input: CardSetInput, ctx: Ctx)
        requires
            input.name is None,
            input.positions is None,
            input.set_type is None,
        ensures
            self.spec_included(input, ctx),
    {
    }
}

/// Does any card set of `sets` satisfy any filter of `inputs`?
pub(crate) fn any_card_set_included(
    sets: &Vec<CardSet>,
    inputs: &Vec<CardSetInput>,
    context: &Ctx,
) -> (r: bool)
    ensures
        r == exists|i: int, j: int|
            0 <= i < sets@.len() && 0 <= j < inputs@.len() && (#[trigger] sets@[i].spec_included(
                inputs@[j],
                *context,
            )),
{
    let mut i: usize = 0;
    while i < sets.len()
        invariant
            0 <= i <= sets@.len(),
            forall|i2: int, j2: int|
                0 <= i2 < i && 0 <= j2 < inputs@.len() ==> !(#[trigger] sets@[i2].spec_included(
                    inputs@[j2],
                    *context,
                )),
        decreases sets@.len() - i,
    {
        let mut j: usize = 0;
        while j < inputs.len()
            invariant
                0 <= i < sets@.len(),
                0 <= j <= inputs@.len(),
                forall|j2: int|
                    0 <= j2 < j ==> !(#[trigger] sets@[i as int].spec_included(
                        inputs@[j2],
                        *context,
                    )),
            decreases inputs@.len() - j,
    {
            if sets[i].included(&inputs[j], context) {
                return true;
            }
            j = j + 1;
        }
        i = i + 1;
    }
    false
}

} // verus!
