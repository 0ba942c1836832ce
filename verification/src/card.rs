//! The card data model: cards, their printed sides, and the vocabularies
//! used on them.

use vstd::prelude::*;

pub mod basic_power;
pub mod card_product;
pub mod card_set;
pub mod card_side;
pub mod card_trait;
pub mod cost;
pub mod hit_points;
pub mod keyword;

verus! {

use crate::catalog::Ctx;

pub use basic_power::BasicPower;
pub use basic_power::ParseBasicPowerError;
pub use card_product::CardProduct;
pub use card_product::CardProductInput;
pub use card_set::CardSet;
pub use card_set::CardSetInput;
pub use card_side::CardSide;
pub use card_side::CardSideInput;
pub use card_side::CardSideVariant;
pub use card_side::Side;
pub use card_trait::Trait;
pub use cost::Cost;
pub use cost::ParseCostError;
pub use hit_points::HitPoints;
pub use hit_points::ParseHitPointsError;
pub use keyword::Keyword;
pub use keyword::ParseKeywordError;

/// A loaded card document: the list of cards in the catalog source.
pub struct Document {
    pub cards: Vec<Card>,
}

/// A logical card: its appearances in products, its printed sides, and an
/// optional aspect tag.
#[derive(Clone, Debug)]
pub struct Card {
    pub products: Vec<CardProduct>,
    pub sides: Vec<CardSide>,
    pub aspect: Option<Aspect>,
}

/// A filter over cards; every field is optional.
#[derive(Clone, Debug)]
pub struct CardInput {
    pub aspect: Option<Option<Aspect>>,
    pub products: Option<Vec<CardProductInput>>,
    pub sides: Option<Vec<CardSideInput>>,
}

impl Default for CardInput {
    /// The empty card filter: no constraints.
    fn default() -> (r: CardInput)
        ensures
            r.aspect is None,
            r.products is None,
            r.sides is None,
    {
        CardInput { aspect: None, products: None, sides: None }
    }
}

/// The thematic aspect tags a hero card can carry.
#[derive(Clone, Copy, Debug, PartialEq, Eq, Structural)]
pub enum Aspect {
    Basic,
    Aggression,
    Leadership,
    Protection,
    Justice,
}

/// The player-facing card kinds of the game's rules vocabulary.
#[derive(Clone, Copy, Debug, PartialEq, Eq, Structural)]
pub enum CardType {
    Ally,
    Attachment,
    Event,
    Hero,
    Minion,
    Treachery,
    Upgrade,
}

/// The resource symbols a card can produce.
#[derive(Clone, Copy, Debug, PartialEq, Eq, Structural)]
pub enum Resource {
    Energy,
    Mental,
    Physical,
    Wild,
}

/// The icons a side scheme can carry.
#[derive(Clone, Copy, Debug, PartialEq, Eq, Structural)]
pub enum SideSchemeIcon {
    Acceleration,
    Crisis,
    Hazard,
}

/// Does any card product of `products` satisfy any filter of `inputs`?
pub(crate) fn any_card_product_included(
    products: &Vec<CardProduct>,
    inputs: &Vec<CardProductInput>,
    context: &Ctx,
) -> (r: bool)
    ensures
        r == exists|i: int, j: int|
            0 <= i < products@.len() && 0 <= j < inputs@.len()
                && (#[trigger] products@[i].spec_included(inputs@[j], *context)),
{
    let mut i: usize = 0;
    while i < products.len()
        invariant
            0 <= i <= products@.len(),
            forall|i2: int, j2: int|
                0 <= i2 < i && 0 <= j2 < inputs@.len() ==> !(#[trigger] products@[
                    i2
                ].spec_included(inputs@[j2], *context)),
        decreases products@.len() - i,
    {
        let mut j: usize = 0;
        while j < inputs.len()
            invariant
                0 <= i < products@.len(),
                0 <= j <= inputs@.len(),
                forall|j2: int|
                    0 <= j2 < j ==> !(#[trigger] products@[i as int].spec_included(
                        inputs@[j2],
                        *context,
                    )),
            decreases inputs@.len() - j,
        {
            if products[i].included(&inputs[j], context) {
                return true;
            }
            j = j + 1;
        }
        i = i + 1;
    }
    false
}

/// Does any card side of `sides` satisfy any filter of `inputs`?
pub(crate) fn any_card_side_included(sides: &Vec<CardSide>, inputs: &Vec<CardSideInput>) -> (r:
    bool)
    ensures
        r == exists|i: int, j: int|
            0 <= i < sides@.len() && 0 <= j < inputs@.len() && (#[trigger] sides@[i].spec_included(
                inputs@[j],
            )),
{
    let mut i: usize = 0;
    while i < sides.len()
        invariant
            0 <= i <= sides@.len(),
            forall|i2: int, j2: int|
                0 <= i2 < i && 0 <= j2 < inputs@.len() ==> !(#[trigger] sides@[i2].spec_included(
                    inputs@[j2],
                )),
        decreases sides@.len() - i,
    {
        let mut j: usize = 0;
        while j < inputs.len()
            invariant
                0 <= i < sides@.len(),
                0 <= j <= inputs@.len(),
                forall|j2: int|
                    0 <= j2 < j ==> !(#[trigger] sides@[i as int].spec_included(inputs@[j2])),
            decreases inputs@.len() - j,
        {
            if sides[i].included(&inputs[j]) {
                return true;
            }
            j = j + 1;
        }
        i = i + 1;
    }
    false
}

impl Card {
    /// A card satisfies a filter when: a present `aspect` equals the
    /// card's optional aspect (an explicit null matches a card without
    /// one); and present product or side sub-filters find at least one of
    /// the card's products or sides satisfying at least one sub-filter.
    pub open spec fn spec_included(self, input: CardInput, ctx: Ctx) -> bool {
        &&& match input.aspect {
            Option::None => true,
            Option::Some(a) => self.aspect == a,
        }
        &&& match input.products {
            Option::None => true,
            Option::Some(fs) => exists|i: int, j: int|
                0 <= i < self.products@.len() && 0 <= j < fs@.len()
                    && (#[trigger] self.products@[i].spec_included(fs@[j], ctx)),
        }
        &&& match input.sides {
            Option::None => true,
            Option::Some(fs) => exists|i: int, j: int|
                0 <= i < self.sides@.len() && 0 <= j < fs@.len()
                    && (#[trigger] self.sides@[i].spec_included(fs@[j])),
        }
    }

    /// The empty filter is the identity of card matching: a filter with
    /// every field absent matches every card, whatever the catalog holds.
    pub proof fn lemma_empty_filter_matches(self, input: CardInput, ctx: Ctx)
        requires
            input.aspect is None,
            input.products is None,
            input.sides is None,
        ensures
            self.spec_included(input, ctx),
    {
    }

    /// Decide whether this card satisfies the filter.
    pub fn included(&self, input: &CardInput, context: &Ctx) -> (r: bool)
        ensures
            r == self.spec_included(*input, *context),
    {
        let aspect_ok = match &input.aspect {
            Option::None => true,
            Option::Some(a) => match (&self.aspect, a) {
                (Option::None, Option::None) => true,
                (Option::Some(x), Option::Some(y)) => *x == *y,
                _ => false,
            },
        };
        let products_ok = match &input.products {
            Option::None => true,
            Option::Some(fs) => any_card_product_included(&self.products, fs, context),
        };
        let sides_ok = match &input.sides {
            Option::None => true,
            Option::Some(fs) => any_card_side_included(&self.sides, fs),
        };
        aspect_ok && products_ok && sides_ok
    }

    /// Do all of this card's product references resolve against the
    /// product list: each code to a product, and each set name to a set
    /// of that product?
    pub open spec fn spec_refs_ok(self, products: Seq<crate::product::Product>) -> bool {
        forall|j: int|
            0 <= j < self.products@.len() ==> (#[trigger] self.products@[j]).spec_refs_ok(products)
    }
}

} // verus!
