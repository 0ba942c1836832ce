//! A card's appearance in a product: the product code, the print-sheet
//! positions, and the sets the card belongs to within that product.

use crate::card::card_set::{any_card_set_included, CardSet, CardSetInput};
use crate::catalog::{spec_find_product, Ctx};
use crate::date::Date;
use crate::filter::{seq_intersects, u32_intersects};
use crate::product::{Product, ProductType};
use crate::strutil::string_eq;
use vstd::prelude::*;

verus! {

/// One appearance of a card inside a product.
#[derive(Clone, Debug)]
pub struct CardProduct {
    pub code: String,
    pub positions: Vec<u32>,
    pub sets: Option<Vec<CardSet>>,
}

/// A filter over card products.  The plain fields constrain the card
/// product itself; `name`, `release_date`, `product_type` and `wave` are
/// resolved through the catalog to the product the code refers to.
#[derive(Clone, Debug)]
pub struct CardProductInput {
    pub code: Option<String>,
    pub positions: Option<Vec<u32>>,
    pub sets: Option<Option<Vec<CardSetInput>>>,
    pub name: Option<String>,
    pub release_date: Option<Date>,
    pub product_type: Option<ProductType>,
    pub wave: Option<u32>,
}

impl Default for CardProductInput {
    /// The empty card-product filter: no constraints.
    fn default() -> (r: CardProductInput)
        ensures
            r.code is None,
            r.positions is None,
            r.sets is None,
            r.name is None,
            r.release_date is None,
            r.product_type is None,
            r.wave is None,
    {
        CardProductInput {
            code: None,
            positions: None,
            sets: None,
            name: None,
            release_date: None,
            product_type: None,
            wave: None,
        }
    }
}

impl CardProduct {
    /// The product this appearance refers to, if the catalog knows it.
    pub open spec fn spec_product(self, ctx: Ctx) -> Option<Product> {
        spec_find_product(ctx.products@, self.code@)
    }

    /// The referenced product's name, resolved through the catalog index.
    pub fn name<'a>(&self, context: &'a Ctx) -> (r: Option<&'a String>)
        ensures
            match r {
                Some(n) => self.spec_product(*context) is Some && *n == self.spec_product(
                    *context,
                )->0.name,
                None => self.spec_product(*context) is None,
            },
    {
        match context.product(self.code.as_str()) {
            Some(p) => Some(&p.name),
            None => None,
        }
    }

    /// The referenced product's release date, resolved through the
    /// catalog index.
    pub fn release_date(&self, context: &Ctx) -> (r: Option<Date>)
        ensures
            match r {
                Some(d) => self.spec_product(*context) is Some && d == self.spec_product(
                    *context,
                )->0.release_date,
                None => self.spec_product(*context) is None,
            },
    {
        match context.product(self.code.as_str()) {
            Some(p) => Some(p.release_date),
            None => None,
        }
    }

    /// The referenced product's kind, resolved through the catalog index.
    pub fn product_type(&self, context: &Ctx) -> (r: Option<ProductType>)
        ensures
            match r {
                Some(t) => self.spec_product(*context) is Some && t == self.spec_product(
                    *context,
                )->0.product_type,
                None => self.spec_product(*context) is None,
            },
    {
        match context.product(self.code.as_str()) {
            Some(p) => Some(p.product_type),
            None => None,
        }
    }

    /// The referenced product's wave number, resolved through the catalog
    /// index.
    pub fn wave(&self, context: &Ctx) -> (r: Option<u32>)
        ensures
            match r {
                Some(w) => self.spec_product(*context) is Some && w == self.spec_product(
                    *context,
                )->0.wave,
                None => self.spec_product(*context) is None,
            },
    {
        match context.product(self.code.as_str()) {
            Some(p) => Some(p.wave),
            None => None,
        }
    }

    /// This card product's sets, narrowed by an optional set name; `None`
    /// when the card product lists no sets at all.
    pub fn sets(&self, name: Option<String>) -> (r: Option<Vec<&CardSet>>)
        ensures
            match r {
                Some(out) => {
                    &&& self.sets is Some
                    &&& out@.map_values(|s: &CardSet| *s) == self.sets->0@.filter(
                        |s: CardSet| match name {
                            Option::None => true,
                            Option::Some(n) => s.name@ == n@,
                        },
                    )
                },
                None => self.sets is None,
            },
    {
        match &self.sets {
            None => None,
            Some(sets) => {
                let mut out: Vec<&CardSet> = Vec::new();
                proof {
                    reveal(Seq::filter);
                    assert(out@.map_values(|s: &CardSet| *s) =~= sets@.take(0).filter(
                        |s: CardSet| match name {
                            Option::None => true,
                            Option::Some(n) => s.name@ == n@,
                        },
                    ));
                }
                let mut i: usize = 0;
                while i < sets.len()
                    invariant
                        0 <= i <= sets@.len(),
                        out@.map_values(|s: &CardSet| *s) == sets@.take(i as int).filter(
                            |s: CardSet| match name {
                                Option::None => true,
                                Option::Some(n) => s.name@ == n@,
                            },
                        ),
                    decreases sets@.len() - i,
                {
                    let s = &sets[i];
                    let keep = match &name {
                        Option::None => true,
                        Option::Some(n) => string_eq(&s.name, n),
                    };
                    if keep {
                        out.push(s);
                    }
                    proof {
                        reveal(Seq::filter);
                        assert(sets@.take(i + 1).drop_last() =~= sets@.take(i as int));
                        assert(sets@.take(i + 1).last() == sets@[i as int]);
                        assert(out@.map_values(|s: &CardSet| *s) =~= sets@.take(i + 1).filter(
                            |s: CardSet| match name {
                                Option::None => true,
                                Option::Some(n) => s.name@ == n@,
                            },
                        ));
                    }
                    i = i + 1;
                }
                proof {
                    assert(sets@.take(sets@.len() as int) =~= sets@);
                }
                Some(out)
            },
        }
    }

    /// A card product satisfies a filter when: a present `code` is equal;
    /// a present `positions` list shares at least one position; present
    /// set sub-filters find at least one of the card product's sets
    /// satisfying at least one sub-filter (an explicit null instead
    /// demands that the card product lists no sets); and each present
    /// product-level field equals the corresponding field of the product
    /// the code resolves to (an unresolved code never matches those).
    pub open spec fn spec_included(self, input: CardProductInput, ctx: Ctx) -> bool {
        &&& match input.code {
            Option::None => true,
            Option::Some(c) => self.code@ == c@,
        }
        &&& match input.positions {
            Option::None => true,
            Option::Some(v) => seq_intersects(v@, self.positions@),
        }
        &&& match input.sets {
            Option::None => true,
            Option::Some(Option::None) => self.sets is None,
            Option::Some(Option::Some(fs)) => self.sets is Some && exists|i: int, j: int|
                0 <= i < self.sets->0@.len() && 0 <= j < fs@.len()
                    && (#[trigger] self.sets->0@[i].spec_included(fs@[j], ctx)),
        }
        &&& match input.name {
            Option::None => true,
            Option::Some(n) => self.spec_product(ctx) is Some && self.spec_product(
                ctx,
            )->0.name@ == n@,
        }
        &&& match input.release_date {
            Option::None => true,
            Option::Some(d) => self.spec_product(ctx) is Some && self.spec_product(
                ctx,
            )->0.release_date == d,
        }
        &&& match input.product_type {
            Option::None => true,
            Option::Some(t) => self.spec_product(ctx) is Some && self.spec_product(
                ctx,
            )->0.product_type == t,
        }
        &&& match input.wave {
            Option::None => true,
            Option::Some(w) => self.spec_product(ctx) is Some && self.spec_product(
                ctx,
            )->0.wave == w,
        }
    }

    /// Decide whether this card product satisfies the filter.
    pub fn included(&self, input: &CardProductInput, context: &Ctx) -> (r: bool)
        ensures
            r == self.spec_included(*input, *context),
    {
        let code_ok = match &input.code {
            Option::None => true,
            Option::Some(c) => string_eq(&self.code, c),
        };
        let positions_ok = match &input.positions {
            Option::None => true,
            Option::Some(v) => u32_intersects(v, &self.positions),
        };
        let sets_ok = match &input.sets {
            Option::None => true,
            Option::Some(inner) => match (inner, &self.sets) {
                (Option::None, Option::None) => true,
                (Option::Some(fs), Option::Some(ss)) => any_card_set_included(ss, fs, context),
                _ => false,
            },
        };
        let name_ok = match &input.name {
            Option::None => true,
            Option::Some(n) => match self.name(context) {
                Some(pn) => string_eq(pn, n),
                None => false,
            },
        };
        let date_ok = match &input.release_date {
            Option::None => true,
            Option::Some(d) => match self.release_date(context) {
                Some(pd) => pd == *d,
                None => false,
            },
        };
        let type_ok = match &input.product_type {
            Option::None => true,
            Option::Some(t) => match self.product_type(context) {
                Some(pt) => pt == *t,
                None => false,
            },
        };
        let wave_ok = match &input.wave {
            Option::None => true,
            Option::Some(w) => match self.wave(context) {
                Some(pw) => pw == *w,
                None => false,
            },
        };
        code_ok && positions_ok && sets_ok && name_ok && date_ok && type_ok && wave_ok
    }

    /// The empty filter is the identity of card-product matching: a
    /// filter with every field absent matches every card product,
    /// whatever the catalog holds.
    pub proof fn lemma_empty_filter_matches(self, input: CardProductInput, ctx: Ctx)
        requires
            input.code is None,
            input.positions is None,
            input.sets is None,
            input.name is None,
            input.release_date is None,
            input.product_type is None,
            input.wave is None,
        ensures
            self.spec_included(input, ctx),
    {
    }

    /// Do this card product's references resolve: its code to a product in
    /// `products`, and each of its set names to a set of that product?
    pub open spec fn spec_refs_ok(self, products: Seq<Product>) -> bool {
        match spec_find_product(products, self.code@) {
            Option::None => false,
            Option::Some(p) => match self.sets {
                Option::None => true,
                Option::Some(ss) => forall|k: int|
                    0 <= k < ss@.len() ==> spec_product_has_set_name(
                        p.sets@,
                        (#[trigger] ss@[k]).name@,
                    ),
            },
        }
    }
}

/// Does some set in the list carry this name?
pub open spec fn spec_product_has_set_name(
    sets: Seq<crate::product::ProductSet>,
    name: Seq<char>,
) -> bool {
    exists|k: int| 0 <= k < sets.len() && (#[trigger] sets[k]).name@ == name
}

} // verus!
