//! The catalog context: the loaded dataset plus its lookup tables, and the
//! two root query operations.

use crate::card::card_product::spec_product_has_set_name;
use crate::card::{Card, CardInput};
use crate::product::{Product, ProductInput, ProductSet};
use crate::strutil::{str_eq, string_eq};
use vstd::prelude::*;

verus! {

/// The first product in load order whose code matches, if any.
pub open spec fn spec_find_product(products: Seq<Product>, code: Seq<char>) -> Option<Product>
    decreases products.len(),
{
    if products.len() == 0 {
        None
    } else if products[0].code@ == code {
        Some(products[0])
    } else {
        spec_find_product(products.drop_first(), code)
    }
}

/// The first set in flattened load order whose name matches, if any.
pub open spec fn spec_find_set(sets: Seq<ProductSet>, name: Seq<char>) -> Option<ProductSet>
    decreases sets.len(),
{
    if sets.len() == 0 {
        None
    } else if sets[0].name@ == name {
        Some(sets[0])
    } else {
        spec_find_set(sets.drop_first(), name)
    }
}

/// All sets of all products, flattened in load order.
pub open spec fn spec_all_sets(products: Seq<Product>) -> Seq<ProductSet>
    decreases products.len(),
{
    if products.len() == 0 {
        Seq::empty()
    } else {
        products[0].sets@ + spec_all_sets(products.drop_first())
    }
}

/// The immutable catalog context: built once from the loaded documents,
/// then only read.
pub struct Ctx {
    pub cards: Vec<Card>,
    pub products: Vec<Product>,
    pub sets: Vec<ProductSet>,
}

impl Default for Ctx {
    /// An empty catalog.
    fn default() -> (r: Ctx)
        ensures
            r.cards@.len() == 0,
            r.products@.len() == 0,
            r.sets@.len() == 0,
    {
        Ctx { cards: Vec::new(), products: Vec::new(), sets: Vec::new() }
    }
}

impl Ctx {
    /// Build the context from the loaded cards and products, flattening
    /// every product's sets into one lookup list.
    pub fn new(cards: Vec<Card>, products: Vec<Product>) -> (r: Ctx)
        ensures
            r.cards == cards,
            r.products == products,
            r.sets@ == spec_all_sets(products@),
    {
        let mut sets: Vec<ProductSet> = Vec::new();
        proof {
            assert(products@.skip(0) =~= products@);
            assert(sets@ + spec_all_sets(products@) =~= spec_all_sets(products@));
        }
        let mut i: usize = 0;
        while i < products.len()
            invariant
                0 <= i <= products@.len(),
                sets@ + spec_all_sets(products@.skip(i as int)) == spec_all_sets(products@),
            decreases products@.len() - i,
        {
            let ghost pre = sets@;
            let product = &products[i];
            let mut j: usize = 0;
            while j < product.sets.len()
                invariant
                    0 <= i < products@.len(),
                    0 <= j <= products@[i as int].sets@.len(),
                    product == products@[i as int],
                    sets@ == pre + products@[i as int].sets@.take(j as int),
                decreases product.sets@.len() - j,
            {
                sets.push(product.sets[j].duplicate());
                proof {
                    let ps = products@[i as int].sets@;
                    assert(ps.take(j + 1).drop_last() =~= ps.take(j as int));
                    assert(ps.take(j + 1).last() == ps[j as int]);
                    assert(sets@ =~= pre + ps.take(j + 1));
                }
                j = j + 1;
            }
            proof {
                let ps = products@[i as int].sets@;
                assert(ps.take(ps.len() as int) =~= ps);
                assert(products@.skip(i as int).drop_first() =~= products@.skip(i + 1));
                assert(products@.skip(i as int)[0] == products@[i as int]);
                assert(spec_all_sets(products@.skip(i as int)) == ps + spec_all_sets(
                    products@.skip(i + 1),
                ));
                assert(sets@ + spec_all_sets(products@.skip(i + 1)) =~= pre + (ps + spec_all_sets(
                    products@.skip(i + 1),
                )));
                assert((pre + ps) + spec_all_sets(products@.skip(i + 1)) =~= pre + (ps
                    + spec_all_sets(products@.skip(i + 1))));
            }
            i = i + 1;
        }
        proof {
            assert(products@.skip(products@.len() as int) =~= Seq::<Product>::empty());
            assert(sets@ + Seq::<ProductSet>::empty() =~= sets@);
        }
        Ctx { cards, products, sets }
    }

    /// Look a product up by its code.
    pub fn product(&self, code: &str) -> (r: Option<&Product>)
        ensures
            match r {
                Some(p) => spec_find_product(self.products@, code@) == Some(*p),
                None => spec_find_product(self.products@, code@) is None,
            },
    {
        proof {
            assert(self.products@.skip(0) =~= self.products@);
        }
        let mut i: usize = 0;
        while i < self.products.len()
            invariant
                0 <= i <= self.products@.len(),
                spec_find_product(self.products@, code@) == spec_find_product(
                    self.products@.skip(i as int),
                    code@,
                ),
            decreases self.products@.len() - i,
        {
            proof {
                assert(self.products@.skip(i as int).drop_first() =~= self.products@.skip(i + 1));
                assert(self.products@.skip(i as int)[0] == self.products@[i as int]);
            }
            if str_eq(self.products[i].code.as_str(), code) {
                return Some(&self.products[i]);
            }
            i = i + 1;
        }
        proof {
            assert(self.products@.skip(self.products@.len() as int) =~= Seq::<Product>::empty());
        }
        None
    }

    /// Look a set up by its name, across all products.
    pub fn set(&self, name: &str) -> (r: Option<&ProductSet>)
        ensures
            match r {
                Some(s) => spec_find_set(self.sets@, name@) == Some(*s),
                None => spec_find_set(self.sets@, name@) is None,
            },
    {
        proof {
            assert(self.sets@.skip(0) =~= self.sets@);
        }
        let mut i: usize = 0;
        while i < self.sets.len()
            invariant
                0 <= i <= self.sets@.len(),
                spec_find_set(self.sets@, name@) == spec_find_set(
                    self.sets@.skip(i as int),
                    name@,
                ),
            decreases self.sets@.len() - i,
        {
            proof {
                assert(self.sets@.skip(i as int).drop_first() =~= self.sets@.skip(i + 1));
                assert(self.sets@.skip(i as int)[0] == self.sets@[i as int]);
            }
            if str_eq(self.sets[i].name.as_str(), name) {
                return Some(&self.sets[i]);
            }
            i = i + 1;
        }
        proof {
            assert(self.sets@.skip(self.sets@.len() as int) =~= Seq::<ProductSet>::empty());
        }
        None
    }

    /// Check the dataset's referential integrity: every card product's
    /// code resolves to a product, and every card set name it references
    /// exists within that product's own set list.  The loader must refuse
    /// the dataset when this fails; queries assume it holds.
    pub fn validate(&self) -> (r: bool)
        ensures
            r == forall|i: int|
                0 <= i < self.cards@.len() ==> (#[trigger] self.cards@[i]).spec_refs_ok(
                    self.products@,
                ),
    {
        let mut i: usize = 0;
        while i < self.cards.len()
            invariant
                0 <= i <= self.cards@.len(),
                forall|i2: int|
                    0 <= i2 < i ==> (#[trigger] self.cards@[i2]).spec_refs_ok(self.products@),
            decreases self.cards@.len() - i,
        {
            let card = &self.cards[i];
            let mut j: usize = 0;
            while j < card.products.len()
                invariant
                    0 <= i < self.cards@.len(),
                    0 <= j <= card.products@.len(),
                    card == self.cards@[i as int],
                    forall|j2: int|
                        0 <= j2 < j ==> (#[trigger] card.products@[j2]).spec_refs_ok(
                            self.products@,
                        ),
                decreases card.products@.len() - j,
            {
                let cp = &card.products[j];
                match self.product(cp.code.as_str()) {
                    None => {
                        proof {
                            assert(!cp.spec_refs_ok(self.products@));
                            assert(self.cards@[i as int].products@[j as int] == *cp);
                            assert(!self.cards@[i as int].spec_refs_ok(self.products@));
                        }
                        return false;
                    },
                    Some(p) => {
                        if let Some(ss) = &cp.sets {
                            let mut k: usize = 0;
                            while k < ss.len()
                                invariant
                                    0 <= k <= ss@.len(),
                                    0 <= i < self.cards@.len(),
                                    0 <= j < card.products@.len(),
                                    card == self.cards@[i as int],
                                    cp == card.products@[j as int],
                                    cp.sets == Some(*ss),
                                    spec_find_product(self.products@, cp.code@) == Some(*p),
                                    forall|k2: int|
                                        0 <= k2 < k ==> spec_product_has_set_name(
                                            p.sets@,
                                            (#[trigger] ss@[k2]).name@,
                                        ),
                                decreases ss@.len() - k,
                            {
                                if !has_set_named(&p.sets, &ss[k].name) {
                                    proof {
                                        assert(cp.sets->0@[k as int] == ss@[k as int]);
                                        assert(!cp.spec_refs_ok(self.products@));
                                        assert(!self.cards@[i as int].spec_refs_ok(
                                            self.products@,
                                        ));
                                    }
                                    return false;
                                }
                                k = k + 1;
                            }
                        }
                        proof {
                            assert(cp.spec_refs_ok(self.products@));
                        }
                    },
                }
                j = j + 1;
            }
            i = i + 1;
        }
        true
    }
}

/// Does some set in the list carry this name?
fn has_set_named(sets: &Vec<ProductSet>, name: &String) -> (r: bool)
    ensures
        r == spec_product_has_set_name(sets@, name@),
{
    let mut i: usize = 0;
    while i < sets.len()
        invariant
            0 <= i <= sets@.len(),
            forall|i2: int| 0 <= i2 < i ==> (#[trigger] sets@[i2]).name@ != name@,
        decreases sets@.len() - i,
    {
        if string_eq(&sets[i].name, name) {
            return true;
        }
        i = i + 1;
    }
    false
}

/// The root of the query surface: list products or cards matching an
/// optional filter, preserving load order.
pub struct Query;

impl Query {
    /// The products of the catalog that satisfy the filter, in load
    /// order; with no filter, all of them.
    pub fn products<'a>(context: &'a Ctx, filter: &Option<ProductInput>) -> (r: Vec<&'a Product>)
        ensures
            filter is None ==> r@.map_values(|p: &Product| *p) == context.products@,
            filter is Some ==> r@.map_values(|p: &Product| *p) == context.products@.filter(
                |p: Product| p.spec_included(filter->0),
            ),
    {
        let mut out: Vec<&Product> = Vec::new();
        match filter {
            None => {
                let mut i: usize = 0;
                while i < context.products.len()
                    invariant
                        0 <= i <= context.products@.len(),
                        out@.len() == i,
                        out@.map_values(|p: &Product| *p) == context.products@.take(i as int),
                    decreases context.products@.len() - i,
                {
                    let p = &context.products[i];
                    out.push(p);
                    proof {
                        assert(out@.map_values(|p: &Product| *p) =~= context.products@.take(
                            i + 1,
                        ));
                    }
                    i = i + 1;
                }
                proof {
                    assert(context.products@.take(context.products@.len() as int)
                        =~= context.products@);
                }
                out
            },
            Some(f) => {
                proof {
                    reveal(Seq::filter);
                    assert(out@.map_values(|p: &Product| *p) =~= context.products@.take(0).filter(
                        |p: Product| p.spec_included(filter->0),
                    ));
                }
                let mut i: usize = 0;
                while i < context.products.len()
                    invariant
                        0 <= i <= context.products@.len(),
                        *filter == Some(*f),
                        out@.map_values(|p: &Product| *p) == context.products@.take(
                            i as int,
                        ).filter(|p: Product| p.spec_included(filter->0)),
                    decreases context.products@.len() - i,
                {
                    let p = &context.products[i];
                    if p.included(f) {
                        out.push(p);
                    }
                    proof {
                        reveal(Seq::filter);
                        assert(context.products@.take(i + 1).drop_last() =~= context.products@.take(
                            i as int,
                        ));
                        assert(context.products@.take(i + 1).last() == context.products@[i as int]);
                        assert(out@.map_values(|p: &Product| *p) =~= context.products@.take(
                            i + 1,
                        ).filter(|p: Product| p.spec_included(filter->0)));
                    }
                    i = i + 1;
                }
                proof {
                    assert(context.products@.take(context.products@.len() as int)
                        =~= context.products@);
                }
                out
            },
        }
    }

    /// The cards of the catalog that satisfy the filter, in load order;
    /// with no filter, all of them.
    pub fn cards<'a>(context: &'a Ctx, filter: &Option<CardInput>) -> (r: Vec<&'a Card>)
        ensures
            filter is None ==> r@.map_values(|c: &Card| *c) == context.cards@,
            filter is Some ==> r@.map_values(|c: &Card| *c) == context.cards@.filter(
                |c: Card| c.spec_included(filter->0, *context),
            ),
    {
        let mut out: Vec<&Card> = Vec::new();
        match filter {
            None => {
                let mut i: usize = 0;
                while i < context.cards.len()
                    invariant
                        0 <= i <= context.cards@.len(),
                        out@.len() == i,
                        out@.map_values(|c: &Card| *c) == context.cards@.take(i as int),
                    decreases context.cards@.len() - i,
                {
                    let c = &context.cards[i];
                    out.push(c);
                    proof {
                        assert(out@.map_values(|c: &Card| *c) =~= context.cards@.take(i + 1));
                    }
                    i = i + 1;
                }
                proof {
                    assert(context.cards@.take(context.cards@.len() as int) =~= context.cards@);
                }
                out
            },
            Some(f) => {
                proof {
                    reveal(Seq::filter);
                    assert(out@.map_values(|c: &Card| *c) =~= context.cards@.take(0).filter(
                        |c: Card| c.spec_included(filter->0, *context),
                    ));
                }
                let mut i: usize = 0;
                while i < context.cards.len()
                    invariant
                        0 <= i <= context.cards@.len(),
                        *filter == Some(*f),
                        out@.map_values(|c: &Card| *c) == context.cards@.take(i as int).filter(
                            |c: Card| c.spec_included(filter->0, *context),
                        ),
                    decreases context.cards@.len() - i,
                {
                    let c = &context.cards[i];
                    if c.included(f, context) {
                        out.push(c);
                    }
                    proof {
                        reveal(Seq::filter);
                        assert(context.cards@.take(i + 1).drop_last() =~= context.cards@.take(
                            i as int,
                        ));
                        assert(context.cards@.take(i + 1).last() == context.cards@[i as int]);
                        assert(out@.map_values(|c: &Card| *c) =~= context.cards@.take(
                            i + 1,
                        ).filter(|c: Card| c.spec_included(filter->0, *context)));
                    }
                    i = i + 1;
                }
                proof {
                    assert(context.cards@.take(context.cards@.len() as int) =~= context.cards@);
                }
                out
            },
        }
    }
}

} // verus!
