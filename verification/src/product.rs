//! Products (purchasable releases) and the sets they contain.

use crate::date::Date;
use crate::strutil::string_eq;
use vstd::prelude::*;

verus! {

/// A loaded product document: the list of products in the catalog source.
pub struct Document {
    pub products: Vec<Product>,
}

/// A purchasable release (box or pack), keyed by its unique `code`.
#[derive(Clone, Debug)]
pub struct Product {
    pub name: String,
    pub release_date: Date,
    pub product_type: ProductType,
    pub code: String,
    pub wave: u32,
    pub sets: Vec<ProductSet>,
}

/// A filter over products; every field is optional and omitted fields
/// impose no constraint.
#[derive(Clone, Debug)]
pub struct ProductInput {
    pub name: Option<String>,
    pub release_date: Option<Date>,
    pub product_type: Option<ProductType>,
    pub code: Option<String>,
    pub wave: Option<u32>,
    pub sets: Option<Vec<SetInput>>,
}

/// The closed vocabulary of product kinds.
#[derive(Clone, Copy, Debug, PartialEq, Eq, Structural)]
pub enum ProductType {
    CoreSet,
    CampaignExpansion,
    HeroPack,
    ScenarioPack,
    Custom,
}

/// A filter over sets; both fields optional.
#[derive(Clone, Debug)]
pub struct SetInput {
    pub name: Option<String>,
    pub set_type: Option<SetType>,
}

impl Default for SetInput {
    /// The empty set filter: no constraints.
    fn default() -> (r: SetInput)
        ensures
            r.name is None,
            r.set_type is None,
    {
        SetInput { name: None, set_type: None }
    }
}

/// A named subgrouping of cards within a product (a "set").
#[derive(Clone, Debug)]
pub struct ProductSet {
    pub name: String,
    pub set_type: SetType,
}

/// The closed vocabulary of set kinds.
#[derive(Clone, Copy, Debug, PartialEq, Eq, Structural)]
pub enum SetType {
    HeroSignature,
    ModularEncounter,
    Nemesis,
    Villain,
}

impl ProductSet {
    /// A set satisfies a filter when every present filter field equals the
    /// corresponding set field.
    pub open spec fn spec_included(self, input: SetInput) -> bool {
        &&& match input.name {
            Option::None => true,
            Option::Some(n) => self.name@ == n@,
        }
        &&& match input.set_type {
            Option::None => true,
            Option::Some(t) => self.set_type == t,
        }
    }

    /// Decide whether this set satisfies the filter.
    pub fn included(&self, input: &SetInput) -> (r: bool)
        ensures
            r == self.spec_included(*input),
    {
        let name_ok = match &input.name {
            Option::None => true,
            Option::Some(n) => string_eq(&self.name, n),
        };
        let type_ok = match &input.set_type {
            Option::None => true,
            Option::Some(t) => self.set_type == *t,
        };
        name_ok && type_ok
    }

    /// The empty filter is the identity of set matching: a filter with
    /// both fields absent matches every set.
    pub proof fn lemma_empty_filter_matches(self, input: SetInput)
        requires
            input.name is None,
            input.set_type is None,
        ensures
            self.spec_included(input),
    {
    }

    /// A field-for-field copy of this set.
    pub fn duplicate(&self) -> (r: ProductSet)
        ensures
            r == *self,
    {
        ProductSet { name: self.name.clone(), set_type: self.set_type }
    }
}

/// Does any set of `sets` satisfy any filter of `inputs`?
pub fn any_set_included(sets: &Vec<ProductSet>, inputs: &Vec<SetInput>) -> (r: bool)
    ensures
        r == exists|i: int, j: int|
            0 <= i < sets@.len() && 0 <= j < inputs@.len() && (#[trigger] sets@[i].spec_included(
                inputs@[j],
            )),
{
    let mut i: usize = 0;
    while i < sets.len()
        invariant
            0 <= i <= sets@.len(),
            forall|i2: int, j2: int|
                0 <= i2 < i && 0 <= j2 < inputs@.len() ==> !(#[trigger] sets@[i2].spec_included(
                    inputs@[j2],
                )),
        decreases sets@.len() - i,
    {
        let mut j: usize = 0;
        while j < inputs.len()
            invariant
                0 <= i < sets@.len(),
                0 <= j <= inputs@.len(),
                forall|j2: int|
                    0 <= j2 < j ==> !(#[trigger] sets@[i as int].spec_included(inputs@[j2])),
            decreases inputs@.len() - j,
        {
            if sets[i].included(&inputs[j]) {
                return true;
            }
            j = j + 1;
        }
        i = i + 1;
    }
    false
}

impl Product {
    /// A product satisfies a filter when every present scalar field is
    /// equal, and, if set sub-filters are given, at least one of the
    /// product's sets satisfies at least one sub-filter.
    pub open spec fn spec_included(self, input: ProductInput) -> bool {
        &&& match input.name {
            Option::None => true,
            Option::Some(n) => self.name@ == n@,
        }
        &&& match input.release_date {
            Option::None => true,
            Option::Some(d) => self.release_date == d,
        }
        &&& match input.product_type {
            Option::None => true,
            Option::Some(t) => self.product_type == t,
        }
        &&& match input.code {
            Option::None => true,
            Option::Some(c) => self.code@ == c@,
        }
        &&& match input.wave {
            Option::None => true,
            Option::Some(w) => self.wave == w,
        }
        &&& match input.sets {
            Option::None => true,
            Option::Some(fs) => exists|i: int, j: int|
                0 <= i < self.sets@.len() && 0 <= j < fs@.len()
                    && (#[trigger] self.sets@[i].spec_included(fs@[j])),
        }
    }

    /// Decide whether this product satisfies the filter.
    pub fn included(&self, input: &ProductInput) -> (r: bool)
        ensures
            r == self.spec_included(*input),
    {
        let name_ok = match &input.name {
            Option::None => true,
            Option::Some(n) => string_eq(&self.name, n),
        };
        let date_ok = match &input.release_date {
            Option::None => true,
            Option::Some(d) => self.release_date == *d,
        };
        let type_ok = match &input.product_type {
            Option::None => true,
            Option::Some(t) => self.product_type == *t,
        };
        let code_ok = match &input.code {
            Option::None => true,
            Option::Some(c) => string_eq(&self.code, c),
        };
        let wave_ok = match &input.wave {
            Option::None => true,
            Option::Some(w) => self.wave == *w,
        };
        let sets_ok = match &input.sets {
            Option::None => true,
            Option::Some(fs) => any_set_included(&self.sets, fs),
        };
        name_ok && date_ok && type_ok && code_ok && wave_ok && sets_ok
    }

    /// The empty filter is the identity of product matching: a filter
    /// with every field absent matches every product.
    pub proof fn lemma_empty_filter_matches(self, input: ProductInput)
        requires
            input.name is None,
            input.release_date is None,
            input.product_type is None,
            input.code is None,
            input.wave is None,
            input.sets is None,
        ensures
            self.spec_included(input),
    {
    }

    /// Two filters that pin the same scalar field (here: `code`) to
    /// different values are mutually unsatisfiable: no product matches
    /// both.
    pub proof fn lemma_conflicting_codes_never_match(
        self,
        a: ProductInput,
        b: ProductInput,
    )
        requires
            a.code is Some,
            b.code is Some,
            a.code->0@ != b.code->0@,
        ensures
            !(self.spec_included(a) && self.spec_included(b)),
    {
    }

    /// The product's sets, narrowed by an optional name and kind.
    pub fn sets(&self, name: Option<String>, set_type: Option<SetType>) -> (r: Vec<&ProductSet>)
        ensures
            r@.map_values(|s: &ProductSet| *s) == self.sets@.filter(
                |s: ProductSet| s.spec_included(SetInput { name: name, set_type: set_type }),
            ),
    {
        let mut out: Vec<&ProductSet> = Vec::new();
        proof {
            reveal(Seq::filter);
            assert(out@.map_values(|s: &ProductSet| *s) =~= self.sets@.take(0).filter(
                |s: ProductSet| s.spec_included(SetInput { name: name, set_type: set_type }),
            ));
        }
        let mut i: usize = 0;
        while i < self.sets.len()
            invariant
                0 <= i <= self.sets@.len(),
                out@.map_values(|s: &ProductSet| *s) == self.sets@.take(i as int).filter(
                    |s: ProductSet| s.spec_included(SetInput { name: name, set_type: set_type }),
                ),
            decreases self.sets@.len() - i,
        {
            let s = &self.sets[i];
            let name_ok = match &name {
                Option::None => true,
                Option::Some(n) => string_eq(&s.name, n),
            };
            let type_ok = match &set_type {
                Option::None => true,
                Option::Some(t) => s.set_type == *t,
            };
            if name_ok && type_ok {
                out.push(s);
            }
            proof {
                reveal(Seq::filter);
                assert(self.sets@.take(i + 1).drop_last() =~= self.sets@.take(i as int));
                assert(self.sets@.take(i + 1).last() == self.sets@[i as int]);
                assert(out@.map_values(|s: &ProductSet| *s) =~= self.sets@.take(i + 1).filter(
                    |s: ProductSet| s.spec_included(SetInput { name: name, set_type: set_type }),
                ));
            }
            i = i + 1;
        }
        proof {
            assert(self.sets@.take(self.sets@.len() as int) =~= self.sets@);
        }
        out
    }
}

} // verus!
