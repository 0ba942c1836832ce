//! A printable face of a card and its kind-dependent attributes.
//!
//! Each side carries a variant (Hero, Ally, Event, ...) with its own
//! attribute set.  Attributes that appear on several variants are exposed
//! through projections returning "present with value" or "not applicable
//! to this variant"; the filter engine matches through those projections,
//! so a constraint on an attribute a variant lacks never matches.

use crate::card::basic_power::BasicPower;
use crate::card::card_trait::Trait;
use crate::card::cost::Cost;
use crate::card::hit_points::HitPoints;
use crate::card::keyword::Keyword;
use crate::card::{Resource, SideSchemeIcon};
use crate::filter::{opt_str_eq, opt_string_eq, seq_intersects, string_intersects, trait_intersects};
use crate::strutil::string_eq;
use vstd::prelude::*;

verus! {

/// One printable face of a card.
#[derive(Clone, Debug)]
pub struct CardSide {
    pub name: String,
    pub text: Option<String>,
    pub flavor_text: Option<String>,
    pub illustrators: Option<Vec<String>>,
    pub variant: CardSideVariant,
}

/// Which face of a physical card this side is.
#[derive(Clone, Copy, Debug, PartialEq, Eq, Structural)]
pub enum Side {
    A,
    B,
    C,
}

/// The kind-dependent attributes of a card side.  The tag set is closed:
/// the source document may only use these kinds.
#[derive(Clone, Debug)]
pub enum CardSideVariant {
    Hero {
        side: Side,
        unique: bool,
        thw: BasicPower,
        atk: BasicPower,
        def: BasicPower,
        hand_size: u32,
        hit_points: HitPoints,
        traits: Vec<Trait>,
    },
    AlterEgo {
        side: Side,
        unique: bool,
        rec: BasicPower,
        hand_size: u32,
        hit_points: HitPoints,
        traits: Vec<Trait>,
    },
    Ally {
        subname: Option<String>,
        unique: bool,
        cost: Cost,
        thw: BasicPower,
        thw_consequential: u32,
        atk: BasicPower,
        atk_consequential: u32,
        hit_points: HitPoints,
        traits: Vec<Trait>,
        resources: Vec<Resource>,
    },
    Event {
        cost: Cost,
        traits: Vec<Trait>,
        resources: Vec<Resource>,
    },
    Obligation {
        boost_icons: u8,
    },
    Resource {
        resources: Vec<Resource>,
    },
    Support {
        cost: Cost,
        unique: bool,
        traits: Vec<Trait>,
        resources: Vec<Resource>,
    },
    Upgrade {
        cost: Cost,
        unique: bool,
        resources: Vec<Resource>,
        traits: Vec<Trait>,
    },
    Attachment {
        boost_icons: u8,
        traits: Vec<Trait>,
    },
    Minion {
        unique: bool,
        sch: BasicPower,
        atk: BasicPower,
        hit_points: HitPoints,
        traits: Vec<Trait>,
        boost_icons: u8,
        boost_star_icon: bool,
        boost_text: Option<String>,
        keywords: Vec<Keyword>,
    },
    SideScheme {
        icons: Option<Vec<SideSchemeIcon>>,
        traits: Vec<Trait>,
        starting_threat: String,
        boost_icons: u8,
        boost_star_icon: bool,
        boost_text: Option<String>,
    },
    Treachery {
        boost_icons: u8,
        boost_star_icon: bool,
        boost_text: Option<String>,
    },
}

/// A filter over card sides; every field is optional.  The variant
/// attributes are matched through the side's projections, so a constraint
/// on an attribute the side's variant lacks never matches (unless the
/// constraint is an explicit null).
#[derive(Clone, Debug)]
pub struct CardSideInput {
    pub name: Option<String>,
    pub text: Option<Option<String>>,
    pub flavor_text: Option<Option<String>>,
    pub illustrators: Option<Option<Vec<String>>>,
    pub side: Option<Option<Side>>,
    pub unique: Option<Option<bool>>,
    pub thw: Option<Option<BasicPower>>,
    pub thw_consequential: Option<Option<u32>>,
    pub atk: Option<Option<BasicPower>>,
    pub atk_consequential: Option<Option<u32>>,
    pub def: Option<Option<BasicPower>>,
    pub rec: Option<Option<BasicPower>>,
    pub hand_size: Option<Option<u32>>,
    pub hit_points: Option<Option<HitPoints>>,
    pub traits: Option<Option<Vec<Trait>>>,
}

impl Default for CardSideInput {
    /// The empty card-side filter: no constraints.
    fn default() -> (r: CardSideInput)
        ensures
            r.name is None,
            r.text is None,
            r.flavor_text is None,
            r.illustrators is None,
            r.side is None,
            r.unique is None,
            r.thw is None,
            r.thw_consequential is None,
            r.atk is None,
            r.atk_consequential is None,
            r.def is None,
            r.rec is None,
            r.hand_size is None,
            r.hit_points is None,
            r.traits is None,
    {
        CardSideInput {
            name: None,
            text: None,
            flavor_text: None,
            illustrators: None,
            side: None,
            unique: None,
            thw: None,
            thw_consequential: None,
            atk: None,
            atk_consequential: None,
            def: None,
            rec: None,
            hand_size: None,
            hit_points: None,
            traits: None,
        }
    }
}

impl CardSide {
    /// Which face this is; only hero and alter-ego sides say.
    pub open spec fn spec_side(self) -> Option<Side> {
        match self.variant {
            CardSideVariant::Hero { side, .. } => Some(side),
            CardSideVariant::AlterEgo { side, .. } => Some(side),
            _ => None,
        }
    }

    /// Whether the side is unique, where the variant has the notion.
    pub open spec fn spec_unique(self) -> Option<bool> {
        match self.variant {
            CardSideVariant::Hero { unique, .. } => Some(unique),
            CardSideVariant::AlterEgo { unique, .. } => Some(unique),
            CardSideVariant::Ally { unique, .. } => Some(unique),
            CardSideVariant::Support { unique, .. } => Some(unique),
            CardSideVariant::Upgrade { unique, .. } => Some(unique),
            CardSideVariant::Minion { unique, .. } => Some(unique),
            _ => None,
        }
    }

    /// The THW value, where the variant has one.
    pub open spec fn spec_thw(self) -> Option<BasicPower> {
        match self.variant {
            CardSideVariant::Hero { thw, .. } => Some(thw),
            CardSideVariant::Ally { thw, .. } => Some(thw),
            _ => None,
        }
    }

    /// The consequential-thwart value, where the variant has one.
    pub open spec fn spec_thw_consequential(self) -> Option<u32> {
        match self.variant {
            CardSideVariant::Ally { thw_consequential, .. } => Some(thw_consequential),
            _ => None,
        }
    }

    /// The ATK value, where the variant has one.
    pub open spec fn spec_atk(self) -> Option<BasicPower> {
        match self.variant {
            CardSideVariant::Hero { atk, .. } => Some(atk),
            CardSideVariant::Ally { atk, .. } => Some(atk),
            CardSideVariant::Minion { atk, .. } => Some(atk),
            _ => None,
        }
    }

    /// The consequential-attack value, where the variant has one.
    pub open spec fn spec_atk_consequential(self) -> Option<u32> {
        match self.variant {
            CardSideVariant::Ally { atk_consequential, .. } => Some(atk_consequential),
            _ => None,
        }
    }

    /// The DEF value, where the variant has one.
    pub open spec fn spec_def(self) -> Option<BasicPower> {
        match self.variant {
            CardSideVariant::Hero { def, .. } => Some(def),
            _ => None,
        }
    }

    /// The REC value, where the variant has one.
    pub open spec fn spec_rec(self) -> Option<BasicPower> {
        match self.variant {
            CardSideVariant::AlterEgo { rec, .. } => Some(rec),
            _ => None,
        }
    }

    /// The hand size, where the variant has one.
    pub open spec fn spec_hand_size(self) -> Option<u32> {
        match self.variant {
            CardSideVariant::Hero { hand_size, .. } => Some(hand_size),
            CardSideVariant::AlterEgo { hand_size, .. } => Some(hand_size),
            _ => None,
        }
    }

    /// The hit points, where the variant has them.
    pub open spec fn spec_hit_points(self) -> Option<HitPoints> {
        match self.variant {
            CardSideVariant::Hero { hit_points, .. } => Some(hit_points),
            CardSideVariant::AlterEgo { hit_points, .. } => Some(hit_points),
            CardSideVariant::Ally { hit_points, .. } => Some(hit_points),
            CardSideVariant::Minion { hit_points, .. } => Some(hit_points),
            _ => None,
        }
    }

    /// The trait list, where the variant has one.
    pub open spec fn spec_traits(self) -> Option<Seq<Trait>> {
        match self.variant {
            CardSideVariant::Hero { traits, .. } => Some(traits@),
            CardSideVariant::AlterEgo { traits, .. } => Some(traits@),
            CardSideVariant::Ally { traits, .. } => Some(traits@),
            CardSideVariant::Event { traits, .. } => Some(traits@),
            CardSideVariant::Support { traits, .. } => Some(traits@),
            CardSideVariant::Upgrade { traits, .. } => Some(traits@),
            CardSideVariant::Attachment { traits, .. } => Some(traits@),
            CardSideVariant::Minion { traits, .. } => Some(traits@),
            CardSideVariant::SideScheme { traits, .. } => Some(traits@),
            _ => None,
        }
    }

    /// Which face this is; applicable to hero and alter-ego sides only.
    pub fn side(&self) -> (r: Option<&Side>)
        ensures
            match r {
                Some(s) => self.spec_side() == Some(*s),
                None => self.spec_side() is None,
            },
    {
        match &self.variant {
            CardSideVariant::Hero { side, .. } => Some(side),
            CardSideVariant::AlterEgo { side, .. } => Some(side),
            _ => None,
        }
    }

    /// Whether the side is unique, where applicable.
    pub fn unique(&self) -> (r: Option<&bool>)
        ensures
            match r {
                Some(u) => self.spec_unique() == Some(*u),
                None => self.spec_unique() is None,
            },
    {
        match &self.variant {
            CardSideVariant::Hero { unique, .. } => Some(unique),
            CardSideVariant::AlterEgo { unique, .. } => Some(unique),
            CardSideVariant::Ally { unique, .. } => Some(unique),
            CardSideVariant::Support { unique, .. } => Some(unique),
            CardSideVariant::Upgrade { unique, .. } => Some(unique),
            CardSideVariant::Minion { unique, .. } => Some(unique),
            _ => None,
        }
    }

    /// The THW value, where applicable.
    pub fn thw(&self) -> (r: Option<&BasicPower>)
        ensures
            match r {
                Some(v) => self.spec_thw() == Some(*v),
                None => self.spec_thw() is None,
            },
    {
        match &self.variant {
            CardSideVariant::Hero { thw, .. } => Some(thw),
            CardSideVariant::Ally { thw, .. } => Some(thw),
            _ => None,
        }
    }

    /// The consequential-thwart value, where applicable.
    pub fn thw_consequential(&self) -> (r: Option<&u32>)
        ensures
            match r {
                Some(v) => self.spec_thw_consequential() == Some(*v),
                None => self.spec_thw_consequential() is None,
            },
    {
        match &self.variant {
            CardSideVariant::Ally { thw_consequential, .. } => Some(thw_consequential),
            _ => None,
        }
    }

    /// The ATK value, where applicable.
    pub fn atk(&self) -> (r: Option<&BasicPower>)
        ensures
            match r {
                Some(v) => self.spec_atk() == Some(*v),
                None => self.spec_atk() is None,
            },
    {
        match &self.variant {
            CardSideVariant::Hero { atk, .. } => Some(atk),
            CardSideVariant::Ally { atk, .. } => Some(atk),
            CardSideVariant::Minion { atk, .. } => Some(atk),
            _ => None,
        }
    }

    /// The consequential-attack value, where applicable.
    pub fn atk_consequential(&self) -> (r: Option<&u32>)
        ensures
            match r {
                Some(v) => self.spec_atk_consequential() == Some(*v),
                None => self.spec_atk_consequential() is None,
            },
    {
        match &self.variant {
            CardSideVariant::Ally { atk_consequential, .. } => Some(atk_consequential),
            _ => None,
        }
    }

    /// The DEF value, where applicable.
    pub fn def(&self) -> (r: Option<&BasicPower>)
        ensures
            match r {
                Some(v) => self.spec_def() == Some(*v),
                None => self.spec_def() is None,
            },
    {
        match &self.variant {
            CardSideVariant::Hero { def, .. } => Some(def),
            _ => None,
        }
    }

    /// The REC value, where applicable.
    pub fn rec(&self) -> (r: Option<&BasicPower>)
        ensures
            match r {
                Some(v) => self.spec_rec() == Some(*v),
                None => self.spec_rec() is None,
            },
    {
        match &self.variant {
            CardSideVariant::AlterEgo { rec, .. } => Some(rec),
            _ => None,
        }
    }

    /// The hand size, where applicable.
    pub fn hand_size(&self) -> (r: Option<&u32>)
        ensures
            match r {
                Some(v) => self.spec_hand_size() == Some(*v),
                None => self.spec_hand_size() is None,
            },
    {
        match &self.variant {
            CardSideVariant::Hero { hand_size, .. } => Some(hand_size),
            CardSideVariant::AlterEgo { hand_size, .. } => Some(hand_size),
            _ => None,
        }
    }

    /// The hit points, where applicable.
    pub fn hit_points(&self) -> (r: Option<&HitPoints>)
        ensures
            match r {
                Some(v) => self.spec_hit_points() == Some(*v),
                None => self.spec_hit_points() is None,
            },
    {
        match &self.variant {
            CardSideVariant::Hero { hit_points, .. } => Some(hit_points),
            CardSideVariant::AlterEgo { hit_points, .. } => Some(hit_points),
            CardSideVariant::Ally { hit_points, .. } => Some(hit_points),
            CardSideVariant::Minion { hit_points, .. } => Some(hit_points),
            _ => None,
        }
    }

    /// The trait list, where applicable.
    pub fn traits(&self) -> (r: Option<&Vec<Trait>>)
        ensures
            match r {
                Some(v) => self.spec_traits() == Some(v@),
                None => self.spec_traits() is None,
            },
    {
        match &self.variant {
            CardSideVariant::Hero { traits, .. } => Some(traits),
            CardSideVariant::AlterEgo { traits, .. } => Some(traits),
            CardSideVariant::Ally { traits, .. } => Some(traits),
            CardSideVariant::Event { traits, .. } => Some(traits),
            CardSideVariant::Support { traits, .. } => Some(traits),
            CardSideVariant::Upgrade { traits, .. } => Some(traits),
            CardSideVariant::Attachment { traits, .. } => Some(traits),
            CardSideVariant::Minion { traits, .. } => Some(traits),
            CardSideVariant::SideScheme { traits, .. } => Some(traits),
            _ => None,
        }
    }

    /// A card side satisfies a filter when: a present `name` is equal;
    /// present `text`/`flavor_text` equal the side's optional field (an
    /// explicit null matches an absent field); a present `illustrators`
    /// or `traits` follows the collection rule (explicit null matches an
    /// absent collection, a concrete list must share an element); and
    /// every present variant attribute equals the side's projection, so a
    /// side whose variant lacks the attribute matches only an explicit
    /// null.
    pub open spec fn spec_included(self, input: CardSideInput) -> bool {
        &&& match input.name {
            Option::None => true,
            Option::Some(n) => self.name@ == n@,
        }
        &&& match input.text {
            Option::None => true,
            Option::Some(t) => opt_str_eq(self.text, t),
        }
        &&& match input.flavor_text {
            Option::None => true,
            Option::Some(t) => opt_str_eq(self.flavor_text, t),
        }
        &&& match input.illustrators {
            Option::None => true,
            Option::Some(Option::None) => self.illustrators is None,
            Option::Some(Option::Some(v)) => self.illustrators is Some && seq_intersects(
                self.illustrators->0.deep_view(),
                v.deep_view(),
            ),
        }
        &&& match input.traits {
            Option::None => true,
            Option::Some(Option::None) => self.spec_traits() is None,
            Option::Some(Option::Some(v)) => self.spec_traits() is Some && seq_intersects(
                self.spec_traits()->0,
                v@,
            ),
        }
        &&& match input.side {
            Option::None => true,
            Option::Some(x) => self.spec_side() == x,
        }
        &&& match input.unique {
            Option::None => true,
            Option::Some(x) => self.spec_unique() == x,
        }
        &&& match input.thw {
            Option::None => true,
            Option::Some(x) => self.spec_thw() == x,
        }
        &&& match input.thw_consequential {
            Option::None => true,
            Option::Some(x) => self.spec_thw_consequential() == x,
        }
        &&& match input.atk {
            Option::None => true,
            Option::Some(x) => self.spec_atk() == x,
        }
        &&& match input.atk_consequential {
            Option::None => true,
            Option::Some(x) => self.spec_atk_consequential() == x,
        }
        &&& match input.def {
            Option::None => true,
            Option::Some(x) => self.spec_def() == x,
        }
        &&& match input.rec {
            Option::None => true,
            Option::Some(x) => self.spec_rec() == x,
        }
        &&& match input.hand_size {
            Option::None => true,
            Option::Some(x) => self.spec_hand_size() == x,
        }
        &&& match input.hit_points {
            Option::None => true,
            Option::Some(x) => self.spec_hit_points() == x,
        }
    }

    /// The empty filter is the identity of card-side matching: a filter
    /// with every field absent matches every card side.
    pub proof fn lemma_empty_filter_matches(self, input: CardSideInput)
        requires
            input.name is None,
            input.text is None,
            input.flavor_text is None,
            input.illustrators is None,
            input.side is None,
            input.unique is None,
            input.thw is None,
            input.thw_consequential is None,
            input.atk is None,
            input.atk_consequential is None,
            input.def is None,
            input.rec is None,
            input.hand_size is None,
            input.hit_points is None,
            input.traits is None,
        ensures
            self.spec_included(input),
    {
    }

    /// A filter that asks for a concrete value of a variant attribute
    /// never matches a side whose variant lacks that attribute: a
    /// constraint on `atk` cannot be satisfied by a side without an ATK
    /// concept, whatever value the filter asks for.
    pub proof fn lemma_missing_attribute_never_matches(self, input: CardSideInput)
        requires
            input.atk is Some,
            input.atk->0 is Some,
            self.spec_atk() is None,
        ensures
            !self.spec_included(input),
    {
    }

    /// Decide whether this card side satisfies the filter.
    pub fn included(&self, input: &CardSideInput) -> (r: bool)
        ensures
            r == self.spec_included(*input),
    {
        let name_ok = match &input.name {
            Option::None => true,
            Option::Some(n) => string_eq(&self.name, n),
        };
        let text_ok = match &input.text {
            Option::None => true,
            Option::Some(t) => opt_string_eq(&self.text, t),
        };
        let flavor_ok = match &input.flavor_text {
            Option::None => true,
            Option::Some(t) => opt_string_eq(&self.flavor_text, t),
        };
        let illustrators_ok = match &input.illustrators {
            Option::None => true,
            Option::Some(inner) => match (&self.illustrators, inner) {
                (Option::None, Option::None) => true,
                (Option::Some(e), Option::Some(v)) => string_intersects(e, v),
                _ => false,
            },
        };
        let traits_ok = match &input.traits {
            Option::None => true,
            Option::Some(inner) => match (self.traits(), inner) {
                (Option::None, Option::None) => true,
                (Option::Some(e), Option::Some(v)) => trait_intersects(e, v),
                _ => false,
            },
        };
        let side_ok = match &input.side {
            Option::None => true,
            Option::Some(x) => match (self.side(), x) {
                (Option::None, Option::None) => true,
                (Option::Some(a), Option::Some(b)) => *a == *b,
                _ => false,
            },
        };
        let unique_ok = match &input.unique {
            Option::None => true,
            Option::Some(x) => match (self.unique(), x) {
                (Option::None, Option::None) => true,
                (Option::Some(a), Option::Some(b)) => *a == *b,
                _ => false,
            },
        };
        let thw_ok = match &input.thw {
            Option::None => true,
            Option::Some(x) => match (self.thw(), x) {
                (Option::None, Option::None) => true,
                (Option::Some(a), Option::Some(b)) => *a == *b,
                _ => false,
            },
        };
        let thw_c_ok = match &input.thw_consequential {
            Option::None => true,
            Option::Some(x) => match (self.thw_consequential(), x) {
                (Option::None, Option::None) => true,
                (Option::Some(a), Option::Some(b)) => *a == *b,
                _ => false,
            },
        };
        let atk_ok = match &input.atk {
            Option::None => true,
            Option::Some(x) => match (self.atk(), x) {
                (Option::None, Option::None) => true,
                (Option::Some(a), Option::Some(b)) => *a == *b,
                _ => false,
            },
        };
        let atk_c_ok = match &input.atk_consequential {
            Option::None => true,
            Option::Some(x) => match (self.atk_consequential(), x) {
                (Option::None, Option::None) => true,
                (Option::Some(a), Option::Some(b)) => *a == *b,
                _ => false,
            },
        };
        let def_ok = match &input.def {
            Option::None => true,
            Option::Some(x) => match (self.def(), x) {
                (Option::None, Option::None) => true,
                (Option::Some(a), Option::Some(b)) => *a == *b,
                _ => false,
            },
        };
        let rec_ok = match &input.rec {
            Option::None => true,
            Option::Some(x) => match (self.rec(), x) {
                (Option::None, Option::None) => true,
                (Option::Some(a), Option::Some(b)) => *a == *b,
                _ => false,
            },
        };
        let hand_ok = match &input.hand_size {
            Option::None => true,
            Option::Some(x) => match (self.hand_size(), x) {
                (Option::None, Option::None) => true,
                (Option::Some(a), Option::Some(b)) => *a == *b,
                _ => false,
            },
        };
        let hp_ok = match &input.hit_points {
            Option::None => true,
            Option::Some(x) => match (self.hit_points(), x) {
                (Option::None, Option::None) => true,
                (Option::Some(a), Option::Some(b)) => *a == *b,
                _ => false,
            },
        };
        name_ok && text_ok && flavor_ok && illustrators_ok && traits_ok && side_ok && unique_ok
            && thw_ok && thw_c_ok && atk_ok && atk_c_ok && def_ok && rec_ok && hand_ok && hp_ok
    }
}

} // verus!
