//! The closed vocabulary of card traits.

use vstd::prelude::*;

verus! {

/// A trait tag printed on a card side (e.g. "Avenger", "S.H.I.E.L.D.").
#[derive(Clone, Copy, Debug, PartialEq, Eq, Hash, Structural)]
pub enum Trait {
    Aerial,
    Armor,
    Attack,
    Attorney,
    Avenger,
    Brute,
    Condition,
    Criminal,
    Defense,
    Elite,
    Gamma,
    Genius,
    HeroForHire,
    Kree,
    Item,
    Location,
    Persona,
    Skill,
    Shield,
    Soldier,
    Spy,
    Superpower,
    Tech,
    Thwart,
}

} // verus!
