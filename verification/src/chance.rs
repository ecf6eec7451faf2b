//! Probabilities as integers, and the test of a random draw against one.

use vstd::prelude::*;

verus! {

/// A draw is a number below this bound; a chance counts how many of the
/// draws are hits.
pub const ROLL_BOUND: u32 = 1_000_000;

/// The probability of an event, in parts per million.
///
/// A value of `ROLL_BOUND` or more stands for an event that is certain.
#[derive(Clone, Copy, Debug, PartialEq, Eq, Structural)]
pub struct Chance {
    pub per_million: u32,
}

impl Chance {
    /// Whether the event happens on the draw `roll`.
    pub open spec fn hits(self, roll: u32) -> bool {
        roll < self.per_million
    }

    pub fn new(per_million: u32) -> (chance: Chance)
        ensures
            chance.per_million == per_million,
    {
        Chance { per_million }
    }

    /// The chance of an event that never happens.
    pub fn never() -> (chance: Chance)
        ensures
            chance.per_million == 0,
            forall|roll: u32| !chance.hits(roll),
    {
        Chance { per_million: 0 }
    }

    /// The chance of an event that happens on every draw below `ROLL_BOUND`.
    pub fn always() -> (chance: Chance)
        ensures
            chance.per_million == ROLL_BOUND,
            forall|roll: u32| roll < ROLL_BOUND ==> chance.hits(roll),
    {
        Chance { per_million: ROLL_BOUND }
    }
}

/// Decides an event of probability `chance` by the draw `roll`.
///
/// Over draws that are uniform below `ROLL_BOUND`, the event happens in
/// `chance.per_million` cases out of a million.
pub fn prob_check(chance: Chance, roll: u32) -> (hit: bool)
    ensures
        hit == chance.hits(roll),
{
    roll < chance.per_million
}

} // verus!
