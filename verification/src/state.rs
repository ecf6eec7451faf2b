//! The four states of a cell and the rule by which one cell changes.

use vstd::prelude::*;
use crate::chance::{prob_check, Chance};

verus! {

/// What stands on one cell of the forest.
#[derive(Clone, Copy, Debug, PartialEq, Eq, Structural)]
pub enum State {
    Empty,
    Tree,
    Burning,
    Heating,
}

/// The state that follows `state` when the cell's draw is `roll`.
///
/// An empty cell grows a tree with chance `grow`, a tree catches fire with
/// chance `fire`, a burning cell burns down and a heating tree ignites.
pub open spec fn next_state(state: State, roll: u32, grow: Chance, fire: Chance) -> State {
    match state {
        State::Empty => if grow.hits(roll) { State::Tree } else { State::Empty },
        State::Tree => if fire.hits(roll) { State::Burning } else { State::Tree },
        State::Burning => State::Empty,
        State::Heating => State::Burning,
    }
}

/// Advances one cell by one generation, before any heat spreads.
pub fn update_tile(state: State, roll: u32, grow: Chance, fire: Chance) -> (next: State)
    ensures
        next == next_state(state, roll, grow, fire),
{
    match state {
        State::Empty => {
            if prob_check(grow, roll) {
                State::Tree
            } else {
                State::Empty
            }
        },
        State::Tree => {
            if prob_check(fire, roll) {
                State::Burning
            } else {
                State::Tree
            }
        },
        State::Burning => State::Empty,
        State::Heating => State::Burning,
    }
}

} // verus!
