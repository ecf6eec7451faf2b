//! One generation as mathematics: what sowing and stepping make of a grid,
//! and what always holds of the result.

use vstd::prelude::*;
use crate::chance::Chance;
use crate::grid::in_bounds;
use crate::spread::{
    adjacent, burning_at, has_burning_neighbor, lemma_burning_neighbor_is_adjacent_fire, spread,
};
use crate::state::{next_state, State};

verus! {

/// A forest sown by the draws `rolls`: a tree where the draw hits `chance`,
/// an empty cell elsewhere.
pub open spec fn seeded(height: nat, width: nat, rolls: Seq<Seq<u32>>, chance: Chance) -> Seq<
    Seq<State>,
> {
    Seq::new(
        height,
        |r: int|
            Seq::new(
                width,
                |c: int|
                    if chance.hits(rolls[r][c]) {
                        State::Tree
                    } else {
                        State::Empty
                    },
            ),
    )
}

/// `cells` after each cell has changed by its own state and its own draw.
pub open spec fn transitioned(
    cells: Seq<Seq<State>>,
    rolls: Seq<Seq<u32>>,
    grow: Chance,
    fire: Chance,
) -> Seq<Seq<State>> {
    Seq::new(
        cells.len(),
        |r: int|
            Seq::new(cells[r].len(), |c: int| next_state(cells[r][c], rolls[r][c], grow, fire)),
    )
}

/// The generation that follows `cells` under the draws `rolls`: first every
/// cell changes by itself, then the fires of the new generation heat the
/// trees around them.
pub open spec fn stepped(
    cells: Seq<Seq<State>>,
    rolls: Seq<Seq<u32>>,
    grow: Chance,
    fire: Chance,
) -> Seq<Seq<State>> {
    spread(transitioned(cells, rolls, grow, fire))
}

/// Sowing leaves nothing but empty cells and trees.
pub proof fn lemma_seeded_is_empty_or_tree(
    height: nat,
    width: nat,
    rolls: Seq<Seq<u32>>,
    chance: Chance,
    r: int,
    c: int,
)
    requires
        0 <= r < height,
        0 <= c < width,
    ensures
        seeded(height, width, rolls, chance).len() == height,
        seeded(height, width, rolls, chance)[r].len() == width,
        seeded(height, width, rolls, chance)[r][c] == State::Empty || seeded(
            height,
            width,
            rolls,
            chance,
        )[r][c] == State::Tree,
{
}

/// A step keeps the shape of the grid, and every cell of the new generation
/// is in one of the four states.
pub proof fn lemma_stepped_is_total(
    cells: Seq<Seq<State>>,
    rolls: Seq<Seq<u32>>,
    grow: Chance,
    fire: Chance,
    r: int,
    c: int,
)
    requires
        in_bounds(cells, r, c),
    ensures
        stepped(cells, rolls, grow, fire).len() == cells.len(),
        stepped(cells, rolls, grow, fire)[r].len() == cells[r].len(),
        ({
            let state = stepped(cells, rolls, grow, fire)[r][c];
            ||| state == State::Empty
            ||| state == State::Tree
            ||| state == State::Burning
            ||| state == State::Heating
        }),
{
}

/// A step is a function of the grid and of the draws of its cells: two
/// tables that give every cell of the grid the same draw give the same next
/// generation. So a source that always returns one number makes every run
/// from one grid come out the same.
pub proof fn lemma_step_is_deterministic(
    cells: Seq<Seq<State>>,
    first: Seq<Seq<u32>>,
    second: Seq<Seq<u32>>,
    grow: Chance,
    fire: Chance,
)
    requires
        forall|r: int, c: int| #[trigger] in_bounds(cells, r, c) ==> first[r][c] == second[r][c],
    ensures
        stepped(cells, first, grow, fire) == stepped(cells, second, grow, fire),
{
    let one = transitioned(cells, first, grow, fire);
    let other = transitioned(cells, second, grow, fire);
    assert forall|r: int, c: int| 0 <= r < cells.len() && 0 <= c < cells[r].len() implies one[r][c]
        == other[r][c] by {
        assert(in_bounds(cells, r, c));
    }
    assert(one =~~= other);
}

/// What it takes for a cell to be heating after a step: before heat spread
/// it was a tree with fire next to it, and such a tree either stood there a
/// generation ago or has grown on an empty cell in this very step.
pub proof fn lemma_heating_has_cause(
    cells: Seq<Seq<State>>,
    rolls: Seq<Seq<u32>>,
    grow: Chance,
    fire: Chance,
    r: int,
    c: int,
)
    requires
        in_bounds(cells, r, c),
        stepped(cells, rolls, grow, fire)[r][c] == State::Heating,
    ensures
        transitioned(cells, rolls, grow, fire)[r][c] == State::Tree,
        has_burning_neighbor(transitioned(cells, rolls, grow, fire), r, c),
        cells[r][c] == State::Tree || (cells[r][c] == State::Empty && grow.hits(rolls[r][c])),
{
}

/// A cell on which no tree grows in this step is heating in the next
/// generation only if it was a tree and, once every cell had changed by
/// itself, had a burning cell next to it.
pub proof fn lemma_heating_was_tree_beside_fire(
    cells: Seq<Seq<State>>,
    rolls: Seq<Seq<u32>>,
    grow: Chance,
    fire: Chance,
    r: int,
    c: int,
)
    requires
        in_bounds(cells, r, c),
        !(cells[r][c] == State::Empty && grow.hits(rolls[r][c])),
        stepped(cells, rolls, grow, fire)[r][c] == State::Heating,
    ensures
        cells[r][c] == State::Tree,
        exists|y: int, x: int|
            adjacent(y, x, r, c) && #[trigger] burning_at(
                transitioned(cells, rolls, grow, fire),
                y,
                x,
            ),
{
    lemma_burning_neighbor_is_adjacent_fire(transitioned(cells, rolls, grow, fire), r, c);
}

/// A heating tree burns in the next generation, whatever is drawn: it is
/// neither put out nor skipped, and neither does it stay heating.
pub proof fn lemma_fuse(
    cells: Seq<Seq<State>>,
    rolls: Seq<Seq<u32>>,
    grow: Chance,
    fire: Chance,
    r: int,
    c: int,
)
    requires
        in_bounds(cells, r, c),
        cells[r][c] == State::Heating,
    ensures
        stepped(cells, rolls, grow, fire)[r][c] == State::Burning,
{
}

} // verus!
