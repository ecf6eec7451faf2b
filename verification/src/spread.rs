//! How fire heats the trees around it.

use vstd::prelude::*;
use crate::grid::{in_bounds, rectangular, Grid};
use crate::state::State;

verus! {

/// Whether `(r, c)` is one of the eight places around `(y, x)`.
pub open spec fn adjacent(r: int, c: int, y: int, x: int) -> bool {
    y - 1 <= r <= y + 1 && x - 1 <= c <= x + 1 && !(r == y && c == x)
}

/// `cells` after every tree around `(y, x)` has begun to heat.
///
/// Places around `(y, x)` that lie outside the grid are passed over: the
/// grid has an edge, it does not wrap around.
pub open spec fn heat_around(cells: Seq<Seq<State>>, y: int, x: int) -> Seq<Seq<State>> {
    Seq::new(
        cells.len(),
        |r: int|
            Seq::new(
                cells[r].len(),
                |c: int|
                    if adjacent(r, c, y, x) && cells[r][c] == State::Tree {
                        State::Heating
                    } else {
                        cells[r][c]
                    },
            ),
    )
}

/// The place of the step `(dy, dx)` in the order in which the places around
/// a cell are visited: row by row, each row from left to right.
spec fn visit_order(dy: int, dx: int) -> int {
    let k = (dy + 1) * 3 + (dx + 1);
    if k > 4 {
        k - 1
    } else {
        k
    }
}

/// Whether `(dy, dx)` leads from a cell to the place around it that is
/// visited as number `k`.
spec fn is_step(dy: int, dx: int, k: int) -> bool {
    -1 <= dy <= 1 && -1 <= dx <= 1 && !(dy == 0 && dx == 0) && visit_order(dy, dx) == k
}

/// `cells` after the trees on the first `visited` places around `(y, x)`
/// have begun to heat.
spec fn heat_partly(cells: Seq<Seq<State>>, y: int, x: int, visited: int) -> Seq<
    Seq<State>,
> {
    Seq::new(
        cells.len(),
        |r: int|
            Seq::new(
                cells[r].len(),
                |c: int|
                    if adjacent(r, c, y, x) && visit_order(r - y, c - x) < visited
                        && cells[r][c] == State::Tree {
                        State::Heating
                    } else {
                        cells[r][c]
                    },
            ),
    )
}

/// Sets every tree among the eight neighbours of `(y, x)` to heating.
///
/// Neighbours outside the grid are skipped, so a cell on the edge or in a
/// corner heats fewer than eight.
pub fn heat_neighbors(forest: &mut Grid, y: usize, x: usize)
    requires
        old(forest).wf(),
    ensures
        final(forest).wf(),
        final(forest).spec_width() == old(forest).spec_width(),
        final(forest)@ == heat_around(old(forest)@, y as int, x as int),
{
    let neighbors: [(i8, i8); 8] = [
        (-1, -1),
        (-1, 0),
        (-1, 1),
        (0, -1),
        (0, 1),
        (1, -1),
        (1, 0),
        (1, 1),
    ];
    assert(forest@ =~~= heat_partly(old(forest)@, y as int, x as int, 0));
    let mut k: usize = 0;
    while k < 8
        invariant
            k <= 8,
            forest.wf(),
            forest.spec_width() == old(forest).spec_width(),
            forest@ == heat_partly(old(forest)@, y as int, x as int, k as int),
            forall|j: int|
                0 <= j < 8 ==> is_step(
                    (#[trigger] neighbors@[j]).0 as int,
                    neighbors@[j].1 as int,
                    j,
                ),
        decreases 8 - k,
    {
        let (yoff, xoff) = neighbors[k];
        let ny: i128 = y as i128 + yoff as i128;
        let nx: i128 = x as i128 + xoff as i128;
        if ny >= 0 && ny < forest.height() as i128 && nx >= 0 && nx < forest.width() as i128 {
            let r: usize = ny as usize;
            let c: usize = nx as usize;
            match forest.get(r, c) {
                Some(State::Tree) => {
                    forest.set(r, c, State::Heating);
                },
                _ => {},
            }
        }
        assert(forest@ =~~= heat_partly(old(forest)@, y as int, x as int, k + 1));
        k = k + 1;
    }
    assert(forest@ =~~= heat_around(old(forest)@, y as int, x as int));
}

/// Whether `(r, c)` is a cell of `cells` and on fire.
pub open spec fn burning_at(cells: Seq<Seq<State>>, r: int, c: int) -> bool {
    in_bounds(cells, r, c) && cells[r][c] == State::Burning
}

/// Whether one of the eight places around `(r, c)` is a cell on fire.
pub open spec fn has_burning_neighbor(cells: Seq<Seq<State>>, r: int, c: int) -> bool {
    ||| burning_at(cells, r - 1, c - 1)
    ||| burning_at(cells, r - 1, c)
    ||| burning_at(cells, r - 1, c + 1)
    ||| burning_at(cells, r, c - 1)
    ||| burning_at(cells, r, c + 1)
    ||| burning_at(cells, r + 1, c - 1)
    ||| burning_at(cells, r + 1, c)
    ||| burning_at(cells, r + 1, c + 1)
}

/// `cells` after every burning cell has heated the trees around it: a tree
/// with fire next to it is heating, every other cell is as it was.
pub open spec fn spread(cells: Seq<Seq<State>>) -> Seq<Seq<State>> {
    Seq::new(
        cells.len(),
        |r: int|
            Seq::new(
                cells[r].len(),
                |c: int|
                    if cells[r][c] == State::Tree && has_burning_neighbor(cells, r, c) {
                        State::Heating
                    } else {
                        cells[r][c]
                    },
            ),
    )
}

/// Whether `(r, c)` is on fire and comes before `(y, x)` when the grid is
/// walked row by row.
spec fn burning_before(cells: Seq<Seq<State>>, r: int, c: int, y: int, x: int) -> bool {
    burning_at(cells, r, c) && (r < y || (r == y && c < x))
}

/// Whether a burning cell that comes before `(y, x)` lies around `(r, c)`.
spec fn heated_before(cells: Seq<Seq<State>>, r: int, c: int, y: int, x: int) -> bool {
    ||| burning_before(cells, r - 1, c - 1, y, x)
    ||| burning_before(cells, r - 1, c, y, x)
    ||| burning_before(cells, r - 1, c + 1, y, x)
    ||| burning_before(cells, r, c - 1, y, x)
    ||| burning_before(cells, r, c + 1, y, x)
    ||| burning_before(cells, r + 1, c - 1, y, x)
    ||| burning_before(cells, r + 1, c, y, x)
    ||| burning_before(cells, r + 1, c + 1, y, x)
}

/// `cells` after the burning cells that come before `(y, x)` have heated
/// the trees around them.
spec fn spread_partly(cells: Seq<Seq<State>>, y: int, x: int) -> Seq<Seq<State>> {
    Seq::new(
        cells.len(),
        |r: int|
            Seq::new(
                cells[r].len(),
                |c: int|
                    if cells[r][c] == State::Tree && heated_before(cells, r, c, y, x) {
                        State::Heating
                    } else {
                        cells[r][c]
                    },
            ),
    )
}

/// Lets every burning cell of `forest` heat its neighbours.
///
/// The cells are visited row by row; since heating neither lights nor puts
/// out a fire, the order does not show in the result.
pub fn propagate(forest: &mut Grid)
    requires
        old(forest).wf(),
    ensures
        final(forest).wf(),
        final(forest).spec_width() == old(forest).spec_width(),
        final(forest)@ == spread(old(forest)@),
{
    let height = forest.height();
    let width = forest.width();
    assert(forest@ =~~= spread_partly(old(forest)@, 0, 0));
    let mut y: usize = 0;
    while y < height
        invariant
            y <= height,
            height == old(forest)@.len(),
            width == old(forest).spec_width(),
            old(forest).wf(),
            forest.wf(),
            forest.spec_width() == old(forest).spec_width(),
            forest@ == spread_partly(old(forest)@, y as int, 0),
        decreases height - y,
    {
        let mut x: usize = 0;
        while x < width
            invariant
                y < height,
                x <= width,
                height == old(forest)@.len(),
                width == old(forest).spec_width(),
                old(forest).wf(),
                forest.wf(),
                forest.spec_width() == old(forest).spec_width(),
                forest@ == spread_partly(old(forest)@, y as int, x as int),
            decreases width - x,
        {
            match forest.get(y, x) {
                Some(State::Burning) => {
                    heat_neighbors(forest, y, x);
                },
                _ => {},
            }
            assert(forest@ =~~= spread_partly(old(forest)@, y as int, x + 1));
            x = x + 1;
        }
        assert(forest@ =~~= spread_partly(old(forest)@, y + 1, 0));
        y = y + 1;
    }
    assert(forest@ =~~= spread(old(forest)@));
}

/// Fire next to a cell means the same whether the eight places are named one
/// by one or found by asking for some adjacent cell that burns.
pub proof fn lemma_burning_neighbor_is_adjacent_fire(cells: Seq<Seq<State>>, r: int, c: int)
    ensures
        has_burning_neighbor(cells, r, c) <==> exists|y: int, x: int|
            adjacent(y, x, r, c) && #[trigger] burning_at(cells, y, x),
{
}

/// A cell in a corner of the grid has at most three neighbours inside the
/// grid, and a fire there heats none but these: the cell beside it, the cell
/// above or below it, and the one diagonal to it.
pub proof fn lemma_corner_heats_three_at_most(
    cells: Seq<Seq<State>>,
    width: nat,
    y: int,
    x: int,
    r: int,
    c: int,
)
    requires
        rectangular(cells, width),
        in_bounds(cells, y, x),
        y == 0 || y == cells.len() - 1,
        x == 0 || x == width - 1,
        in_bounds(cells, r, c),
    ensures
        heat_around(cells, y, x).len() == cells.len(),
        heat_around(cells, y, x)[r].len() == cells[r].len(),
        adjacent(r, c, y, x) ==> {
            let inner_row = if y == 0 { 1 } else { y - 1 };
            let inner_column = if x == 0 { 1 } else { x - 1 };
            ||| (r == y && c == inner_column)
            ||| (r == inner_row && c == x)
            ||| (r == inner_row && c == inner_column)
        },
        heat_around(cells, y, x)[r][c] != cells[r][c] ==> adjacent(r, c, y, x) && cells[r][c]
            == State::Tree,
{
}

} // verus!
