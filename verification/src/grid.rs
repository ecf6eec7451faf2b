//! The rectangular grid of cells.

use vstd::prelude::*;
use crate::state::State;

verus! {

/// Whether every row of `cells` holds `width` cells.
pub open spec fn rectangular(cells: Seq<Seq<State>>, width: nat) -> bool {
    forall|r: int| 0 <= r < cells.len() ==> (#[trigger] cells[r]).len() == width
}

/// Whether `(r, c)` names a cell of `cells`.
pub open spec fn in_bounds(cells: Seq<Seq<State>>, r: int, c: int) -> bool {
    0 <= r < cells.len() && 0 <= c < cells[r].len()
}

/// The grid of `height` rows and `width` columns whose every cell is `state`.
pub open spec fn uniform(height: nat, width: nat, state: State) -> Seq<Seq<State>> {
    Seq::new(height, |r: int| Seq::new(width, |c: int| state))
}

/// The rows of a nested vector as a sequence of sequences.
pub open spec fn rows_view(rows: Seq<Vec<State>>) -> Seq<Seq<State>> {
    Seq::new(rows.len(), |r: int| rows[r]@)
}

/// A grid of cells, addressed by row and column.
///
/// Its view is the sequence of its rows, each a sequence of states; in a
/// well-formed grid every row holds `spec_width()` cells.
#[derive(Debug)]
pub struct Grid {
    width: usize,
    rows: Vec<Vec<State>>,
}

impl View for Grid {
    type V = Seq<Seq<State>>;

    closed spec fn view(&self) -> Seq<Seq<State>> {
        rows_view(self.rows@)
    }
}

impl Grid {
    pub closed spec fn spec_width(&self) -> nat {
        self.width as nat
    }

    pub open spec fn spec_height(&self) -> nat {
        self@.len()
    }

    /// Every row is as long as the grid is wide.
    pub open spec fn wf(&self) -> bool {
        rectangular(self@, self.spec_width())
    }

    /// A grid of `height` rows and `width` columns of empty cells.
    pub fn new(height: usize, width: usize) -> (grid: Grid)
        ensures
            grid.wf(),
            grid.spec_width() == width,
            grid@ == uniform(height as nat, width as nat, State::Empty),
    {
        let mut rows: Vec<Vec<State>> = Vec::new();
        let mut r: usize = 0;
        while r < height
            invariant
                r <= height,
                rows@.len() == r,
                forall|i: int| 0 <= i < r ==> (#[trigger] rows@[i])@ == Seq::new(
                    width as nat,
                    |c: int| State::Empty,
                ),
            decreases height - r,
        {
            let mut row: Vec<State> = Vec::new();
            let mut c: usize = 0;
            while c < width
                invariant
                    c <= width,
                    row@.len() == c,
                    forall|j: int| 0 <= j < c ==> row@[j] == State::Empty,
                decreases width - c,
            {
                row.push(State::Empty);
                c = c + 1;
            }
            rows.push(row);
            r = r + 1;
        }
        Grid { width, rows }
    }

    /// The grid whose rows are `rows`, if they all have one length.
    ///
    /// The width of a grid without rows is zero.
    pub fn from_rows(rows: Vec<Vec<State>>) -> (made: Option<Grid>)
        ensures
            made is Some <==> (rows@.len() > 0 ==> rectangular(
                rows_view(rows@),
                rows@[0]@.len(),
            )),
            made matches Some(grid) ==> {
                &&& grid.wf()
                &&& grid@ == rows_view(rows@)
                &&& grid.spec_width() == if rows@.len() > 0 {
                    rows@[0]@.len()
                } else {
                    0
                }
            },
    {
        if rows.len() == 0 {
            return Some(Grid { width: 0, rows });
        }
        let width = rows[0].len();
        let mut r: usize = 1;
        while r < rows.len()
            invariant
                1 <= r <= rows@.len(),
                width == rows@[0]@.len(),
                forall|i: int| 0 <= i < r ==> (#[trigger] rows_view(rows@)[i]).len() == width,
            decreases rows@.len() - r,
        {
            if rows[r].len() != width {
                assert(rows_view(rows@)[r as int].len() != width);
                return None;
            }
            r = r + 1;
        }
        Some(Grid { width, rows })
    }

    /// The number of rows.
    pub fn height(&self) -> (height: usize)
        ensures
            height == self.spec_height(),
    {
        self.rows.len()
    }

    /// The number of cells in each row.
    pub fn width(&self) -> (width: usize)
        ensures
            width == self.spec_width(),
    {
        self.width
    }

    /// The state of the cell at row `r` and column `c`, if there is one.
    pub fn get(&self, r: usize, c: usize) -> (found: Option<State>)
        requires
            self.wf(),
        ensures
            found == if in_bounds(self@, r as int, c as int) {
                Some(self@[r as int][c as int])
            } else {
                None
            },
    {
        if r < self.rows.len() && c < self.width {
            Some(self.rows[r][c])
        } else {
            assert(r < self.rows@.len() ==> self@[r as int].len() == self.width);
            None
        }
    }

    /// Puts `state` on the cell at row `r` and column `c`; outside the grid
    /// nothing changes, and the answer is `false`.
    pub fn set(&mut self, r: usize, c: usize, state: State) -> (done: bool)
        requires
            old(self).wf(),
        ensures
            final(self).wf(),
            final(self).spec_width() == old(self).spec_width(),
            done == in_bounds(old(self)@, r as int, c as int),
            final(self)@ == if done {
                old(self)@.update(r as int, old(self)@[r as int].update(c as int, state))
            } else {
                old(self)@
            },
    {
        if r < self.rows.len() && c < self.width {
            self.rows[r][c] = state;
            assert(self@ =~~= old(self)@.update(
                r as int,
                old(self)@[r as int].update(c as int, state),
            ));
            true
        } else {
            assert(r < self.rows@.len() ==> self@[r as int].len() == self.width);
            false
        }
    }
}

impl Clone for Grid {
    fn clone(&self) -> (copy: Grid)
        ensures
            copy@ == self@,
            copy.spec_width() == self.spec_width(),
    {
        let mut rows: Vec<Vec<State>> = Vec::new();
        let mut r: usize = 0;
        while r < self.rows.len()
            invariant
                r <= self.rows@.len(),
                rows@.len() == r,
                forall|i: int| 0 <= i < r ==> (#[trigger] rows@[i])@ == self.rows@[i]@,
            decreases self.rows@.len() - r,
        {
            let source = &self.rows[r];
            let mut row: Vec<State> = Vec::new();
            let mut c: usize = 0;
            while c < source.len()
                invariant
                    c <= source@.len(),
                    row@.len() == c,
                    forall|j: int| 0 <= j < c ==> row@[j] == source@[j],
                decreases source@.len() - c,
            {
                row.push(source[c]);
                c = c + 1;
            }
            rows.push(row);
            r = r + 1;
        }
        Grid { width: self.width, rows }
    }
}

} // verus!
