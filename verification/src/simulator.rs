//! The simulator: two grids, a generation counter and a random source.

use rand::rngs::ThreadRng;
use vstd::prelude::*;
use crate::chance::{prob_check, Chance};
use crate::dice::{draw_table, in_range, is_table, table_of};
use crate::generation::{seeded, stepped, transitioned};
use crate::grid::{in_bounds, rectangular, uniform, Grid};
use crate::spread::propagate;
use crate::state::{update_tile, State};

verus! {

/// The size of the forest and the chances that rule it.
#[derive(Clone, Copy, Debug, PartialEq, Eq)]
pub struct Config {
    pub height: usize,
    pub width: usize,
    /// The chance that an empty cell grows a tree in one generation.
    pub grow: Chance,
    /// The chance that a tree catches fire by itself in one generation.
    pub fire: Chance,
}

/// The grid of a generation together with the generation's number.
#[derive(Debug)]
pub struct Snapshot {
    pub generation: u64,
    pub grid: Grid,
}

/// Writes into `next` what every cell of `current` becomes by itself.
fn transition_pass(
    current: &Grid,
    next: &mut Grid,
    rolls: &Vec<Vec<u32>>,
    grow: Chance,
    fire: Chance,
)
    requires
        current.wf(),
        old(next).wf(),
        old(next)@.len() == current@.len(),
        old(next).spec_width() == current.spec_width(),
        table_of(rolls.deep_view(), current@.len(), current.spec_width()),
    ensures
        final(next).wf(),
        final(next).spec_width() == current.spec_width(),
        final(next)@ == transitioned(current@, rolls.deep_view(), grow, fire),
{
    let height = current.height();
    let width = current.width();
    let ghost goal = transitioned(current@, rolls.deep_view(), grow, fire);
    let mut r: usize = 0;
    while r < height
        invariant
            r <= height,
            height == current@.len(),
            width == current.spec_width(),
            current.wf(),
            next.wf(),
            next@.len() == height,
            next.spec_width() == width,
            table_of(rolls.deep_view(), height as nat, width as nat),
            goal == transitioned(current@, rolls.deep_view(), grow, fire),
            forall|i: int, j: int| 0 <= i < r && 0 <= j < width ==> next@[i][j] == goal[i][j],
        decreases height - r,
    {
        let mut c: usize = 0;
        while c < width
            invariant
                r < height,
                c <= width,
                height == current@.len(),
                width == current.spec_width(),
                current.wf(),
                next.wf(),
                next@.len() == height,
                next.spec_width() == width,
                table_of(rolls.deep_view(), height as nat, width as nat),
                goal == transitioned(current@, rolls.deep_view(), grow, fire),
                forall|i: int, j: int| 0 <= i < r && 0 <= j < width ==> next@[i][j] == goal[i][j],
                forall|j: int| 0 <= j < c ==> next@[r as int][j] == goal[r as int][j],
            decreases width - c,
        {
            assert(rolls.deep_view()[r as int][c as int] == rolls@[r as int]@[c as int]);
            if let Some(state) = current.get(r, c) {
                let roll = rolls[r][c];
                next.set(r, c, update_tile(state, roll, grow, fire));
            }
            c = c + 1;
        }
        r = r + 1;
    }
    assert(next@ =~~= goal);
}

/// Sows `forest` by the draws `rolls`.
fn prepopulate_forest(forest: &mut Grid, rolls: &Vec<Vec<u32>>, chance: Chance)
    requires
        old(forest).wf(),
        table_of(rolls.deep_view(), old(forest)@.len(), old(forest).spec_width()),
    ensures
        final(forest).wf(),
        final(forest).spec_width() == old(forest).spec_width(),
        final(forest)@ == seeded(
            old(forest)@.len(),
            old(forest).spec_width(),
            rolls.deep_view(),
            chance,
        ),
{
    let height = forest.height();
    let width = forest.width();
    let ghost goal = seeded(height as nat, width as nat, rolls.deep_view(), chance);
    let mut r: usize = 0;
    while r < height
        invariant
            r <= height,
            forest.wf(),
            forest@.len() == height,
            forest.spec_width() == width,
            table_of(rolls.deep_view(), height as nat, width as nat),
            goal == seeded(height as nat, width as nat, rolls.deep_view(), chance),
            forall|i: int, j: int| 0 <= i < r && 0 <= j < width ==> forest@[i][j] == goal[i][j],
        decreases height - r,
    {
        let mut c: usize = 0;
        while c < width
            invariant
                r < height,
                c <= width,
                forest.wf(),
                forest@.len() == height,
                forest.spec_width() == width,
                table_of(rolls.deep_view(), height as nat, width as nat),
                goal == seeded(height as nat, width as nat, rolls.deep_view(), chance),
                forall|i: int, j: int|
                    0 <= i < r && 0 <= j < width ==> forest@[i][j] == goal[i][j],
                forall|j: int| 0 <= j < c ==> forest@[r as int][j] == goal[r as int][j],
            decreases width - c,
        {
            assert(rolls.deep_view()[r as int][c as int] == rolls@[r as int]@[c as int]);
            let state = if prob_check(chance, rolls[r][c]) {
                State::Tree
            } else {
                State::Empty
            };
            forest.set(r, c, state);
            c = c + 1;
        }
        r = r + 1;
    }
    assert(forest@ =~~= goal);
}

/// A forest that is stepped from generation to generation.
///
/// It owns the grid of the present generation, a second grid of the same
/// size into which the next generation is written, the number of
/// generations computed so far, and its random source.
pub struct ForestSimulator {
    config: Config,
    current: Grid,
    next: Grid,
    generation: u64,
    rng: ThreadRng,
}

impl ForestSimulator {
    /// The cells of the present generation.
    pub closed spec fn cells(&self) -> Seq<Seq<State>> {
        self.current@
    }

    pub closed spec fn spec_generation(&self) -> u64 {
        self.generation
    }

    pub closed spec fn spec_config(&self) -> Config {
        self.config
    }

    /// Both grids are well formed and as wide as configured, and the
    /// second is as high as configured.
    pub closed spec fn buffers_fit(&self) -> bool {
        &&& self.current.wf()
        &&& self.next.wf()
        &&& self.next@.len() == self.config.height
        &&& self.current.spec_width() == self.config.width
        &&& self.next.spec_width() == self.config.width
    }

    /// The forest is a rectangle of the configured size, and so is the
    /// grid that waits for the next generation.
    pub open spec fn wf(&self) -> bool {
        &&& self.cells().len() == self.spec_config().height
        &&& rectangular(self.cells(), self.spec_config().width as nat)
        &&& self.buffers_fit()
    }

    /// An empty forest of the configured size, at generation zero.
    pub fn new(config: Config) -> (sim: ForestSimulator)
        ensures
            sim.wf(),
            sim.spec_config() == config,
            sim.spec_generation() == 0,
            sim.cells() == uniform(config.height as nat, config.width as nat, State::Empty),
    {
        ForestSimulator {
            config,
            current: Grid::new(config.height, config.width),
            next: Grid::new(config.height, config.width),
            generation: 0,
            rng: rand::thread_rng(),
        }
    }

    /// A simulator that starts from `grid`, at generation zero.
    pub fn with_grid(grid: Grid, grow: Chance, fire: Chance) -> (sim: ForestSimulator)
        requires
            grid.wf(),
        ensures
            sim.wf(),
            sim.spec_config() == (Config {
                height: grid@.len() as usize,
                width: grid.spec_width() as usize,
                grow,
                fire,
            }),
            sim.spec_generation() == 0,
            sim.cells() == grid@,
    {
        let config = Config { height: grid.height(), width: grid.width(), grow, fire };
        ForestSimulator {
            config,
            current: grid,
            next: Grid::new(config.height, config.width),
            generation: 0,
            rng: rand::thread_rng(),
        }
    }

    pub fn config(&self) -> (config: Config)
        ensures
            config == self.spec_config(),
    {
        self.config
    }

    /// The number of generations computed so far.
    pub fn generation(&self) -> (generation: u64)
        ensures
            generation == self.spec_generation(),
    {
        self.generation
    }

    /// The grid of the present generation.
    pub fn grid(&self) -> (grid: &Grid)
        requires
            self.wf(),
        ensures
            grid.wf(),
            grid@ == self.cells(),
            grid.spec_width() == self.spec_config().width,
    {
        &self.current
    }

    /// A copy of the present generation.
    pub fn snapshot(&self) -> (shot: Snapshot)
        requires
            self.wf(),
        ensures
            shot.generation == self.spec_generation(),
            shot.grid.wf(),
            shot.grid@ == self.cells(),
            shot.grid.spec_width() == self.spec_config().width,
    {
        Snapshot { generation: self.generation, grid: self.current.clone() }
    }

    /// Sows the forest by the draws `rolls`, one for each cell: a cell
    /// becomes a tree where its draw hits `chance` and empty elsewhere,
    /// whatever stood there before.
    ///
    /// If `rolls` is not a table of the forest's size, nothing changes and
    /// the answer is `false`.
    pub fn seed_with(&mut self, chance: Chance, rolls: &Vec<Vec<u32>>) -> (done: bool)
        requires
            old(self).wf(),
        ensures
            final(self).wf(),
            final(self).spec_config() == old(self).spec_config(),
            final(self).spec_generation() == old(self).spec_generation(),
            done == table_of(
                rolls.deep_view(),
                old(self).spec_config().height as nat,
                old(self).spec_config().width as nat,
            ),
            final(self).cells() == if done {
                seeded(
                    old(self).spec_config().height as nat,
                    old(self).spec_config().width as nat,
                    rolls.deep_view(),
                    chance,
                )
            } else {
                old(self).cells()
            },
    {
        if !is_table(rolls, self.config.height, self.config.width) {
            return false;
        }
        prepopulate_forest(&mut self.current, rolls, chance);
        true
    }

    /// Sows the forest at random: every cell becomes a tree with
    /// probability `initial_tree_probability`, by a draw of its own, and
    /// empty otherwise.
    pub fn seed(&mut self, initial_tree_probability: Chance)
        requires
            old(self).wf(),
        ensures
            final(self).wf(),
            final(self).spec_config() == old(self).spec_config(),
            final(self).spec_generation() == old(self).spec_generation(),
            exists|rolls: Seq<Seq<u32>>|
                {
                    &&& table_of(
                        rolls,
                        old(self).spec_config().height as nat,
                        old(self).spec_config().width as nat,
                    )
                    &&& in_range(rolls)
                    &&& final(self).cells() == #[trigger] seeded(
                        old(self).spec_config().height as nat,
                        old(self).spec_config().width as nat,
                        rolls,
                        initial_tree_probability,
                    )
                },
            forall|r: int, c: int|
                in_bounds(final(self).cells(), r, c) ==> {
                    let state = #[trigger] final(self).cells()[r][c];
                    state == State::Empty || state == State::Tree
                },
    {
        let rolls = draw_table(&mut self.rng, self.config.height, self.config.width);
        prepopulate_forest(&mut self.current, &rolls, initial_tree_probability);
    }

    /// Writes the generation that follows under the draws `rolls` into the
    /// second grid, then lets the two grids change places.
    fn advance(&mut self, rolls: &Vec<Vec<u32>>)
        requires
            old(self).wf(),
            old(self).spec_generation() < u64::MAX,
            table_of(
                rolls.deep_view(),
                old(self).spec_config().height as nat,
                old(self).spec_config().width as nat,
            ),
        ensures
            final(self).wf(),
            final(self).spec_config() == old(self).spec_config(),
            final(self).spec_generation() == old(self).spec_generation() + 1,
            final(self).cells() == stepped(
                old(self).cells(),
                rolls.deep_view(),
                old(self).spec_config().grow,
                old(self).spec_config().fire,
            ),
    {
        transition_pass(&self.current, &mut self.next, rolls, self.config.grow, self.config.fire);
        propagate(&mut self.next);
        std::mem::swap(&mut self.current, &mut self.next);
        self.generation = self.generation + 1;
    }

    /// Computes the next generation from the draws `rolls`, one for each
    /// cell, and returns a copy of it.
    ///
    /// If `rolls` is not a table of the forest's size, nothing changes and
    /// the answer is `None`.
    pub fn step_with(&mut self, rolls: &Vec<Vec<u32>>) -> (taken: Option<Snapshot>)
        requires
            old(self).wf(),
            old(self).spec_generation() < u64::MAX,
        ensures
            final(self).wf(),
            final(self).spec_config() == old(self).spec_config(),
            taken is Some <==> table_of(
                rolls.deep_view(),
                old(self).spec_config().height as nat,
                old(self).spec_config().width as nat,
            ),
            taken matches Some(shot) ==> {
                &&& final(self).cells() == stepped(
                    old(self).cells(),
                    rolls.deep_view(),
                    old(self).spec_config().grow,
                    old(self).spec_config().fire,
                )
                &&& final(self).spec_generation() == old(self).spec_generation() + 1
                &&& shot.generation == final(self).spec_generation()
                &&& shot.grid.wf()
                &&& shot.grid.spec_width() == old(self).spec_config().width
                &&& shot.grid@ == final(self).cells()
            },
            taken is None ==> {
                &&& final(self).cells() == old(self).cells()
                &&& final(self).spec_generation() == old(self).spec_generation()
            },
    {
        if !is_table(rolls, self.config.height, self.config.width) {
            return None;
        }
        self.advance(rolls);
        Some(self.snapshot())
    }

    /// Computes the next generation with fresh random draws and returns a
    /// copy of it.
    pub fn step(&mut self) -> (shot: Snapshot)
        requires
            old(self).wf(),
            old(self).spec_generation() < u64::MAX,
        ensures
            final(self).wf(),
            final(self).spec_config() == old(self).spec_config(),
            final(self).spec_generation() == old(self).spec_generation() + 1,
            exists|rolls: Seq<Seq<u32>>|
                {
                    &&& table_of(
                        rolls,
                        old(self).spec_config().height as nat,
                        old(self).spec_config().width as nat,
                    )
                    &&& in_range(rolls)
                    &&& final(self).cells() == #[trigger] stepped(
                        old(self).cells(),
                        rolls,
                        old(self).spec_config().grow,
                        old(self).spec_config().fire,
                    )
                },
            shot.generation == final(self).spec_generation(),
            shot.grid.wf(),
            shot.grid.spec_width() == old(self).spec_config().width,
            shot.grid@ == final(self).cells(),
    {
        let rolls = draw_table(&mut self.rng, self.config.height, self.config.width);
        self.advance(&rolls);
        self.snapshot()
    }
}

} // verus!
