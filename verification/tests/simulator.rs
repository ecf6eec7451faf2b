use forest_fire::chance::{Chance, ROLL_BOUND};
use forest_fire::dice::{constant_table, draw_table, is_table};
use forest_fire::grid::Grid;
use forest_fire::simulator::{Config, ForestSimulator};
use forest_fire::state::State;
use forest_fire::state::State::{Burning, Empty, Heating, Tree};

fn rows_of(grid: &Grid) -> Vec<Vec<State>> {
    let mut rows = Vec::new();
    for r in 0..grid.height() {
        let mut row = Vec::new();
        for c in 0..grid.width() {
            row.push(grid.get(r, c).expect("a cell inside the grid"));
        }
        rows.push(row);
    }
    rows
}

fn simulator_on(rows: Vec<Vec<State>>, grow: Chance, fire: Chance) -> ForestSimulator {
    let grid = Grid::from_rows(rows).expect("rows of one length");
    ForestSimulator::with_grid(grid, grow, fire)
}

fn ring_of_trees_around_fire() -> Vec<Vec<State>> {
    vec![vec![Tree, Tree, Tree], vec![Tree, Burning, Tree], vec![Tree, Tree, Tree]]
}

fn ring_of_trees_around_heat() -> Vec<Vec<State>> {
    vec![vec![Tree, Tree, Tree], vec![Tree, Heating, Tree], vec![Tree, Tree, Tree]]
}

#[test]
fn new_simulator_is_empty_at_generation_zero() {
    let config =
        Config { height: 3, width: 5, grow: Chance::new(10_000), fire: Chance::new(1_000) };
    let sim = ForestSimulator::new(config);
    assert_eq!(sim.generation(), 0);
    assert_eq!(sim.config(), config);
    assert_eq!(rows_of(sim.grid()), vec![vec![Empty; 5]; 3]);
    let shot = sim.snapshot();
    assert_eq!(shot.generation, 0);
    assert_eq!(rows_of(&shot.grid), vec![vec![Empty; 5]; 3]);
}

#[test]
fn with_grid_takes_its_size_from_the_grid() {
    let sim = simulator_on(
        vec![vec![Tree, Empty], vec![Empty, Tree], vec![Tree, Tree]],
        Chance::new(7),
        Chance::new(9),
    );
    assert_eq!(
        sim.config(),
        Config { height: 3, width: 2, grow: Chance::new(7), fire: Chance::new(9) }
    );
    assert_eq!(sim.generation(), 0);
    assert_eq!(rows_of(sim.grid()), vec![vec![Tree, Empty], vec![Empty, Tree], vec![Tree, Tree]]);
}

#[test]
fn seed_leaves_only_empty_cells_and_trees() {
    let mut sim = simulator_on(
        vec![vec![Burning; 20], vec![Heating; 20], vec![Tree; 20], vec![Empty; 20]],
        Chance::new(10_000),
        Chance::new(1_000),
    );
    sim.seed(Chance::new(500_000));
    assert_eq!(sim.generation(), 0);
    let rows = rows_of(sim.grid());
    assert_eq!(rows.len(), 4);
    for row in rows {
        assert_eq!(row.len(), 20);
        for state in row {
            assert!(state == Empty || state == Tree);
        }
    }
}

#[test]
fn seed_with_a_sure_chance_plants_every_cell() {
    let config = Config { height: 6, width: 7, grow: Chance::never(), fire: Chance::never() };
    let mut sim = ForestSimulator::new(config);
    sim.seed(Chance::always());
    assert_eq!(rows_of(sim.grid()), vec![vec![Tree; 7]; 6]);
}

#[test]
fn seed_with_no_chance_clears_every_cell() {
    let mut sim = simulator_on(vec![vec![Tree, Burning, Heating]], Chance::always(), Chance::always());
    sim.seed(Chance::never());
    assert_eq!(rows_of(sim.grid()), vec![vec![Empty, Empty, Empty]]);
}

#[test]
fn seed_with_follows_the_draws() {
    let mut sim = simulator_on(
        vec![vec![Burning, Heating, Tree], vec![Empty, Tree, Burning]],
        Chance::never(),
        Chance::never(),
    );
    let rolls = vec![vec![0, 499_999, 500_000], vec![999_999, 250_000, 750_000]];
    assert!(sim.seed_with(Chance::new(500_000), &rolls));
    assert_eq!(rows_of(sim.grid()), vec![vec![Tree, Tree, Empty], vec![Empty, Tree, Empty]]);
    assert_eq!(sim.generation(), 0);
}

#[test]
fn seed_with_refuses_a_table_of_another_size() {
    let before = vec![vec![Burning, Heating, Tree], vec![Empty, Tree, Burning]];
    let mut sim = simulator_on(before.clone(), Chance::never(), Chance::never());
    assert!(!sim.seed_with(Chance::always(), &vec![vec![0, 0, 0]]));
    assert!(!sim.seed_with(Chance::always(), &vec![vec![0, 0, 0], vec![0, 0]]));
    assert!(!sim.seed_with(Chance::always(), &vec![vec![0, 0, 0, 0], vec![0, 0, 0, 0]]));
    assert!(!sim.seed_with(Chance::always(), &vec![vec![0; 3]; 3]));
    assert_eq!(rows_of(sim.grid()), before);
}

#[test]
fn heat_in_the_middle_lights_the_ring_one_generation_later() {
    let mut sim = simulator_on(ring_of_trees_around_heat(), Chance::never(), Chance::never());
    let first = sim.step();
    assert_eq!(first.generation, 1);
    assert_eq!(
        rows_of(&first.grid),
        vec![
            vec![Heating, Heating, Heating],
            vec![Heating, Burning, Heating],
            vec![Heating, Heating, Heating],
        ]
    );
    assert_eq!(rows_of(sim.grid()), rows_of(&first.grid));
    let second = sim.step();
    assert_eq!(second.generation, 2);
    assert_eq!(
        rows_of(&second.grid),
        vec![
            vec![Burning, Burning, Burning],
            vec![Burning, Empty, Burning],
            vec![Burning, Burning, Burning],
        ]
    );
    assert_eq!(sim.generation(), 2);
    let third = sim.step();
    assert_eq!(third.generation, 3);
    assert_eq!(rows_of(&third.grid), vec![vec![Empty; 3]; 3]);
}

#[test]
fn fire_that_burns_already_goes_out_beside_the_ring() {
    let mut sim = simulator_on(ring_of_trees_around_fire(), Chance::never(), Chance::never());
    let ring_around_ashes =
        vec![vec![Tree, Tree, Tree], vec![Tree, Empty, Tree], vec![Tree, Tree, Tree]];
    let first = sim.step();
    assert_eq!(first.generation, 1);
    assert_eq!(rows_of(&first.grid), ring_around_ashes);
    let second = sim.step();
    assert_eq!(second.generation, 2);
    assert_eq!(rows_of(&second.grid), ring_around_ashes);
}

#[test]
fn step_with_gives_the_same_as_step_where_no_draw_counts() {
    for roll in [0, 123_456, 999_999] {
        let mut drawn = simulator_on(ring_of_trees_around_heat(), Chance::never(), Chance::never());
        let mut given = simulator_on(ring_of_trees_around_heat(), Chance::never(), Chance::never());
        for generation in 1..=3 {
            let a = drawn.step();
            let b = given.step_with(&vec![vec![roll; 3]; 3]).expect("a table of the grid's size");
            assert_eq!(a.generation, generation);
            assert_eq!(b.generation, generation);
            assert_eq!(rows_of(&a.grid), rows_of(&b.grid));
        }
    }
}

#[test]
fn step_with_follows_the_draws() {
    let mut sim = simulator_on(
        vec![
            vec![Empty, Empty, Tree, Tree],
            vec![Tree, Tree, Burning, Heating],
            vec![Empty, Tree, Tree, Tree],
        ],
        Chance::new(10_000),
        Chance::new(1_000),
    );
    let rolls = vec![
        vec![9_999, 10_000, 999, 1_000],
        vec![1_000, 500_000, 0, 0],
        vec![0, 999_999, 999_999, 999_999],
    ];
    let shot = sim.step_with(&rolls).expect("a table of the grid's size");
    assert_eq!(
        rows_of(&shot.grid),
        vec![
            vec![Tree, Empty, Burning, Heating],
            vec![Tree, Heating, Empty, Burning],
            vec![Tree, Tree, Heating, Heating],
        ]
    );
    assert_eq!(rows_of(sim.grid()), rows_of(&shot.grid));
    assert_eq!(sim.generation(), 1);
}

#[test]
fn step_with_refuses_a_table_of_another_size() {
    let mut sim = simulator_on(ring_of_trees_around_fire(), Chance::never(), Chance::never());
    assert!(sim.step_with(&vec![vec![0; 3]; 2]).is_none());
    assert!(sim.step_with(&vec![vec![0; 2]; 3]).is_none());
    assert!(sim.step_with(&vec![vec![0; 3], vec![0; 3], vec![0; 4]]).is_none());
    assert!(sim.step_with(&Vec::new()).is_none());
    assert_eq!(sim.generation(), 0);
    assert_eq!(rows_of(sim.grid()), ring_of_trees_around_fire());
}

#[test]
fn a_constant_source_gives_the_same_run_every_time() {
    let start = vec![
        vec![Empty, Tree, Tree, Empty, Tree],
        vec![Tree, Burning, Tree, Tree, Empty],
        vec![Heating, Tree, Empty, Tree, Tree],
        vec![Tree, Tree, Tree, Burning, Empty],
    ];
    for roll in [0, 999, 1_000, 9_999, 10_000, 999_999] {
        let rolls = constant_table(4, 5, roll);
        let mut one = simulator_on(start.clone(), Chance::new(10_000), Chance::new(1_000));
        let mut other = simulator_on(start.clone(), Chance::new(10_000), Chance::new(1_000));
        for generation in 1..=6 {
            let a = one.step_with(&rolls).expect("a table of the grid's size");
            let b = other.step_with(&rolls).expect("a table of the grid's size");
            assert_eq!(a.generation, generation);
            assert_eq!(b.generation, generation);
            assert_eq!(rows_of(&a.grid), rows_of(&b.grid));
        }
    }
}

#[test]
fn a_constant_source_above_both_chances_lets_the_fire_die() {
    let mut sim = simulator_on(
        vec![vec![Tree, Heating, Tree, Tree, Empty]],
        Chance::new(10_000),
        Chance::new(1_000),
    );
    let rolls = constant_table(1, 5, 10_000);
    let mut seen = Vec::new();
    for _ in 0..4 {
        seen.push(rows_of(&sim.step_with(&rolls).expect("a table of the grid's size").grid));
    }
    assert_eq!(
        seen,
        vec![
            vec![vec![Heating, Burning, Heating, Tree, Empty]],
            vec![vec![Burning, Empty, Burning, Heating, Empty]],
            vec![vec![Empty, Empty, Empty, Burning, Empty]],
            vec![vec![Empty, Empty, Empty, Empty, Empty]],
        ]
    );
}

#[test]
fn heating_needs_a_tree_beside_a_fire() {
    let before = vec![
        vec![Tree, Tree, Tree, Tree],
        vec![Tree, Heating, Empty, Tree],
        vec![Burning, Tree, Tree, Tree],
    ];
    let mut sim = simulator_on(before.clone(), Chance::never(), Chance::never());
    let shot = sim.step_with(&vec![vec![0; 4]; 3]).expect("a table of the grid's size");
    let after = rows_of(&shot.grid);
    assert_eq!(
        after,
        vec![
            vec![Heating, Heating, Heating, Tree],
            vec![Heating, Burning, Empty, Tree],
            vec![Empty, Heating, Heating, Tree],
        ]
    );
    for r in 0..3 {
        for c in 0..4 {
            if after[r][c] == Heating {
                assert_eq!(before[r][c], Tree);
            }
        }
    }
}

#[test]
fn a_tree_grown_beside_a_new_fire_heats_at_once() {
    let mut sim = simulator_on(vec![vec![Empty, Heating]], Chance::always(), Chance::never());
    let shot = sim.step_with(&vec![vec![0, 0]]).expect("a table of the grid's size");
    assert_eq!(rows_of(&shot.grid), vec![vec![Heating, Burning]]);
}

#[test]
fn a_fire_that_burns_down_heats_nothing() {
    let mut sim = simulator_on(vec![vec![Tree, Burning, Tree]], Chance::never(), Chance::never());
    let shot = sim.step_with(&vec![vec![0; 3]]).expect("a table of the grid's size");
    assert_eq!(rows_of(&shot.grid), vec![vec![Tree, Empty, Tree]]);
}

#[test]
fn a_heating_tree_burns_one_generation_later() {
    for roll in [0, 999_999] {
        for chance in [Chance::never(), Chance::always()] {
            let mut sim = simulator_on(vec![vec![Heating, Empty, Empty]], chance, chance);
            let shot = sim.step_with(&vec![vec![roll; 3]]).expect("a table of the grid's size");
            assert_eq!(shot.grid.get(0, 0), Some(Burning));
            let shot = sim.step_with(&vec![vec![roll; 3]]).expect("a table of the grid's size");
            assert_eq!(shot.grid.get(0, 0), Some(Empty));
        }
    }
}

#[test]
fn a_fire_in_the_corner_heats_three_cells() {
    let mut sim = simulator_on(
        vec![vec![Heating, Tree, Tree], vec![Tree, Tree, Tree], vec![Tree, Tree, Tree]],
        Chance::never(),
        Chance::never(),
    );
    let shot = sim.step();
    assert_eq!(
        rows_of(&shot.grid),
        vec![vec![Burning, Heating, Tree], vec![Heating, Heating, Tree], vec![Tree, Tree, Tree]]
    );
    let heated = rows_of(&shot.grid).concat().into_iter().filter(|s| *s == Heating).count();
    assert_eq!(heated, 3);
}

#[test]
fn every_cell_keeps_one_of_the_four_states() {
    let config =
        Config { height: 12, width: 17, grow: Chance::new(300_000), fire: Chance::new(200_000) };
    let mut sim = ForestSimulator::new(config);
    sim.seed(Chance::new(500_000));
    for generation in 1..=25 {
        let shot = sim.step();
        assert_eq!(shot.generation, generation);
        assert_eq!(shot.grid.height(), 12);
        assert_eq!(shot.grid.width(), 17);
        for row in rows_of(&shot.grid) {
            for state in row {
                assert!(matches!(state, Empty | Tree | Burning | Heating));
            }
        }
    }
}

#[test]
fn the_fuse_holds_in_a_random_run() {
    let config =
        Config { height: 10, width: 10, grow: Chance::new(200_000), fire: Chance::new(100_000) };
    let mut sim = ForestSimulator::new(config);
    sim.seed(Chance::new(600_000));
    let mut before = rows_of(sim.grid());
    for _ in 0..30 {
        let after = rows_of(&sim.step().grid);
        for r in 0..10 {
            for c in 0..10 {
                if before[r][c] == Heating {
                    assert_eq!(after[r][c], Burning);
                }
                if before[r][c] == Burning {
                    assert_eq!(after[r][c], Empty);
                }
                if after[r][c] == Heating {
                    assert!(before[r][c] == Tree || before[r][c] == Empty);
                }
            }
        }
        before = after;
    }
}

#[test]
fn a_forest_without_cells_steps() {
    let config = Config { height: 0, width: 0, grow: Chance::always(), fire: Chance::always() };
    let mut sim = ForestSimulator::new(config);
    sim.seed(Chance::always());
    let shot = sim.step();
    assert_eq!(shot.generation, 1);
    assert_eq!(shot.grid.height(), 0);
}

#[test]
fn constant_table_repeats_one_draw() {
    assert_eq!(constant_table(2, 3, 77), vec![vec![77, 77, 77], vec![77, 77, 77]]);
    assert_eq!(constant_table(0, 3, 77), Vec::<Vec<u32>>::new());
    assert_eq!(constant_table(2, 0, 77), vec![Vec::<u32>::new(), Vec::new()]);
}

#[test]
fn is_table_checks_every_row() {
    assert!(is_table(&vec![vec![1, 2, 3], vec![4, 5, 6]], 2, 3));
    assert!(!is_table(&vec![vec![1, 2, 3], vec![4, 5]], 2, 3));
    assert!(!is_table(&vec![vec![1, 2, 3], vec![4, 5, 6]], 3, 3));
    assert!(!is_table(&vec![vec![1, 2, 3], vec![4, 5, 6]], 2, 2));
    assert!(is_table(&Vec::new(), 0, 5));
    assert!(is_table(&vec![Vec::new(), Vec::new()], 2, 0));
}

#[test]
fn draw_table_has_the_size_asked_for_and_stays_below_the_bound() {
    let mut rng = rand::thread_rng();
    let rolls = draw_table(&mut rng, 30, 40);
    assert_eq!(rolls.len(), 30);
    for row in &rolls {
        assert_eq!(row.len(), 40);
        for roll in row {
            assert!(*roll < ROLL_BOUND);
        }
    }
    assert!(draw_table(&mut rng, 0, 9).is_empty());
}
