//! A forest-fire cellular automaton on a rectangular grid.
//!
//! Every cell is empty, a tree, a tree that is heating up, or a tree on fire.
//! One generation first lets every cell change by its own state and one
//! random draw, then lets every cell that burns now heat the trees around
//! it. A heated tree burns one generation later.
//!
//! - [`state`] and [`chance`] hold the rule for one cell;
//! - [`grid`] holds the cells, [`spread`] the heat that passes between them;
//! - [`generation`] says what a whole step makes of a grid, and proves what
//!   always holds of it;
//! - [`dice`] draws the random numbers, [`simulator`] steps a forest with
//!   them, and [`render`] turns a grid into text for a terminal.

pub mod chance;
pub mod dice;
pub mod generation;
pub mod grid;
pub mod render;
pub mod simulator;
pub mod spread;
pub mod state;
