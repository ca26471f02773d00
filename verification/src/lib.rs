//! Conway's Game of Life on a toroidal grid, with machine-checked contracts.

pub mod cell;
pub mod counter;
pub mod laws;
pub mod rules;
pub mod universe;
