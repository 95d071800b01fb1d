//! Conway's Game of Life on a toroidal grid: the cell matrix, the rule
//! engine, the simulation clock and the editing cursor.

pub mod app;
pub mod grid;
