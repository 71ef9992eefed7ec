//! Board state, message handling and view composition for an interactive
//! Sudoku board. Solving and parsing are left to the `sudoku` crate.

pub mod engine;
pub mod board;
pub mod model;
pub mod view;
