//! A Sudoku board model: validated digits, a 9×9 grid of fields and the 27
//! constraint groups (rows, columns and 3×3 shapes) derived from it.

pub mod digit;
pub mod error;
pub mod game;
pub mod laws;
