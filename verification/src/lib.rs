//! A 9x9 Sudoku grid stored as nine 3x3 boxes, with a cursor that moves over it.

pub mod block;
pub mod cursor;
pub mod grid;
pub mod layout;
pub mod sudoku;
