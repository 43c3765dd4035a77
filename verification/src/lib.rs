//! A sudoku cell model: digits, cells that hold either a committed number or
//! pencilled-in candidate notes, and the 9×9 grid that owns the cells.

pub mod error;
pub mod grid;
pub mod item;
pub mod laws;
pub mod text;
pub mod value;

pub use error::SudokuError;
pub use grid::SudokuGrid;
pub use item::{Item, ItemView};
pub use value::Value;
