use vstd::prelude::*;

verus! {

/// Why an operation on a digit, a cell or the grid was turned down.
#[derive(Copy, Clone, Debug, PartialEq, Eq, Structural)]
pub enum SudokuError {
    /// The digit handed in is not one of 1 to 9. Carries the offending digit.
    OutOfRange(u8),
    /// A guess was checked against a cell that is not a fixed number.
    InvalidSolution,
}

} // verus!
