use crate::error::SudokuError;
use vstd::prelude::*;

verus! {

/// Whether `raw` is a digit that may stand on a sudoku board: 1 to 9 inclusive.
pub open spec fn is_digit(raw: int) -> bool {
    1 <= raw <= 9
}

/// A digit between 1 and 9 inclusive, as it stands on a 9×9 sudoku board.
#[derive(Copy, Clone, Debug, PartialEq, Eq, Structural)]
pub struct Value(u8);

impl View for Value {
    type V = int;

    /// The digit that this value holds.
    closed spec fn view(&self) -> int {
        self.0 as int
    }
}

impl Value {
    /// Every value that executable code can hold is a digit from 1 to 9.
    #[verifier::type_invariant]
    pub open spec fn wf(self) -> bool {
        is_digit(self@)
    }

    /// Two values that hold the same digit are the same value.
    pub proof fn lemma_same_digit_same_value(a: Value, b: Value)
        requires
            a@ == b@,
        ensures
            a == b,
    {
    }

    /// The digit held, as `get` returns it.
    pub open spec fn spec_get(&self) -> u8 {
        self@ as u8
    }

    /// Makes a value from `value`, or turns it down if it is not a digit from 1 to 9.
    pub fn new(value: u8) -> (r: Result<Value, SudokuError>)
        ensures
            is_digit(value as int) ==> r is Ok && r->Ok_0@ == value && r->Ok_0.get() == value,
            !is_digit(value as int) ==> r == Err::<Value, SudokuError>(SudokuError::OutOfRange(value)),
    {
        if value > 0 && value < 10 {
            Ok(Value(value))
        } else {
            Err(SudokuError::OutOfRange(value))
        }
    }

    /// Replaces the digit by `value`, or turns `value` down and leaves the digit as it was.
    pub fn set(&mut self, value: u8) -> (r: Result<(), SudokuError>)
        ensures
            is_digit(value as int) ==> r is Ok && final(self)@ == value,
            !is_digit(value as int) ==> r == Err::<(), SudokuError>(SudokuError::OutOfRange(value))
                && *final(self) == *old(self),
    {
        if value > 0 && value < 10 {
            self.0 = value;
            Ok(())
        } else {
            Err(SudokuError::OutOfRange(value))
        }
    }

    /// The digit held.
    #[verifier::when_used_as_spec(spec_get)]
    pub fn get(&self) -> (r: u8)
        ensures
            r == self@,
            is_digit(r as int),
    {
        proof {
            use_type_invariant(self);
        }
        self.0
    }
}

/// A value equals a raw digit exactly when it holds that digit.
impl PartialEq<u8> for Value {
    fn eq(&self, other: &u8) -> (r: bool) {
        self.0 == *other
    }
}

impl vstd::std_specs::cmp::PartialEqSpecImpl<u8> for Value {
    open spec fn obeys_eq_spec() -> bool {
        true
    }

    open spec fn eq_spec(&self, other: &u8) -> bool {
        self@ == *other
    }
}

} // verus!
