use vstd::prelude::*;

verus! {

/// The two ways in which building a board value can fail.
#[derive(Debug, Clone, Copy, PartialEq, Eq, Structural)]
pub enum SudokuError {
    /// A raw value outside 1..=9 was offered as a digit.
    InvalidDigit,
    /// A position had a coordinate outside 0..=8.
    InvalidPosition,
}

impl SudokuError {
    /// A fixed, human-readable description of the error.
    pub fn message(&self) -> (r: &'static str)
        ensures
            *self == SudokuError::InvalidDigit ==> r@ == "Digit only accepts value from 1 to 9!"@,
            *self == SudokuError::InvalidPosition ==> r@ == "Positions not valid - must be below 9"@,
    {
        match self {
            SudokuError::InvalidDigit => "Digit only accepts value from 1 to 9!",
            SudokuError::InvalidPosition => "Positions not valid - must be below 9",
        }
    }
}

} // verus!
