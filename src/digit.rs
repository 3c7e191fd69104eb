use vstd::prelude::*;

use crate::error::SudokuError;

verus! {

/// A Sudoku digit: an integer in the closed range 1..=9.
#[derive(Debug, Clone, Copy, PartialEq, Eq, Structural)]
pub struct Digit(u8);

impl Digit {
    #[verifier::type_invariant]
    spec fn in_range(self) -> bool {
        1 <= self.0 <= 9
    }

    /// The digit built from `v` when `v` lies in 1..=9.
    pub open spec fn spec_new(v: u8) -> Option<Digit> {
        if 1 <= v <= 9 {
            Some(choose|d: Digit| d@ == v)
        } else {
            None
        }
    }

    /// Every value in 1..=9 gives a digit, whose raw value is that value
    /// again.
    pub proof fn lemma_round_trip(v: u8)
        requires
            1 <= v <= 9,
        ensures
            Digit::spec_new(v) is Some,
            Digit::spec_new(v)->Some_0@ == v,
            <u8 as vstd::std_specs::convert::FromSpec<Digit>>::from_spec(Digit::spec_new(v)->Some_0) == v,
    {
        let witness = Digit(v);
        assert(witness@ == v);
    }

    /// No value outside 1..=9 gives a digit.
    pub proof fn lemma_out_of_range(v: u8)
        requires
            v == 0 || v > 9,
        ensures
            Digit::spec_new(v) is None,
    {
    }

    /// Builds the digit `digit` if it lies in 1..=9, and nothing otherwise.
    pub fn new(digit: u8) -> (r: Option<Digit>)
        ensures
            r is Some <==> 1 <= digit <= 9,
            r matches Some(d) ==> d@ == digit,
            r == Digit::spec_new(digit),
    {
        if digit > 0 && digit <= 9 {
            let d = Digit(digit);
            assert(d@ == digit);
            Some(d)
        } else {
            None
        }
    }

    /// The raw value of the digit.
    pub fn value(&self) -> (r: u8)
        ensures
            r == self@,
            1 <= r <= 9,
    {
        proof {
            use_type_invariant(self);
        }
        self.0
    }
}

impl View for Digit {
    type V = u8;

    closed spec fn view(&self) -> u8 {
        self.0
    }
}

/// The digit of `value`, or `InvalidDigit` where `value` is outside 1..=9.
impl TryFrom<u8> for Digit {
    type Error = SudokuError;

    fn try_from(value: u8) -> (r: Result<Digit, SudokuError>) {
        match Digit::new(value) {
            Some(digit) => Ok(digit),
            None => Err(SudokuError::InvalidDigit),
        }
    }
}

impl vstd::std_specs::convert::TryFromSpecImpl<u8> for Digit {
    open spec fn obeys_try_from_spec() -> bool {
        true
    }

    open spec fn try_from_spec(v: u8) -> Result<Digit, SudokuError> {
        match Digit::spec_new(v) {
            Some(d) => Ok(d),
            None => Err(SudokuError::InvalidDigit),
        }
    }
}

/// The raw value of a digit.
impl From<Digit> for u8 {
    fn from(digit: Digit) -> (r: u8) {
        digit.value()
    }
}

impl vstd::std_specs::convert::FromSpecImpl<Digit> for u8 {
    open spec fn obeys_from_spec() -> bool {
        true
    }

    open spec fn from_spec(v: Digit) -> u8 {
        v@
    }
}

} // verus!
