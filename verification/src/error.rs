//! Error type of the valuation model.

use vstd::prelude::*;

verus! {

/// Errors that can occur during valuation calculations.
#[derive(Debug)]
pub enum ModelError {
    /// Invalid input parameter provided; carries the field and the rule broken.
    InvalidInput(String),
    /// Error during calculation; carries what went wrong.
    CalculationError(String),
}

impl ModelError {
    /// The error is an input error with exactly this message.
    pub open spec fn is_invalid_input(self, msg: Seq<char>) -> bool {
        &&& self is InvalidInput
        &&& self->InvalidInput_0@ == msg
    }

    /// The error is a calculation error with exactly this message.
    pub open spec fn is_calculation_error(self, msg: Seq<char>) -> bool {
        &&& self is CalculationError
        &&& self->CalculationError_0@ == msg
    }

    /// The message carried by the error.
    pub fn message(&self) -> (m: &String)
        ensures
            self is InvalidInput ==> m@ == self->InvalidInput_0@,
            self is CalculationError ==> m@ == self->CalculationError_0@,
    {
        match self {
            ModelError::InvalidInput(m) => m,
            ModelError::CalculationError(m) => m,
        }
    }
}

} // verus!
