//! The ways an engine operation can be refused.

use vstd::prelude::*;

verus! {

/// A check-in operation that the circulation's state does not allow.
#[derive(Debug, Clone, Copy, PartialEq, Eq, Structural)]
pub enum InvalidState {
    /// A periodic circulation was already checked in on this calendar day.
    AlreadyCheckedInToday,
    /// An undo was asked for, but the circulation has no check-in to remove.
    NoCheckInHistory,
}

/// Why an engine operation was refused.
#[derive(Debug, Clone, Copy, PartialEq, Eq, Structural)]
pub enum EngineError {
    /// The identifier matches no record.
    NotFound,
    /// The operation is not allowed in the record's current state.
    InvalidState(InvalidState),
    /// The steps of a target would weigh more than 100 in all.
    ConstraintViolation,
}

impl EngineError {
    /// The user-facing message of the error.
    pub fn message(&self) -> (r: String)
        ensures
            r@ == match self {
                EngineError::NotFound => "Record not found"@,
                EngineError::InvalidState(InvalidState::AlreadyCheckedInToday) => "Already checked in today"@,
                EngineError::InvalidState(InvalidState::NoCheckInHistory) => "No check-in history found"@,
                EngineError::ConstraintViolation => "Step weights would exceed 100%"@,
            },
    {
        broadcast use vstd::string::group_string_axioms;

        match self {
            EngineError::NotFound => "Record not found".to_string(),
            EngineError::InvalidState(InvalidState::AlreadyCheckedInToday) => {
                "Already checked in today".to_string()
            },
            EngineError::InvalidState(InvalidState::NoCheckInHistory) => {
                "No check-in history found".to_string()
            },
            EngineError::ConstraintViolation => "Step weights would exceed 100%".to_string(),
        }
    }
}

} // verus!
