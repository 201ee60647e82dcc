//! Error types of the domain.

use vstd::prelude::*;

verus! {

/// A value failed validation at construction.
#[derive(Debug)]
pub struct ValidationError {
    /// Name of the value object that was rejected.
    pub field: String,
    /// Why it was rejected.
    pub message: String,
}

impl ValidationError {
    /// Creates a validation error for `field` with `message`.
    pub fn new(field: &str, message: &str) -> (r: Self)
        ensures
            r.field@ == field@,
            r.message@ == message@,
    {
        ValidationError { field: String::from_str(field), message: String::from_str(message) }
    }
}

/// Errors raised by entities and aggregates.
#[derive(Debug)]
pub enum DomainError {
    /// A lifecycle transition that the state machine does not allow.
    InvalidStateTransition { current: String, target: String, reason: String },
    /// A business invariant would be broken.
    InvariantViolation(String),
    /// The aggregate is in a state where the request cannot be served.
    InvalidState(String),
    /// The operation is not possible in the current situation.
    InvalidOperation(String),
}

/// Result of a domain operation.
pub type DomainResult<T> = Result<T, DomainError>;

} // verus!
