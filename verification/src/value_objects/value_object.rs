//! The behaviour shared by the string value objects.

use vstd::prelude::*;
use crate::errors::ValidationError;

verus! {

/// A value object: immutable, validated at construction, compared by value.
pub trait ValueObject: Sized {
    /// The normalized text that the value holds.
    spec fn text(&self) -> Seq<char>;

    /// Validates and creates a new instance.
    fn new(value: &str) -> (r: Result<Self, ValidationError>);

    /// Returns the inner string value.
    fn as_str(&self) -> (r: &str)
        ensures
            r@ == self.text(),
    ;

    /// Returns the string representation.
    fn to_string(&self) -> (r: String)
        ensures
            r@ == self.text(),
    {
        String::from_str(self.as_str())
    }
}

} // verus!
