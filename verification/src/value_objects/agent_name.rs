//! Human-readable name for an agent: trimmed, non-empty, at most 256 bytes.

use vstd::prelude::*;
use crate::errors::ValidationError;
use crate::text::{byte_len, is_white_space, lemma_trim_is_clean, trim_str, trim_ws};
use crate::value_objects::value_object::ValueObject;

verus! {

/// Human-readable name for an agent.
#[derive(Debug, PartialOrd, Ord)]
pub struct AgentName(String);

/// Whether a trimmed name is acceptable: non-empty, at most 256 bytes.
pub open spec fn name_acceptable(s: Seq<char>) -> bool {
    s.len() > 0 && byte_len(s) <= 256
}

impl View for AgentName {
    type V = Seq<char>;

    closed spec fn view(&self) -> Seq<char> {
        self.0@
    }
}

impl AgentName {
    /// Creates a new name: the input trimmed, rejected when empty or too long.
    pub fn new(value: &str) -> (r: Result<Self, ValidationError>)
        ensures
            r is Ok <==> name_acceptable(trim_ws(value@)),
            r matches Ok(n) ==> n@ == trim_ws(value@),
            r matches Err(e) ==> e.field@ == "AgentName"@ && e.message@ == (if trim_ws(
                value@,
            ).len() == 0 {
                "cannot be empty"@
            } else {
                "cannot exceed 256 characters"@
            }),
    {
        let s = String::from_str(trim_str(value));
        if s.as_str().is_empty() {
            return Err(ValidationError::new("AgentName", "cannot be empty"));
        }
        if s.as_str().len() > 256 {
            return Err(ValidationError::new("AgentName", "cannot exceed 256 characters"));
        }
        Ok(AgentName(s))
    }

    /// Returns the string value.
    pub fn as_str(&self) -> (r: &str)
        ensures
            r@ == self@,
    {
        self.0.as_str()
    }
}

impl ValueObject for AgentName {
    open spec fn text(&self) -> Seq<char> {
        self@
    }

    fn new(value: &str) -> (r: Result<Self, ValidationError>)
        ensures
            r is Ok <==> name_acceptable(trim_ws(value@)),
            r matches Ok(n) ==> n@ == trim_ws(value@),
    {
        AgentName::new(value)
    }

    fn as_str(&self) -> (r: &str) {
        self.0.as_str()
    }
}

impl Clone for AgentName {
    fn clone(&self) -> (r: Self)
        ensures
            r == *self,
    {
        AgentName(self.0.clone())
    }
}

impl PartialEq for AgentName {
    fn eq(&self, other: &Self) -> (r: bool) {
        self.0 == other.0
    }
}

impl vstd::std_specs::cmp::PartialEqSpecImpl for AgentName {
    open spec fn obeys_eq_spec() -> bool {
        true
    }

    open spec fn eq_spec(&self, other: &Self) -> bool {
        self@ == other@
    }
}

impl Eq for AgentName {}

impl Default for AgentName {
    fn default() -> (r: Self)
        ensures
            r@ == "Unnamed Agent"@,
    {
        AgentName(String::from_str("Unnamed Agent"))
    }
}

impl From<AgentName> for String {
    fn from(name: AgentName) -> (r: String)
        ensures
            r@ == name@,
    {
        name.0
    }
}

impl vstd::std_specs::convert::FromSpecImpl<AgentName> for String {
    open spec fn obeys_from_spec() -> bool {
        true
    }

    closed spec fn from_spec(name: AgentName) -> String {
        name.0
    }
}

/// A name is stored trimmed: it neither starts nor ends with white space, and
/// validating its text again accepts it and gives the same text.
pub proof fn lemma_name_is_stable(value: Seq<char>)
    requires
        name_acceptable(trim_ws(value)),
    ensures
        !is_white_space(trim_ws(value)[0]),
        !is_white_space(trim_ws(value).last()),
        trim_ws(trim_ws(value)) == trim_ws(value),
        name_acceptable(trim_ws(trim_ws(value))),
{
    lemma_trim_is_clean(value);
}

} // verus!
