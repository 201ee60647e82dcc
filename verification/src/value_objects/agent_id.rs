//! Unique identifier for an agent: non-empty, trimmed, lower-case, at most 128 bytes.

use vstd::prelude::*;
use crate::errors::ValidationError;
use crate::text::{ascii_lower, ascii_only, byte_len, lowercase_of, lowercase_str, trim_str, trim_ws};
use crate::value_objects::value_object::ValueObject;

verus! {

/// Unique identifier for an agent.
#[derive(Debug, PartialOrd, Ord, Hash)]
pub struct AgentId(String);

/// What an identifier is normalized to: trimmed, then lower-cased.
pub open spec fn normalized_id(value: Seq<char>) -> Seq<char> {
    lowercase_of(trim_ws(value))
}

/// Whether a normalized identifier is acceptable: non-empty, at most 128 bytes.
pub open spec fn id_acceptable(s: Seq<char>) -> bool {
    s.len() > 0 && byte_len(s) <= 128
}

impl View for AgentId {
    type V = Seq<char>;

    closed spec fn view(&self) -> Seq<char> {
        self.0@
    }
}

impl AgentId {
    /// Creates a new AgentId, validating the input.
    pub fn new(value: &str) -> (r: Result<Self, ValidationError>)
        ensures
            normalized_id(value@).len() == 0 <==> trim_ws(value@).len() == 0,
            ascii_only(trim_ws(value@)) ==> normalized_id(value@) == trim_ws(value@).map_values(
                |c: char| ascii_lower(c),
            ),
            r is Ok <==> id_acceptable(normalized_id(value@)),
            r matches Ok(id) ==> id@ == normalized_id(value@),
            r matches Err(e) ==> e.field@ == "AgentId"@ && e.message@ == (if normalized_id(
                value@,
            ).len() == 0 {
                "cannot be empty"@
            } else {
                "cannot exceed 128 characters"@
            }),
    {
        let s = lowercase_str(trim_str(value));
        if s.as_str().is_empty() {
            return Err(ValidationError::new("AgentId", "cannot be empty"));
        }
        if s.as_str().len() > 128 {
            return Err(ValidationError::new("AgentId", "cannot exceed 128 characters"));
        }
        Ok(AgentId(s))
    }

    /// Creates without validation (for reconstruction): only lower-cased.
    pub fn from_unchecked(value: String) -> (r: Self)
        ensures
            r@ == lowercase_of(value@),
            r@.len() == 0 <==> value@.len() == 0,
            ascii_only(value@) ==> r@ == value@.map_values(|c: char| ascii_lower(c)),
    {
        AgentId(lowercase_str(value.as_str()))
    }

    /// Returns the string value.
    pub fn as_str(&self) -> (r: &str)
        ensures
            r@ == self@,
    {
        self.0.as_str()
    }
}

impl ValueObject for AgentId {
    open spec fn text(&self) -> Seq<char> {
        self@
    }

    fn new(value: &str) -> (r: Result<Self, ValidationError>)
        ensures
            r is Ok <==> id_acceptable(normalized_id(value@)),
            r matches Ok(id) ==> id@ == normalized_id(value@),
    {
        AgentId::new(value)
    }

    fn as_str(&self) -> (r: &str) {
        self.0.as_str()
    }
}

impl Clone for AgentId {
    fn clone(&self) -> (r: Self)
        ensures
            r == *self,
    {
        AgentId(self.0.clone())
    }
}

impl PartialEq for AgentId {
    fn eq(&self, other: &Self) -> (r: bool) {
        self.0 == other.0
    }
}

impl vstd::std_specs::cmp::PartialEqSpecImpl for AgentId {
    open spec fn obeys_eq_spec() -> bool {
        true
    }

    open spec fn eq_spec(&self, other: &Self) -> bool {
        self@ == other@
    }
}

impl Eq for AgentId {}

impl Default for AgentId {
    fn default() -> (r: Self)
        ensures
            r@ == "agent-000"@,
    {
        AgentId(String::from_str("agent-000"))
    }
}

impl From<AgentId> for String {
    fn from(id: AgentId) -> (r: String)
        ensures
            r@ == id@,
    {
        id.0
    }
}

impl vstd::std_specs::convert::FromSpecImpl<AgentId> for String {
    open spec fn obeys_from_spec() -> bool {
        true
    }

    closed spec fn from_spec(id: AgentId) -> String {
        id.0
    }
}

} // verus!
