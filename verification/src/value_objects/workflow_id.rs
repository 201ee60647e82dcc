//! Unique identifier for a workflow: non-empty, trimmed, lower-case, at most 128 bytes.

use vstd::prelude::*;
use crate::errors::ValidationError;
use crate::text::{ascii_lower, ascii_only, lowercase_str, trim_str, trim_ws};
use crate::value_objects::agent_id::{id_acceptable, normalized_id};
use crate::value_objects::value_object::ValueObject;

verus! {

/// Unique identifier for a workflow.
#[derive(Debug, PartialOrd, Ord, Hash)]
pub struct WorkflowId(String);

impl View for WorkflowId {
    type V = Seq<char>;

    closed spec fn view(&self) -> Seq<char> {
        self.0@
    }
}

impl WorkflowId {
    /// Creates a new WorkflowId, validating the input.
    pub fn new(value: &str) -> (r: Result<Self, ValidationError>)
        ensures
            normalized_id(value@).len() == 0 <==> trim_ws(value@).len() == 0,
            ascii_only(trim_ws(value@)) ==> normalized_id(value@) == trim_ws(value@).map_values(
                |c: char| ascii_lower(c),
            ),
            r is Ok <==> id_acceptable(normalized_id(value@)),
            r matches Ok(id) ==> id@ == normalized_id(value@),
            r matches Err(e) ==> e.field@ == "WorkflowId"@ && e.message@ == (if normalized_id(
                value@,
            ).len() == 0 {
                "cannot be empty"@
            } else {
                "cannot exceed 128 characters"@
            }),
    {
        let s = lowercase_str(trim_str(value));
        if s.as_str().is_empty() {
            return Err(ValidationError::new("WorkflowId", "cannot be empty"));
        }
        if s.as_str().len() > 128 {
            return Err(ValidationError::new("WorkflowId", "cannot exceed 128 characters"));
        }
        Ok(WorkflowId(s))
    }

    /// Returns the string value.
    pub fn as_str(&self) -> (r: &str)
        ensures
            r@ == self@,
    {
        self.0.as_str()
    }
}

impl ValueObject for WorkflowId {
    open spec fn text(&self) -> Seq<char> {
        self@
    }

    fn new(value: &str) -> (r: Result<Self, ValidationError>)
        ensures
            r is Ok <==> id_acceptable(normalized_id(value@)),
            r matches Ok(id) ==> id@ == normalized_id(value@),
    {
        WorkflowId::new(value)
    }

    fn as_str(&self) -> (r: &str) {
        self.0.as_str()
    }
}

impl Clone for WorkflowId {
    fn clone(&self) -> (r: Self)
        ensures
            r == *self,
    {
        WorkflowId(self.0.clone())
    }
}

impl PartialEq for WorkflowId {
    fn eq(&self, other: &Self) -> (r: bool) {
        self.0 == other.0
    }
}

impl vstd::std_specs::cmp::PartialEqSpecImpl for WorkflowId {
    open spec fn obeys_eq_spec() -> bool {
        true
    }

    open spec fn eq_spec(&self, other: &Self) -> bool {
        self@ == other@
    }
}

impl Eq for WorkflowId {}

impl Default for WorkflowId {
    fn default() -> (r: Self)
        ensures
            r@ == "workflow-000"@,
    {
        WorkflowId(String::from_str("workflow-000"))
    }
}

impl From<WorkflowId> for String {
    fn from(id: WorkflowId) -> (r: String)
        ensures
            r@ == id@,
    {
        id.0
    }
}

impl vstd::std_specs::convert::FromSpecImpl<WorkflowId> for String {
    open spec fn obeys_from_spec() -> bool {
        true
    }

    closed spec fn from_spec(id: WorkflowId) -> String {
        id.0
    }
}

} // verus!
