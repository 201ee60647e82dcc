//! Unique identifier for a task: non-empty, trimmed, lower-case, at most 128 bytes.

use vstd::prelude::*;
use crate::errors::ValidationError;
use crate::text::{ascii_lower, ascii_only, lowercase_str, trim_str, trim_ws};
use crate::value_objects::agent_id::{id_acceptable, normalized_id};
use crate::value_objects::value_object::ValueObject;

verus! {

/// Unique identifier for a task.
#[derive(Debug, PartialOrd, Ord, Hash)]
pub struct TaskId(String);

impl View for TaskId {
    type V = Seq<char>;

    closed spec fn view(&self) -> Seq<char> {
        self.0@
    }
}

impl TaskId {
    /// Creates a new TaskId, validating the input.
    pub fn new(value: &str) -> (r: Result<Self, ValidationError>)
        ensures
            normalized_id(value@).len() == 0 <==> trim_ws(value@).len() == 0,
            ascii_only(trim_ws(value@)) ==> normalized_id(value@) == trim_ws(value@).map_values(
                |c: char| ascii_lower(c),
            ),
            r is Ok <==> id_acceptable(normalized_id(value@)),
            r matches Ok(id) ==> id@ == normalized_id(value@),
            r matches Err(e) ==> e.field@ == "TaskId"@ && e.message@ == (if normalized_id(
                value@,
            ).len() == 0 {
                "cannot be empty"@
            } else {
                "cannot exceed 128 characters"@
            }),
    {
        let s = lowercase_str(trim_str(value));
        if s.as_str().is_empty() {
            return Err(ValidationError::new("TaskId", "cannot be empty"));
        }
        if s.as_str().len() > 128 {
            return Err(ValidationError::new("TaskId", "cannot exceed 128 characters"));
        }
        Ok(TaskId(s))
    }

    /// Returns the string value.
    pub fn as_str(&self) -> (r: &str)
        ensures
            r@ == self@,
    {
        self.0.as_str()
    }
}

impl ValueObject for TaskId {
    open spec fn text(&self) -> Seq<char> {
        self@
    }

    fn new(value: &str) -> (r: Result<Self, ValidationError>)
        ensures
            r is Ok <==> id_acceptable(normalized_id(value@)),
            r matches Ok(id) ==> id@ == normalized_id(value@),
    {
        TaskId::new(value)
    }

    fn as_str(&self) -> (r: &str) {
        self.0.as_str()
    }
}

impl Clone for TaskId {
    fn clone(&self) -> (r: Self)
        ensures
            r == *self,
    {
        TaskId(self.0.clone())
    }
}

impl PartialEq for TaskId {
    fn eq(&self, other: &Self) -> (r: bool) {
        self.0 == other.0
    }
}

impl vstd::std_specs::cmp::PartialEqSpecImpl for TaskId {
    open spec fn obeys_eq_spec() -> bool {
        true
    }

    open spec fn eq_spec(&self, other: &Self) -> bool {
        self@ == other@
    }
}

impl Eq for TaskId {}

impl Default for TaskId {
    fn default() -> (r: Self)
        ensures
            r@ == "task-000"@,
    {
        TaskId(String::from_str("task-000"))
    }
}

impl From<TaskId> for String {
    fn from(id: TaskId) -> (r: String)
        ensures
            r@ == id@,
    {
        id.0
    }
}

impl vstd::std_specs::convert::FromSpecImpl<TaskId> for String {
    open spec fn obeys_from_spec() -> bool {
        true
    }

    closed spec fn from_spec(id: TaskId) -> String {
        id.0
    }
}

} // verus!
