//! Human-readable name for a task: trimmed, non-empty, at most 256 bytes.

use vstd::prelude::*;
use crate::errors::ValidationError;
use crate::text::{trim_str, trim_ws};
use crate::value_objects::agent_name::name_acceptable;
use crate::value_objects::value_object::ValueObject;

verus! {

/// Human-readable name for a task.
#[derive(Debug, PartialOrd, Ord)]
pub struct TaskName(String);

impl View for TaskName {
    type V = Seq<char>;

    closed spec fn view(&self) -> Seq<char> {
        self.0@
    }
}

impl TaskName {
    /// Creates a new name: the input trimmed, rejected when empty or too long.
    pub fn new(value: &str) -> (r: Result<Self, ValidationError>)
        ensures
            r is Ok <==> name_acceptable(trim_ws(value@)),
            r matches Ok(n) ==> n@ == trim_ws(value@),
            r matches Err(e) ==> e.field@ == "TaskName"@ && e.message@ == (if trim_ws(
                value@,
            ).len() == 0 {
                "cannot be empty"@
            } else {
                "cannot exceed 256 characters"@
            }),
    {
        let s = String::from_str(trim_str(value));
        if s.as_str().is_empty() {
            return Err(ValidationError::new("TaskName", "cannot be empty"));
        }
        if s.as_str().len() > 256 {
            return Err(ValidationError::new("TaskName", "cannot exceed 256 characters"));
        }
        Ok(TaskName(s))
    }

    /// Returns the string value.
    pub fn as_str(&self) -> (r: &str)
        ensures
            r@ == self@,
    {
        self.0.as_str()
    }
}

impl ValueObject for TaskName {
    open spec fn text(&self) -> Seq<char> {
        self@
    }

    fn new(value: &str) -> (r: Result<Self, ValidationError>)
        ensures
            r is Ok <==> name_acceptable(trim_ws(value@)),
            r matches Ok(n) ==> n@ == trim_ws(value@),
    {
        TaskName::new(value)
    }

    fn as_str(&self) -> (r: &str) {
        self.0.as_str()
    }
}

impl Clone for TaskName {
    fn clone(&self) -> (r: Self)
        ensures
            r == *self,
    {
        TaskName(self.0.clone())
    }
}

impl PartialEq for TaskName {
    fn eq(&self, other: &Self) -> (r: bool) {
        self.0 == other.0
    }
}

impl vstd::std_specs::cmp::PartialEqSpecImpl for TaskName {
    open spec fn obeys_eq_spec() -> bool {
        true
    }

    open spec fn eq_spec(&self, other: &Self) -> bool {
        self@ == other@
    }
}

impl Eq for TaskName {}

impl Default for TaskName {
    fn default() -> (r: Self)
        ensures
            r@ == "Unnamed Task"@,
    {
        TaskName(String::from_str("Unnamed Task"))
    }
}

impl From<TaskName> for String {
    fn from(name: TaskName) -> (r: String)
        ensures
            r@ == name@,
    {
        name.0
    }
}

impl vstd::std_specs::convert::FromSpecImpl<TaskName> for String {
    open spec fn obeys_from_spec() -> bool {
        true
    }

    closed spec fn from_spec(name: TaskName) -> String {
        name.0
    }
}

} // verus!
