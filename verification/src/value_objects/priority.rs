//! Priority of a task or an agent.

use vstd::prelude::*;

verus! {

/// Priority level, from lowest to highest.
#[derive(Debug, Clone, Copy, PartialEq, Eq, Structural, PartialOrd, Ord, Hash)]
pub enum Priority {
    Low,
    Normal,
    High,
    Critical,
}

impl Priority {
    /// The numeric rank of the priority.
    pub open spec fn rank(self) -> i32 {
        match self {
            Priority::Low => 1,
            Priority::Normal => 2,
            Priority::High => 3,
            Priority::Critical => 4,
        }
    }

    /// The variant's name, as the debug form prints it.
    pub open spec fn name(self) -> Seq<char> {
        match self {
            Priority::Low => "Low"@,
            Priority::Normal => "Normal"@,
            Priority::High => "High"@,
            Priority::Critical => "Critical"@,
        }
    }

    /// Returns the numeric rank: 1 (low) to 4 (critical).
    pub fn as_i32(&self) -> (r: i32)
        ensures
            r == self.rank(),
    {
        match self {
            Priority::Low => 1,
            Priority::Normal => 2,
            Priority::High => 3,
            Priority::Critical => 4,
        }
    }

    /// The variant's name.
    pub fn as_str(&self) -> (r: &'static str)
        ensures
            r@ == self.name(),
    {
        match self {
            Priority::Low => "Low",
            Priority::Normal => "Normal",
            Priority::High => "High",
            Priority::Critical => "Critical",
        }
    }
}

} // verus!
