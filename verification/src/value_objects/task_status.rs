//! Lifecycle status for a task.
//!
//! `Pending → Queued → Running → Completed | Failed`; a task that has not
//! finished can be cancelled; a pending task can also start directly or fail.

use vstd::prelude::*;

verus! {

/// Lifecycle status for a task.
#[derive(Debug, Clone, Copy, PartialEq, Eq, Structural, PartialOrd, Ord, Hash)]
pub enum TaskStatus {
    Pending,
    Queued,
    Running,
    Completed,
    Failed,
    Cancelled,
}

impl TaskStatus {
    /// Whether this status is terminal.
    pub open spec fn terminal(self) -> bool {
        self is Completed || self is Failed || self is Cancelled
    }

    /// Whether a task in this status may be cancelled.
    pub open spec fn cancellable(self) -> bool {
        self is Pending || self is Queued || self is Running
    }

    /// The transitions of the task state machine.
    pub open spec fn allows(self, target: TaskStatus) -> bool {
        match (self, target) {
            (TaskStatus::Pending, TaskStatus::Queued) => true,
            (TaskStatus::Pending, TaskStatus::Running) => true,
            (TaskStatus::Pending, TaskStatus::Cancelled) => true,
            (TaskStatus::Pending, TaskStatus::Failed) => true,
            (TaskStatus::Queued, TaskStatus::Running) => true,
            (TaskStatus::Queued, TaskStatus::Cancelled) => true,
            (TaskStatus::Running, TaskStatus::Completed) => true,
            (TaskStatus::Running, TaskStatus::Failed) => true,
            (TaskStatus::Running, TaskStatus::Cancelled) => true,
            _ => false,
        }
    }

    /// The variant's name, as the debug form prints it.
    pub open spec fn name(self) -> Seq<char> {
        match self {
            TaskStatus::Pending => "Pending"@,
            TaskStatus::Queued => "Queued"@,
            TaskStatus::Running => "Running"@,
            TaskStatus::Completed => "Completed"@,
            TaskStatus::Failed => "Failed"@,
            TaskStatus::Cancelled => "Cancelled"@,
        }
    }

    /// Returns true if this is a terminal state.
    pub fn is_terminal(&self) -> (r: bool)
        ensures
            r == self.terminal(),
    {
        match self {
            TaskStatus::Completed | TaskStatus::Failed | TaskStatus::Cancelled => true,
            _ => false,
        }
    }

    /// Returns true if a task in this state may be cancelled.
    pub fn can_cancel(&self) -> (r: bool)
        ensures
            r == self.cancellable(),
    {
        match self {
            TaskStatus::Pending | TaskStatus::Queued | TaskStatus::Running => true,
            _ => false,
        }
    }

    /// Checks if transition to target state is valid.
    pub fn can_transition_to(&self, target: TaskStatus) -> (r: bool)
        ensures
            r == self.allows(target),
    {
        match (self, target) {
            (TaskStatus::Pending, TaskStatus::Queued) => true,
            (TaskStatus::Pending, TaskStatus::Running) => true,
            (TaskStatus::Pending, TaskStatus::Cancelled) => true,
            (TaskStatus::Pending, TaskStatus::Failed) => true,
            (TaskStatus::Queued, TaskStatus::Running) => true,
            (TaskStatus::Queued, TaskStatus::Cancelled) => true,
            (TaskStatus::Running, TaskStatus::Completed) => true,
            (TaskStatus::Running, TaskStatus::Failed) => true,
            (TaskStatus::Running, TaskStatus::Cancelled) => true,
            _ => false,
        }
    }

    /// The variant's name.
    pub fn as_str(&self) -> (r: &'static str)
        ensures
            r@ == self.name(),
    {
        match self {
            TaskStatus::Pending => "Pending",
            TaskStatus::Queued => "Queued",
            TaskStatus::Running => "Running",
            TaskStatus::Completed => "Completed",
            TaskStatus::Failed => "Failed",
            TaskStatus::Cancelled => "Cancelled",
        }
    }

    /// The display form: the variant's name.
    pub fn to_string(&self) -> (r: String)
        ensures
            r@ == self.name(),
    {
        String::from_str(self.as_str())
    }
}

impl Default for TaskStatus {
    fn default() -> (r: Self)
        ensures
            r == TaskStatus::Pending,
    {
        TaskStatus::Pending
    }
}

/// A terminal task status has no outgoing transition.
pub proof fn lemma_task_terminal_is_final(s: TaskStatus, t: TaskStatus)
    requires
        s.terminal(),
    ensures
        !s.allows(t),
{
}

/// A task can be cancelled exactly when it has not finished, and exactly when
/// the state machine has a transition to `Cancelled`.
pub proof fn lemma_task_cancel_iff_unfinished(s: TaskStatus)
    ensures
        s.cancellable() <==> !s.terminal(),
        s.cancellable() <==> s.allows(TaskStatus::Cancelled),
{
}

/// The finished statuses are exactly Completed, Failed and Cancelled, and a
/// task can be cancelled exactly while it is Pending, Queued or Running: so a
/// status can be cancelled exactly when it has not finished, and no move leads
/// out of a finished status.
pub proof fn lemma_task_status_kinds(s: TaskStatus, t: TaskStatus)
    ensures
        s.terminal() <==> (s is Completed || s is Failed || s is Cancelled),
        s.cancellable() <==> (s is Pending || s is Queued || s is Running),
        s.cancellable() <==> !s.terminal(),
        s.terminal() ==> !s.allows(t),
{
}

} // verus!
