//! The task entity: a unit of work with a lifecycle, a priority, an optional
//! assignee and a version. State changes return a new instance.

use vstd::prelude::*;
use crate::entities::agent::{is_transition_error, refused_reason};
use crate::errors::{DomainError, DomainResult};
use crate::text::{decimal, push_decimal};
use crate::value_objects::{Priority, TaskId, TaskName, TaskStatus};

verus! {

/// What a task entity holds.
pub struct TaskView {
    pub id: Seq<char>,
    pub name: Seq<char>,
    pub status: TaskStatus,
    pub priority: Priority,
    pub assigned_agent_id: Option<Seq<char>>,
    pub version: u64,
}

/// A unit of work to be executed.
#[derive(Debug)]
pub struct Task {
    id: TaskId,
    name: TaskName,
    status: TaskStatus,
    priority: Priority,
    assigned_agent_id: Option<String>,
    version: u64,
}

/// The view of an optional string.
pub open spec fn opt_view(o: Option<String>) -> Option<Seq<char>> {
    match o {
        Some(s) => Some(s@),
        None => None,
    }
}

impl View for Task {
    type V = TaskView;

    closed spec fn view(&self) -> TaskView {
        TaskView {
            id: self.id@,
            name: self.name@,
            status: self.status,
            priority: self.priority,
            assigned_agent_id: opt_view(self.assigned_agent_id),
            version: self.version,
        }
    }
}

/// The outcome of asking `pre` to move to `target`: a copy in `target` with the
/// version one higher, or the refusal.
pub open spec fn task_transition_outcome(pre: TaskView, target: TaskStatus, r: DomainResult<Task>) -> bool {
    match r {
        Ok(t) => pre.status.allows(target) && pre.version < u64::MAX && t@ == TaskView {
            status: target,
            version: (pre.version + 1) as u64,
            ..pre
        },
        Err(e) => !pre.status.allows(target) && is_transition_error(
            e,
            pre.status.name(),
            target.name(),
            refused_reason(pre.status.name(), target.name()),
        ),
    }
}

/// The display form of a task.
pub open spec fn task_display(v: TaskView) -> Seq<char> {
    "Task("@ + v.id + ": "@ + v.name + " ["@ + v.status.name() + "] "@ + v.priority.name() + " v"@
        + decimal(v.version as nat) + ")"@
}

impl Task {
    /// Creates a pending, unassigned task with version 1.
    pub fn new(id: TaskId, name: TaskName, priority: Priority) -> (r: DomainResult<Self>)
        ensures
            r matches Ok(t) && t@ == (TaskView {
                id: id@,
                name: name@,
                status: TaskStatus::Pending,
                priority,
                assigned_agent_id: None,
                version: 1,
            }),
    {
        Ok(Task { id, name, status: TaskStatus::Pending, priority, assigned_agent_id: None, version: 1 })
    }

    /// Rebuilds a task from stored data.
    pub(crate) fn reconstruct(
        id: TaskId,
        name: TaskName,
        status: TaskStatus,
        priority: Priority,
        assigned_agent_id: Option<String>,
        version: u64,
    ) -> (r: Self)
        ensures
            r@ == (TaskView {
                id: id@,
                name: name@,
                status,
                priority,
                assigned_agent_id: opt_view(assigned_agent_id),
                version,
            }),
    {
        Task { id, name, status, priority, assigned_agent_id, version }
    }

    pub fn id(&self) -> (r: &TaskId)
        ensures
            r@ == self@.id,
    {
        &self.id
    }

    pub fn name(&self) -> (r: &TaskName)
        ensures
            r@ == self@.name,
    {
        &self.name
    }

    pub fn status(&self) -> (r: TaskStatus)
        ensures
            r == self@.status,
    {
        self.status
    }

    pub fn priority(&self) -> (r: Priority)
        ensures
            r == self@.priority,
    {
        self.priority
    }

    pub fn assigned_agent_id(&self) -> (r: Option<&str>)
        ensures
            r is Some <==> self@.assigned_agent_id is Some,
            r matches Some(s) ==> self@.assigned_agent_id == Some(s@),
    {
        match &self.assigned_agent_id {
            Some(s) => Some(s.as_str()),
            None => None,
        }
    }

    pub fn version(&self) -> (r: u64)
        ensures
            r == self@.version,
    {
        self.version
    }

    /// Queue the task for execution.
    pub fn queue(&self) -> (r: DomainResult<Self>)
        requires
            self@.status.allows(TaskStatus::Queued) ==> self@.version < u64::MAX,
        ensures
            task_transition_outcome(self@, TaskStatus::Queued, r),
    {
        self.transition_to(TaskStatus::Queued)
    }

    /// Start executing the task.
    pub fn start(&self) -> (r: DomainResult<Self>)
        requires
            self@.status.allows(TaskStatus::Running) ==> self@.version < u64::MAX,
        ensures
            task_transition_outcome(self@, TaskStatus::Running, r),
    {
        self.transition_to(TaskStatus::Running)
    }

    /// Mark the task as completed.
    pub fn complete(&self) -> (r: DomainResult<Self>)
        requires
            self@.status.allows(TaskStatus::Completed) ==> self@.version < u64::MAX,
        ensures
            task_transition_outcome(self@, TaskStatus::Completed, r),
    {
        self.transition_to(TaskStatus::Completed)
    }

    /// Mark the task as failed.
    pub fn fail(&self) -> (r: DomainResult<Self>)
        requires
            self@.status.allows(TaskStatus::Failed) ==> self@.version < u64::MAX,
        ensures
            task_transition_outcome(self@, TaskStatus::Failed, r),
    {
        self.transition_to(TaskStatus::Failed)
    }

    /// Cancel the task; a finished task cannot be cancelled.
    pub fn cancel(&self) -> (r: DomainResult<Self>)
        requires
            self@.status.cancellable() ==> self@.version < u64::MAX,
        ensures
            self@.status.cancellable() ==> task_transition_outcome(self@, TaskStatus::Cancelled, r),
            !self@.status.cancellable() ==> (r matches Err(e) && is_transition_error(
                e,
                self@.status.name(),
                "Cancelled"@,
                "Task in "@ + self@.status.name() + " state cannot be cancelled"@,
            )),
    {
        if !self.status.can_cancel() {
            let mut reason = String::from_str("Task in ");
            reason.append(self.status.as_str());
            reason.append(" state cannot be cancelled");
            return Err(
                DomainError::InvalidStateTransition {
                    current: self.status.to_string(),
                    target: String::from_str("Cancelled"),
                    reason,
                },
            );
        }
        self.transition_to(TaskStatus::Cancelled)
    }

    /// Assign the task to an agent; a task is assigned at most once.
    pub fn assign_to(&self, agent_id: String) -> (r: DomainResult<Self>)
        ensures
            self@.assigned_agent_id is None ==> (r matches Ok(t) && t@ == TaskView {
                assigned_agent_id: Some(agent_id@),
                ..self@
            }),
            self@.assigned_agent_id is Some ==> (r matches Err(e) && e matches DomainError::InvariantViolation(
                m,
            ) && m@ == "Task is already assigned"@),
    {
        if self.assigned_agent_id.is_some() {
            return Err(DomainError::InvariantViolation(String::from_str("Task is already assigned")));
        }
        Ok(
            Task {
                id: self.id.clone(),
                name: self.name.clone(),
                status: self.status,
                priority: self.priority,
                assigned_agent_id: Some(agent_id),
                version: self.version,
            },
        )
    }

    fn transition_to(&self, target: TaskStatus) -> (r: DomainResult<Self>)
        requires
            self@.status.allows(target) ==> self@.version < u64::MAX,
        ensures
            task_transition_outcome(self@, target, r),
    {
        if !self.status.can_transition_to(target) {
            let mut reason = String::from_str("Cannot transition from ");
            reason.append(self.status.as_str());
            reason.append(" to ");
            reason.append(target.as_str());
            return Err(
                DomainError::InvalidStateTransition {
                    current: self.status.to_string(),
                    target: target.to_string(),
                    reason,
                },
            );
        }
        Ok(
            Task {
                id: self.id.clone(),
                name: self.name.clone(),
                status: target,
                priority: self.priority,
                assigned_agent_id: self.clone_assignee(),
                version: self.version + 1,
            },
        )
    }

    fn clone_assignee(&self) -> (r: Option<String>)
        ensures
            opt_view(r) == opt_view(self.assigned_agent_id),
    {
        match &self.assigned_agent_id {
            Some(s) => Some(s.clone()),
            None => None,
        }
    }

    pub fn is_terminal(&self) -> (r: bool)
        ensures
            r == self@.status.terminal(),
    {
        self.status.is_terminal()
    }

    pub fn can_cancel(&self) -> (r: bool)
        ensures
            r == self@.status.cancellable(),
    {
        self.status.can_cancel()
    }

    pub fn is_assigned(&self) -> (r: bool)
        ensures
            r == self@.assigned_agent_id is Some,
    {
        self.assigned_agent_id.is_some()
    }

    /// The display form: `Task(<id>: <name> [<status>] <priority> v<version>)`.
    pub fn to_string(&self) -> (r: String)
        ensures
            r@ == task_display(self@),
    {
        let mut out = String::from_str("Task(");
        out.append(self.id.as_str());
        out.append(": ");
        out.append(self.name.as_str());
        out.append(" [");
        out.append(self.status.as_str());
        out.append("] ");
        out.append(self.priority.as_str());
        out.append(" v");
        push_decimal(&mut out, self.version);
        out.append(")");
        out
    }
}

impl Clone for Task {
    fn clone(&self) -> (r: Self)
        ensures
            r@ == self@,
    {
        Task {
            id: self.id.clone(),
            name: self.name.clone(),
            status: self.status,
            priority: self.priority,
            assigned_agent_id: self.clone_assignee(),
            version: self.version,
        }
    }
}

impl PartialEq for Task {
    fn eq(&self, other: &Self) -> (r: bool) {
        self.id == other.id
    }
}

impl vstd::std_specs::cmp::PartialEqSpecImpl for Task {
    open spec fn obeys_eq_spec() -> bool {
        true
    }

    open spec fn eq_spec(&self, other: &Self) -> bool {
        self@.id == other@.id
    }
}

impl Eq for Task {}

/// A finished task stays finished: every transition out of a terminal status
/// is refused, cancellation included.
pub proof fn lemma_finished_task_is_final(pre: TaskView, target: TaskStatus, r: DomainResult<Task>)
    requires
        pre.status.terminal(),
        task_transition_outcome(pre, target, r),
    ensures
        r is Err,
        !pre.status.cancellable(),
{
}

/// Every successful task transition raises the version by exactly one and
/// keeps identity, name, priority and assignee.
pub proof fn lemma_task_transition_bumps_version(pre: TaskView, target: TaskStatus, r: DomainResult<Task>)
    requires
        task_transition_outcome(pre, target, r),
    ensures
        r matches Ok(t) ==> t@.version == pre.version + 1 && t@.id == pre.id && t@.name == pre.name
            && t@.priority == pre.priority && t@.assigned_agent_id == pre.assigned_agent_id,
{
}

/// The task state machine as its list of moves: a pending task may be
/// queued, started, cancelled or failed; a queued one started or cancelled; a
/// running one completed, failed or cancelled; nothing else (staying put
/// included) is allowed. An allowed move gives the task in the target status,
/// one version on; any other is refused with the statuses' names.
pub proof fn lemma_task_moves(pre: TaskView, target: TaskStatus, r: DomainResult<Task>)
    requires
        task_transition_outcome(pre, target, r),
        pre.version < u64::MAX,
    ensures
        r is Ok <==> ((pre.status is Pending && (target is Queued || target is Running
            || target is Cancelled || target is Failed)) || (pre.status is Queued && (target is Running
            || target is Cancelled)) || (pre.status is Running && (target is Completed
            || target is Failed || target is Cancelled))),
        r matches Ok(t) ==> t@.status == target && t@.version == pre.version + 1,
        r matches Err(e) ==> is_transition_error(
            e,
            pre.status.name(),
            target.name(),
            "Cannot transition from "@ + pre.status.name() + " to "@ + target.name(),
        ),
{
}

/// Cancelling succeeds exactly for a task that is Pending, Queued or Running,
/// and gives it in Cancelled one version on; a finished task is refused with
/// "Task in <status> state cannot be cancelled". The requirements are the
/// contract of `Task::cancel`.
pub proof fn lemma_cancel_outcome(pre: TaskView, r: DomainResult<Task>)
    requires
        pre.version < u64::MAX,
        pre.status.cancellable() ==> task_transition_outcome(pre, TaskStatus::Cancelled, r),
        !pre.status.cancellable() ==> (r matches Err(e) && is_transition_error(
            e,
            pre.status.name(),
            "Cancelled"@,
            "Task in "@ + pre.status.name() + " state cannot be cancelled"@,
        )),
    ensures
        r is Ok <==> (pre.status is Pending || pre.status is Queued || pre.status is Running),
        r matches Ok(t) ==> t@.status is Cancelled && t@.version == pre.version + 1,
        (pre.status is Completed || pre.status is Failed || pre.status is Cancelled) ==> (r matches Err(
            e,
        ) && is_transition_error(
            e,
            pre.status.name(),
            "Cancelled"@,
            "Task in "@ + pre.status.name() + " state cannot be cancelled"@,
        )),
{
}

} // verus!
