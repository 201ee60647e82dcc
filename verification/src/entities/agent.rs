//! The agent entity: an autonomous worker with a lifecycle and a version for
//! optimistic locking. State changes return a new instance.

use vstd::prelude::*;
use crate::errors::{DomainError, DomainResult};
use crate::text::decimal;
use crate::text::push_decimal;
use crate::value_objects::{AgentId, AgentName, AgentStatus};

verus! {

/// What an agent entity holds.
pub struct AgentView {
    pub id: Seq<char>,
    pub name: Seq<char>,
    pub status: AgentStatus,
    pub version: u64,
}

/// An autonomous agent that can execute tasks.
#[derive(Debug)]
pub struct Agent {
    id: AgentId,
    name: AgentName,
    status: AgentStatus,
    version: u64,
}

impl View for Agent {
    type V = AgentView;

    closed spec fn view(&self) -> AgentView {
        AgentView { id: self.id@, name: self.name@, status: self.status, version: self.version }
    }
}

/// The statuses in which a new agent may start.
pub open spec fn valid_initial_status(status: AgentStatus) -> bool {
    status is Active || status is Paused
}

/// `e` is an `InvalidStateTransition` error with these texts.
pub open spec fn is_transition_error(
    e: DomainError,
    current: Seq<char>,
    target: Seq<char>,
    reason: Seq<char>,
) -> bool {
    match e {
        DomainError::InvalidStateTransition { current: c, target: t, reason: r } => c@ == current
            && t@ == target && r@ == reason,
        _ => false,
    }
}

/// The reason given for a transition that the state machine refuses.
pub open spec fn refused_reason(from: Seq<char>, to: Seq<char>) -> Seq<char> {
    "Cannot transition from "@ + from + " to "@ + to
}

/// The outcome of asking `pre` to move to `target`: a copy in `target` with the
/// version one higher, or the refusal.
pub open spec fn transition_outcome(pre: AgentView, target: AgentStatus, r: DomainResult<Agent>) -> bool {
    match r {
        Ok(a) => pre.status.allows(target) && pre.version < u64::MAX && a@ == AgentView {
            status: target,
            version: (pre.version + 1) as u64,
            ..pre
        },
        Err(e) => !pre.status.allows(target) && is_transition_error(
            e,
            pre.status.name(),
            target.name(),
            refused_reason(pre.status.name(), target.name()),
        ),
    }
}

/// The display form of an agent.
pub open spec fn agent_display(v: AgentView) -> Seq<char> {
    "Agent("@ + v.id + ": "@ + v.name + " ["@ + v.status.name() + "] v"@ + decimal(v.version as nat)
        + ")"@
}

impl Agent {
    /// Creates a new agent with version 1; it must start Active or Paused.
    pub fn new(id: AgentId, name: AgentName, status: AgentStatus) -> (r: DomainResult<Self>)
        ensures
            r is Ok <==> valid_initial_status(status),
            r matches Ok(a) ==> a@ == (AgentView { id: id@, name: name@, status, version: 1 }),
            r matches Err(e) ==> is_transition_error(
                e,
                "none"@,
                status.name(),
                "New agent must start in Active state"@,
            ),
    {
        match status {
            AgentStatus::Active | AgentStatus::Paused => {},
            _ => {
                return Err(
                    DomainError::InvalidStateTransition {
                        current: String::from_str("none"),
                        target: status.to_string(),
                        reason: String::from_str("New agent must start in Active state"),
                    },
                );
            },
        }
        Ok(Agent { id, name, status, version: 1 })
    }

    /// Rebuilds an agent from stored data, without checking its status.
    pub(crate) fn reconstruct(id: AgentId, name: AgentName, status: AgentStatus, version: u64) -> (r: Self)
        ensures
            r@ == (AgentView { id: id@, name: name@, status, version }),
    {
        Agent { id, name, status, version }
    }

    /// The agent's unique identifier.
    pub fn id(&self) -> (r: &AgentId)
        ensures
            r@ == self@.id,
    {
        &self.id
    }

    /// The agent's name.
    pub fn name(&self) -> (r: &AgentName)
        ensures
            r@ == self@.name,
    {
        &self.name
    }

    /// The agent's current status.
    pub fn status(&self) -> (r: AgentStatus)
        ensures
            r == self@.status,
    {
        self.status
    }

    /// The agent's version (for optimistic locking).
    pub fn version(&self) -> (r: u64)
        ensures
            r == self@.version,
    {
        self.version
    }

    /// Transition to the Paused state.
    pub fn pause(&self) -> (r: DomainResult<Self>)
        requires
            self@.status.allows(AgentStatus::Paused) ==> self@.version < u64::MAX,
        ensures
            transition_outcome(self@, AgentStatus::Paused, r),
    {
        self.transition_to(AgentStatus::Paused)
    }

    /// Transition to the Active state.
    pub fn activate(&self) -> (r: DomainResult<Self>)
        requires
            self@.status.allows(AgentStatus::Active) ==> self@.version < u64::MAX,
        ensures
            transition_outcome(self@, AgentStatus::Active, r),
    {
        self.transition_to(AgentStatus::Active)
    }

    /// Transition to the Stopping state.
    pub fn stop(&self) -> (r: DomainResult<Self>)
        requires
            self@.status.allows(AgentStatus::Stopping) ==> self@.version < u64::MAX,
        ensures
            transition_outcome(self@, AgentStatus::Stopping, r),
    {
        self.transition_to(AgentStatus::Stopping)
    }

    /// Transition to the Stopped state.
    pub fn finalize(&self) -> (r: DomainResult<Self>)
        requires
            self@.status.allows(AgentStatus::Stopped) ==> self@.version < u64::MAX,
        ensures
            transition_outcome(self@, AgentStatus::Stopped, r),
    {
        self.transition_to(AgentStatus::Stopped)
    }

    /// Transition to the Error state.
    pub fn error(&self) -> (r: DomainResult<Self>)
        requires
            self@.status.allows(AgentStatus::Error) ==> self@.version < u64::MAX,
        ensures
            transition_outcome(self@, AgentStatus::Error, r),
    {
        self.transition_to(AgentStatus::Error)
    }

    /// Resume from Paused or Error back to Active; an active agent is returned
    /// unchanged.
    pub fn resume(&self) -> (r: DomainResult<Self>)
        requires
            (self@.status is Paused || self@.status is Error) ==> self@.version < u64::MAX,
        ensures
            (self@.status is Paused || self@.status is Error) ==> transition_outcome(
                self@,
                AgentStatus::Active,
                r,
            ),
            self@.status is Active ==> (r matches Ok(a) && a@ == self@),
            !(self@.status is Paused || self@.status is Error || self@.status is Active) ==> (
            r matches Err(e) && is_transition_error(
                e,
                self@.status.name(),
                "Active"@,
                "Agent can only resume from Paused or Error state"@,
            )),
    {
        match self.status {
            AgentStatus::Paused | AgentStatus::Error => self.activate(),
            AgentStatus::Active => Ok(self.clone()),
            _ => Err(
                DomainError::InvalidStateTransition {
                    current: self.status.to_string(),
                    target: String::from_str("Active"),
                    reason: String::from_str("Agent can only resume from Paused or Error state"),
                },
            ),
        }
    }

    /// Attempts a state transition, returning the updated copy.
    fn transition_to(&self, target: AgentStatus) -> (r: DomainResult<Self>)
        requires
            self@.status.allows(target) ==> self@.version < u64::MAX,
        ensures
            transition_outcome(self@, target, r),
    {
        if !self.status.can_transition_to(target) {
            let mut reason = String::from_str("Cannot transition from ");
            reason.append(self.status.as_str());
            reason.append(" to ");
            reason.append(target.as_str());
            return Err(
                DomainError::InvalidStateTransition {
                    current: self.status.to_string(),
                    target: target.to_string(),
                    reason,
                },
            );
        }
        Ok(Agent { id: self.id.clone(), name: self.name.clone(), status: target, version: self.version + 1 })
    }

    /// Returns true if the agent can accept new tasks.
    pub fn can_accept_tasks(&self) -> (r: bool)
        ensures
            r == self@.status.accepts_tasks(),
    {
        self.status.can_accept_tasks()
    }

    /// Returns true if the agent is in a terminal state.
    pub fn is_terminal(&self) -> (r: bool)
        ensures
            r == self@.status.terminal(),
    {
        self.status.is_terminal()
    }

    /// The display form: `Agent(<id>: <name> [<status>] v<version>)`.
    pub fn to_string(&self) -> (r: String)
        ensures
            r@ == agent_display(self@),
    {
        let mut out = String::from_str("Agent(");
        out.append(self.id.as_str());
        out.append(": ");
        out.append(self.name.as_str());
        out.append(" [");
        out.append(self.status.as_str());
        out.append("] v");
        push_decimal(&mut out, self.version);
        out.append(")");
        out
    }
}

impl Clone for Agent {
    fn clone(&self) -> (r: Self)
        ensures
            r@ == self@,
    {
        Agent { id: self.id.clone(), name: self.name.clone(), status: self.status, version: self.version }
    }
}

impl PartialEq for Agent {
    fn eq(&self, other: &Self) -> (r: bool) {
        self.id == other.id
    }
}

impl vstd::std_specs::cmp::PartialEqSpecImpl for Agent {
    open spec fn obeys_eq_spec() -> bool {
        true
    }

    open spec fn eq_spec(&self, other: &Self) -> bool {
        self@.id == other@.id
    }
}

impl Eq for Agent {}

/// Every successful transition raises the version by exactly one and keeps
/// the identity and the name; a refused one names both statuses.
pub proof fn lemma_transition_bumps_version(pre: AgentView, target: AgentStatus, r: DomainResult<Agent>)
    requires
        transition_outcome(pre, target, r),
    ensures
        r matches Ok(a) ==> a@.version == pre.version + 1 && a@.id == pre.id && a@.name
            == pre.name && a@.status == target,
        r is Err ==> !pre.status.allows(target),
{
}

/// A stopped agent can be moved nowhere.
pub proof fn lemma_stopped_agent_is_final(pre: AgentView, target: AgentStatus, r: DomainResult<Agent>)
    requires
        pre.status is Stopped,
        transition_outcome(pre, target, r),
    ensures
        r is Err,
{
}

/// The agent entity's state machine as its list of moves: an active agent
/// may pause, stop or fail into Error; a paused one may become active again
/// or stop; a stopping one is finalized to Stopped; one in Error may become
/// active again or stop; nothing else (staying put included) is allowed. An
/// allowed move gives the agent in the target status, one version on; any
/// other is refused with the statuses' names.
pub proof fn lemma_agent_moves(pre: AgentView, target: AgentStatus, r: DomainResult<Agent>)
    requires
        transition_outcome(pre, target, r),
        pre.version < u64::MAX,
    ensures
        r is Ok <==> ((pre.status is Active && (target is Paused || target is Stopping
            || target is Error)) || (pre.status is Paused && (target is Active || target is Stopping))
            || (pre.status is Stopping && target is Stopped) || (pre.status is Error && (target is Active
            || target is Stopping))),
        r matches Ok(a) ==> a@.status == target && a@.version == pre.version + 1,
        r matches Err(e) ==> is_transition_error(
            e,
            pre.status.name(),
            target.name(),
            "Cannot transition from "@ + pre.status.name() + " to "@ + target.name(),
        ),
{
}

} // verus!
