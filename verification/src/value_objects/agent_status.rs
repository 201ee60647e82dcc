//! Lifecycle status for an agent.
//!
//! The entity lifecycle: `Active ⇄ Paused`, `Active → Error → Active`,
//! `Active | Paused | Error → Stopping → Stopped`. The aggregate lifecycle:
//! `Registered → Provisioning → Initializing → Ready ⇄ Degraded`,
//! `Ready | Degraded → Draining → Retired`, with `Failed` and `Deleted`.

use vstd::prelude::*;

verus! {

/// Lifecycle status for an agent.
#[derive(Debug, Clone, Copy, PartialEq, Eq, Structural, PartialOrd, Ord, Hash)]
pub enum AgentStatus {
    /// Agent is registered but not yet active.
    Registered,
    /// Agent is being provisioned.
    Provisioning,
    /// Agent is initializing.
    Initializing,
    /// Agent is active and ready.
    Active,
    /// Agent is paused.
    Paused,
    /// Agent is stopping.
    Stopping,
    /// Agent has stopped.
    Stopped,
    /// Agent encountered an error.
    Error,
    /// Agent is initialized and serves tasks.
    Ready,
    /// Agent serves tasks with reduced capacity.
    Degraded,
    /// Agent finishes its work and takes no new work.
    Draining,
    /// Agent failed.
    Failed,
    /// Agent is retired.
    Retired,
    /// Agent is deleted.
    Deleted,
}

impl AgentStatus {
    /// Whether an agent in this status accepts tasks.
    pub open spec fn accepts_tasks(self) -> bool {
        self is Active
    }

    /// Whether this status is terminal.
    pub open spec fn terminal(self) -> bool {
        self is Stopped
    }

    /// The transitions of the agent entity's state machine.
    pub open spec fn allows(self, target: AgentStatus) -> bool {
        match (self, target) {
            (AgentStatus::Active, AgentStatus::Paused) => true,
            (AgentStatus::Active, AgentStatus::Stopping) => true,
            (AgentStatus::Active, AgentStatus::Error) => true,
            (AgentStatus::Paused, AgentStatus::Active) => true,
            (AgentStatus::Paused, AgentStatus::Stopping) => true,
            (AgentStatus::Stopping, AgentStatus::Stopped) => true,
            (AgentStatus::Error, AgentStatus::Active) => true,
            (AgentStatus::Error, AgentStatus::Stopping) => true,
            _ => false,
        }
    }

    /// The variant's name, as the debug form prints it.
    pub open spec fn name(self) -> Seq<char> {
        match self {
            AgentStatus::Registered => "Registered"@,
            AgentStatus::Provisioning => "Provisioning"@,
            AgentStatus::Initializing => "Initializing"@,
            AgentStatus::Active => "Active"@,
            AgentStatus::Paused => "Paused"@,
            AgentStatus::Stopping => "Stopping"@,
            AgentStatus::Stopped => "Stopped"@,
            AgentStatus::Error => "Error"@,
            AgentStatus::Ready => "Ready"@,
            AgentStatus::Degraded => "Degraded"@,
            AgentStatus::Draining => "Draining"@,
            AgentStatus::Failed => "Failed"@,
            AgentStatus::Retired => "Retired"@,
            AgentStatus::Deleted => "Deleted"@,
        }
    }

    /// Returns true if the agent can accept tasks.
    pub fn can_accept_tasks(&self) -> (r: bool)
        ensures
            r == self.accepts_tasks(),
    {
        match self {
            AgentStatus::Active => true,
            _ => false,
        }
    }

    /// Returns true if this is a terminal state.
    pub fn is_terminal(&self) -> (r: bool)
        ensures
            r == self.terminal(),
    {
        match self {
            AgentStatus::Stopped => true,
            _ => false,
        }
    }

    /// Checks if transition to target state is valid.
    pub fn can_transition_to(&self, target: AgentStatus) -> (r: bool)
        ensures
            r == self.allows(target),
    {
        match (self, target) {
            (AgentStatus::Active, AgentStatus::Paused) => true,
            (AgentStatus::Active, AgentStatus::Stopping) => true,
            (AgentStatus::Active, AgentStatus::Error) => true,
            (AgentStatus::Paused, AgentStatus::Active) => true,
            (AgentStatus::Paused, AgentStatus::Stopping) => true,
            (AgentStatus::Stopping, AgentStatus::Stopped) => true,
            (AgentStatus::Error, AgentStatus::Active) => true,
            (AgentStatus::Error, AgentStatus::Stopping) => true,
            _ => false,
        }
    }

    /// The variant's name.
    pub fn as_str(&self) -> (r: &'static str)
        ensures
            r@ == self.name(),
    {
        match self {
            AgentStatus::Registered => "Registered",
            AgentStatus::Provisioning => "Provisioning",
            AgentStatus::Initializing => "Initializing",
            AgentStatus::Active => "Active",
            AgentStatus::Paused => "Paused",
            AgentStatus::Stopping => "Stopping",
            AgentStatus::Stopped => "Stopped",
            AgentStatus::Error => "Error",
            AgentStatus::Ready => "Ready",
            AgentStatus::Degraded => "Degraded",
            AgentStatus::Draining => "Draining",
            AgentStatus::Failed => "Failed",
            AgentStatus::Retired => "Retired",
            AgentStatus::Deleted => "Deleted",
        }
    }

    /// The display form: the variant's name.
    pub fn to_string(&self) -> (r: String)
        ensures
            r@ == self.name(),
    {
        String::from_str(self.as_str())
    }
}

impl Default for AgentStatus {
    fn default() -> (r: Self)
        ensures
            r == AgentStatus::Registered,
    {
        AgentStatus::Registered
    }
}

/// A terminal status has no way out: no transition leaves it.
pub proof fn lemma_agent_terminal_is_final(s: AgentStatus, t: AgentStatus)
    requires
        s.terminal(),
    ensures
        !s.allows(t),
{
}

/// Only an active agent accepts tasks, and an agent that accepts tasks can
/// always be paused, stopped, or put in error.
pub proof fn lemma_accepting_agent_can_leave(s: AgentStatus)
    requires
        s.accepts_tasks(),
    ensures
        s == AgentStatus::Active,
        s.allows(AgentStatus::Paused),
        s.allows(AgentStatus::Stopping),
        s.allows(AgentStatus::Error),
        !s.terminal(),
{
}

/// Only an active agent accepts tasks, and Stopped is the one terminal
/// status of the agent entity, from which no move leads.
pub proof fn lemma_agent_status_kinds(s: AgentStatus, t: AgentStatus)
    ensures
        s.accepts_tasks() <==> s is Active,
        s.terminal() <==> s is Stopped,
        s.terminal() ==> !s.allows(t),
{
}

} // verus!
