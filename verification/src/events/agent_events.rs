//! Events of the agent aggregate, and the envelope that records who caused them.

use vstd::prelude::*;
use crate::value_objects::{AgentId, AgentName, TaskId, Timestamp};

verus! {
/// An agent was registered under an identity and a name.
#[derive(Debug)]
pub struct AgentCreatedEvent {
    pub agent_id: AgentId,
    pub name: AgentName,
    pub registered_at: Timestamp,
}

impl Clone for AgentCreatedEvent {
    fn clone(&self) -> (r: Self)
        ensures
            r == *self,
    {
        AgentCreatedEvent {
            agent_id: self.agent_id.clone(),
            name: self.name.clone(),
            registered_at: self.registered_at,
        }
    }
}

/// Provisioning of the agent started.
#[derive(Debug)]
pub struct ProvisioningStartedEvent {
    pub agent_id: AgentId,
    pub started_at: Timestamp,
}

impl Clone for ProvisioningStartedEvent {
    fn clone(&self) -> (r: Self)
        ensures
            r == *self,
    {
        ProvisioningStartedEvent {
            agent_id: self.agent_id.clone(),
            started_at: self.started_at,
        }
    }
}

/// The agent was initialized with a number of capabilities.
#[derive(Debug)]
pub struct InitializedEvent {
    pub agent_id: AgentId,
    pub initialized_at: Timestamp,
    pub capabilities: u32,
}

impl Clone for InitializedEvent {
    fn clone(&self) -> (r: Self)
        ensures
            r == *self,
    {
        InitializedEvent {
            agent_id: self.agent_id.clone(),
            initialized_at: self.initialized_at,
            capabilities: self.capabilities,
        }
    }
}

/// The agent became ready.
#[derive(Debug)]
pub struct ActivatedEvent {
    pub agent_id: AgentId,
    pub activated_at: Timestamp,
}

impl Clone for ActivatedEvent {
    fn clone(&self) -> (r: Self)
        ensures
            r == *self,
    {
        ActivatedEvent {
            agent_id: self.agent_id.clone(),
            activated_at: self.activated_at,
        }
    }
}

/// The agent was deactivated and drains.
#[derive(Debug)]
pub struct DeactivatedEvent {
    pub agent_id: AgentId,
    pub deactivated_at: Timestamp,
}

impl Clone for DeactivatedEvent {
    fn clone(&self) -> (r: Self)
        ensures
            r == *self,
    {
        DeactivatedEvent {
            agent_id: self.agent_id.clone(),
            deactivated_at: self.deactivated_at,
        }
    }
}

/// A task was assigned to the agent.
#[derive(Debug)]
pub struct TaskAssignedEvent {
    pub agent_id: AgentId,
    pub task_id: TaskId,
    pub assigned_at: Timestamp,
}

impl Clone for TaskAssignedEvent {
    fn clone(&self) -> (r: Self)
        ensures
            r == *self,
    {
        TaskAssignedEvent {
            agent_id: self.agent_id.clone(),
            task_id: self.task_id.clone(),
            assigned_at: self.assigned_at,
        }
    }
}

/// The agent completed its task.
#[derive(Debug)]
pub struct TaskCompletedEvent {
    pub agent_id: AgentId,
    pub task_id: TaskId,
    pub completed_at: Timestamp,
}

impl Clone for TaskCompletedEvent {
    fn clone(&self) -> (r: Self)
        ensures
            r == *self,
    {
        TaskCompletedEvent {
            agent_id: self.agent_id.clone(),
            task_id: self.task_id.clone(),
            completed_at: self.completed_at,
        }
    }
}

/// The agent's task failed.
#[derive(Debug)]
pub struct TaskFailedEvent {
    pub agent_id: AgentId,
    pub task_id: TaskId,
    pub error: String,
    pub failed_at: Timestamp,
}

impl Clone for TaskFailedEvent {
    fn clone(&self) -> (r: Self)
        ensures
            r == *self,
    {
        TaskFailedEvent {
            agent_id: self.agent_id.clone(),
            task_id: self.task_id.clone(),
            error: self.error.clone(),
            failed_at: self.failed_at,
        }
    }
}

/// The agent started draining.
#[derive(Debug)]
pub struct DrainedEvent {
    pub agent_id: AgentId,
    pub drained_at: Timestamp,
}

impl Clone for DrainedEvent {
    fn clone(&self) -> (r: Self)
        ensures
            r == *self,
    {
        DrainedEvent {
            agent_id: self.agent_id.clone(),
            drained_at: self.drained_at,
        }
    }
}

/// The agent was retired.
#[derive(Debug)]
pub struct RetiredEvent {
    pub agent_id: AgentId,
    pub retired_at: Timestamp,
}

impl Clone for RetiredEvent {
    fn clone(&self) -> (r: Self)
        ensures
            r == *self,
    {
        RetiredEvent {
            agent_id: self.agent_id.clone(),
            retired_at: self.retired_at,
        }
    }
}

/// The agent was deleted.
#[derive(Debug)]
pub struct DeletedEvent {
    pub agent_id: AgentId,
    pub deleted_at: Timestamp,
}

impl Clone for DeletedEvent {
    fn clone(&self) -> (r: Self)
        ensures
            r == *self,
    {
        DeletedEvent {
            agent_id: self.agent_id.clone(),
            deleted_at: self.deleted_at,
        }
    }
}

/// An event of the agent aggregate.
#[derive(Debug)]
pub enum AgentEvent {
    Created(AgentCreatedEvent),
    Registered(AgentCreatedEvent),
    ProvisioningStarted(ProvisioningStartedEvent),
    Initialized(InitializedEvent),
    Activated(ActivatedEvent),
    Deactivated(DeactivatedEvent),
    TaskAssigned(TaskAssignedEvent),
    TaskCompleted(TaskCompletedEvent),
    TaskFailed(TaskFailedEvent),
    Drained(DrainedEvent),
    Retired(RetiredEvent),
    Deleted(DeletedEvent),
}

impl Clone for AgentEvent {
    fn clone(&self) -> (r: Self)
        ensures
            r == *self,
    {
        match self {
            AgentEvent::Created(e) => AgentEvent::Created(e.clone()),
            AgentEvent::Registered(e) => AgentEvent::Registered(e.clone()),
            AgentEvent::ProvisioningStarted(e) => AgentEvent::ProvisioningStarted(e.clone()),
            AgentEvent::Initialized(e) => AgentEvent::Initialized(e.clone()),
            AgentEvent::Activated(e) => AgentEvent::Activated(e.clone()),
            AgentEvent::Deactivated(e) => AgentEvent::Deactivated(e.clone()),
            AgentEvent::TaskAssigned(e) => AgentEvent::TaskAssigned(e.clone()),
            AgentEvent::TaskCompleted(e) => AgentEvent::TaskCompleted(e.clone()),
            AgentEvent::TaskFailed(e) => AgentEvent::TaskFailed(e.clone()),
            AgentEvent::Drained(e) => AgentEvent::Drained(e.clone()),
            AgentEvent::Retired(e) => AgentEvent::Retired(e.clone()),
            AgentEvent::Deleted(e) => AgentEvent::Deleted(e.clone()),
        }
    }
}

/// What an envelope holds.
pub struct EnvelopeView {
    pub event: AgentEvent,
    pub actor: Seq<char>,
}

/// An event together with the actor that caused it.
#[derive(Debug)]
pub struct EventEnvelope {
    event: AgentEvent,
    actor: String,
}

impl View for EventEnvelope {
    type V = EnvelopeView;

    closed spec fn view(&self) -> EnvelopeView {
        EnvelopeView { event: self.event, actor: self.actor@ }
    }
}

impl EventEnvelope {
    /// Wraps `event`, caused by `actor`.
    pub fn new(event: AgentEvent, actor: &str) -> (r: Self)
        ensures
            r@ == (EnvelopeView { event, actor: actor@ }),
    {
        EventEnvelope { event, actor: String::from_str(actor) }
    }

    /// The event.
    pub fn event(&self) -> (r: &AgentEvent)
        ensures
            *r == self@.event,
    {
        &self.event
    }

    /// Who caused the event.
    pub fn actor(&self) -> (r: &str)
        ensures
            r@ == self@.actor,
    {
        self.actor.as_str()
    }
}

impl Clone for EventEnvelope {
    fn clone(&self) -> (r: Self)
        ensures
            r == *self,
    {
        EventEnvelope { event: self.event.clone(), actor: self.actor.clone() }
    }
}

} // verus!
