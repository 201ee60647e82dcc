//! The agent aggregate root: identity, lifecycle, capabilities and the current
//! task, changed only by commands, each of which records one event.
//!
//! Lifecycle:
//!
//! ```text
//! Registered → Provisioning → Initializing → Ready ⇄ Degraded
//!     ↓             ↓               ↓          ↓         ↓
//!   Deleted      Failed          Failed     Draining ← ┘ → Failed
//!                                              ↓
//!                                           Retired → Ready
//! ```

use vstd::prelude::*;
use crate::errors::DomainError;
use crate::events::agent_events::{
    ActivatedEvent, AgentCreatedEvent, AgentEvent, DeactivatedEvent, DeletedEvent, DrainedEvent,
    EventEnvelope, InitializedEvent, ProvisioningStartedEvent, RetiredEvent, TaskAssignedEvent,
    TaskCompletedEvent, TaskFailedEvent,
};
use crate::value_objects::{AgentId, AgentName, AgentStatus, Priority, TaskId, Timestamp};

verus! {

/// Agent capability descriptor.
#[derive(Debug, PartialEq, Eq)]
pub struct Capability {
    /// Capability identifier.
    pub id: String,
    /// Capability version.
    pub version: String,
    /// Whether the capability is currently active.
    pub enabled: bool,
}

impl Capability {
    /// An enabled capability.
    pub fn new(id: &str, version: &str) -> (r: Self)
        ensures
            r.id@ == id@,
            r.version@ == version@,
            r.enabled,
    {
        Capability { id: String::from_str(id), version: String::from_str(version), enabled: true }
    }
}

impl Clone for Capability {
    fn clone(&self) -> (r: Self)
        ensures
            r == *self,
    {
        Capability { id: self.id.clone(), version: self.version.clone(), enabled: self.enabled }
    }
}

/// Commands that can be issued to the agent aggregate.
#[derive(Debug, Clone)]
pub enum Command {
    Register { id: AgentId, name: AgentName },
    Provision,
    Initialize { capabilities: Vec<Capability> },
    Activate,
    Deactivate,
    AssignTask { task_id: TaskId },
    CompleteTask { output: Option<String> },
    FailTask { error: String },
    Drain,
    Retire,
    Delete,
}

/// What the aggregate holds.
pub struct AgentState {
    pub id: Seq<char>,
    pub name: Seq<char>,
    pub status: AgentStatus,
    pub capabilities: Seq<Capability>,
    pub priority: Priority,
    pub metadata: Map<String, String>,
    pub current_task: Option<Seq<char>>,
    pub uncommitted_events: Seq<EventEnvelope>,
}

/// Agent aggregate root.
pub struct Agent {
    id: AgentId,
    name: AgentName,
    status: AgentStatus,
    capabilities: Vec<Capability>,
    priority: Priority,
    metadata: std::collections::BTreeMap<String, String>,
    current_task: Option<TaskId>,
    uncommitted_events: Vec<EventEnvelope>,
}

/// The view of an optional task identifier.
pub open spec fn task_view(t: Option<TaskId>) -> Option<Seq<char>> {
    match t {
        Some(id) => Some(id@),
        None => None,
    }
}

impl View for Agent {
    type V = AgentState;

    closed spec fn view(&self) -> AgentState {
        AgentState {
            id: self.id@,
            name: self.name@,
            status: self.status,
            capabilities: self.capabilities@,
            priority: self.priority,
            metadata: self.metadata@,
            current_task: task_view(self.current_task),
            uncommitted_events: self.uncommitted_events@,
        }
    }
}

/// Why a command was refused, as the error's variant and message.
pub enum Refusal {
    InvalidState(Seq<char>),
    InvalidOperation(Seq<char>),
}

/// `e` carries the refusal `rf`.
pub open spec fn error_is(e: DomainError, rf: Refusal) -> bool {
    match (e, rf) {
        (DomainError::InvalidState(m), Refusal::InvalidState(x)) => m@ == x,
        (DomainError::InvalidOperation(m), Refusal::InvalidOperation(x)) => m@ == x,
        _ => false,
    }
}

/// The aggregate's lifecycle: the listed moves, and staying in place.
pub open spec fn lifecycle_allows(from: AgentStatus, to: AgentStatus) -> bool {
    from == to || match (from, to) {
        (AgentStatus::Registered, AgentStatus::Provisioning) => true,
        (AgentStatus::Registered, AgentStatus::Deleted) => true,
        (AgentStatus::Provisioning, AgentStatus::Initializing) => true,
        (AgentStatus::Provisioning, AgentStatus::Failed) => true,
        (AgentStatus::Initializing, AgentStatus::Ready) => true,
        (AgentStatus::Initializing, AgentStatus::Failed) => true,
        (AgentStatus::Ready, AgentStatus::Degraded) => true,
        (AgentStatus::Ready, AgentStatus::Draining) => true,
        (AgentStatus::Degraded, AgentStatus::Ready) => true,
        (AgentStatus::Degraded, AgentStatus::Draining) => true,
        (AgentStatus::Degraded, AgentStatus::Failed) => true,
        (AgentStatus::Draining, AgentStatus::Ready) => true,
        (AgentStatus::Draining, AgentStatus::Retired) => true,
        (AgentStatus::Retired, AgentStatus::Ready) => true,
        _ => false,
    }
}

/// The refusal of a move that the lifecycle does not allow.
pub open spec fn lifecycle_refusal(from: AgentStatus, to: AgentStatus) -> Refusal {
    Refusal::InvalidState("Invalid transition from "@ + from.name() + " to "@ + to.name())
}

/// No refusal when the lifecycle allows the move, else its refusal.
pub open spec fn gate(from: AgentStatus, to: AgentStatus) -> Option<Refusal> {
    if lifecycle_allows(from, to) {
        None
    } else {
        Some(lifecycle_refusal(from, to))
    }
}

/// Whether `s` holds no task.
pub open spec fn idle(s: AgentState) -> bool {
    s.current_task is None
}

/// Why `cmd` is refused in `s`, or `None` when it is carried out.
pub open spec fn command_refusal(s: AgentState, cmd: Command) -> Option<Refusal> {
    match cmd {
        Command::Register { .. } => None,
        Command::Provision => gate(s.status, AgentStatus::Provisioning),
        Command::Initialize { .. } => gate(s.status, AgentStatus::Initializing),
        Command::Activate => gate(s.status, AgentStatus::Ready),
        Command::Deactivate => if !idle(s) {
            Some(Refusal::InvalidOperation("Cannot deactivate while task is assigned"@))
        } else {
            gate(s.status, AgentStatus::Draining)
        },
        Command::AssignTask { .. } => if !idle(s) {
            Some(Refusal::InvalidOperation("Task already assigned"@))
        } else if !(s.status is Ready || s.status is Degraded) {
            Some(Refusal::InvalidState("Cannot assign task in status "@ + s.status.name()))
        } else {
            None
        },
        Command::CompleteTask { .. } => if idle(s) {
            Some(Refusal::InvalidOperation("No task assigned"@))
        } else {
            None
        },
        Command::FailTask { .. } => if idle(s) {
            Some(Refusal::InvalidOperation("No task assigned"@))
        } else {
            None
        },
        Command::Drain => gate(s.status, AgentStatus::Draining),
        Command::Retire => if !idle(s) {
            Some(Refusal::InvalidOperation("Cannot retire while task is assigned"@))
        } else {
            gate(s.status, AgentStatus::Retired)
        },
        Command::Delete => if !(s.status is Registered || s.status is Retired) {
            Some(Refusal::InvalidState("Cannot delete agent in status "@ + s.status.name()))
        } else {
            None
        },
    }
}

/// The state after `cmd` is carried out in `s`, apart from the event log.
pub open spec fn command_post(s: AgentState, cmd: Command) -> AgentState {
    match cmd {
        Command::Register { id, name } => AgentState {
            id: id@,
            name: name@,
            status: AgentStatus::Registered,
            ..s
        },
        Command::Provision => AgentState { status: AgentStatus::Provisioning, ..s },
        Command::Initialize { capabilities } => AgentState {
            capabilities: capabilities@,
            status: AgentStatus::Initializing,
            ..s
        },
        Command::Activate => AgentState { status: AgentStatus::Ready, ..s },
        Command::Deactivate => AgentState { status: AgentStatus::Draining, ..s },
        Command::AssignTask { task_id } => AgentState { current_task: Some(task_id@), ..s },
        Command::CompleteTask { .. } => AgentState { current_task: None, ..s },
        Command::FailTask { .. } => AgentState { current_task: None, ..s },
        Command::Drain => AgentState { status: AgentStatus::Draining, ..s },
        Command::Retire => AgentState { status: AgentStatus::Retired, ..s },
        Command::Delete => AgentState { status: AgentStatus::Deleted, ..s },
    }
}

/// `e` is the event that `cmd` records in `s`: its kind and every field but
/// the time at which it happened.
pub open spec fn event_fits(s: AgentState, cmd: Command, e: AgentEvent) -> bool {
    match cmd {
        Command::Register { id, name } => e matches AgentEvent::Registered(c) && c.agent_id@ == id@
            && c.name@ == name@,
        Command::Provision => e matches AgentEvent::ProvisioningStarted(p) && p.agent_id@ == s.id,
        Command::Initialize { capabilities } => e matches AgentEvent::Initialized(i) && i.agent_id@
            == s.id && i.capabilities == capabilities@.len() as u32,
        Command::Activate => e matches AgentEvent::Activated(a) && a.agent_id@ == s.id,
        Command::Deactivate => e matches AgentEvent::Deactivated(d) && d.agent_id@ == s.id,
        Command::AssignTask { task_id } => e matches AgentEvent::TaskAssigned(t) && t.agent_id@ == s.id
            && t.task_id@ == task_id@,
        Command::CompleteTask { .. } => e matches AgentEvent::TaskCompleted(t) && t.agent_id@ == s.id
            && s.current_task == Some(t.task_id@),
        Command::FailTask { error } => e matches AgentEvent::TaskFailed(t) && t.agent_id@ == s.id
            && s.current_task == Some(t.task_id@) && t.error@ == error@,
        Command::Drain => e matches AgentEvent::Drained(d) && d.agent_id@ == s.id,
        Command::Retire => e matches AgentEvent::Retired(r) && r.agent_id@ == s.id,
        Command::Delete => e matches AgentEvent::Deleted(d) && d.agent_id@ == s.id,
    }
}

/// The outcome of `cmd` on `pre`: either it is carried out, records exactly
/// one event by the actor "system", and leaves `post`; or it is refused with
/// its reason and `post` is `pre`.
pub open spec fn command_effect(
    pre: AgentState,
    cmd: Command,
    r: Result<Vec<EventEnvelope>, DomainError>,
    post: AgentState,
) -> bool {
    match r {
        Ok(evs) => {
            &&& command_refusal(pre, cmd) is None
            &&& evs@.len() == 1
            &&& evs@[0]@.actor == "system"@
            &&& event_fits(pre, cmd, evs@[0]@.event)
            &&& post == AgentState {
                uncommitted_events: pre.uncommitted_events.push(evs@[0]),
                ..command_post(pre, cmd)
            }
        },
        Err(e) => {
            &&& command_refusal(pre, cmd) matches Some(rf)
            &&& error_is(e, rf)
            &&& post == pre
        },
    }
}

/// The state after replaying one event.
pub open spec fn apply_event(s: AgentState, e: AgentEvent) -> AgentState {
    match e {
        AgentEvent::Created(c) => AgentState {
            id: c.agent_id@,
            name: c.name@,
            status: AgentStatus::Registered,
            ..s
        },
        AgentEvent::Registered(_) => AgentState { status: AgentStatus::Registered, ..s },
        AgentEvent::ProvisioningStarted(_) => AgentState { status: AgentStatus::Provisioning, ..s },
        AgentEvent::Initialized(_) => AgentState { status: AgentStatus::Initializing, ..s },
        AgentEvent::Activated(_) => AgentState { status: AgentStatus::Ready, ..s },
        AgentEvent::Deactivated(_) => AgentState { status: AgentStatus::Draining, ..s },
        AgentEvent::TaskAssigned(t) => AgentState { current_task: Some(t.task_id@), ..s },
        AgentEvent::TaskCompleted(_) => AgentState { current_task: None, ..s },
        AgentEvent::TaskFailed(_) => AgentState { current_task: None, ..s },
        AgentEvent::Drained(_) => AgentState { status: AgentStatus::Draining, ..s },
        AgentEvent::Retired(_) => AgentState { status: AgentStatus::Retired, ..s },
        AgentEvent::Deleted(_) => AgentState { status: AgentStatus::Deleted, ..s },
    }
}

/// The state after replaying `evs` in order on `s`.
pub open spec fn replay(s: AgentState, evs: Seq<EventEnvelope>) -> AgentState
    decreases evs.len(),
{
    if evs.len() == 0 {
        s
    } else {
        apply_event(replay(s, evs.drop_last()), evs.last()@.event)
    }
}

/// The state from which a replay starts.
pub open spec fn blank_state() -> AgentState {
    AgentState {
        id: "agent-000"@,
        name: "Unnamed Agent"@,
        status: AgentStatus::Registered,
        capabilities: Seq::empty(),
        priority: Priority::Normal,
        metadata: Map::empty(),
        current_task: None,
        uncommitted_events: Seq::empty(),
    }
}

impl Agent {
    /// Creates a new agent in `Registered` state, with no capabilities, normal
    /// priority, no task and no events.
    pub fn new(id: AgentId, name: AgentName) -> (r: Self)
        ensures
            r@ == (AgentState { id: id@, name: name@, ..blank_state() }),
    {
        Agent {
            id,
            name,
            status: AgentStatus::Registered,
            capabilities: Vec::new(),
            priority: Priority::Normal,
            metadata: std::collections::BTreeMap::new(),
            current_task: None,
            uncommitted_events: Vec::new(),
        }
    }

    /// Reconstructs an agent by replaying an event stream on a blank agent.
    pub fn from_events(events: &[EventEnvelope]) -> (r: Result<Self, DomainError>)
        ensures
            r is Ok <==> events@.len() > 0,
            r matches Ok(a) ==> a@ == replay(blank_state(), events@),
            r matches Err(e) ==> error_is(
                e,
                Refusal::InvalidState("Cannot reconstruct aggregate from empty event stream"@),
            ),
    {
        if events.len() == 0 {
            return Err(
                DomainError::InvalidState(
                    String::from_str("Cannot reconstruct aggregate from empty event stream"),
                ),
            );
        }
        let mut agent = Agent {
            id: AgentId::default(),
            name: AgentName::default(),
            status: AgentStatus::Registered,
            capabilities: Vec::new(),
            priority: Priority::Normal,
            metadata: std::collections::BTreeMap::new(),
            current_task: None,
            uncommitted_events: Vec::new(),
        };
        let n = events.len();
        for i in 0..n
            invariant
                n == events@.len(),
                agent@ == replay(blank_state(), events@.take(i as int)),
        {
            assert(events@.take(i + 1).drop_last() == events@.take(i as int));
            let _ = agent.apply(&events[i]);
        }
        assert(events@.take(n as int) == events@);
        Ok(agent)
    }

    /// Handles a command: carries it out and returns the event it recorded, or
    /// refuses it and changes nothing.
    pub fn handle_command(&mut self, cmd: Command) -> (r: Result<Vec<EventEnvelope>, DomainError>)
        ensures
            command_effect(old(self)@, cmd, r, final(self)@),
    {
        match cmd {
            Command::Register { id, name } => self.register(id, name),
            Command::Provision => self.provision(),
            Command::Initialize { capabilities } => self.initialize(capabilities),
            Command::Activate => self.activate(),
            Command::Deactivate => self.deactivate(),
            Command::AssignTask { task_id } => self.assign_task(task_id),
            Command::CompleteTask { output } => self.complete_task(output),
            Command::FailTask { error } => self.fail_task(error),
            Command::Drain => self.drain(),
            Command::Retire => self.retire(),
            Command::Delete => self.delete(),
        }
    }

    /// Records `event` by the actor "system" and returns it.
    fn record(&mut self, event: AgentEvent) -> (r: Vec<EventEnvelope>)
        ensures
            r@.len() == 1,
            r@[0]@ == (crate::events::EnvelopeView { event, actor: "system"@ }),
            final(self)@ == (AgentState {
                uncommitted_events: old(self)@.uncommitted_events.push(r@[0]),
                ..old(self)@
            }),
    {
        let envelope = EventEnvelope::new(event, "system");
        self.uncommitted_events.push(envelope.clone());
        vec![envelope]
    }

    fn register(&mut self, id: AgentId, name: AgentName) -> (r: Result<Vec<EventEnvelope>, DomainError>)
        ensures
            command_effect(old(self)@, Command::Register { id, name }, r, final(self)@),
    {
        self.id = id;
        self.name = name;
        self.status = AgentStatus::Registered;
        let event = AgentEvent::Registered(
            AgentCreatedEvent {
                agent_id: self.id.clone(),
                name: self.name.clone(),
                registered_at: Timestamp::now(),
            },
        );
        Ok(self.record(event))
    }

    fn provision(&mut self) -> (r: Result<Vec<EventEnvelope>, DomainError>)
        ensures
            command_effect(old(self)@, Command::Provision, r, final(self)@),
    {
        self.validate_transition(&AgentStatus::Provisioning)?;
        self.status = AgentStatus::Provisioning;
        let event = AgentEvent::ProvisioningStarted(
            ProvisioningStartedEvent { agent_id: self.id.clone(), started_at: Timestamp::now() },
        );
        Ok(self.record(event))
    }

    fn initialize(&mut self, capabilities: Vec<Capability>) -> (r: Result<Vec<EventEnvelope>, DomainError>)
        ensures
            command_effect(old(self)@, Command::Initialize { capabilities }, r, final(self)@),
    {
        self.validate_transition(&AgentStatus::Initializing)?;
        self.capabilities = capabilities;
        self.status = AgentStatus::Initializing;
        let event = AgentEvent::Initialized(
            InitializedEvent {
                agent_id: self.id.clone(),
                initialized_at: Timestamp::now(),
                capabilities: self.capabilities.len() as u32,
            },
        );
        Ok(self.record(event))
    }

    fn activate(&mut self) -> (r: Result<Vec<EventEnvelope>, DomainError>)
        ensures
            command_effect(old(self)@, Command::Activate, r, final(self)@),
    {
        self.validate_transition(&AgentStatus::Ready)?;
        self.status = AgentStatus::Ready;
        let event = AgentEvent::Activated(
            ActivatedEvent { agent_id: self.id.clone(), activated_at: Timestamp::now() },
        );
        Ok(self.record(event))
    }

    fn deactivate(&mut self) -> (r: Result<Vec<EventEnvelope>, DomainError>)
        ensures
            command_effect(old(self)@, Command::Deactivate, r, final(self)@),
    {
        if self.current_task.is_some() {
            return Err(
                DomainError::InvalidOperation(
                    String::from_str("Cannot deactivate while task is assigned"),
                ),
            );
        }
        self.validate_transition(&AgentStatus::Draining)?;
        self.status = AgentStatus::Draining;
        let event = AgentEvent::Deactivated(
            DeactivatedEvent { agent_id: self.id.clone(), deactivated_at: Timestamp::now() },
        );
        Ok(self.record(event))
    }

    fn assign_task(&mut self, task_id: TaskId) -> (r: Result<Vec<EventEnvelope>, DomainError>)
        ensures
            command_effect(old(self)@, Command::AssignTask { task_id }, r, final(self)@),
    {
        if self.current_task.is_some() {
            return Err(DomainError::InvalidOperation(String::from_str("Task already assigned")));
        }
        if self.status != AgentStatus::Ready && self.status != AgentStatus::Degraded {
            let mut message = String::from_str("Cannot assign task in status ");
            message.append(self.status.as_str());
            return Err(DomainError::InvalidState(message));
        }
        self.current_task = Some(task_id.clone());
        let event = AgentEvent::TaskAssigned(
            TaskAssignedEvent { agent_id: self.id.clone(), task_id, assigned_at: Timestamp::now() },
        );
        Ok(self.record(event))
    }

    fn complete_task(&mut self, output: Option<String>) -> (r: Result<Vec<EventEnvelope>, DomainError>)
        ensures
            command_effect(old(self)@, Command::CompleteTask { output }, r, final(self)@),
    {
        let task_id = match self.current_task.take() {
            Some(t) => t,
            None => {
                return Err(DomainError::InvalidOperation(String::from_str("No task assigned")));
            },
        };
        let event = AgentEvent::TaskCompleted(
            TaskCompletedEvent { agent_id: self.id.clone(), task_id, completed_at: Timestamp::now() },
        );
        Ok(self.record(event))
    }

    fn fail_task(&mut self, error: String) -> (r: Result<Vec<EventEnvelope>, DomainError>)
        ensures
            command_effect(old(self)@, Command::FailTask { error }, r, final(self)@),
    {
        let task_id = match self.current_task.take() {
            Some(t) => t,
            None => {
                return Err(DomainError::InvalidOperation(String::from_str("No task assigned")));
            },
        };
        let event = AgentEvent::TaskFailed(
            TaskFailedEvent { agent_id: self.id.clone(), task_id, error, failed_at: Timestamp::now() },
        );
        Ok(self.record(event))
    }

    fn drain(&mut self) -> (r: Result<Vec<EventEnvelope>, DomainError>)
        ensures
            command_effect(old(self)@, Command::Drain, r, final(self)@),
    {
        self.validate_transition(&AgentStatus::Draining)?;
        self.status = AgentStatus::Draining;
        let event = AgentEvent::Drained(
            DrainedEvent { agent_id: self.id.clone(), drained_at: Timestamp::now() },
        );
        Ok(self.record(event))
    }

    fn retire(&mut self) -> (r: Result<Vec<EventEnvelope>, DomainError>)
        ensures
            command_effect(old(self)@, Command::Retire, r, final(self)@),
    {
        if self.current_task.is_some() {
            return Err(
                DomainError::InvalidOperation(String::from_str("Cannot retire while task is assigned")),
            );
        }
        self.validate_transition(&AgentStatus::Retired)?;
        self.status = AgentStatus::Retired;
        let event = AgentEvent::Retired(
            RetiredEvent { agent_id: self.id.clone(), retired_at: Timestamp::now() },
        );
        Ok(self.record(event))
    }

    fn delete(&mut self) -> (r: Result<Vec<EventEnvelope>, DomainError>)
        ensures
            command_effect(old(self)@, Command::Delete, r, final(self)@),
    {
        if self.status != AgentStatus::Registered && self.status != AgentStatus::Retired {
            let mut message = String::from_str("Cannot delete agent in status ");
            message.append(self.status.as_str());
            return Err(DomainError::InvalidState(message));
        }
        self.status = AgentStatus::Deleted;
        let event = AgentEvent::Deleted(
            DeletedEvent { agent_id: self.id.clone(), deleted_at: Timestamp::now() },
        );
        Ok(self.record(event))
    }

    /// Replays one event on the aggregate.
    fn apply(&mut self, event: &EventEnvelope) -> (r: Result<(), DomainError>)
        ensures
            r is Ok,
            final(self)@ == apply_event(old(self)@, event@.event),
    {
        match event.event() {
            AgentEvent::Created(e) => {
                self.id = e.agent_id.clone();
                self.name = e.name.clone();
                self.status = AgentStatus::Registered;
            },
            AgentEvent::Registered(_) => {
                self.status = AgentStatus::Registered;
            },
            AgentEvent::ProvisioningStarted(_) => {
                self.status = AgentStatus::Provisioning;
            },
            AgentEvent::Initialized(_) => {
                self.status = AgentStatus::Initializing;
            },
            AgentEvent::Activated(_) => {
                self.status = AgentStatus::Ready;
            },
            AgentEvent::Deactivated(_) => {
                self.status = AgentStatus::Draining;
            },
            AgentEvent::TaskAssigned(e) => {
                self.current_task = Some(e.task_id.clone());
            },
            AgentEvent::TaskCompleted(_) | AgentEvent::TaskFailed(_) => {
                self.current_task = None;
            },
            AgentEvent::Drained(_) => {
                self.status = AgentStatus::Draining;
            },
            AgentEvent::Retired(_) => {
                self.status = AgentStatus::Retired;
            },
            AgentEvent::Deleted(_) => {
                self.status = AgentStatus::Deleted;
            },
        }
        Ok(())
    }

    /// Checks a lifecycle move from the current status to `target`.
    fn validate_transition(&self, target: &AgentStatus) -> (r: Result<(), DomainError>)
        ensures
            r is Ok <==> lifecycle_allows(self@.status, *target),
            r matches Err(e) ==> error_is(e, lifecycle_refusal(self@.status, *target)),
    {
        let allowed = match (self.status, *target) {
            (AgentStatus::Registered, AgentStatus::Provisioning) => true,
            (AgentStatus::Registered, AgentStatus::Deleted) => true,
            (AgentStatus::Provisioning, AgentStatus::Initializing) => true,
            (AgentStatus::Provisioning, AgentStatus::Failed) => true,
            (AgentStatus::Initializing, AgentStatus::Ready) => true,
            (AgentStatus::Initializing, AgentStatus::Failed) => true,
            (AgentStatus::Ready, AgentStatus::Degraded) => true,
            (AgentStatus::Ready, AgentStatus::Draining) => true,
            (AgentStatus::Degraded, AgentStatus::Ready) => true,
            (AgentStatus::Degraded, AgentStatus::Draining) => true,
            (AgentStatus::Degraded, AgentStatus::Failed) => true,
            (AgentStatus::Draining, AgentStatus::Ready) => true,
            (AgentStatus::Draining, AgentStatus::Retired) => true,
            (AgentStatus::Retired, AgentStatus::Ready) => true,
            (a, b) => a == b,
        };
        if !allowed {
            let mut message = String::from_str("Invalid transition from ");
            message.append(self.status.as_str());
            message.append(" to ");
            message.append(target.as_str());
            return Err(DomainError::InvalidState(message));
        }
        Ok(())
    }

    /// Returns the recorded events and clears the log.
    pub fn take_uncommitted_events(&mut self) -> (r: Vec<EventEnvelope>)
        ensures
            r@ == old(self)@.uncommitted_events,
            final(self)@ == (AgentState { uncommitted_events: Seq::empty(), ..old(self)@ }),
    {
        let mut taken = Vec::new();
        std::mem::swap(&mut taken, &mut self.uncommitted_events);
        taken
    }

    pub fn id(&self) -> (r: &AgentId)
        ensures
            r@ == self@.id,
    {
        &self.id
    }

    pub fn name(&self) -> (r: &AgentName)
        ensures
            r@ == self@.name,
    {
        &self.name
    }

    pub fn status(&self) -> (r: &AgentStatus)
        ensures
            *r == self@.status,
    {
        &self.status
    }

    pub fn capabilities(&self) -> (r: &[Capability])
        ensures
            r@ == self@.capabilities,
    {
        self.capabilities.as_slice()
    }

    pub fn priority(&self) -> (r: &Priority)
        ensures
            *r == self@.priority,
    {
        &self.priority
    }

    pub fn current_task(&self) -> (r: Option<&TaskId>)
        ensures
            r is Some <==> self@.current_task is Some,
            r matches Some(t) ==> self@.current_task == Some(t@),
    {
        self.current_task.as_ref()
    }
}

/// The events a history of command results returned, in order: the events
/// of each carried-out command, and nothing for a refused one.
pub open spec fn returned_events(results: Seq<Result<Vec<EventEnvelope>, DomainError>>) -> Seq<
    EventEnvelope,
>
    decreases results.len(),
{
    if results.len() == 0 {
        Seq::empty()
    } else {
        returned_events(results.drop_last()) + match results.last() {
            Ok(evs) => evs@,
            Err(_) => Seq::empty(),
        }
    }
}

/// Replaying the event that a carried-out command recorded moves the status
/// and the current task exactly as the command did.
pub proof fn lemma_event_replays_command(s: AgentState, cmd: Command, e: AgentEvent)
    requires
        command_refusal(s, cmd) is None,
        event_fits(s, cmd, e),
    ensures
        apply_event(s, e).status == command_post(s, cmd).status,
        apply_event(s, e).current_task == command_post(s, cmd).current_task,
{
}

/// Replaying an event affects status and current task the same way from any
/// two states that agree on them.
proof fn lemma_apply_respects_agreement(x: AgentState, s: AgentState, e: AgentEvent)
    requires
        x.status == s.status,
        x.current_task == s.current_task,
    ensures
        apply_event(x, e).status == apply_event(s, e).status,
        apply_event(x, e).current_task == apply_event(s, e).current_task,
{
}

/// Event sourcing: along any history of commands, carried out or refused,
/// the event log grows by exactly the events the calls returned, in order,
/// and replaying those events from any state that agrees with the first one
/// on status and current task reproduces the last state's status and current
/// task.
pub proof fn lemma_history_replays(
    states: Seq<AgentState>,
    cmds: Seq<Command>,
    results: Seq<Result<Vec<EventEnvelope>, DomainError>>,
    start: AgentState,
)
    requires
        states.len() == cmds.len() + 1,
        results.len() == cmds.len(),
        forall|i: int|
            0 <= i < cmds.len() ==> #[trigger] command_effect(
                states[i],
                cmds[i],
                results[i],
                states[i + 1],
            ),
        start.status == states[0].status,
        start.current_task == states[0].current_task,
    ensures
        states.last().uncommitted_events == states[0].uncommitted_events + returned_events(results),
        replay(start, returned_events(results)).status == states.last().status,
        replay(start, returned_events(results)).current_task == states.last().current_task,
    decreases cmds.len(),
{
    if cmds.len() == 0 {
        assert(states[0].uncommitted_events + returned_events(results) =~= states[0].uncommitted_events);
    } else {
        let n = cmds.len() - 1;
        let states0 = states.drop_last();
        let cmds0 = cmds.drop_last();
        let results0 = results.drop_last();
        assert forall|i: int| 0 <= i < cmds0.len() implies #[trigger] command_effect(
            states0[i],
            cmds0[i],
            results0[i],
            states0[i + 1],
        ) by {
            assert(command_effect(states[i], cmds[i], results[i], states[i + 1]));
        }
        lemma_history_replays(states0, cmds0, results0, start);
        let log0 = returned_events(results0);
        let mid = replay(start, log0);
        assert(command_effect(states[n], cmds[n], results[n], states[n + 1]));
        assert(states0.last() == states[n]);
        assert(results.last() == results[n]);
        match results[n] {
            Ok(evs) => {
                let e = evs@[0];
                assert(evs@ =~= seq![e]);
                let log = returned_events(results);
                assert(log == log0 + evs@);
                assert(log.drop_last() =~= log0);
                assert(log.last() == e);
                lemma_event_replays_command(states[n], cmds[n], e@.event);
                lemma_apply_respects_agreement(mid, states[n], e@.event);
                assert(states[0].uncommitted_events + log =~= (states[0].uncommitted_events
                    + log0).push(e));
            },
            Err(_) => {
                assert(returned_events(results) =~= log0);
            },
        }
    }
}

/// A new agent's history is its event log: whatever commands an agent made
/// by `new` (with any identity) is given, carried out or refused, its log is
/// exactly the events the calls returned, in order (which is what
/// `take_uncommitted_events` then hands out), and reconstructing from that
/// log gives the status and the current task that the agent has.
pub proof fn lemma_new_agent_rebuilds_from_log(
    id: Seq<char>,
    name: Seq<char>,
    states: Seq<AgentState>,
    cmds: Seq<Command>,
    results: Seq<Result<Vec<EventEnvelope>, DomainError>>,
)
    requires
        states.len() == cmds.len() + 1,
        results.len() == cmds.len(),
        states[0] == (AgentState { id, name, ..blank_state() }),
        forall|i: int|
            0 <= i < cmds.len() ==> #[trigger] command_effect(
                states[i],
                cmds[i],
                results[i],
                states[i + 1],
            ),
    ensures
        states.last().uncommitted_events == returned_events(results),
        replay(blank_state(), returned_events(results)).status == states.last().status,
        replay(blank_state(), returned_events(results)).current_task == states.last().current_task,
{
    lemma_history_replays(states, cmds, results, blank_state());
    assert(Seq::<EventEnvelope>::empty() + returned_events(results) =~= returned_events(results));
}

/// An agent holds at most one task: assigning a second one is refused.
pub proof fn lemma_one_task_at_a_time(s: AgentState, task_id: TaskId)
    requires
        s.current_task is Some,
    ensures
        command_refusal(s, Command::AssignTask { task_id }) == Some(
            Refusal::InvalidOperation("Task already assigned"@),
        ),
{
}

/// A busy agent can be neither deactivated nor retired.
pub proof fn lemma_busy_agent_stays(s: AgentState)
    requires
        s.current_task is Some,
    ensures
        command_refusal(s, Command::Deactivate) is Some,
        command_refusal(s, Command::Retire) is Some,
{
}

/// Finishing a task is possible exactly when one is held, and it frees the agent.
pub proof fn lemma_finish_frees_agent(s: AgentState, output: Option<String>, error: String)
    ensures
        command_refusal(s, Command::CompleteTask { output }) is None <==> s.current_task is Some,
        command_refusal(s, Command::FailTask { error }) is None <==> s.current_task is Some,
        command_post(s, Command::CompleteTask { output }).current_task is None,
        command_post(s, Command::FailTask { error }).current_task is None,
{
}

/// The aggregate's lifecycle, command by command, for every state: each
/// lifecycle command is carried out exactly from the statuses listed here
/// (its own target included), and a carried-out command leaves the agent in
/// its target status. Retire, Deactivate and AssignTask also need the agent
/// to hold no task; Retired agents can be activated again.
pub proof fn lemma_lifecycle_commands(
    pre: AgentState,
    cmd: Command,
    r: Result<Vec<EventEnvelope>, DomainError>,
    post: AgentState,
)
    requires
        command_effect(pre, cmd, r, post),
    ensures
        cmd is Provision ==> (r is Ok <==> (pre.status is Registered || pre.status is Provisioning))
            && (r is Ok ==> post.status is Provisioning),
        cmd is Initialize ==> (r is Ok <==> (pre.status is Provisioning || pre.status is Initializing))
            && (r is Ok ==> post.status is Initializing),
        cmd is Activate ==> (r is Ok <==> (pre.status is Initializing || pre.status is Ready
            || pre.status is Degraded || pre.status is Draining || pre.status is Retired)) && (r is Ok
            ==> post.status is Ready),
        cmd is Deactivate ==> (r is Ok <==> (pre.current_task is None && (pre.status is Ready
            || pre.status is Degraded || pre.status is Draining))) && (r is Ok
            ==> post.status is Draining),
        cmd is Drain ==> (r is Ok <==> (pre.status is Ready || pre.status is Degraded
            || pre.status is Draining)) && (r is Ok ==> post.status is Draining),
        cmd is Retire ==> (r is Ok <==> (pre.current_task is None && (pre.status is Draining
            || pre.status is Retired))) && (r is Ok ==> post.status is Retired),
        cmd is Delete ==> (r is Ok <==> (pre.status is Registered || pre.status is Retired)) && (r is Ok
            ==> post.status is Deleted),
        cmd is AssignTask ==> (r is Ok <==> (pre.current_task is None && (pre.status is Ready
            || pre.status is Degraded))) && (r is Ok ==> post.status == pre.status
            && post.current_task is Some),
        (cmd is CompleteTask || cmd is FailTask) ==> (r is Ok <==> pre.current_task is Some) && (r is Ok
            ==> post.status == pre.status && post.current_task is None),
        cmd is Register ==> r is Ok && post.status is Registered,
        r is Err ==> post == pre,
        r matches Ok(evs) ==> evs@.len() == 1 && post.uncommitted_events
            == pre.uncommitted_events.push(evs@[0]),
{
}

/// Failed and Deleted are dead ends of the lifecycle: from them no lifecycle
/// command is carried out, and the agent is left as it was.
pub proof fn lemma_dead_ends(pre: AgentState, cmd: Command, r: Result<Vec<EventEnvelope>, DomainError>, post: AgentState)
    requires
        command_effect(pre, cmd, r, post),
        pre.status is Failed || pre.status is Deleted,
        !(cmd is Register),
        !(cmd is CompleteTask),
        !(cmd is FailTask),
        !(cmd is AssignTask),
    ensures
        r is Err,
        post == pre,
{
}

/// No event but `Created` changes the identity that a replay reconstructs.
proof fn lemma_replay_keeps_identity(s: AgentState, evs: Seq<EventEnvelope>)
    requires
        forall|i: int| 0 <= i < evs.len() ==> !((#[trigger] evs[i])@.event is Created),
    ensures
        replay(s, evs).id == s.id,
        replay(s, evs).name == s.name,
    decreases evs.len(),
{
    if evs.len() > 0 {
        let init = evs.drop_last();
        assert forall|i: int| 0 <= i < init.len() implies !((#[trigger] init[i])@.event is Created) by {
            assert(init[i] == evs[i]);
        }
        lemma_replay_keeps_identity(s, init);
        assert(evs.last() == evs[evs.len() - 1]);
    }
}

/// Reconstruction takes the identity from the stream: replaying a stream
/// whose last `Created` event names the agent `c.agent_id` and `c.name` gives
/// an agent with that identifier and name, registered if nothing follows,
/// whatever state the replay starts from and whatever came before.
pub proof fn lemma_created_sets_identity(
    s: AgentState,
    before: Seq<EventEnvelope>,
    created: EventEnvelope,
    c: AgentCreatedEvent,
    after: Seq<EventEnvelope>,
)
    requires
        created@.event == AgentEvent::Created(c),
        forall|i: int| 0 <= i < after.len() ==> !((#[trigger] after[i])@.event is Created),
    ensures
        replay(s, before.push(created) + after).id == c.agent_id@,
        replay(s, before.push(created) + after).name == c.name@,
        after.len() == 0 ==> replay(s, before.push(created) + after).status is Registered,
{
    let head = before.push(created);
    let mid = replay(s, head);
    assert(head.drop_last() =~= before);
    assert(head.last() == created);
    assert(mid.id == c.agent_id@ && mid.name == c.name@);
    lemma_replay_prefix(s, head, after);
    lemma_replay_keeps_identity(mid, after);
    if after.len() == 0 {
        assert(head + after =~= head);
    }
}

/// Replaying a stream in two parts is replaying the second from where the
/// first left off.
proof fn lemma_replay_prefix(s: AgentState, a: Seq<EventEnvelope>, b: Seq<EventEnvelope>)
    ensures
        replay(s, a + b) == replay(replay(s, a), b),
    decreases b.len(),
{
    if b.len() == 0 {
        assert(a + b =~= a);
    } else {
        lemma_replay_prefix(s, a, b.drop_last());
        assert((a + b).drop_last() =~= a + b.drop_last());
        assert((a + b).last() == b.last());
    }
}

/// What a carried-out command writes besides the status: Register sets the
/// identity, Initialize sets the capabilities, AssignTask takes on the named
/// task; every other field is kept, and priority and metadata are never
/// touched by a command.
pub proof fn lemma_command_fields(
    pre: AgentState,
    cmd: Command,
    r: Result<Vec<EventEnvelope>, DomainError>,
    post: AgentState,
)
    requires
        command_effect(pre, cmd, r, post),
        r is Ok,
    ensures
        post.priority == pre.priority,
        post.metadata == pre.metadata,
        cmd matches Command::Register { id, name } ==> post.id == id@ && post.name == name@,
        !(cmd is Register) ==> post.id == pre.id && post.name == pre.name,
        cmd matches Command::Initialize { capabilities } ==> post.capabilities == capabilities@,
        !(cmd is Initialize) ==> post.capabilities == pre.capabilities,
        cmd matches Command::AssignTask { task_id } ==> post.current_task == Some(task_id@),
        !(cmd is AssignTask || cmd is CompleteTask || cmd is FailTask) ==> post.current_task
            == pre.current_task,
        r matches Ok(evs) ==> evs@[0]@.actor == "system"@,
{
}

/// Why each command is refused, word for word: a lifecycle move that is not
/// allowed is an invalid state naming both statuses; the task rules are
/// invalid operations; assignment and deletion name the status they refuse.
pub proof fn lemma_refusal_messages(
    pre: AgentState,
    cmd: Command,
    e: DomainError,
    post: AgentState,
)
    requires
        command_effect(pre, cmd, Err(e), post),
    ensures
        post == pre,
        cmd is Provision ==> e == DomainError::InvalidState(e->InvalidState_0) && e->InvalidState_0@
            == "Invalid transition from "@ + pre.status.name() + " to "@ + "Provisioning"@,
        cmd is Initialize ==> e == DomainError::InvalidState(e->InvalidState_0) && e->InvalidState_0@
            == "Invalid transition from "@ + pre.status.name() + " to "@ + "Initializing"@,
        cmd is Activate ==> e == DomainError::InvalidState(e->InvalidState_0) && e->InvalidState_0@
            == "Invalid transition from "@ + pre.status.name() + " to "@ + "Ready"@,
        cmd is Drain ==> e == DomainError::InvalidState(e->InvalidState_0) && e->InvalidState_0@
            == "Invalid transition from "@ + pre.status.name() + " to "@ + "Draining"@,
        cmd is Deactivate ==> if pre.current_task is Some {
            e == DomainError::InvalidOperation(e->InvalidOperation_0) && e->InvalidOperation_0@
                == "Cannot deactivate while task is assigned"@
        } else {
            e == DomainError::InvalidState(e->InvalidState_0) && e->InvalidState_0@
                == "Invalid transition from "@ + pre.status.name() + " to "@ + "Draining"@
        },
        cmd is Retire ==> if pre.current_task is Some {
            e == DomainError::InvalidOperation(e->InvalidOperation_0) && e->InvalidOperation_0@
                == "Cannot retire while task is assigned"@
        } else {
            e == DomainError::InvalidState(e->InvalidState_0) && e->InvalidState_0@
                == "Invalid transition from "@ + pre.status.name() + " to "@ + "Retired"@
        },
        cmd is AssignTask ==> if pre.current_task is Some {
            e == DomainError::InvalidOperation(e->InvalidOperation_0) && e->InvalidOperation_0@
                == "Task already assigned"@
        } else {
            e == DomainError::InvalidState(e->InvalidState_0) && e->InvalidState_0@
                == "Cannot assign task in status "@ + pre.status.name()
        },
        (cmd is CompleteTask || cmd is FailTask) ==> e == DomainError::InvalidOperation(
            e->InvalidOperation_0,
        ) && e->InvalidOperation_0@ == "No task assigned"@,
        cmd is Delete ==> e == DomainError::InvalidState(e->InvalidState_0) && e->InvalidState_0@
            == "Cannot delete agent in status "@ + pre.status.name(),
        !(cmd is Register),
{
}

} // verus!
