use phenotype_shared::aggregates::{Agent, Capability, Command};
use phenotype_shared::errors::DomainError;
use phenotype_shared::events::{AgentEvent, EventEnvelope};
use phenotype_shared::value_objects::{AgentId, AgentName, AgentStatus, Priority, TaskId};

fn agent() -> Agent {
    Agent::new(AgentId::new("agent-001").unwrap(), AgentName::new("Coding Assistant").unwrap())
}

fn ready_agent() -> Agent {
    let mut a = agent();
    a.handle_command(Command::Provision).unwrap();
    a.handle_command(Command::Initialize { capabilities: vec![Capability::new("code", "1.0")] }).unwrap();
    a.handle_command(Command::Activate).unwrap();
    a
}

fn invalid_state(e: DomainError) -> String {
    match e {
        DomainError::InvalidState(m) => m,
        other => panic!("unexpected {:?}", other),
    }
}

fn invalid_operation(e: DomainError) -> String {
    match e {
        DomainError::InvalidOperation(m) => m,
        other => panic!("unexpected {:?}", other),
    }
}

#[test]
fn new_agent_is_registered() {
    let a = agent();
    assert_eq!(*a.status(), AgentStatus::Registered);
    assert_eq!(a.id().as_str(), "agent-001");
    assert_eq!(a.name().as_str(), "Coding Assistant");
    assert!(a.capabilities().is_empty());
    assert_eq!(*a.priority(), Priority::Normal);
    assert!(a.current_task().is_none());
}

#[test]
fn lifecycle_emits_one_event_per_command() {
    let mut a = agent();
    let evs = a.handle_command(Command::Provision).unwrap();
    assert_eq!(evs.len(), 1);
    assert_eq!(evs[0].actor(), "system");
    assert!(matches!(evs[0].event(), AgentEvent::ProvisioningStarted(e) if e.agent_id.as_str() == "agent-001"));
    let evs = a
        .handle_command(Command::Initialize {
            capabilities: vec![Capability::new("code", "1.0"), Capability::new("lint", "2.1")],
        })
        .unwrap();
    assert!(matches!(evs[0].event(), AgentEvent::Initialized(e) if e.capabilities == 2));
    assert_eq!(a.capabilities().len(), 2);
    assert_eq!(a.capabilities()[1].id, "lint");
    assert!(a.capabilities()[1].enabled);
    a.handle_command(Command::Activate).unwrap();
    assert_eq!(*a.status(), AgentStatus::Ready);
    assert_eq!(a.take_uncommitted_events().len(), 3);
    assert!(a.take_uncommitted_events().is_empty());
}

#[test]
fn activate_from_registered_is_refused() {
    let mut a = agent();
    let e = a.handle_command(Command::Activate).unwrap_err();
    assert_eq!(invalid_state(e), "Invalid transition from Registered to Ready");
    assert_eq!(*a.status(), AgentStatus::Registered);
    assert!(a.take_uncommitted_events().is_empty());
}

#[test]
fn task_assignment_rules() {
    let mut a = agent();
    let e = a.handle_command(Command::AssignTask { task_id: TaskId::new("t-1").unwrap() }).unwrap_err();
    assert_eq!(invalid_state(e), "Cannot assign task in status Registered");

    let mut a = ready_agent();
    let evs = a.handle_command(Command::AssignTask { task_id: TaskId::new("T-1").unwrap() }).unwrap();
    assert!(matches!(evs[0].event(), AgentEvent::TaskAssigned(e) if e.task_id.as_str() == "t-1"));
    assert_eq!(a.current_task().unwrap().as_str(), "t-1");

    let e = a.handle_command(Command::AssignTask { task_id: TaskId::new("t-2").unwrap() }).unwrap_err();
    assert_eq!(invalid_operation(e), "Task already assigned");
    let e = a.handle_command(Command::Deactivate).unwrap_err();
    assert_eq!(invalid_operation(e), "Cannot deactivate while task is assigned");
    let e = a.handle_command(Command::Retire).unwrap_err();
    assert_eq!(invalid_operation(e), "Cannot retire while task is assigned");

    let evs = a.handle_command(Command::FailTask { error: "boom".to_string() }).unwrap();
    assert!(matches!(evs[0].event(), AgentEvent::TaskFailed(e) if e.task_id.as_str() == "t-1" && e.error == "boom"));
    assert!(a.current_task().is_none());
    let e = a.handle_command(Command::CompleteTask { output: None }).unwrap_err();
    assert_eq!(invalid_operation(e), "No task assigned");
}

#[test]
fn complete_task_frees_agent() {
    let mut a = ready_agent();
    a.handle_command(Command::AssignTask { task_id: TaskId::new("t-9").unwrap() }).unwrap();
    let evs = a.handle_command(Command::CompleteTask { output: Some("done".into()) }).unwrap();
    assert!(matches!(evs[0].event(), AgentEvent::TaskCompleted(e) if e.task_id.as_str() == "t-9"));
    assert!(a.current_task().is_none());
    a.handle_command(Command::Deactivate).unwrap();
    assert_eq!(*a.status(), AgentStatus::Draining);
    a.handle_command(Command::Retire).unwrap();
    assert_eq!(*a.status(), AgentStatus::Retired);
    a.handle_command(Command::Delete).unwrap();
    assert_eq!(*a.status(), AgentStatus::Deleted);
}

#[test]
fn delete_needs_registered_or_retired() {
    let mut a = ready_agent();
    let e = a.handle_command(Command::Delete).unwrap_err();
    assert_eq!(invalid_state(e), "Cannot delete agent in status Ready");
    let mut fresh = agent();
    let evs = fresh.handle_command(Command::Delete).unwrap();
    assert!(matches!(evs[0].event(), AgentEvent::Deleted(_)));
}

#[test]
fn register_resets_identity() {
    let mut a = ready_agent();
    let evs = a
        .handle_command(Command::Register {
            id: AgentId::new("agent-777").unwrap(),
            name: AgentName::new("Renamed").unwrap(),
        })
        .unwrap();
    assert_eq!(*a.status(), AgentStatus::Registered);
    assert_eq!(a.id().as_str(), "agent-777");
    assert!(matches!(evs[0].event(), AgentEvent::Registered(e) if e.name.as_str() == "Renamed"));
}

#[test]
fn replaying_the_log_reproduces_status_and_task() {
    let mut a = ready_agent();
    a.handle_command(Command::AssignTask { task_id: TaskId::new("t-5").unwrap() }).unwrap();
    let log: Vec<EventEnvelope> = a.take_uncommitted_events();
    let b = Agent::from_events(&log).unwrap();
    assert_eq!(*b.status(), *a.status());
    assert_eq!(b.current_task().map(|t| t.as_str()), Some("t-5"));
    // Identity is not carried by the replayed events.
    assert_eq!(b.id().as_str(), "agent-000");
}

#[test]
fn replaying_a_delete_agrees() {
    let mut a = agent();
    a.handle_command(Command::Delete).unwrap();
    assert_eq!(*a.status(), AgentStatus::Deleted);
    let log = a.take_uncommitted_events();
    let b = Agent::from_events(&log).unwrap();
    assert_eq!(*b.status(), AgentStatus::Deleted);
    // A deleted agent cannot be deleted again.
    let e = a.handle_command(Command::Delete).unwrap_err();
    assert_eq!(invalid_state(e), "Cannot delete agent in status Deleted");
}

#[test]
fn from_empty_stream_is_refused() {
    match Agent::from_events(&[]) {
        Err(DomainError::InvalidState(m)) => {
            assert_eq!(m, "Cannot reconstruct aggregate from empty event stream")
        }
        _ => panic!("expected an error"),
    }
}

#[test]
fn degraded_and_draining_moves() {
    let mut a = ready_agent();
    a.handle_command(Command::Drain).unwrap();
    assert_eq!(*a.status(), AgentStatus::Draining);
    a.handle_command(Command::Activate).unwrap();
    assert_eq!(*a.status(), AgentStatus::Ready);
    // Staying in place is allowed.
    a.handle_command(Command::Activate).unwrap();
    assert_eq!(*a.status(), AgentStatus::Ready);
    let e = a.handle_command(Command::Provision).unwrap_err();
    assert_eq!(invalid_state(e), "Invalid transition from Ready to Provisioning");
}

#[test]
fn mixed_history_log_is_the_returned_events() {
    let mut a = agent();
    let commands = vec![
        Command::Activate,
        Command::Provision,
        Command::Retire,
        Command::Initialize { capabilities: vec![Capability::new("code", "1.0")] },
        Command::Activate,
        Command::CompleteTask { output: None },
        Command::AssignTask { task_id: TaskId::new("task-9").unwrap() },
        Command::AssignTask { task_id: TaskId::new("task-10").unwrap() },
    ];
    let mut returned: Vec<EventEnvelope> = Vec::new();
    let mut refused = 0;
    for cmd in commands {
        match a.handle_command(cmd) {
            Ok(evs) => returned.extend(evs),
            Err(_) => refused += 1,
        }
    }
    assert_eq!(refused, 4);
    let log = a.take_uncommitted_events();
    assert_eq!(log.len(), returned.len());
    assert_eq!(log.len(), 4);
    assert!(a.take_uncommitted_events().is_empty());
    let b = Agent::from_events(&log).unwrap();
    assert_eq!(*b.status(), *a.status());
    assert_eq!(*a.status(), AgentStatus::Ready);
    assert_eq!(b.current_task().map(|t| t.as_str().to_string()), Some("task-9".to_string()));
    assert_eq!(b.current_task().map(|t| t.as_str().to_string()), a.current_task().map(|t| t.as_str().to_string()));
}
