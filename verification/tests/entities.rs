use phenotype_shared::entities::{Agent, Task};
use phenotype_shared::errors::DomainError;
use phenotype_shared::value_objects::{AgentId, AgentName, AgentStatus, Priority, TaskId, TaskName, TaskStatus};

fn make_agent() -> Agent {
    let id = AgentId::new("agent-001").unwrap();
    let name = AgentName::new("Test Agent").unwrap();
    Agent::new(id, name, AgentStatus::Active).unwrap()
}

fn make_task() -> Task {
    let id = TaskId::new("task-001").unwrap();
    let name = TaskName::new("Build project").unwrap();
    Task::new(id, name, Priority::Normal).unwrap()
}

#[test]
fn test_agent_creation() {
    let agent = make_agent();
    assert_eq!(agent.status(), AgentStatus::Active);
    assert_eq!(agent.version(), 1);
    assert!(agent.can_accept_tasks());
    assert!(!agent.is_terminal());
}

#[test]
fn test_agent_pause() {
    let agent = make_agent();
    let paused = agent.pause().unwrap();
    assert_eq!(paused.status(), AgentStatus::Paused);
    assert_eq!(paused.version(), 2);
    assert!(!paused.can_accept_tasks());
}

#[test]
fn test_agent_resume() {
    let agent = make_agent();
    let paused = agent.pause().unwrap();
    let resumed = paused.resume().unwrap();
    assert_eq!(resumed.status(), AgentStatus::Active);
    assert_eq!(resumed.version(), 3);
}

#[test]
fn test_agent_stop() {
    let agent = make_agent();
    let stopping = agent.stop().unwrap();
    assert_eq!(stopping.status(), AgentStatus::Stopping);
    let stopped = stopping.finalize().unwrap();
    assert_eq!(stopped.status(), AgentStatus::Stopped);
    assert!(stopped.is_terminal());
}

#[test]
fn test_invalid_initial_state() {
    let id = AgentId::new("agent-001").unwrap();
    let name = AgentName::new("Test Agent").unwrap();
    let result = Agent::new(id, name, AgentStatus::Stopped);
    assert!(result.is_err());
}

#[test]
fn test_invalid_transition() {
    let agent = make_agent();
    // Cannot transition directly from Active to Stopped
    let result = agent.finalize();
    assert!(result.is_err());
}

#[test]
fn test_error_state() {
    let agent = make_agent();
    let errored = agent.error().unwrap();
    assert_eq!(errored.status(), AgentStatus::Error);
    // Can resume from error
    let resumed = errored.resume().unwrap();
    assert_eq!(resumed.status(), AgentStatus::Active);
}

#[test]
fn test_identity() {
    let id1 = AgentId::new("agent-001").unwrap();
    let id2 = AgentId::new("agent-002").unwrap();
    let name = AgentName::new("Test Agent").unwrap();

    let a1 = Agent::new(id1.clone(), name.clone(), AgentStatus::Active).unwrap();
    let a2 = Agent::new(id1, name.clone(), AgentStatus::Paused).unwrap();
    let a3 = Agent::new(id2, name, AgentStatus::Active).unwrap();

    // Same ID = same entity (even with different status)
    assert_eq!(a1, a2);
    // Different ID = different entity
    assert_ne!(a1, a3);
}

#[test]
fn test_display() {
    let agent = make_agent();
    let display = agent.to_string();
    assert!(display.contains("agent-001"));
    assert!(display.contains("Test Agent"));
    assert!(display.contains("Active"));
}

#[test]
fn test_task_creation() {
    let task = make_task();
    assert_eq!(task.status(), TaskStatus::Pending);
    assert!(!task.is_terminal());
}

#[test]
fn test_task_lifecycle() {
    let task = make_task();
    let queued = task.queue().unwrap();
    let running = queued.start().unwrap();
    let completed = running.complete().unwrap();
    assert_eq!(completed.status(), TaskStatus::Completed);
    assert!(completed.is_terminal());
}

#[test]
fn test_task_assignment() {
    let task = make_task();
    let assigned = task.assign_to("agent-001".into()).unwrap();
    assert!(assigned.is_assigned());
    assert_eq!(assigned.assigned_agent_id(), Some("agent-001"));
}

#[test]
fn test_task_cancel() {
    let task = make_task();
    let queued = task.queue().unwrap();
    let cancelled = queued.cancel().unwrap();
    assert_eq!(cancelled.status(), TaskStatus::Cancelled);
}

// --- further cases ---

fn transition_texts(e: DomainError) -> (String, String, String) {
    match e {
        DomainError::InvalidStateTransition { current, target, reason } => (current, target, reason),
        other => panic!("unexpected error {:?}", other),
    }
}

#[test]
fn agent_display_exact() {
    assert_eq!(make_agent().to_string(), "Agent(agent-001: Test Agent [Active] v1)");
    let v12 = (0..11).fold(make_agent(), |a, i| if i % 2 == 0 { a.pause().unwrap() } else { a.activate().unwrap() });
    assert_eq!(v12.version(), 12);
    assert_eq!(v12.to_string(), "Agent(agent-001: Test Agent [Paused] v12)");
}

#[test]
fn agent_new_error_texts() {
    let id = AgentId::new("a").unwrap();
    let name = AgentName::new("n").unwrap();
    let (current, target, reason) = transition_texts(Agent::new(id, name, AgentStatus::Error).unwrap_err());
    assert_eq!(current, "none");
    assert_eq!(target, "Error");
    assert_eq!(reason, "New agent must start in Active state");
}

#[test]
fn agent_refused_transition_texts() {
    let (current, target, reason) = transition_texts(make_agent().finalize().unwrap_err());
    assert_eq!(current, "Active");
    assert_eq!(target, "Stopped");
    assert_eq!(reason, "Cannot transition from Active to Stopped");
}

#[test]
fn agent_resume_cases() {
    let active = make_agent();
    let same = active.resume().unwrap();
    assert_eq!(same.version(), 1);
    assert_eq!(same.status(), AgentStatus::Active);
    let stopping = active.stop().unwrap();
    let (current, target, reason) = transition_texts(stopping.resume().unwrap_err());
    assert_eq!(current, "Stopping");
    assert_eq!(target, "Active");
    assert_eq!(reason, "Agent can only resume from Paused or Error state");
}

#[test]
fn agent_transition_keeps_identity() {
    let agent = make_agent();
    let paused = agent.pause().unwrap();
    assert_eq!(paused.id().as_str(), "agent-001");
    assert_eq!(paused.name().as_str(), "Test Agent");
    assert_eq!(agent.version(), 1);
}

#[test]
fn stopped_agent_is_final() {
    let stopped = make_agent().stop().unwrap().finalize().unwrap();
    assert!(stopped.pause().is_err());
    assert!(stopped.activate().is_err());
    assert!(stopped.stop().is_err());
    assert!(stopped.error().is_err());
    assert!(stopped.resume().is_err());
}

#[test]
fn task_display_exact() {
    assert_eq!(make_task().to_string(), "Task(task-001: Build project [Pending] Normal v1)");
}

#[test]
fn task_versions_and_refusals() {
    let task = make_task();
    assert_eq!(task.version(), 1);
    assert_eq!(task.priority(), Priority::Normal);
    let running = task.start().unwrap();
    assert_eq!(running.version(), 2);
    let (current, target, reason) = transition_texts(task.complete().unwrap_err());
    assert_eq!(current, "Pending");
    assert_eq!(target, "Completed");
    assert_eq!(reason, "Cannot transition from Pending to Completed");
    let failed = running.fail().unwrap();
    let (current, target, reason) = transition_texts(failed.cancel().unwrap_err());
    assert_eq!(current, "Failed");
    assert_eq!(target, "Cancelled");
    assert_eq!(reason, "Task in Failed state cannot be cancelled");
}

#[test]
fn task_assigned_once() {
    let assigned = make_task().assign_to("agent-1".to_string()).unwrap();
    assert_eq!(assigned.version(), 1);
    match assigned.assign_to("agent-2".to_string()) {
        Err(DomainError::InvariantViolation(m)) => assert_eq!(m, "Task is already assigned"),
        other => panic!("unexpected {:?}", other),
    }
    let started = assigned.start().unwrap();
    assert_eq!(started.assigned_agent_id(), Some("agent-1"));
}

#[test]
fn task_equality_by_id() {
    let a = make_task();
    let b = a.start().unwrap();
    assert_eq!(a, b);
    let other = Task::new(TaskId::new("task-002").unwrap(), TaskName::new("x").unwrap(), Priority::High).unwrap();
    assert_ne!(a, other);
}
