use phenotype_shared::value_objects::timestamp::millis_or_zero;
use phenotype_shared::value_objects::{
    AgentId, AgentName, AgentStatus, Priority, TaskId, TaskName, TaskStatus, Timestamp, ValueObject,
    WorkflowId, WorkflowName,
};

#[test]
fn test_agent_id_creation() {
    let id = AgentId::new("AGENT-001").unwrap();
    assert_eq!(id.as_str(), "agent-001"); // normalized
}

#[test]
fn test_agent_id_empty_fails() {
    assert!(AgentId::new("").is_err());
    assert!(AgentId::new("   ").is_err());
}

#[test]
fn test_agent_id_too_long() {
    let long = "a".repeat(129);
    assert!(AgentId::new(&long).is_err());
}

#[test]
fn test_agent_id_equality() {
    let id1 = AgentId::new("agent-001").unwrap();
    let id2 = AgentId::new("AGENT-001").unwrap();
    assert_eq!(id1, id2); // Case insensitive equality
}

#[test]
fn test_agent_name_creation() {
    let name = AgentName::new("Coding Agent").unwrap();
    assert_eq!(name.as_str(), "Coding Agent");
}

#[test]
fn test_agent_name_trimmed() {
    let name = AgentName::new("  Coding Agent  ").unwrap();
    assert_eq!(name.as_str(), "Coding Agent");
}

#[test]
fn test_agent_name_empty_fails() {
    assert!(AgentName::new("").is_err());
}

#[test]
fn test_active_can_accept_tasks() {
    assert!(AgentStatus::Active.can_accept_tasks());
    assert!(!AgentStatus::Paused.can_accept_tasks());
}

#[test]
fn test_terminal_states() {
    assert!(AgentStatus::Stopped.is_terminal());
    assert!(!AgentStatus::Active.is_terminal());
}

#[test]
fn test_valid_transitions() {
    assert!(AgentStatus::Active.can_transition_to(AgentStatus::Paused));
    assert!(AgentStatus::Paused.can_transition_to(AgentStatus::Active));
    assert!(!AgentStatus::Active.can_transition_to(AgentStatus::Stopped));
}

#[test]
fn test_task_id_creation() {
    let id = TaskId::new("TASK-001").unwrap();
    assert_eq!(id.as_str(), "task-001");
}

#[test]
fn test_task_id_empty_fails() {
    assert!(TaskId::new("").is_err());
}

#[test]
fn test_task_name_creation() {
    let name = TaskName::new("Build Project").unwrap();
    assert_eq!(name.as_str(), "Build Project");
}

#[test]
fn test_task_name_empty_fails() {
    assert!(TaskName::new("").is_err());
}

#[test]
fn test_task_status_terminal() {
    assert!(TaskStatus::Completed.is_terminal());
    assert!(TaskStatus::Failed.is_terminal());
    assert!(!TaskStatus::Running.is_terminal());
}

#[test]
fn test_task_status_transitions() {
    assert!(TaskStatus::Pending.can_transition_to(TaskStatus::Running));
    assert!(TaskStatus::Running.can_transition_to(TaskStatus::Completed));
    assert!(!TaskStatus::Completed.can_transition_to(TaskStatus::Running));
}

// --- further cases ---

const AGENT_STATUSES: [AgentStatus; 14] = [
    AgentStatus::Registered,
    AgentStatus::Provisioning,
    AgentStatus::Initializing,
    AgentStatus::Active,
    AgentStatus::Paused,
    AgentStatus::Stopping,
    AgentStatus::Stopped,
    AgentStatus::Error,
    AgentStatus::Ready,
    AgentStatus::Degraded,
    AgentStatus::Draining,
    AgentStatus::Failed,
    AgentStatus::Retired,
    AgentStatus::Deleted,
];

const TASK_STATUSES: [TaskStatus; 6] = [
    TaskStatus::Pending,
    TaskStatus::Queued,
    TaskStatus::Running,
    TaskStatus::Completed,
    TaskStatus::Failed,
    TaskStatus::Cancelled,
];

#[test]
fn agent_id_trims_and_lowercases() {
    let id = AgentId::new("  Agent-ABC\t").unwrap();
    assert_eq!(id.as_str(), "agent-abc");
    assert_eq!(ValueObject::to_string(&id), "agent-abc");
}

#[test]
fn agent_id_limit_is_in_bytes() {
    assert!(AgentId::new(&"a".repeat(128)).is_ok());
    // 43 three-byte characters: 43 characters, 129 bytes.
    let wide = "€".repeat(43);
    let err = AgentId::new(&wide).unwrap_err();
    assert_eq!(err.field, "AgentId");
    assert_eq!(err.message, "cannot exceed 128 characters");
}

#[test]
fn agent_id_empty_error_text() {
    let err = AgentId::new(" \u{3000} ").unwrap_err();
    assert_eq!(err.field, "AgentId");
    assert_eq!(err.message, "cannot be empty");
}

#[test]
fn agent_id_unchecked_only_lowercases() {
    let id = AgentId::from_unchecked("  MIXED Case ".to_string());
    assert_eq!(id.as_str(), "  mixed case ");
}

#[test]
fn value_object_defaults() {
    assert_eq!(AgentId::default().as_str(), "agent-000");
    assert_eq!(AgentName::default().as_str(), "Unnamed Agent");
    assert_eq!(TaskId::default().as_str(), "task-000");
    assert_eq!(TaskName::default().as_str(), "Unnamed Task");
    assert_eq!(WorkflowId::default().as_str(), "workflow-000");
    assert_eq!(WorkflowName::default().as_str(), "Unnamed Workflow");
    assert_eq!(AgentStatus::default(), AgentStatus::Registered);
    assert_eq!(TaskStatus::default(), TaskStatus::Pending);
    assert_eq!(Timestamp::default().as_i64(), 0);
}

#[test]
fn value_objects_convert_to_string() {
    let s: String = AgentId::new("X-1").unwrap().into();
    assert_eq!(s, "x-1");
    let s: String = TaskName::new(" Deploy ").unwrap().into();
    assert_eq!(s, "Deploy");
}

#[test]
fn names_limit_is_256_bytes() {
    assert!(AgentName::new(&"n".repeat(256)).is_ok());
    let err = AgentName::new(&"n".repeat(257)).unwrap_err();
    assert_eq!(err.message, "cannot exceed 256 characters");
    assert!(TaskName::new(&"n".repeat(257)).is_err());
    assert!(WorkflowName::new("   ").is_err());
}

#[test]
fn workflow_id_normalizes() {
    assert_eq!(WorkflowId::new(" WF-9 ").unwrap().as_str(), "wf-9");
}

#[test]
fn stopped_agent_has_no_transition() {
    for t in AGENT_STATUSES {
        assert!(!AgentStatus::Stopped.can_transition_to(t));
    }
}

#[test]
fn agent_transition_table() {
    let allowed = [
        (AgentStatus::Active, AgentStatus::Paused),
        (AgentStatus::Active, AgentStatus::Stopping),
        (AgentStatus::Active, AgentStatus::Error),
        (AgentStatus::Paused, AgentStatus::Active),
        (AgentStatus::Paused, AgentStatus::Stopping),
        (AgentStatus::Stopping, AgentStatus::Stopped),
        (AgentStatus::Error, AgentStatus::Active),
        (AgentStatus::Error, AgentStatus::Stopping),
    ];
    for from in AGENT_STATUSES {
        for to in AGENT_STATUSES {
            assert_eq!(from.can_transition_to(to), allowed.contains(&(from, to)));
        }
    }
}

#[test]
fn task_terminal_states_are_final() {
    for s in TASK_STATUSES {
        for t in TASK_STATUSES {
            if s.is_terminal() {
                assert!(!s.can_transition_to(t));
            }
        }
        assert_eq!(s.can_cancel(), !s.is_terminal());
        assert_eq!(s.can_cancel(), s.can_transition_to(TaskStatus::Cancelled));
    }
}

#[test]
fn status_names() {
    assert_eq!(AgentStatus::Draining.to_string(), "Draining");
    assert_eq!(TaskStatus::Queued.to_string(), "Queued");
    assert_eq!(Priority::Critical.as_str(), "Critical");
}

#[test]
fn priority_ranks() {
    assert_eq!(Priority::Low.as_i32(), 1);
    assert_eq!(Priority::Normal.as_i32(), 2);
    assert_eq!(Priority::High.as_i32(), 3);
    assert_eq!(Priority::Critical.as_i32(), 4);
}

#[test]
fn timestamp_conversions() {
    assert_eq!(Timestamp::from_secs(5).as_i64(), 5000);
    assert_eq!(Timestamp::from_secs(-3).as_secs(), -3);
    assert_eq!(Timestamp::from_millis(1999).as_secs(), 1);
    assert_eq!(Timestamp::from_millis(-1500).as_secs(), -1);
    assert!(Timestamp::zero().is_zero());
    assert!(!Timestamp::from_millis(1).is_zero());
    assert_eq!(i64::from(Timestamp::from(42)), 42);
    assert_eq!(Timestamp::from_millis(-1500).to_string(), "-1500");
    assert_eq!(Timestamp::from_millis(i64::MIN).to_string(), i64::MIN.to_string());
    assert_eq!(Timestamp::from_millis(1234567).to_string(), "1234567");
}

#[test]
fn timestamp_now_reads_the_clock() {
    let now = Timestamp::now();
    // Later than 2020-01-01 in Unix milliseconds.
    assert!(now.as_i64() > 1_577_836_800_000);
}

#[test]
fn clock_readings_become_millis() {
    assert_eq!(millis_or_zero(Some(5)), 5);
    assert_eq!(millis_or_zero(None), 0);
    assert_eq!(millis_or_zero(Some(1_700_000_000_123)), 1_700_000_000_123);
    assert_eq!(millis_or_zero(Some(u128::from(u64::MAX) + 2)), 1);
}
