//! Events of workflow aggregates: lifecycle events and the stage, step and
//! policy events recorded while a workflow runs.

use vstd::prelude::*;
use crate::value_objects::{Priority, Timestamp, WorkflowId, WorkflowName};

verus! {

/// Domain event types for workflow aggregates.
#[derive(Debug, Clone, Copy, PartialEq, Eq, Structural)]
pub enum WorkflowEventType {
    Created,
    Started,
    Paused,
    Resumed,
    Completed,
    Failed,
    Cancelled,
    StageEntered,
    StageCompleted,
    StageFailed,
    StageSkipped,
    StepEntered,
    StepCompleted,
    StepFailed,
    PolicyChecked,
    PolicyFailed,
}

/// A new workflow was created.
#[derive(Debug, Clone, PartialEq, Eq)]
pub struct WorkflowCreatedEvent {
    pub workflow_id: WorkflowId,
    pub name: WorkflowName,
    pub priority: Priority,
    pub created_at: Timestamp,
    pub correlation_id: Option<String>,
    pub causation_id: Option<String>,
}

/// Workflow execution started.
#[derive(Debug, Clone, PartialEq, Eq)]
pub struct WorkflowStartedEvent {
    pub workflow_id: WorkflowId,
    pub started_at: Timestamp,
}

/// Workflow completed successfully.
#[derive(Debug, Clone, PartialEq, Eq)]
pub struct WorkflowCompletedEvent {
    pub workflow_id: WorkflowId,
    pub completed_at: Timestamp,
    pub duration_ms: i64,
    pub stages_completed: u32,
    pub steps_completed: u32,
}

/// Workflow failed with an error.
#[derive(Debug, Clone, PartialEq, Eq)]
pub struct WorkflowFailedEvent {
    pub workflow_id: WorkflowId,
    pub failed_at: Timestamp,
    pub error_code: String,
    pub error_message: String,
    pub failed_at_stage: Option<String>,
}

/// A workflow stage was entered.
#[derive(Debug, Clone, PartialEq, Eq)]
pub struct StageEnteredEvent {
    pub workflow_id: WorkflowId,
    pub stage_name: String,
    pub stage_index: u32,
    pub entered_at: Timestamp,
}

/// A workflow stage completed.
#[derive(Debug, Clone, PartialEq, Eq)]
pub struct StageCompletedEvent {
    pub workflow_id: WorkflowId,
    pub stage_name: String,
    pub stage_index: u32,
    pub completed_at: Timestamp,
    pub outputs: Option<String>,
}

/// A policy was checked during workflow execution.
#[derive(Debug, Clone, PartialEq, Eq)]
pub struct PolicyCheckedEvent {
    pub workflow_id: WorkflowId,
    pub policy_id: String,
    pub policy_name: String,
    pub passed: bool,
    pub checked_at: Timestamp,
}

} // verus!
