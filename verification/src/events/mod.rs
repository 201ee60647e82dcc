//! Domain events: immutable facts that happened in the domain. Aggregates emit
//! them and are reconstructed by replaying them.

pub mod agent_events;
pub mod workflow_events;

pub use self::agent_events::{AgentEvent, EnvelopeView, EventEnvelope};
pub use self::workflow_events::WorkflowEventType;
