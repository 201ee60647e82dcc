//! Aggregates: consistency boundaries whose state changes are commands that
//! emit domain events.

pub mod agent_aggregate;

pub use self::agent_aggregate::{Agent, AgentState, Capability, Command};
