//! Entities: objects defined by their identity. Two entities with the same
//! identifier are the same entity, whatever their other attributes.

pub mod agent;
pub mod task;

pub use self::agent::Agent;
pub use self::task::Task;
