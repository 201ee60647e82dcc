//! Shared domain model of the Phenotype system: value objects, entities,
//! the agent aggregate with its event log, domain events, and the
//! configuration logic used by the adapters.

pub mod errors;
pub mod text;
pub mod value_objects;
pub mod entities;
pub mod events;
pub mod aggregates;
pub mod config;
pub mod adapters;
