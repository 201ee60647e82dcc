//! Configuration: the key-value store behind the config adapter, how keys
//! are derived from environment variables and from nested documents, and how
//! values are read as flags and counts.

pub mod document;
pub mod parse;
pub mod store;

pub use self::store::{ConfigSource, ConfigStore};
pub mod tree;

pub use self::tree::ConfigTree;
