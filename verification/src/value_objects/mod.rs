//! Value objects: immutable, validated at construction, equal by value.

pub mod agent_id;
pub mod agent_name;
pub mod task_id;
pub mod task_name;
pub mod workflow_id;
pub mod workflow_name;
pub mod value_object;

pub use self::agent_id::AgentId;
pub use self::agent_name::AgentName;
pub use self::task_id::TaskId;
pub use self::task_name::TaskName;
pub use self::workflow_id::WorkflowId;
pub use self::workflow_name::WorkflowName;
pub use self::value_object::ValueObject;

pub mod agent_status;
pub mod task_status;
pub mod priority;
pub mod timestamp;

pub use self::agent_status::AgentStatus;
pub use self::task_status::TaskStatus;
pub use self::priority::Priority;
pub use self::timestamp::Timestamp;
