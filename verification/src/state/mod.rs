pub mod agent;
pub mod approval;
pub mod membership;
pub mod swarm;
pub mod task;

pub use agent::{Agent, AgentStatus};
pub use approval::Approval;
pub use membership::Membership;
pub use swarm::{CoordModel, Swarm};
pub use task::{Task, TaskState};
