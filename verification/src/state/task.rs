use vstd::prelude::*;

use crate::constants::{MAX_METADATA_URI_LEN, MAX_REASON_LEN, MAX_ROLE_LEN};
use crate::pubkey::Pubkey;

verus! {

/// Where a task stands in its lifecycle.
#[derive(Clone, Copy, Debug, PartialEq, Eq, Structural)]
pub enum TaskState {
    Created,
    Accepted,
    Completed,
    Verified,
    Failed,
    Settled,
}

/// The number that stands for a task state in a task account.
pub open spec fn task_state_value(s: TaskState) -> u8 {
    match s {
        TaskState::Created => 0,
        TaskState::Accepted => 1,
        TaskState::Completed => 2,
        TaskState::Verified => 3,
        TaskState::Failed => 4,
        TaskState::Settled => 5,
    }
}

/// The task state that a stored number stands for; a number out of range
/// reads as `Created`.
pub open spec fn task_state_of(v: u8) -> TaskState {
    if v == 1 {
        TaskState::Accepted
    } else if v == 2 {
        TaskState::Completed
    } else if v == 3 {
        TaskState::Verified
    } else if v == 4 {
        TaskState::Failed
    } else if v == 5 {
        TaskState::Settled
    } else {
        TaskState::Created
    }
}

impl TaskState {
    /// The number that stands for the state.
    pub fn as_u8(self) -> (v: u8)
        ensures
            v == task_state_value(self),
    {
        match self {
            TaskState::Created => 0,
            TaskState::Accepted => 1,
            TaskState::Completed => 2,
            TaskState::Verified => 3,
            TaskState::Failed => 4,
            TaskState::Settled => 5,
        }
    }
}

impl From<u8> for TaskState {
    fn from(v: u8) -> (s: TaskState) {
        match v {
            1 => TaskState::Accepted,
            2 => TaskState::Completed,
            3 => TaskState::Verified,
            4 => TaskState::Failed,
            5 => TaskState::Settled,
            _ => TaskState::Created,
        }
    }
}

impl vstd::std_specs::convert::FromSpecImpl<u8> for TaskState {
    open spec fn obeys_from_spec() -> bool {
        true
    }

    open spec fn from_spec(v: u8) -> TaskState {
        task_state_of(v)
    }
}

/// A unit of work delegated inside a swarm.
#[derive(Debug)]
pub struct Task {
    pub swarm: Pubkey,
    pub creator: Pubkey,
    pub executor: Pubkey,
    pub task_id: u64,
    pub required_role: String,
    pub payload_uri: String,
    pub result_uri: String,
    pub failure_reason: String,
    pub reward: u64,
    pub state: u8,
    pub approvals: u16,
    pub work_based: bool,
    pub created_at: i64,
    pub accepted_at: i64,
    pub completed_at: i64,
    pub bump: u8,
}

impl Task {
    /// The bytes that a task account occupies.
    pub const SPACE: usize = 8 + 32 + 32 + 32 + 8 + (4 + MAX_ROLE_LEN) + (4 + MAX_METADATA_URI_LEN)
        + (4 + MAX_METADATA_URI_LEN) + (4 + MAX_REASON_LEN) + 8 + 1 + 2 + 1 + 8 + 8 + 8 + 1;
}

} // verus!
