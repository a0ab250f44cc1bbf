use vstd::prelude::*;

use crate::constants::{MAX_METADATA_URI_LEN, MAX_ROLE_LEN};
use crate::pubkey::Pubkey;

verus! {

/// Whether an agent may act.
#[derive(Clone, Copy, Debug, PartialEq, Eq, Structural)]
pub enum AgentStatus {
    Active,
    Paused,
    Revoked,
}

/// The number that stands for a status in an agent account.
pub open spec fn agent_status_value(s: AgentStatus) -> u8 {
    match s {
        AgentStatus::Active => 0,
        AgentStatus::Paused => 1,
        AgentStatus::Revoked => 2,
    }
}

/// The status that a stored number stands for; a number out of range reads as
/// `Active`.
pub open spec fn agent_status_of(v: u8) -> AgentStatus {
    if v == 1 {
        AgentStatus::Paused
    } else if v == 2 {
        AgentStatus::Revoked
    } else {
        AgentStatus::Active
    }
}

impl AgentStatus {
    /// The number that stands for the status.
    pub fn as_u8(self) -> (v: u8)
        ensures
            v == agent_status_value(self),
    {
        match self {
            AgentStatus::Active => 0,
            AgentStatus::Paused => 1,
            AgentStatus::Revoked => 2,
        }
    }
}

impl From<u8> for AgentStatus {
    fn from(v: u8) -> (s: AgentStatus) {
        match v {
            1 => AgentStatus::Paused,
            2 => AgentStatus::Revoked,
            _ => AgentStatus::Active,
        }
    }
}

impl vstd::std_specs::convert::FromSpecImpl<u8> for AgentStatus {
    open spec fn obeys_from_spec() -> bool {
        true
    }

    open spec fn from_spec(v: u8) -> AgentStatus {
        agent_status_of(v)
    }
}

/// A registered agent identity.
#[derive(Debug)]
pub struct Agent {
    pub authority: Pubkey,
    pub role: String,
    pub metadata_uri: String,
    pub status: u8,
    pub reputation: i64,
    pub tasks_completed: u64,
    pub tasks_failed: u64,
    pub created_at: i64,
    pub bump: u8,
}

impl Agent {
    /// The bytes that an agent account occupies.
    pub const SPACE: usize = 8 + 32 + (4 + MAX_ROLE_LEN) + (4 + MAX_METADATA_URI_LEN) + 1 + 8 + 8
        + 8 + 8 + 1;

    /// Whether the agent may act.
    pub open spec fn spec_is_active(&self) -> bool {
        self.status == agent_status_value(AgentStatus::Active)
    }

    /// Whether the agent may act: its status is `Active`.
    #[verifier::when_used_as_spec(spec_is_active)]
    pub fn is_active(&self) -> (r: bool)
        ensures
            r == self.spec_is_active(),
    {
        self.status == AgentStatus::Active.as_u8()
    }
}

} // verus!
