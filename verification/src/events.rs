use vstd::prelude::*;

use crate::pubkey::Pubkey;

verus! {

/// An agent identity was registered.
#[derive(Debug)]
pub struct AgentRegistered {
    pub agent: Pubkey,
    pub authority: Pubkey,
    pub role: String,
}

/// An agent's status or metadata changed.
#[derive(Debug)]
pub struct AgentUpdated {
    pub agent: Pubkey,
    pub status: u8,
}

/// A swarm was opened.
#[derive(Debug)]
pub struct SwarmCreated {
    pub swarm: Pubkey,
    pub creator: Pubkey,
    pub swarm_id: u64,
    pub coord_model: u8,
}

/// An agent joined a swarm.
#[derive(Debug)]
pub struct MemberAdded {
    pub swarm: Pubkey,
    pub agent: Pubkey,
    pub share_bps: u16,
    pub role: String,
}

/// An agent left a swarm.
#[derive(Debug)]
pub struct MemberRemoved {
    pub swarm: Pubkey,
    pub agent: Pubkey,
}

/// A task was delegated.
#[derive(Debug)]
pub struct TaskCreated {
    pub task: Pubkey,
    pub swarm: Pubkey,
    pub task_id: u64,
    pub required_role: String,
    pub reward: u64,
}

/// An agent took a task on.
#[derive(Debug)]
pub struct TaskAccepted {
    pub task: Pubkey,
    pub executor: Pubkey,
}

/// The executor posted a result.
#[derive(Debug)]
pub struct TaskCompleted {
    pub task: Pubkey,
    pub executor: Pubkey,
    pub result_uri: String,
}

/// A member approved a completed task.
#[derive(Debug)]
pub struct TaskApproved {
    pub task: Pubkey,
    pub approver: Pubkey,
    pub approvals: u16,
    pub threshold: u16,
}

/// A task was verified.
#[derive(Debug)]
pub struct TaskVerified {
    pub task: Pubkey,
}

/// A task was aborted.
#[derive(Debug)]
pub struct TaskFailed {
    pub task: Pubkey,
    pub reason: String,
}

/// Lamports were paid into a swarm's treasury.
#[derive(Debug)]
pub struct TreasuryDeposit {
    pub swarm: Pubkey,
    pub from: Pubkey,
    pub amount: u64,
}

/// The reward of a verified task was paid out.
#[derive(Debug)]
pub struct TaskSettled {
    pub task: Pubkey,
    pub swarm: Pubkey,
    pub total_paid: u64,
    pub work_based: bool,
}

} // verus!
