use vstd::prelude::*;

use crate::constants::{MAX_METADATA_URI_LEN, MAX_NAME_LEN};
use crate::pubkey::Pubkey;

verus! {

/// How a swarm decides that a completed task is verified.
#[derive(Clone, Copy, Debug, PartialEq, Eq, Structural)]
pub enum CoordModel {
    RoleBased,
    ThresholdApproval,
    RoundRobin,
    Voting,
}

/// The number that stands for a coordination model in a swarm account.
pub open spec fn coord_model_value(m: CoordModel) -> u8 {
    match m {
        CoordModel::RoleBased => 0,
        CoordModel::ThresholdApproval => 1,
        CoordModel::RoundRobin => 2,
        CoordModel::Voting => 3,
    }
}

/// The coordination model that a stored number stands for; a number out of
/// range reads as `RoleBased`.
pub open spec fn coord_model_of(v: u8) -> CoordModel {
    if v == 1 {
        CoordModel::ThresholdApproval
    } else if v == 2 {
        CoordModel::RoundRobin
    } else if v == 3 {
        CoordModel::Voting
    } else {
        CoordModel::RoleBased
    }
}

impl CoordModel {
    /// The number that stands for the model.
    pub fn as_u8(self) -> (v: u8)
        ensures
            v == coord_model_value(self),
    {
        match self {
            CoordModel::RoleBased => 0,
            CoordModel::ThresholdApproval => 1,
            CoordModel::RoundRobin => 2,
            CoordModel::Voting => 3,
        }
    }
}

impl From<u8> for CoordModel {
    fn from(v: u8) -> (m: CoordModel) {
        match v {
            1 => CoordModel::ThresholdApproval,
            2 => CoordModel::RoundRobin,
            3 => CoordModel::Voting,
            _ => CoordModel::RoleBased,
        }
    }
}

impl vstd::std_specs::convert::FromSpecImpl<u8> for CoordModel {
    open spec fn obeys_from_spec() -> bool {
        true
    }

    open spec fn from_spec(v: u8) -> CoordModel {
        coord_model_of(v)
    }
}

/// A swarm: a group of agents that share tasks and a treasury.
#[derive(Debug)]
pub struct Swarm {
    pub authority: Pubkey,
    pub swarm_id: u64,
    pub name: String,
    pub metadata_uri: String,
    pub coord_model: u8,
    pub approval_threshold: u16,
    pub member_count: u32,
    pub task_count: u64,
    pub total_share_bps: u16,
    pub treasury_bump: u8,
    pub created_at: i64,
    pub bump: u8,
}

impl Swarm {
    /// The bytes that a swarm account occupies.
    pub const SPACE: usize = 8 + 32 + 8 + (4 + MAX_NAME_LEN) + (4 + MAX_METADATA_URI_LEN) + 1 + 2
        + 4 + 8 + 2 + 1 + 8 + 1;
}

} // verus!
