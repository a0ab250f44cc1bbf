use vstd::prelude::*;

verus! {

/// The seed prefix `agent`.
pub const AGENT_SEED: [u8; 5] = [97, 103, 101, 110, 116];

/// The seed prefix `swarm`.
pub const SWARM_SEED: [u8; 5] = [115, 119, 97, 114, 109];

/// The seed prefix `member`.
pub const MEMBER_SEED: [u8; 6] = [109, 101, 109, 98, 101, 114];

/// The seed prefix `task`.
pub const TASK_SEED: [u8; 4] = [116, 97, 115, 107];

/// The seed prefix `approval`.
pub const APPROVAL_SEED: [u8; 8] = [97, 112, 112, 114, 111, 118, 97, 108];

/// The seed prefix `treasury`.
pub const TREASURY_SEED: [u8; 8] = [116, 114, 101, 97, 115, 117, 114, 121];

pub const MAX_METADATA_URI_LEN: usize = 200;

pub const MAX_NAME_LEN: usize = 64;

pub const MAX_ROLE_LEN: usize = 32;

pub const MAX_REASON_LEN: usize = 128;

pub const BPS_DENOMINATOR: u16 = 10_000;

} // verus!
