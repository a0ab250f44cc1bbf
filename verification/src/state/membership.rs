use vstd::prelude::*;

use crate::constants::MAX_ROLE_LEN;
use crate::pubkey::Pubkey;

verus! {

/// An agent's place in a swarm, with its share of settled rewards.
#[derive(Debug)]
pub struct Membership {
    pub swarm: Pubkey,
    pub agent: Pubkey,
    pub role: String,
    pub share_bps: u16,
    pub tasks_executed: u64,
    pub joined_at: i64,
    pub bump: u8,
}

impl Membership {
    /// The bytes that a membership account occupies.
    pub const SPACE: usize = 8 + 32 + 32 + (4 + MAX_ROLE_LEN) + 2 + 8 + 8 + 1;
}

} // verus!
