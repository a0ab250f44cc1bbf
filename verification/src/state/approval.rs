use vstd::prelude::*;

use crate::pubkey::Pubkey;

verus! {

/// The record that an agent approved a completed task.
#[derive(Debug)]
pub struct Approval {
    pub task: Pubkey,
    pub approver: Pubkey,
    pub approved_at: i64,
    pub bump: u8,
}

impl Approval {
    /// The bytes that an approval account occupies.
    pub const SPACE: usize = 8 + 32 + 32 + 8 + 1;
}

} // verus!
