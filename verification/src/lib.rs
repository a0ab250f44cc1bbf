//! Verified coordination rules of the Apollo Swarm program: agents, swarms,
//! memberships, the task lifecycle, approvals and treasury settlement.
use vstd::prelude::*;

pub mod account;
pub mod apollo_swarm;
pub mod constants;
pub mod errors;
pub mod events;
pub mod instructions;
pub mod laws;
pub mod pda;
pub mod pubkey;
pub mod state;
pub mod text;

verus! {

/// The address of this program.
pub const ID_BYTES: [u8; 32] = [
    145, 247, 222, 170, 106, 150, 201, 129, 214, 38, 239, 109, 198, 127, 123, 183, 83, 226, 114,
    175, 46, 48, 38, 212, 14, 94, 63, 4, 0, 0, 0, 0,
];

/// The bytes of this program's address.
pub open spec fn program_id_bytes() -> Seq<u8> {
    ID_BYTES@
}

/// The address of this program.
pub fn id() -> (k: pubkey::Pubkey)
    ensures
        k@ == program_id_bytes(),
{
    pubkey::Pubkey::new_from_array(ID_BYTES)
}

} // verus!
