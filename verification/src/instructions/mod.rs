use vstd::prelude::*;

use crate::constants::{AGENT_SEED, MEMBER_SEED, SWARM_SEED, TASK_SEED, TREASURY_SEED};
use crate::pda::{
    agent_seeds, derived_from, derives_address2, derives_address3, member_seeds, swarm_seeds,
    task_seeds, treasury_seeds, u64_to_le_bytes, with_bump,
};
use crate::pubkey::Pubkey;

pub mod agent;
pub mod swarm;
pub mod task;
pub mod treasury;

pub use agent::register::RegisterAgent;
pub use agent::update::UpdateAgent;
pub use swarm::add_member::AddMember;
pub use swarm::create::CreateSwarm;
pub use swarm::remove_member::RemoveMember;
pub use task::accept::AcceptTask;
pub use task::approve::ApproveTask;
pub use task::complete::CompleteTask;
pub use task::create::CreateTask;
pub use task::fail::FailTask;
pub use task::verify::VerifyTask;
pub use treasury::deposit::DepositTreasury;
pub use treasury::settle::SettleTask;

verus! {

/// Whether `key` is the agent account of `authority` with the given bump.
pub fn agent_at(key: &Pubkey, authority: &Pubkey, bump: u8) -> (r: bool)
    ensures
        r == derived_from(with_bump(agent_seeds(authority@), bump), key@),
{
    proof {
        assert(with_bump(agent_seeds(authority@), bump) =~= seq![
            AGENT_SEED@,
            authority@,
            seq![bump],
        ]);
    }
    derives_address2(AGENT_SEED.as_slice(), authority.as_slice(), bump, key)
}

/// Whether `key` is the swarm account that `authority` opened under
/// `swarm_id`, with the given bump.
pub fn swarm_at(key: &Pubkey, authority: &Pubkey, swarm_id: u64, bump: u8) -> (r: bool)
    ensures
        r == derived_from(with_bump(swarm_seeds(authority@, swarm_id), bump), key@),
{
    let id_bytes = u64_to_le_bytes(swarm_id);
    proof {
        assert(with_bump(swarm_seeds(authority@, swarm_id), bump) =~= seq![
            SWARM_SEED@,
            authority@,
            id_bytes@,
            seq![bump],
        ]);
    }
    derives_address3(SWARM_SEED.as_slice(), authority.as_slice(), id_bytes.as_slice(), bump, key)
}

/// Whether `key` is the membership account of `agent` in `swarm`, with the
/// given bump.
pub fn member_at(key: &Pubkey, swarm: &Pubkey, agent: &Pubkey, bump: u8) -> (r: bool)
    ensures
        r == derived_from(with_bump(member_seeds(swarm@, agent@), bump), key@),
{
    proof {
        assert(with_bump(member_seeds(swarm@, agent@), bump) =~= seq![
            MEMBER_SEED@,
            swarm@,
            agent@,
            seq![bump],
        ]);
    }
    derives_address3(MEMBER_SEED.as_slice(), swarm.as_slice(), agent.as_slice(), bump, key)
}

/// Whether `key` is the task account numbered `task_id` in `swarm`, with the
/// given bump.
pub fn task_at(key: &Pubkey, swarm: &Pubkey, task_id: u64, bump: u8) -> (r: bool)
    ensures
        r == derived_from(with_bump(task_seeds(swarm@, task_id), bump), key@),
{
    let id_bytes = u64_to_le_bytes(task_id);
    proof {
        assert(with_bump(task_seeds(swarm@, task_id), bump) =~= seq![
            TASK_SEED@,
            swarm@,
            id_bytes@,
            seq![bump],
        ]);
    }
    derives_address3(TASK_SEED.as_slice(), swarm.as_slice(), id_bytes.as_slice(), bump, key)
}

/// Whether `key` is the treasury of `swarm`, with the given bump.
pub fn treasury_at(key: &Pubkey, swarm: &Pubkey, bump: u8) -> (r: bool)
    ensures
        r == derived_from(with_bump(treasury_seeds(swarm@), bump), key@),
{
    proof {
        assert(with_bump(treasury_seeds(swarm@), bump) =~= seq![
            TREASURY_SEED@,
            swarm@,
            seq![bump],
        ]);
    }
    derives_address2(TREASURY_SEED.as_slice(), swarm.as_slice(), bump, key)
}

/// One more than `x`, held at `i64::MAX`, as `i64::saturating_add` gives it.
pub open spec fn saturating_inc(x: i64) -> i64 {
    if x == i64::MAX {
        x
    } else {
        (x + 1) as i64
    }
}

/// One less than `x`, held at `i64::MIN`, as `i64::saturating_sub` gives it.
pub open spec fn saturating_dec(x: i64) -> i64 {
    if x == i64::MIN {
        x
    } else {
        (x - 1) as i64
    }
}

/// One more than `x`, held at `u64::MAX`.
pub open spec fn saturating_inc_u64(x: u64) -> u64 {
    if x == u64::MAX {
        x
    } else {
        (x + 1) as u64
    }
}

/// One more than `x`, held at `i64::MAX`.
pub fn reputation_up(x: i64) -> (r: i64)
    ensures
        r == saturating_inc(x),
{
    if x == i64::MAX {
        x
    } else {
        x + 1
    }
}

/// One less than `x`, held at `i64::MIN`.
pub fn reputation_down(x: i64) -> (r: i64)
    ensures
        r == saturating_dec(x),
{
    if x == i64::MIN {
        x
    } else {
        x - 1
    }
}

} // verus!
