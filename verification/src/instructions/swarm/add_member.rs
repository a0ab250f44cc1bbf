use vstd::prelude::*;

use crate::account::Account;
use crate::constants::{BPS_DENOMINATOR, MAX_ROLE_LEN, MEMBER_SEED};
use crate::errors::{ApolloError, Error, ErrorCode};
use crate::events::MemberAdded;
use crate::instructions::{agent_at, swarm_at};
use crate::pda::{
    agent_seeds, derived_from, find_address3, found_program_address, member_seeds, swarm_seeds,
    with_bump,
};
use crate::program_id_bytes;
use crate::pubkey::Pubkey;
use crate::state::{Agent, Membership, Swarm};
use crate::text::{byte_len, fits};

verus! {

/// The accounts of `add_member`.
pub struct AddMember {
    /// The signer, who must govern the swarm.
    pub authority: Pubkey,
    /// The swarm that the agent joins.
    pub swarm: Account<Swarm>,
    /// The agent that joins.
    pub agent: Account<Agent>,
    /// The address at which the membership account is created.
    pub membership: Pubkey,
}

impl AddMember {
    /// The outcome of the account constraints: the membership account must be
    /// at the canonical address derived from the swarm and the agent; the
    /// swarm must be at its derived address and governed by the signer; the
    /// agent must be at its derived address. The membership's bump comes back.
    pub open spec fn spec_try_accounts(&self) -> Result<u8, Error> {
        match found_program_address(
            member_seeds(self.swarm.key@, self.agent.key@),
            program_id_bytes(),
        ) {
            None => Err(Error::Aborted),
            Some((address, bump)) => if address != self.membership@ {
                Err(Error::Anchor(ErrorCode::ConstraintSeeds))
            } else if !derived_from(
                with_bump(
                    swarm_seeds(self.swarm.data.authority@, self.swarm.data.swarm_id),
                    self.swarm.data.bump,
                ),
                self.swarm.key@,
            ) {
                Err(Error::Anchor(ErrorCode::ConstraintSeeds))
            } else if self.swarm.data.authority@ != self.authority@ {
                Err(Error::Apollo(ApolloError::UnauthorizedSwarm))
            } else if !derived_from(
                with_bump(agent_seeds(self.agent.data.authority@), self.agent.data.bump),
                self.agent.key@,
            ) {
                Err(Error::Anchor(ErrorCode::ConstraintSeeds))
            } else {
                Ok(bump)
            },
        }
    }

    /// Checks the account constraints; gives the bump of the membership.
    pub fn try_accounts(&self) -> (r: Result<u8, Error>)
        ensures
            r == self.spec_try_accounts(),
    {
        let bump = match find_address3(
            MEMBER_SEED.as_slice(),
            self.swarm.key.as_slice(),
            self.agent.key.as_slice(),
        ) {
            None => {
                return Err(Error::Aborted);
            },
            Some((address, bump)) => {
                if address != self.membership {
                    return Err(Error::Anchor(ErrorCode::ConstraintSeeds));
                }
                bump
            },
        };
        if !swarm_at(
            &self.swarm.key,
            &self.swarm.data.authority,
            self.swarm.data.swarm_id,
            self.swarm.data.bump,
        ) {
            return Err(Error::Anchor(ErrorCode::ConstraintSeeds));
        }
        if self.swarm.data.authority != self.authority {
            return Err(Error::Apollo(ApolloError::UnauthorizedSwarm));
        }
        if !agent_at(&self.agent.key, &self.agent.data.authority, self.agent.data.bump) {
            return Err(Error::Anchor(ErrorCode::ConstraintSeeds));
        }
        Ok(bump)
    }
}

/// The refusal, if any, of a new member: a role over its limit, an inactive
/// agent, a share total past `u16`, a share total past 10 000, a member
/// count past `u32`.
pub open spec fn add_member_refusal(
    swarm: Swarm,
    agent: Agent,
    role: String,
    share_bps: u16,
) -> Option<ApolloError> {
    if byte_len(role) > MAX_ROLE_LEN {
        Some(ApolloError::StringTooLong)
    } else if !agent.spec_is_active() {
        Some(ApolloError::AgentInactive)
    } else if swarm.total_share_bps + share_bps > u16::MAX {
        Some(ApolloError::MathOverflow)
    } else if swarm.total_share_bps + share_bps > BPS_DENOMINATOR {
        Some(ApolloError::ShareOverflow)
    } else if swarm.member_count + 1 > u32::MAX {
        Some(ApolloError::MathOverflow)
    } else {
        None
    }
}

/// Joins an agent to a swarm with a role and a share of settled rewards. The
/// swarm counts one more member, and its share total grows by the share; a
/// refused request leaves the swarm as it was.
pub fn handler(ctx: &mut AddMember, bump: u8, role: String, share_bps: u16, now: i64) -> (r: Result<
    (Membership, MemberAdded),
    ApolloError,
>)
    ensures
        final(ctx).authority == old(ctx).authority,
        final(ctx).swarm.key == old(ctx).swarm.key,
        final(ctx).agent == old(ctx).agent,
        final(ctx).membership == old(ctx).membership,
        match add_member_refusal(old(ctx).swarm.data, old(ctx).agent.data, role, share_bps) {
            Some(e) => r == Err::<(Membership, MemberAdded), _>(e) && final(ctx).swarm.data == old(ctx).swarm.data,
            None => {
                &&& final(ctx).swarm.data == (Swarm {
                    member_count: (old(ctx).swarm.data.member_count + 1) as u32,
                    total_share_bps: (old(ctx).swarm.data.total_share_bps + share_bps) as u16,
                    ..old(ctx).swarm.data
                })
                &&& r == Ok::<_, ApolloError>(
                    (
                        Membership {
                            swarm: old(ctx).swarm.key,
                            agent: old(ctx).agent.key,
                            role,
                            share_bps,
                            tasks_executed: 0,
                            joined_at: now,
                            bump,
                        },
                        MemberAdded {
                            swarm: old(ctx).swarm.key,
                            agent: old(ctx).agent.key,
                            share_bps,
                            role,
                        },
                    ),
                )
            },
        },
{
    if !fits(&role, MAX_ROLE_LEN) {
        return Err(ApolloError::StringTooLong);
    }
    if !ctx.agent.data.is_active() {
        return Err(ApolloError::AgentInactive);
    }
    let new_total = match ctx.swarm.data.total_share_bps.checked_add(share_bps) {
        Some(t) => t,
        None => {
            return Err(ApolloError::MathOverflow);
        },
    };
    if new_total > BPS_DENOMINATOR {
        return Err(ApolloError::ShareOverflow);
    }
    let new_count = match ctx.swarm.data.member_count.checked_add(1) {
        Some(c) => c,
        None => {
            return Err(ApolloError::MathOverflow);
        },
    };
    let event_role = role.clone();
    let membership = Membership {
        swarm: ctx.swarm.key,
        agent: ctx.agent.key,
        role,
        share_bps,
        tasks_executed: 0,
        joined_at: now,
        bump,
    };
    ctx.swarm.data.member_count = new_count;
    ctx.swarm.data.total_share_bps = new_total;
    let event = MemberAdded {
        swarm: ctx.swarm.key,
        agent: membership.agent,
        share_bps,
        role: event_role,
    };
    Ok((membership, event))
}

} // verus!
