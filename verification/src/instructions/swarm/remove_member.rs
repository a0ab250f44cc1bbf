use vstd::prelude::*;

use crate::account::Account;
use crate::errors::{ApolloError, Error, ErrorCode};
use crate::events::MemberRemoved;
use crate::instructions::{member_at, swarm_at};
use crate::pda::{derived_from, member_seeds, swarm_seeds, with_bump};
use crate::pubkey::Pubkey;
use crate::state::{Membership, Swarm};

verus! {

/// The accounts of `remove_member`.
pub struct RemoveMember {
    /// The signer, who must govern the swarm; the membership's lamports go to
    /// this account when it is closed.
    pub authority: Pubkey,
    /// The swarm that the agent leaves.
    pub swarm: Account<Swarm>,
    /// The membership that is closed.
    pub membership: Account<Membership>,
}

impl RemoveMember {
    /// The outcome of the account constraints: the swarm must be at its
    /// derived address and governed by the signer; the membership must be at
    /// its derived address, belong to the swarm, and not be the signer's own
    /// account.
    pub open spec fn spec_try_accounts(&self) -> Result<(), Error> {
        if !derived_from(
            with_bump(
                swarm_seeds(self.swarm.data.authority@, self.swarm.data.swarm_id),
                self.swarm.data.bump,
            ),
            self.swarm.key@,
        ) {
            Err(Error::Anchor(ErrorCode::ConstraintSeeds))
        } else if self.swarm.data.authority@ != self.authority@ {
            Err(Error::Apollo(ApolloError::UnauthorizedSwarm))
        } else if !derived_from(
            with_bump(
                member_seeds(self.swarm.key@, self.membership.data.agent@),
                self.membership.data.bump,
            ),
            self.membership.key@,
        ) {
            Err(Error::Anchor(ErrorCode::ConstraintSeeds))
        } else if self.membership.data.swarm@ != self.swarm.key@ {
            Err(Error::Apollo(ApolloError::NotMember))
        } else if self.membership.key@ == self.authority@ {
            Err(Error::Anchor(ErrorCode::ConstraintClose))
        } else {
            Ok(())
        }
    }

    /// Checks the account constraints in the order they are declared.
    pub fn try_accounts(&self) -> (r: Result<(), Error>)
        ensures
            r == self.spec_try_accounts(),
    {
        if !swarm_at(
            &self.swarm.key,
            &self.swarm.data.authority,
            self.swarm.data.swarm_id,
            self.swarm.data.bump,
        ) {
            return Err(Error::Anchor(ErrorCode::ConstraintSeeds));
        }
        if self.swarm.data.authority != self.authority {
            return Err(Error::Apollo(ApolloError::UnauthorizedSwarm));
        }
        if !member_at(
            &self.membership.key,
            &self.swarm.key,
            &self.membership.data.agent,
            self.membership.data.bump,
        ) {
            return Err(Error::Anchor(ErrorCode::ConstraintSeeds));
        }
        if self.membership.data.swarm != self.swarm.key {
            return Err(Error::Apollo(ApolloError::NotMember));
        }
        if self.membership.key == self.authority {
            return Err(Error::Anchor(ErrorCode::ConstraintClose));
        }
        Ok(())
    }
}

/// The refusal, if any, of a removal: a swarm with no members, then a share
/// total below the member's share.
pub open spec fn remove_member_refusal(swarm: Swarm, membership: Membership) -> Option<ApolloError> {
    if swarm.member_count == 0 {
        Some(ApolloError::InvalidMemberCount)
    } else if swarm.total_share_bps < membership.share_bps {
        Some(ApolloError::MathOverflow)
    } else {
        None
    }
}

/// Takes a member out of a swarm: the swarm counts one member less and its
/// share total shrinks by the member's share. The membership account is then
/// closed into the signer. A refused removal leaves the swarm as it was.
pub fn handler(ctx: &mut RemoveMember) -> (r: Result<MemberRemoved, ApolloError>)
    ensures
        final(ctx).authority == old(ctx).authority,
        final(ctx).swarm.key == old(ctx).swarm.key,
        final(ctx).membership == old(ctx).membership,
        match remove_member_refusal(old(ctx).swarm.data, old(ctx).membership.data) {
            Some(e) => r == Err::<MemberRemoved, _>(e) && final(ctx).swarm.data == old(ctx).swarm.data,
            None => {
                &&& final(ctx).swarm.data == (Swarm {
                    member_count: (old(ctx).swarm.data.member_count - 1) as u32,
                    total_share_bps: (old(ctx).swarm.data.total_share_bps
                        - old(ctx).membership.data.share_bps) as u16,
                    ..old(ctx).swarm.data
                })
                &&& r == Ok::<_, ApolloError>(
                    MemberRemoved { swarm: old(ctx).swarm.key, agent: old(ctx).membership.data.agent },
                )
            },
        },
{
    let new_count = match ctx.swarm.data.member_count.checked_sub(1) {
        Some(c) => c,
        None => {
            return Err(ApolloError::InvalidMemberCount);
        },
    };
    let new_total = match ctx.swarm.data.total_share_bps.checked_sub(ctx.membership.data.share_bps) {
        Some(t) => t,
        None => {
            return Err(ApolloError::MathOverflow);
        },
    };
    ctx.swarm.data.member_count = new_count;
    ctx.swarm.data.total_share_bps = new_total;
    Ok(MemberRemoved { swarm: ctx.swarm.key, agent: ctx.membership.data.agent })
}

} // verus!
