use vstd::prelude::*;

use crate::constants::{MAX_METADATA_URI_LEN, MAX_NAME_LEN, SWARM_SEED, TREASURY_SEED};
use crate::errors::{ApolloError, Error, ErrorCode};
use crate::events::SwarmCreated;
use crate::pda::{
    find_address2, find_address3, found_program_address, swarm_seeds, treasury_seeds,
    u64_to_le_bytes,
};
use crate::program_id_bytes;
use crate::pubkey::Pubkey;
use crate::state::Swarm;
use crate::text::{byte_len, fits};

verus! {

/// The accounts of `create_swarm`.
pub struct CreateSwarm {
    /// The signer that opens and governs the swarm.
    pub authority: Pubkey,
    /// The address at which the swarm account is created.
    pub swarm: Pubkey,
    /// The swarm's treasury, a system account at a derived address.
    pub treasury: Pubkey,
}

impl CreateSwarm {
    /// The outcome of the account constraints: the swarm account must be at
    /// the canonical address derived from the authority and `swarm_id`, then
    /// the treasury at the canonical address derived from the swarm; the two
    /// bumps come back.
    pub open spec fn spec_try_accounts(&self, swarm_id: u64) -> Result<(u8, u8), Error> {
        match found_program_address(swarm_seeds(self.authority@, swarm_id), program_id_bytes()) {
            None => Err(Error::Aborted),
            Some((swarm_address, swarm_bump)) => if swarm_address != self.swarm@ {
                Err(Error::Anchor(ErrorCode::ConstraintSeeds))
            } else {
                match found_program_address(treasury_seeds(self.swarm@), program_id_bytes()) {
                    None => Err(Error::Aborted),
                    Some((treasury_address, treasury_bump)) => if treasury_address
                        != self.treasury@ {
                        Err(Error::Anchor(ErrorCode::ConstraintSeeds))
                    } else {
                        Ok((swarm_bump, treasury_bump))
                    },
                }
            },
        }
    }

    /// Checks the account constraints; gives the bumps of the swarm and of its
    /// treasury.
    pub fn try_accounts(&self, swarm_id: u64) -> (r: Result<(u8, u8), Error>)
        ensures
            r == self.spec_try_accounts(swarm_id),
    {
        let id_bytes = u64_to_le_bytes(swarm_id);
        let swarm_bump = match find_address3(
            SWARM_SEED.as_slice(),
            self.authority.as_slice(),
            id_bytes.as_slice(),
        ) {
            None => {
                return Err(Error::Aborted);
            },
            Some((address, bump)) => {
                if address != self.swarm {
                    return Err(Error::Anchor(ErrorCode::ConstraintSeeds));
                }
                bump
            },
        };
        match find_address2(TREASURY_SEED.as_slice(), self.swarm.as_slice()) {
            None => Err(Error::Aborted),
            Some((address, bump)) => {
                if address != self.treasury {
                    Err(Error::Anchor(ErrorCode::ConstraintSeeds))
                } else {
                    Ok((swarm_bump, bump))
                }
            },
        }
    }
}

/// The refusal, if any, of the swarm's parameters: the name, then the
/// metadata over their limits, then a coordination model above 3.
pub open spec fn create_swarm_refusal(name: String, metadata_uri: String, coord_model: u8) -> Option<
    ApolloError,
> {
    if byte_len(name) > MAX_NAME_LEN {
        Some(ApolloError::StringTooLong)
    } else if byte_len(metadata_uri) > MAX_METADATA_URI_LEN {
        Some(ApolloError::StringTooLong)
    } else if coord_model > 3 {
        Some(ApolloError::UnsupportedCoordination)
    } else {
        None
    }
}

/// Opens a swarm: the swarm starts with no members, no tasks and no shares.
pub fn handler(
    ctx: &CreateSwarm,
    swarm_bump: u8,
    treasury_bump: u8,
    swarm_id: u64,
    name: String,
    metadata_uri: String,
    coord_model: u8,
    approval_threshold: u16,
    now: i64,
) -> (r: Result<(Swarm, SwarmCreated), ApolloError>)
    ensures
        match create_swarm_refusal(name, metadata_uri, coord_model) {
            Some(e) => r == Err::<(Swarm, SwarmCreated), _>(e),
            None => r == Ok::<_, ApolloError>(
                (
                    Swarm {
                        authority: ctx.authority,
                        swarm_id,
                        name,
                        metadata_uri,
                        coord_model,
                        approval_threshold,
                        member_count: 0,
                        task_count: 0,
                        total_share_bps: 0,
                        treasury_bump,
                        created_at: now,
                        bump: swarm_bump,
                    },
                    SwarmCreated { swarm: ctx.swarm, creator: ctx.authority, swarm_id, coord_model },
                ),
            ),
        },
{
    if !fits(&name, MAX_NAME_LEN) {
        return Err(ApolloError::StringTooLong);
    }
    if !fits(&metadata_uri, MAX_METADATA_URI_LEN) {
        return Err(ApolloError::StringTooLong);
    }
    if coord_model > 3 {
        return Err(ApolloError::UnsupportedCoordination);
    }
    let swarm = Swarm {
        authority: ctx.authority,
        swarm_id,
        name,
        metadata_uri,
        coord_model,
        approval_threshold,
        member_count: 0,
        task_count: 0,
        total_share_bps: 0,
        treasury_bump,
        created_at: now,
        bump: swarm_bump,
    };
    let event = SwarmCreated {
        swarm: ctx.swarm,
        creator: swarm.authority,
        swarm_id,
        coord_model,
    };
    Ok((swarm, event))
}

} // verus!
