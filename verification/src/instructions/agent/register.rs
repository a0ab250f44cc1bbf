use vstd::prelude::*;

use crate::constants::{AGENT_SEED, MAX_METADATA_URI_LEN, MAX_ROLE_LEN};
use crate::errors::{ApolloError, Error, ErrorCode};
use crate::events::AgentRegistered;
use crate::pda::{agent_seeds, find_address2, found_program_address};
use crate::program_id_bytes;
use crate::pubkey::Pubkey;
use crate::state::agent::agent_status_value;
use crate::state::{Agent, AgentStatus};
use crate::text::{byte_len, fits};

verus! {

/// The accounts of `register_agent`.
pub struct RegisterAgent {
    /// The signer whose identity is registered.
    pub authority: Pubkey,
    /// The address at which the agent account is created.
    pub agent: Pubkey,
}

impl RegisterAgent {
    /// The outcome of the account constraints: the agent account must be at
    /// the canonical address derived from the authority; its bump comes back.
    pub open spec fn spec_try_accounts(&self) -> Result<u8, Error> {
        match found_program_address(agent_seeds(self.authority@), program_id_bytes()) {
            None => Err(Error::Aborted),
            Some((address, bump)) => if address == self.agent@ {
                Ok(bump)
            } else {
                Err(Error::Anchor(ErrorCode::ConstraintSeeds))
            },
        }
    }

    /// Checks the account constraints and gives the bump of the agent account.
    pub fn try_accounts(&self) -> (r: Result<u8, Error>)
        ensures
            r == self.spec_try_accounts(),
    {
        match find_address2(AGENT_SEED.as_slice(), self.authority.as_slice()) {
            None => Err(Error::Aborted),
            Some((address, bump)) => {
                if address == self.agent {
                    Ok(bump)
                } else {
                    Err(Error::Anchor(ErrorCode::ConstraintSeeds))
                }
            },
        }
    }
}

/// The agent account that registration writes.
pub open spec fn registered_agent(
    authority: Pubkey,
    role: String,
    metadata_uri: String,
    now: i64,
    bump: u8,
) -> Agent {
    Agent {
        authority,
        role,
        metadata_uri,
        status: agent_status_value(AgentStatus::Active),
        reputation: 0,
        tasks_completed: 0,
        tasks_failed: 0,
        created_at: now,
        bump,
    }
}

/// Registers an agent: the role and the metadata must fit their limits; the
/// new agent is active, with no reputation and no tasks.
pub fn handler(ctx: &RegisterAgent, bump: u8, role: String, metadata_uri: String, now: i64) -> (r:
    Result<(Agent, AgentRegistered), ApolloError>)
    ensures
        byte_len(role) > MAX_ROLE_LEN ==> r == Err::<(Agent, AgentRegistered), _>(
            ApolloError::StringTooLong,
        ),
        byte_len(metadata_uri) > MAX_METADATA_URI_LEN ==> r == Err::<(Agent, AgentRegistered), _>(
            ApolloError::StringTooLong,
        ),
        byte_len(role) <= MAX_ROLE_LEN && byte_len(metadata_uri) <= MAX_METADATA_URI_LEN ==> r
            == Ok::<_, ApolloError>(
            (
                registered_agent(ctx.authority, role, metadata_uri, now, bump),
                AgentRegistered { agent: ctx.agent, authority: ctx.authority, role },
            ),
        ),
{
    if !fits(&role, MAX_ROLE_LEN) {
        return Err(ApolloError::StringTooLong);
    }
    if !fits(&metadata_uri, MAX_METADATA_URI_LEN) {
        return Err(ApolloError::StringTooLong);
    }
    let event_role = role.clone();
    let agent = Agent {
        authority: ctx.authority,
        role,
        metadata_uri,
        status: AgentStatus::Active.as_u8(),
        reputation: 0,
        tasks_completed: 0,
        tasks_failed: 0,
        created_at: now,
        bump,
    };
    let event = AgentRegistered { agent: ctx.agent, authority: agent.authority, role: event_role };
    Ok((agent, event))
}

} // verus!
