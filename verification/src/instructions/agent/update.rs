use vstd::prelude::*;

use crate::account::Account;
use crate::constants::MAX_METADATA_URI_LEN;
use crate::errors::{ApolloError, Error, ErrorCode};
use crate::events::AgentUpdated;
use crate::instructions::agent_at;
use crate::pda::{agent_seeds, derived_from, with_bump};
use crate::pubkey::Pubkey;
use crate::state::Agent;
use crate::text::{byte_len, fits};

verus! {

/// The accounts of `update_agent`.
pub struct UpdateAgent {
    /// The signer that owns the agent.
    pub authority: Pubkey,
    /// The agent account that changes.
    pub agent: Account<Agent>,
}

impl UpdateAgent {
    /// The outcome of the account constraints: the agent account derives from
    /// the signer, and the signer is its authority.
    pub open spec fn spec_try_accounts(&self) -> Result<(), Error> {
        if !derived_from(
            with_bump(agent_seeds(self.authority@), self.agent.data.bump),
            self.agent.key@,
        ) {
            Err(Error::Anchor(ErrorCode::ConstraintSeeds))
        } else if self.agent.data.authority@ != self.authority@ {
            Err(Error::Apollo(ApolloError::UnauthorizedAgent))
        } else {
            Ok(())
        }
    }

    /// Checks the account constraints in the order they are declared.
    pub fn try_accounts(&self) -> (r: Result<(), Error>)
        ensures
            r == self.spec_try_accounts(),
    {
        if !agent_at(&self.agent.key, &self.authority, self.agent.data.bump) {
            return Err(Error::Anchor(ErrorCode::ConstraintSeeds));
        }
        if self.agent.data.authority != self.authority {
            return Err(Error::Apollo(ApolloError::UnauthorizedAgent));
        }
        Ok(())
    }
}

/// The refusal, if any, of an update: a status above 2, then metadata over
/// its limit.
pub open spec fn update_refusal(status: Option<u8>, metadata_uri: Option<String>) -> Option<
    ApolloError,
> {
    if status matches Some(s) && s > 2 {
        Some(ApolloError::InvalidTaskState)
    } else if metadata_uri matches Some(u) && byte_len(u) > MAX_METADATA_URI_LEN {
        Some(ApolloError::StringTooLong)
    } else {
        None
    }
}

/// The agent after an accepted update: each given field replaced, the rest
/// kept.
pub open spec fn updated_agent(agent: Agent, status: Option<u8>, metadata_uri: Option<String>) -> Agent {
    Agent {
        status: match status {
            Some(s) => s,
            None => agent.status,
        },
        metadata_uri: match metadata_uri {
            Some(u) => u,
            None => agent.metadata_uri,
        },
        ..agent
    }
}

/// Changes an agent's status (0, 1 or 2) and its metadata, each where given.
/// A refused update leaves the agent as it was.
pub fn handler(ctx: &mut UpdateAgent, status: Option<u8>, metadata_uri: Option<String>) -> (r:
    Result<AgentUpdated, ApolloError>)
    ensures
        final(ctx).authority == old(ctx).authority,
        final(ctx).agent.key == old(ctx).agent.key,
        match update_refusal(status, metadata_uri) {
            Some(e) => r == Err::<AgentUpdated, _>(e) && final(ctx).agent.data == old(ctx).agent.data,
            None => final(ctx).agent.data == updated_agent(old(ctx).agent.data, status, metadata_uri)
                && r == Ok::<_, ApolloError>(
                AgentUpdated { agent: old(ctx).agent.key, status: final(ctx).agent.data.status },
            ),
        },
{
    if let Some(s) = status {
        if s > 2 {
            return Err(ApolloError::InvalidTaskState);
        }
    }
    if let Some(uri) = &metadata_uri {
        if !fits(uri, MAX_METADATA_URI_LEN) {
            return Err(ApolloError::StringTooLong);
        }
    }
    if let Some(s) = status {
        ctx.agent.data.status = s;
    }
    if let Some(uri) = metadata_uri {
        ctx.agent.data.metadata_uri = uri;
    }
    Ok(AgentUpdated { agent: ctx.agent.key, status: ctx.agent.data.status })
}

} // verus!
