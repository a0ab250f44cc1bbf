use vstd::prelude::*;

use crate::account::Account;
use crate::constants::{MAX_METADATA_URI_LEN, MAX_ROLE_LEN, TASK_SEED};
use crate::errors::{ApolloError, Error, ErrorCode};
use crate::events::TaskCreated;
use crate::instructions::{agent_at, member_at, swarm_at};
use crate::pda::{
    agent_seeds, derived_from, find_address3, found_program_address, member_seeds, swarm_seeds,
    task_seeds, u64_to_le_bytes, with_bump,
};
use crate::program_id_bytes;
use crate::pubkey::Pubkey;
use crate::state::task::task_state_value;
use crate::state::{Agent, Membership, Swarm, Task, TaskState};
use crate::text::{byte_len, fits};

verus! {

/// The accounts of `create_task`.
pub struct CreateTask {
    /// The signer that delegates the work.
    pub creator: Pubkey,
    /// The signer's agent.
    pub creator_agent: Account<Agent>,
    /// The account named as the agent's authority.
    pub authority: Pubkey,
    /// The swarm that the task belongs to.
    pub swarm: Account<Swarm>,
    /// The creator's membership in the swarm.
    pub creator_membership: Account<Membership>,
    /// The address at which the task account is created.
    pub task: Pubkey,
}

impl CreateTask {
    /// The outcome of the account constraints: the task account must be at
    /// the canonical address derived from the swarm and `task_id`; the agent
    /// must derive from the signer, name `authority` as its authority, and
    /// that authority must be the signer; the swarm must be at its derived
    /// address; the membership must derive from the swarm and the agent and
    /// name both. The task's bump comes back.
    pub open spec fn spec_try_accounts(&self, task_id: u64) -> Result<u8, Error> {
        match found_program_address(task_seeds(self.swarm.key@, task_id), program_id_bytes()) {
            None => Err(Error::Aborted),
            Some((address, bump)) => if address != self.task@ {
                Err(Error::Anchor(ErrorCode::ConstraintSeeds))
            } else if !derived_from(
                with_bump(agent_seeds(self.creator@), self.creator_agent.data.bump),
                self.creator_agent.key@,
            ) {
                Err(Error::Anchor(ErrorCode::ConstraintSeeds))
            } else if self.creator_agent.data.authority@ != self.authority@ {
                Err(Error::Apollo(ApolloError::UnauthorizedAgent))
            } else if self.creator_agent.data.authority@ != self.creator@ {
                Err(Error::Anchor(ErrorCode::ConstraintRaw))
            } else if !derived_from(
                with_bump(
                    swarm_seeds(self.swarm.data.authority@, self.swarm.data.swarm_id),
                    self.swarm.data.bump,
                ),
                self.swarm.key@,
            ) {
                Err(Error::Anchor(ErrorCode::ConstraintSeeds))
            } else if !derived_from(
                with_bump(
                    member_seeds(self.swarm.key@, self.creator_agent.key@),
                    self.creator_membership.data.bump,
                ),
                self.creator_membership.key@,
            ) {
                Err(Error::Anchor(ErrorCode::ConstraintSeeds))
            } else if self.creator_membership.data.swarm@ != self.swarm.key@ {
                Err(Error::Apollo(ApolloError::NotMember))
            } else if self.creator_membership.data.agent@ != self.creator_agent.key@ {
                Err(Error::Apollo(ApolloError::NotMember))
            } else {
                Ok(bump)
            },
        }
    }

    /// Checks the account constraints; gives the bump of the task.
    pub fn try_accounts(&self, task_id: u64) -> (r: Result<u8, Error>)
        ensures
            r == self.spec_try_accounts(task_id),
    {
        let id_bytes = u64_to_le_bytes(task_id);
        let bump = match find_address3(
            TASK_SEED.as_slice(),
            self.swarm.key.as_slice(),
            id_bytes.as_slice(),
        ) {
            None => {
                return Err(Error::Aborted);
            },
            Some((address, bump)) => {
                if address != self.task {
                    return Err(Error::Anchor(ErrorCode::ConstraintSeeds));
                }
                bump
            },
        };
        if !agent_at(&self.creator_agent.key, &self.creator, self.creator_agent.data.bump) {
            return Err(Error::Anchor(ErrorCode::ConstraintSeeds));
        }
        if self.creator_agent.data.authority != self.authority {
            return Err(Error::Apollo(ApolloError::UnauthorizedAgent));
        }
        if self.creator_agent.data.authority != self.creator {
            return Err(Error::Anchor(ErrorCode::ConstraintRaw));
        }
        if !swarm_at(
            &self.swarm.key,
            &self.swarm.data.authority,
            self.swarm.data.swarm_id,
            self.swarm.data.bump,
        ) {
            return Err(Error::Anchor(ErrorCode::ConstraintSeeds));
        }
        if !member_at(
            &self.creator_membership.key,
            &self.swarm.key,
            &self.creator_agent.key,
            self.creator_membership.data.bump,
        ) {
            return Err(Error::Anchor(ErrorCode::ConstraintSeeds));
        }
        if self.creator_membership.data.swarm != self.swarm.key {
            return Err(Error::Apollo(ApolloError::NotMember));
        }
        if self.creator_membership.data.agent != self.creator_agent.key {
            return Err(Error::Apollo(ApolloError::NotMember));
        }
        Ok(bump)
    }
}

/// The refusal, if any, of a new task: the role, then the payload over
/// their limits, an inactive creator, a number other than the swarm's task
/// count, a task count past `u64`.
pub open spec fn create_task_refusal(
    agent: Agent,
    swarm: Swarm,
    task_id: u64,
    required_role: String,
    payload_uri: String,
) -> Option<ApolloError> {
    if byte_len(required_role) > MAX_ROLE_LEN {
        Some(ApolloError::StringTooLong)
    } else if byte_len(payload_uri) > MAX_METADATA_URI_LEN {
        Some(ApolloError::StringTooLong)
    } else if !agent.spec_is_active() {
        Some(ApolloError::AgentInactive)
    } else if task_id != swarm.task_count {
        Some(ApolloError::InvalidTaskState)
    } else if swarm.task_count + 1 > u64::MAX {
        Some(ApolloError::MathOverflow)
    } else {
        None
    }
}

/// Whether `t` is the task that `create_task` writes: in the swarm, by the
/// creator's agent, with no executor (the all-zero address), the given
/// parameters, state `Created`, no approvals, no result, no failure reason.
pub open spec fn is_new_task(
    t: Task,
    swarm: Pubkey,
    creator: Pubkey,
    task_id: u64,
    required_role: String,
    payload_uri: String,
    reward: u64,
    work_based: bool,
    now: i64,
    bump: u8,
) -> bool {
    &&& t.swarm == swarm
    &&& t.creator == creator
    &&& t.executor@ == Seq::new(32, |i: int| 0u8)
    &&& t.task_id == task_id
    &&& t.required_role == required_role
    &&& t.payload_uri == payload_uri
    &&& t.result_uri@.len() == 0
    &&& t.failure_reason@.len() == 0
    &&& t.reward == reward
    &&& t.state == task_state_value(TaskState::Created)
    &&& t.approvals == 0
    &&& t.work_based == work_based
    &&& t.created_at == now
    &&& t.accepted_at == 0
    &&& t.completed_at == 0
    &&& t.bump == bump
}

/// Delegates work in a swarm: the task takes the swarm's next number, and the
/// swarm counts one task more. A refused request leaves the swarm as it was.
pub fn handler(
    ctx: &mut CreateTask,
    bump: u8,
    task_id: u64,
    required_role: String,
    payload_uri: String,
    reward: u64,
    work_based: bool,
    now: i64,
) -> (r: Result<(Task, TaskCreated), ApolloError>)
    ensures
        final(ctx).creator == old(ctx).creator,
        final(ctx).creator_agent == old(ctx).creator_agent,
        final(ctx).authority == old(ctx).authority,
        final(ctx).swarm.key == old(ctx).swarm.key,
        final(ctx).creator_membership == old(ctx).creator_membership,
        final(ctx).task == old(ctx).task,
        match create_task_refusal(
            old(ctx).creator_agent.data,
            old(ctx).swarm.data,
            task_id,
            required_role,
            payload_uri,
        ) {
            Some(e) => r == Err::<(Task, TaskCreated), _>(e) && final(ctx).swarm.data == old(ctx).swarm.data,
            None => {
                &&& final(ctx).swarm.data == (Swarm {
                    task_count: (old(ctx).swarm.data.task_count + 1) as u64,
                    ..old(ctx).swarm.data
                })
                &&& r matches Ok((t, e)) && is_new_task(
                    t,
                    old(ctx).swarm.key,
                    old(ctx).creator_agent.key,
                    task_id,
                    required_role,
                    payload_uri,
                    reward,
                    work_based,
                    now,
                    bump,
                ) && e == (TaskCreated {
                    task: old(ctx).task,
                    swarm: old(ctx).swarm.key,
                    task_id,
                    required_role,
                    reward,
                })
            },
        },
{
    if !fits(&required_role, MAX_ROLE_LEN) {
        return Err(ApolloError::StringTooLong);
    }
    if !fits(&payload_uri, MAX_METADATA_URI_LEN) {
        return Err(ApolloError::StringTooLong);
    }
    if !ctx.creator_agent.data.is_active() {
        return Err(ApolloError::AgentInactive);
    }
    if task_id != ctx.swarm.data.task_count {
        return Err(ApolloError::InvalidTaskState);
    }
    let new_count = match ctx.swarm.data.task_count.checked_add(1) {
        Some(c) => c,
        None => {
            return Err(ApolloError::MathOverflow);
        },
    };
    let event_role = required_role.clone();
    let task = Task {
        swarm: ctx.swarm.key,
        creator: ctx.creator_agent.key,
        executor: Pubkey::zeroed(),
        task_id,
        required_role,
        payload_uri,
        result_uri: String::new(),
        failure_reason: String::new(),
        reward,
        state: TaskState::Created.as_u8(),
        approvals: 0,
        work_based,
        created_at: now,
        accepted_at: 0,
        completed_at: 0,
        bump,
    };
    ctx.swarm.data.task_count = new_count;
    let event = TaskCreated {
        task: ctx.task,
        swarm: ctx.swarm.key,
        task_id,
        required_role: event_role,
        reward,
    };
    Ok((task, event))
}

} // verus!
