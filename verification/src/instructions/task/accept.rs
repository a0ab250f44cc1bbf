use vstd::prelude::*;

use crate::account::Account;
use crate::errors::{ApolloError, Error, ErrorCode};
use crate::events::TaskAccepted;
use crate::instructions::{agent_at, member_at, swarm_at, task_at};
use crate::pda::{agent_seeds, derived_from, member_seeds, swarm_seeds, task_seeds, with_bump};
use crate::pubkey::Pubkey;
use crate::state::task::task_state_value;
use crate::state::{Agent, Membership, Swarm, Task, TaskState};
use crate::text::is_empty;

verus! {

/// The accounts of `accept_task`.
pub struct AcceptTask {
    /// The signer that takes the task on.
    pub executor: Pubkey,
    /// The signer's agent.
    pub executor_agent: Account<Agent>,
    /// The account named as the agent's authority.
    pub authority: Pubkey,
    /// The swarm of the task.
    pub swarm: Account<Swarm>,
    /// The agent's membership in the swarm.
    pub membership: Account<Membership>,
    /// The task.
    pub task: Account<Task>,
}

impl AcceptTask {
    /// The outcome of the account constraints: the agent derives from the
    /// signer and names `authority`; the swarm is at its derived address; the
    /// membership derives from the swarm and the agent and names both; the
    /// task derives from the swarm and its number and names the swarm.
    pub open spec fn spec_try_accounts(&self) -> Result<(), Error> {
        if !derived_from(
            with_bump(agent_seeds(self.executor@), self.executor_agent.data.bump),
            self.executor_agent.key@,
        ) {
            Err(Error::Anchor(ErrorCode::ConstraintSeeds))
        } else if self.executor_agent.data.authority@ != self.authority@ {
            Err(Error::Apollo(ApolloError::UnauthorizedAgent))
        } else if !derived_from(
            with_bump(
                swarm_seeds(self.swarm.data.authority@, self.swarm.data.swarm_id),
                self.swarm.data.bump,
            ),
            self.swarm.key@,
        ) {
            Err(Error::Anchor(ErrorCode::ConstraintSeeds))
        } else if !derived_from(
            with_bump(
                member_seeds(self.swarm.key@, self.executor_agent.key@),
                self.membership.data.bump,
            ),
            self.membership.key@,
        ) {
            Err(Error::Anchor(ErrorCode::ConstraintSeeds))
        } else if self.membership.data.swarm@ != self.swarm.key@ {
            Err(Error::Apollo(ApolloError::NotMember))
        } else if self.membership.data.agent@ != self.executor_agent.key@ {
            Err(Error::Apollo(ApolloError::NotMember))
        } else if !derived_from(
            with_bump(task_seeds(self.swarm.key@, self.task.data.task_id), self.task.data.bump),
            self.task.key@,
        ) {
            Err(Error::Anchor(ErrorCode::ConstraintSeeds))
        } else if self.task.data.swarm@ != self.swarm.key@ {
            Err(Error::Apollo(ApolloError::ExecutorMismatch))
        } else {
            Ok(())
        }
    }

    /// Checks the account constraints in the order they are declared.
    pub fn try_accounts(&self) -> (r: Result<(), Error>)
        ensures
            r == self.spec_try_accounts(),
    {
        if !agent_at(&self.executor_agent.key, &self.executor, self.executor_agent.data.bump) {
            return Err(Error::Anchor(ErrorCode::ConstraintSeeds));
        }
        if self.executor_agent.data.authority != self.authority {
            return Err(Error::Apollo(ApolloError::UnauthorizedAgent));
        }
        if !swarm_at(
            &self.swarm.key,
            &self.swarm.data.authority,
            self.swarm.data.swarm_id,
            self.swarm.data.bump,
        ) {
            return Err(Error::Anchor(ErrorCode::ConstraintSeeds));
        }
        if !member_at(
            &self.membership.key,
            &self.swarm.key,
            &self.executor_agent.key,
            self.membership.data.bump,
        ) {
            return Err(Error::Anchor(ErrorCode::ConstraintSeeds));
        }
        if self.membership.data.swarm != self.swarm.key {
            return Err(Error::Apollo(ApolloError::NotMember));
        }
        if self.membership.data.agent != self.executor_agent.key {
            return Err(Error::Apollo(ApolloError::NotMember));
        }
        if !task_at(&self.task.key, &self.swarm.key, self.task.data.task_id, self.task.data.bump) {
            return Err(Error::Anchor(ErrorCode::ConstraintSeeds));
        }
        if self.task.data.swarm != self.swarm.key {
            return Err(Error::Apollo(ApolloError::ExecutorMismatch));
        }
        Ok(())
    }
}

/// The refusal, if any, of taking a task on: an inactive agent, a task not in
/// state `Created`, a required role that neither the membership nor the agent
/// holds.
pub open spec fn accept_refusal(agent: Agent, membership: Membership, task: Task) -> Option<
    ApolloError,
> {
    if !agent.spec_is_active() {
        Some(ApolloError::AgentInactive)
    } else if task.state != task_state_value(TaskState::Created) {
        Some(ApolloError::InvalidTaskState)
    } else if task.required_role@.len() != 0 && task.required_role@ != membership.role@
        && task.required_role@ != agent.role@ {
        Some(ApolloError::RoleMismatch)
    } else {
        None
    }
}

/// A member takes a created task on: the task records the member's agent as
/// its executor and moves to `Accepted`. A refused request leaves the task as
/// it was.
pub fn handler(ctx: &mut AcceptTask, now: i64) -> (r: Result<TaskAccepted, ApolloError>)
    ensures
        final(ctx).executor == old(ctx).executor,
        final(ctx).executor_agent == old(ctx).executor_agent,
        final(ctx).authority == old(ctx).authority,
        final(ctx).swarm == old(ctx).swarm,
        final(ctx).membership == old(ctx).membership,
        final(ctx).task.key == old(ctx).task.key,
        match accept_refusal(old(ctx).executor_agent.data, old(ctx).membership.data, old(ctx).task.data) {
            Some(e) => r == Err::<TaskAccepted, _>(e) && final(ctx).task.data == old(ctx).task.data,
            None => {
                &&& final(ctx).task.data == (Task {
                    executor: old(ctx).executor_agent.key,
                    state: task_state_value(TaskState::Accepted),
                    accepted_at: now,
                    ..old(ctx).task.data
                })
                &&& r == Ok::<_, ApolloError>(
                    TaskAccepted { task: old(ctx).task.key, executor: old(ctx).executor_agent.key },
                )
            },
        },
{
    if !ctx.executor_agent.data.is_active() {
        return Err(ApolloError::AgentInactive);
    }
    if ctx.task.data.state != TaskState::Created.as_u8() {
        return Err(ApolloError::InvalidTaskState);
    }
    if !is_empty(&ctx.task.data.required_role) {
        if !(ctx.task.data.required_role == ctx.membership.data.role
            || ctx.task.data.required_role == ctx.executor_agent.data.role) {
            return Err(ApolloError::RoleMismatch);
        }
    }
    ctx.task.data.executor = ctx.executor_agent.key;
    ctx.task.data.state = TaskState::Accepted.as_u8();
    ctx.task.data.accepted_at = now;
    Ok(TaskAccepted { task: ctx.task.key, executor: ctx.task.data.executor })
}

} // verus!
