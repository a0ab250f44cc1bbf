use vstd::prelude::*;

use crate::account::Account;
use crate::constants::MAX_REASON_LEN;
use crate::errors::{ApolloError, Error, ErrorCode};
use crate::events::TaskFailed;
use crate::instructions::{
    agent_at, reputation_down, saturating_dec, saturating_inc_u64, swarm_at, task_at,
};
use crate::pda::{agent_seeds, derived_from, swarm_seeds, task_seeds, with_bump};
use crate::pubkey::Pubkey;
use crate::state::task::task_state_value;
use crate::state::{Agent, Swarm, Task, TaskState};
use crate::text::{byte_len, fits};

verus! {

/// The accounts of `fail_task`.
pub struct FailTask {
    /// The signer: the task's executor or the swarm's authority.
    pub signer: Pubkey,
    /// The signer's agent.
    pub agent: Account<Agent>,
    /// The account named as the agent's authority.
    pub authority: Pubkey,
    /// The swarm of the task.
    pub swarm: Account<Swarm>,
    /// The task.
    pub task: Account<Task>,
}

impl FailTask {
    /// The outcome of the account constraints: the agent derives from the
    /// signer and names `authority`; the swarm is at its derived address; the
    /// task derives from the swarm and its number.
    pub open spec fn spec_try_accounts(&self) -> Result<(), Error> {
        if !derived_from(
            with_bump(agent_seeds(self.signer@), self.agent.data.bump),
            self.agent.key@,
        ) {
            Err(Error::Anchor(ErrorCode::ConstraintSeeds))
        } else if self.agent.data.authority@ != self.authority@ {
            Err(Error::Apollo(ApolloError::UnauthorizedAgent))
        } else if !derived_from(
            with_bump(
                swarm_seeds(self.swarm.data.authority@, self.swarm.data.swarm_id),
                self.swarm.data.bump,
            ),
            self.swarm.key@,
        ) {
            Err(Error::Anchor(ErrorCode::ConstraintSeeds))
        } else if !derived_from(
            with_bump(task_seeds(self.swarm.key@, self.task.data.task_id), self.task.data.bump),
            self.task.key@,
        ) {
            Err(Error::Anchor(ErrorCode::ConstraintSeeds))
        } else {
            Ok(())
        }
    }

    /// Checks the account constraints in the order they are declared.
    pub fn try_accounts(&self) -> (r: Result<(), Error>)
        ensures
            r == self.spec_try_accounts(),
    {
        if !agent_at(&self.agent.key, &self.signer, self.agent.data.bump) {
            return Err(Error::Anchor(ErrorCode::ConstraintSeeds));
        }
        if self.agent.data.authority != self.authority {
            return Err(Error::Apollo(ApolloError::UnauthorizedAgent));
        }
        if !swarm_at(
            &self.swarm.key,
            &self.swarm.data.authority,
            self.swarm.data.swarm_id,
            self.swarm.data.bump,
        ) {
            return Err(Error::Anchor(ErrorCode::ConstraintSeeds));
        }
        if !task_at(&self.task.key, &self.swarm.key, self.task.data.task_id, self.task.data.bump) {
            return Err(Error::Anchor(ErrorCode::ConstraintSeeds));
        }
        Ok(())
    }
}

/// Whether a task in this state can still fail: it is `Created`, `Accepted`
/// or `Completed`.
pub open spec fn can_fail(state: u8) -> bool {
    ||| state == task_state_value(TaskState::Created)
    ||| state == task_state_value(TaskState::Accepted)
    ||| state == task_state_value(TaskState::Completed)
}

/// The refusal, if any, of failing a task: a reason over its limit; a signer
/// that is neither the executor's agent nor the swarm's authority; a task
/// that is no longer open.
pub open spec fn fail_refusal(ctx: &FailTask, reason: String) -> Option<ApolloError> {
    if byte_len(reason) > MAX_REASON_LEN {
        Some(ApolloError::StringTooLong)
    } else if ctx.task.data.executor@ != ctx.agent.key@ && ctx.swarm.data.authority@
        != ctx.signer@ {
        Some(ApolloError::UnauthorizedAgent)
    } else if !can_fail(ctx.task.data.state) {
        Some(ApolloError::InvalidTaskState)
    } else {
        None
    }
}

/// The executor or the swarm's authority aborts an open task, which moves to
/// `Failed` with the reason. When the executor fails its own task, its agent
/// counts one more failed task and loses a point of reputation (both held at
/// their bounds). A refused request changes nothing.
pub fn handler(ctx: &mut FailTask, reason: String) -> (r: Result<TaskFailed, ApolloError>)
    ensures
        final(ctx).signer == old(ctx).signer,
        final(ctx).agent.key == old(ctx).agent.key,
        final(ctx).authority == old(ctx).authority,
        final(ctx).swarm == old(ctx).swarm,
        final(ctx).task.key == old(ctx).task.key,
        match fail_refusal(old(ctx), reason) {
            Some(e) => r == Err::<TaskFailed, _>(e) && final(ctx).task.data == old(ctx).task.data
                && final(ctx).agent.data == old(ctx).agent.data,
            None => {
                &&& final(ctx).task.data == (Task {
                    failure_reason: reason,
                    state: task_state_value(TaskState::Failed),
                    ..old(ctx).task.data
                })
                &&& final(ctx).agent.data == if old(ctx).task.data.executor@ == old(ctx).agent.key@ {
                    Agent {
                        tasks_failed: saturating_inc_u64(old(ctx).agent.data.tasks_failed),
                        reputation: saturating_dec(old(ctx).agent.data.reputation),
                        ..old(ctx).agent.data
                    }
                } else {
                    old(ctx).agent.data
                }
                &&& r == Ok::<_, ApolloError>(TaskFailed { task: old(ctx).task.key, reason })
            },
        },
{
    if !fits(&reason, MAX_REASON_LEN) {
        return Err(ApolloError::StringTooLong);
    }
    let is_executor = ctx.task.data.executor == ctx.agent.key;
    let is_swarm_authority = ctx.swarm.data.authority == ctx.signer;
    if !(is_executor || is_swarm_authority) {
        return Err(ApolloError::UnauthorizedAgent);
    }
    let state = ctx.task.data.state;
    if !(state == TaskState::Created.as_u8() || state == TaskState::Accepted.as_u8() || state
        == TaskState::Completed.as_u8()) {
        return Err(ApolloError::InvalidTaskState);
    }
    let event_reason = reason.clone();
    ctx.task.data.failure_reason = reason;
    ctx.task.data.state = TaskState::Failed.as_u8();
    if is_executor {
        ctx.agent.data.tasks_failed = ctx.agent.data.tasks_failed.saturating_add(1);
        ctx.agent.data.reputation = reputation_down(ctx.agent.data.reputation);
    }
    Ok(TaskFailed { task: ctx.task.key, reason: event_reason })
}

} // verus!
