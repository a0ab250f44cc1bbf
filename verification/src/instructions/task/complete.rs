use vstd::prelude::*;

use crate::account::Account;
use crate::constants::MAX_METADATA_URI_LEN;
use crate::errors::{ApolloError, Error, ErrorCode};
use crate::events::TaskCompleted;
use crate::instructions::{agent_at, swarm_at, task_at};
use crate::pda::{agent_seeds, derived_from, swarm_seeds, task_seeds, with_bump};
use crate::pubkey::Pubkey;
use crate::state::task::task_state_value;
use crate::state::{Agent, Swarm, Task, TaskState};
use crate::text::{byte_len, fits};

verus! {

/// The accounts of `complete_task`.
pub struct CompleteTask {
    /// The signer that executed the task.
    pub executor: Pubkey,
    /// The signer's agent.
    pub executor_agent: Account<Agent>,
    /// The account named as the agent's authority.
    pub authority: Pubkey,
    /// The swarm of the task.
    pub swarm: Account<Swarm>,
    /// The task.
    pub task: Account<Task>,
}

impl CompleteTask {
    /// The outcome of the account constraints: the agent derives from the
    /// signer and names `authority`; the swarm is at its derived address; the
    /// task derives from the swarm and its number and names the agent as its
    /// executor.
    pub open spec fn spec_try_accounts(&self) -> Result<(), Error> {
        if !derived_from(
            with_bump(agent_seeds(self.executor@), self.executor_agent.data.bump),
            self.executor_agent.key@,
        ) {
            Err(Error::Anchor(ErrorCode::ConstraintSeeds))
        } else if self.executor_agent.data.authority@ != self.authority@ {
            Err(Error::Apollo(ApolloError::UnauthorizedAgent))
        } else if !derived_from(
            with_bump(
                swarm_seeds(self.swarm.data.authority@, self.swarm.data.swarm_id),
                self.swarm.data.bump,
            ),
            self.swarm.key@,
        ) {
            Err(Error::Anchor(ErrorCode::ConstraintSeeds))
        } else if !derived_from(
            with_bump(task_seeds(self.swarm.key@, self.task.data.task_id), self.task.data.bump),
            self.task.key@,
        ) {
            Err(Error::Anchor(ErrorCode::ConstraintSeeds))
        } else if self.task.data.executor@ != self.executor_agent.key@ {
            Err(Error::Apollo(ApolloError::ExecutorMismatch))
        } else {
            Ok(())
        }
    }

    /// Checks the account constraints in the order they are declared.
    pub fn try_accounts(&self) -> (r: Result<(), Error>)
        ensures
            r == self.spec_try_accounts(),
    {
        if !agent_at(&self.executor_agent.key, &self.executor, self.executor_agent.data.bump) {
            return Err(Error::Anchor(ErrorCode::ConstraintSeeds));
        }
        if self.executor_agent.data.authority != self.authority {
            return Err(Error::Apollo(ApolloError::UnauthorizedAgent));
        }
        if !swarm_at(
            &self.swarm.key,
            &self.swarm.data.authority,
            self.swarm.data.swarm_id,
            self.swarm.data.bump,
        ) {
            return Err(Error::Anchor(ErrorCode::ConstraintSeeds));
        }
        if !task_at(&self.task.key, &self.swarm.key, self.task.data.task_id, self.task.data.bump) {
            return Err(Error::Anchor(ErrorCode::ConstraintSeeds));
        }
        if self.task.data.executor != self.executor_agent.key {
            return Err(Error::Apollo(ApolloError::ExecutorMismatch));
        }
        Ok(())
    }
}

/// The refusal, if any, of a result: a result over its limit, then a task not
/// in state `Accepted`.
pub open spec fn complete_refusal(task: Task, result_uri: String) -> Option<ApolloError> {
    if byte_len(result_uri) > MAX_METADATA_URI_LEN {
        Some(ApolloError::StringTooLong)
    } else if task.state != task_state_value(TaskState::Accepted) {
        Some(ApolloError::InvalidTaskState)
    } else {
        None
    }
}

/// The executor posts the result of an accepted task, which moves to
/// `Completed`. A refused result leaves the task as it was.
pub fn handler(ctx: &mut CompleteTask, result_uri: String, now: i64) -> (r: Result<
    TaskCompleted,
    ApolloError,
>)
    ensures
        final(ctx).executor == old(ctx).executor,
        final(ctx).executor_agent == old(ctx).executor_agent,
        final(ctx).authority == old(ctx).authority,
        final(ctx).swarm == old(ctx).swarm,
        final(ctx).task.key == old(ctx).task.key,
        match complete_refusal(old(ctx).task.data, result_uri) {
            Some(e) => r == Err::<TaskCompleted, _>(e) && final(ctx).task.data == old(ctx).task.data,
            None => {
                &&& final(ctx).task.data == (Task {
                    result_uri,
                    state: task_state_value(TaskState::Completed),
                    completed_at: now,
                    ..old(ctx).task.data
                })
                &&& r == Ok::<_, ApolloError>(
                    TaskCompleted {
                        task: old(ctx).task.key,
                        executor: old(ctx).task.data.executor,
                        result_uri,
                    },
                )
            },
        },
{
    if !fits(&result_uri, MAX_METADATA_URI_LEN) {
        return Err(ApolloError::StringTooLong);
    }
    if ctx.task.data.state != TaskState::Accepted.as_u8() {
        return Err(ApolloError::InvalidTaskState);
    }
    let event_uri = result_uri.clone();
    ctx.task.data.result_uri = result_uri;
    ctx.task.data.state = TaskState::Completed.as_u8();
    ctx.task.data.completed_at = now;
    Ok(TaskCompleted { task: ctx.task.key, executor: ctx.task.data.executor, result_uri: event_uri })
}

} // verus!
