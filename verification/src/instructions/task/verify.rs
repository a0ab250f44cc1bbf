use vstd::prelude::*;

use crate::account::Account;
use crate::errors::{ApolloError, Error, ErrorCode};
use crate::events::TaskVerified;
use crate::instructions::{
    agent_at, reputation_up, saturating_inc, saturating_inc_u64, swarm_at, task_at,
};
use crate::pda::{agent_seeds, derived_from, swarm_seeds, task_seeds, with_bump};
use crate::pubkey::Pubkey;
use crate::state::swarm::coord_model_of;
use crate::state::task::task_state_value;
use crate::state::{Agent, CoordModel, Swarm, Task, TaskState};

verus! {

/// The accounts of `verify_task`.
pub struct VerifyTask {
    /// The signer.
    pub signer: Pubkey,
    /// The agent of the task's executor.
    pub executor_agent: Account<Agent>,
    /// The swarm of the task.
    pub swarm: Account<Swarm>,
    /// The task.
    pub task: Account<Task>,
}

impl VerifyTask {
    /// The outcome of the account constraints: the executor's agent is at the
    /// address derived from its own authority and is the agent that the task
    /// names as executor; the swarm is at its derived address; the task
    /// derives from the swarm and its number and names the swarm.
    pub open spec fn spec_try_accounts(&self) -> Result<(), Error> {
        if !derived_from(
            with_bump(
                agent_seeds(self.executor_agent.data.authority@),
                self.executor_agent.data.bump,
            ),
            self.executor_agent.key@,
        ) {
            Err(Error::Anchor(ErrorCode::ConstraintSeeds))
        } else if self.executor_agent.key@ != self.task.data.executor@ {
            Err(Error::Apollo(ApolloError::ExecutorMismatch))
        } else if !derived_from(
            with_bump(
                swarm_seeds(self.swarm.data.authority@, self.swarm.data.swarm_id),
                self.swarm.data.bump,
            ),
            self.swarm.key@,
        ) {
            Err(Error::Anchor(ErrorCode::ConstraintSeeds))
        } else if !derived_from(
            with_bump(task_seeds(self.swarm.key@, self.task.data.task_id), self.task.data.bump),
            self.task.key@,
        ) {
            Err(Error::Anchor(ErrorCode::ConstraintSeeds))
        } else if self.task.data.swarm@ != self.swarm.key@ {
            Err(Error::Apollo(ApolloError::ExecutorMismatch))
        } else {
            Ok(())
        }
    }

    /// Checks the account constraints in the order they are declared.
    pub fn try_accounts(&self) -> (r: Result<(), Error>)
        ensures
            r == self.spec_try_accounts(),
    {
        if !agent_at(
            &self.executor_agent.key,
            &self.executor_agent.data.authority,
            self.executor_agent.data.bump,
        ) {
            return Err(Error::Anchor(ErrorCode::ConstraintSeeds));
        }
        if self.executor_agent.key != self.task.data.executor {
            return Err(Error::Apollo(ApolloError::ExecutorMismatch));
        }
        if !swarm_at(
            &self.swarm.key,
            &self.swarm.data.authority,
            self.swarm.data.swarm_id,
            self.swarm.data.bump,
        ) {
            return Err(Error::Anchor(ErrorCode::ConstraintSeeds));
        }
        if !task_at(&self.task.key, &self.swarm.key, self.task.data.task_id, self.task.data.bump) {
            return Err(Error::Anchor(ErrorCode::ConstraintSeeds));
        }
        if self.task.data.swarm != self.swarm.key {
            return Err(Error::Apollo(ApolloError::ExecutorMismatch));
        }
        Ok(())
    }
}

/// Whether the swarm's coordination model leaves verification to its
/// authority (`RoleBased`, `RoundRobin`, and any number out of range) rather
/// than to an approval threshold (`ThresholdApproval`, `Voting`).
pub open spec fn verified_by_authority(swarm: Swarm) -> bool {
    let m = coord_model_of(swarm.coord_model);
    m == CoordModel::RoleBased || m == CoordModel::RoundRobin
}

/// The refusal, if any, of verification: a task not in state `Completed`;
/// then, by the coordination model, a signer other than the swarm's
/// authority, or fewer approvals than the threshold.
pub open spec fn verify_refusal(signer: Pubkey, swarm: Swarm, task: Task) -> Option<ApolloError> {
    if task.state != task_state_value(TaskState::Completed) {
        Some(ApolloError::InvalidTaskState)
    } else if verified_by_authority(swarm) {
        if swarm.authority@ != signer@ {
            Some(ApolloError::UnauthorizedSwarm)
        } else {
            None
        }
    } else if task.approvals < swarm.approval_threshold {
        Some(ApolloError::ThresholdNotMet)
    } else {
        None
    }
}

/// Finalizes a completed task, which moves to `Verified`; the executor's
/// agent counts one more completed task and gains a point of reputation
/// (both held at their bounds). A refused request changes nothing.
pub fn handler(ctx: &mut VerifyTask) -> (r: Result<TaskVerified, ApolloError>)
    ensures
        final(ctx).signer == old(ctx).signer,
        final(ctx).executor_agent.key == old(ctx).executor_agent.key,
        final(ctx).swarm == old(ctx).swarm,
        final(ctx).task.key == old(ctx).task.key,
        match verify_refusal(old(ctx).signer, old(ctx).swarm.data, old(ctx).task.data) {
            Some(e) => r == Err::<TaskVerified, _>(e) && final(ctx).task.data == old(ctx).task.data
                && final(ctx).executor_agent.data == old(ctx).executor_agent.data,
            None => {
                &&& final(ctx).task.data == (Task {
                    state: task_state_value(TaskState::Verified),
                    ..old(ctx).task.data
                })
                &&& final(ctx).executor_agent.data == (Agent {
                    tasks_completed: saturating_inc_u64(old(ctx).executor_agent.data.tasks_completed),
                    reputation: saturating_inc(old(ctx).executor_agent.data.reputation),
                    ..old(ctx).executor_agent.data
                })
                &&& r == Ok::<_, ApolloError>(TaskVerified { task: old(ctx).task.key })
            },
        },
{
    if ctx.task.data.state != TaskState::Completed.as_u8() {
        return Err(ApolloError::InvalidTaskState);
    }
    match CoordModel::from(ctx.swarm.data.coord_model) {
        CoordModel::RoleBased | CoordModel::RoundRobin => {
            if ctx.swarm.data.authority != ctx.signer {
                return Err(ApolloError::UnauthorizedSwarm);
            }
        },
        CoordModel::ThresholdApproval | CoordModel::Voting => {
            if ctx.task.data.approvals < ctx.swarm.data.approval_threshold {
                return Err(ApolloError::ThresholdNotMet);
            }
        },
    }
    ctx.task.data.state = TaskState::Verified.as_u8();
    ctx.executor_agent.data.tasks_completed = ctx.executor_agent.data.tasks_completed.saturating_add(1);
    ctx.executor_agent.data.reputation = reputation_up(ctx.executor_agent.data.reputation);
    Ok(TaskVerified { task: ctx.task.key })
}

} // verus!
