use vstd::prelude::*;

use crate::account::Account;
use crate::constants::APPROVAL_SEED;
use crate::errors::{ApolloError, Error, ErrorCode};
use crate::events::TaskApproved;
use crate::instructions::{agent_at, member_at, swarm_at, task_at};
use crate::pda::{
    agent_seeds, approval_seeds, derived_from, find_address3, found_program_address, member_seeds,
    swarm_seeds, task_seeds, with_bump,
};
use crate::program_id_bytes;
use crate::pubkey::Pubkey;
use crate::state::task::task_state_value;
use crate::state::{Agent, Approval, Membership, Swarm, Task, TaskState};

verus! {

/// The accounts of `approve_task`.
pub struct ApproveTask {
    /// The signer that approves.
    pub approver: Pubkey,
    /// The signer's agent.
    pub approver_agent: Account<Agent>,
    /// The account named as the agent's authority.
    pub authority: Pubkey,
    /// The swarm of the task.
    pub swarm: Account<Swarm>,
    /// The approver's membership in the swarm.
    pub membership: Account<Membership>,
    /// The task.
    pub task: Account<Task>,
    /// The address at which the approval account is created.
    pub approval: Pubkey,
}

impl ApproveTask {
    /// The outcome of the account constraints: the approval account must be
    /// at the canonical address derived from the task and the agent; the agent
    /// derives from the signer and names `authority`; the swarm is at its
    /// derived address; the membership derives from the swarm and the agent
    /// and names both; the task derives from the swarm and its number and
    /// names the swarm. The approval's bump comes back.
    pub open spec fn spec_try_accounts(&self) -> Result<u8, Error> {
        match found_program_address(
            approval_seeds(self.task.key@, self.approver_agent.key@),
            program_id_bytes(),
        ) {
            None => Err(Error::Aborted),
            Some((address, bump)) => if address != self.approval@ {
                Err(Error::Anchor(ErrorCode::ConstraintSeeds))
            } else if !derived_from(
                with_bump(agent_seeds(self.approver@), self.approver_agent.data.bump),
                self.approver_agent.key@,
            ) {
                Err(Error::Anchor(ErrorCode::ConstraintSeeds))
            } else if self.approver_agent.data.authority@ != self.authority@ {
                Err(Error::Apollo(ApolloError::UnauthorizedAgent))
            } else if !derived_from(
                with_bump(
                    swarm_seeds(self.swarm.data.authority@, self.swarm.data.swarm_id),
                    self.swarm.data.bump,
                ),
                self.swarm.key@,
            ) {
                Err(Error::Anchor(ErrorCode::ConstraintSeeds))
            } else if !derived_from(
                with_bump(
                    member_seeds(self.swarm.key@, self.approver_agent.key@),
                    self.membership.data.bump,
                ),
                self.membership.key@,
            ) {
                Err(Error::Anchor(ErrorCode::ConstraintSeeds))
            } else if self.membership.data.swarm@ != self.swarm.key@ {
                Err(Error::Apollo(ApolloError::NotMember))
            } else if self.membership.data.agent@ != self.approver_agent.key@ {
                Err(Error::Apollo(ApolloError::NotMember))
            } else if !derived_from(
                with_bump(
                    task_seeds(self.swarm.key@, self.task.data.task_id),
                    self.task.data.bump,
                ),
                self.task.key@,
            ) {
                Err(Error::Anchor(ErrorCode::ConstraintSeeds))
            } else if self.task.data.swarm@ != self.swarm.key@ {
                Err(Error::Apollo(ApolloError::ExecutorMismatch))
            } else {
                Ok(bump)
            },
        }
    }

    /// Checks the account constraints; gives the bump of the approval.
    pub fn try_accounts(&self) -> (r: Result<u8, Error>)
        ensures
            r == self.spec_try_accounts(),
    {
        let bump = match find_address3(
            APPROVAL_SEED.as_slice(),
            self.task.key.as_slice(),
            self.approver_agent.key.as_slice(),
        ) {
            None => {
                return Err(Error::Aborted);
            },
            Some((address, bump)) => {
                if address != self.approval {
                    return Err(Error::Anchor(ErrorCode::ConstraintSeeds));
                }
                bump
            },
        };
        if !agent_at(&self.approver_agent.key, &self.approver, self.approver_agent.data.bump) {
            return Err(Error::Anchor(ErrorCode::ConstraintSeeds));
        }
        if self.approver_agent.data.authority != self.authority {
            return Err(Error::Apollo(ApolloError::UnauthorizedAgent));
        }
        if !swarm_at(
            &self.swarm.key,
            &self.swarm.data.authority,
            self.swarm.data.swarm_id,
            self.swarm.data.bump,
        ) {
            return Err(Error::Anchor(ErrorCode::ConstraintSeeds));
        }
        if !member_at(
            &self.membership.key,
            &self.swarm.key,
            &self.approver_agent.key,
            self.membership.data.bump,
        ) {
            return Err(Error::Anchor(ErrorCode::ConstraintSeeds));
        }
        if self.membership.data.swarm != self.swarm.key {
            return Err(Error::Apollo(ApolloError::NotMember));
        }
        if self.membership.data.agent != self.approver_agent.key {
            return Err(Error::Apollo(ApolloError::NotMember));
        }
        if !task_at(&self.task.key, &self.swarm.key, self.task.data.task_id, self.task.data.bump) {
            return Err(Error::Anchor(ErrorCode::ConstraintSeeds));
        }
        if self.task.data.swarm != self.swarm.key {
            return Err(Error::Apollo(ApolloError::ExecutorMismatch));
        }
        Ok(bump)
    }
}

/// The refusal, if any, of an approval: an inactive approver, a task not in
/// state `Completed`, an approver that is the executor, an approval count
/// past `u16`.
pub open spec fn approve_refusal(agent: Account<Agent>, task: Task) -> Option<ApolloError> {
    if !agent.data.spec_is_active() {
        Some(ApolloError::AgentInactive)
    } else if task.state != task_state_value(TaskState::Completed) {
        Some(ApolloError::InvalidTaskState)
    } else if task.executor@ == agent.key@ {
        Some(ApolloError::UnauthorizedAgent)
    } else if task.approvals + 1 > u16::MAX {
        Some(ApolloError::MathOverflow)
    } else {
        None
    }
}

/// A member other than the executor approves a completed task: the approval
/// is recorded and the task counts one approval more. A refused approval
/// leaves the task as it was.
pub fn handler(ctx: &mut ApproveTask, bump: u8, now: i64) -> (r: Result<
    (Approval, TaskApproved),
    ApolloError,
>)
    ensures
        final(ctx).approver == old(ctx).approver,
        final(ctx).approver_agent == old(ctx).approver_agent,
        final(ctx).authority == old(ctx).authority,
        final(ctx).swarm == old(ctx).swarm,
        final(ctx).membership == old(ctx).membership,
        final(ctx).task.key == old(ctx).task.key,
        final(ctx).approval == old(ctx).approval,
        match approve_refusal(old(ctx).approver_agent, old(ctx).task.data) {
            Some(e) => r == Err::<(Approval, TaskApproved), _>(e) && final(ctx).task.data == old(ctx).task.data,
            None => {
                &&& final(ctx).task.data == (Task {
                    approvals: (old(ctx).task.data.approvals + 1) as u16,
                    ..old(ctx).task.data
                })
                &&& r == Ok::<_, ApolloError>(
                    (
                        Approval {
                            task: old(ctx).task.key,
                            approver: old(ctx).approver_agent.key,
                            approved_at: now,
                            bump,
                        },
                        TaskApproved {
                            task: old(ctx).task.key,
                            approver: old(ctx).approver_agent.key,
                            approvals: final(ctx).task.data.approvals,
                            threshold: old(ctx).swarm.data.approval_threshold,
                        },
                    ),
                )
            },
        },
{
    if !ctx.approver_agent.data.is_active() {
        return Err(ApolloError::AgentInactive);
    }
    if ctx.task.data.state != TaskState::Completed.as_u8() {
        return Err(ApolloError::InvalidTaskState);
    }
    if ctx.task.data.executor == ctx.approver_agent.key {
        return Err(ApolloError::UnauthorizedAgent);
    }
    let approvals = match ctx.task.data.approvals.checked_add(1) {
        Some(a) => a,
        None => {
            return Err(ApolloError::MathOverflow);
        },
    };
    let approval = Approval {
        task: ctx.task.key,
        approver: ctx.approver_agent.key,
        approved_at: now,
        bump,
    };
    ctx.task.data.approvals = approvals;
    let event = TaskApproved {
        task: ctx.task.key,
        approver: approval.approver,
        approvals: ctx.task.data.approvals,
        threshold: ctx.swarm.data.approval_threshold,
    };
    Ok((approval, event))
}

} // verus!
