//! The program's instructions: each checks its account constraints, then
//! applies its rule. Accounts to create come back as values with their
//! announcement; transfers come back for the runtime to carry out.
use vstd::prelude::*;

use crate::account::Transfer;
use crate::errors::{ApolloError, Error};
use crate::events::{
    AgentRegistered, AgentUpdated, MemberAdded, MemberRemoved, SwarmCreated, TaskAccepted,
    TaskApproved, TaskCompleted, TaskCreated, TaskFailed, TaskSettled, TaskVerified,
    TreasuryDeposit,
};
use crate::instructions::agent::register::registered_agent;
use crate::instructions::agent::update::{update_refusal, updated_agent};
use crate::instructions::swarm::add_member::add_member_refusal;
use crate::instructions::swarm::create::create_swarm_refusal;
use crate::instructions::swarm::remove_member::remove_member_refusal;
use crate::instructions::task::accept::accept_refusal;
use crate::instructions::task::approve::approve_refusal;
use crate::instructions::task::complete::complete_refusal;
use crate::instructions::task::create::{create_task_refusal, is_new_task};
use crate::instructions::task::fail::fail_refusal;
use crate::instructions::task::verify::verify_refusal;
use crate::instructions::treasury::settle::settlement;
use crate::instructions::{
    saturating_dec, saturating_inc, saturating_inc_u64, AcceptTask, AddMember, ApproveTask,
    CompleteTask, CreateSwarm, CreateTask, DepositTreasury, FailTask, RegisterAgent, RemoveMember,
    SettleTask, UpdateAgent, VerifyTask,
};
use crate::constants::{MAX_METADATA_URI_LEN, MAX_ROLE_LEN};
use crate::state::task::task_state_value;
use crate::state::{Agent, Approval, Membership, Swarm, Task, TaskState};
use crate::text::byte_len;

verus! {

/// Registers the signer's agent identity. Gives the new agent account, to be
/// created at `ctx.agent`, and its announcement.
pub fn register_agent(ctx: &RegisterAgent, role: String, metadata_uri: String, now: i64) -> (r:
    Result<(Agent, AgentRegistered), Error>)
    ensures
        match ctx.spec_try_accounts() {
            Err(e) => r == Err::<(Agent, AgentRegistered), _>(e),
            Ok(bump) => if byte_len(role) > MAX_ROLE_LEN || byte_len(metadata_uri)
                > MAX_METADATA_URI_LEN {
                r == Err::<(Agent, AgentRegistered), _>(Error::Apollo(ApolloError::StringTooLong))
            } else {
                r == Ok::<_, Error>(
                    (
                        registered_agent(ctx.authority, role, metadata_uri, now, bump),
                        AgentRegistered { agent: ctx.agent, authority: ctx.authority, role },
                    ),
                )
            },
        },
{
    let bump = ctx.try_accounts()?;
    match crate::instructions::agent::register::handler(ctx, bump, role, metadata_uri, now) {
        Ok(v) => Ok(v),
        Err(e) => Err(Error::Apollo(e)),
    }
}

/// Changes the status and the metadata of the signer's agent.
pub fn update_agent(ctx: &mut UpdateAgent, status: Option<u8>, metadata_uri: Option<String>) -> (r:
    Result<AgentUpdated, Error>)
    ensures
        final(ctx).authority == old(ctx).authority,
        final(ctx).agent.key == old(ctx).agent.key,
        match old(ctx).spec_try_accounts() {
            Err(e) => r == Err::<AgentUpdated, _>(e) && final(ctx).agent.data == old(ctx).agent.data,
            Ok(_) => match update_refusal(status, metadata_uri) {
                Some(e) => r == Err::<AgentUpdated, _>(Error::Apollo(e)) && final(ctx).agent.data
                    == old(ctx).agent.data,
                None => final(ctx).agent.data == updated_agent(
                    old(ctx).agent.data,
                    status,
                    metadata_uri,
                ) && r == Ok::<_, Error>(
                    AgentUpdated { agent: old(ctx).agent.key, status: final(ctx).agent.data.status },
                ),
            },
        },
{
    ctx.try_accounts()?;
    match crate::instructions::agent::update::handler(ctx, status, metadata_uri) {
        Ok(v) => Ok(v),
        Err(e) => Err(Error::Apollo(e)),
    }
}

/// Opens a swarm governed by the signer. Gives the new swarm account, to be
/// created at `ctx.swarm`, and its announcement.
pub fn create_swarm(
    ctx: &CreateSwarm,
    swarm_id: u64,
    name: String,
    metadata_uri: String,
    coord_model: u8,
    approval_threshold: u16,
    now: i64,
) -> (r: Result<(Swarm, SwarmCreated), Error>)
    ensures
        match ctx.spec_try_accounts(swarm_id) {
            Err(e) => r == Err::<(Swarm, SwarmCreated), _>(e),
            Ok((swarm_bump, treasury_bump)) => match create_swarm_refusal(
                name,
                metadata_uri,
                coord_model,
            ) {
                Some(e) => r == Err::<(Swarm, SwarmCreated), _>(Error::Apollo(e)),
                None => r == Ok::<_, Error>(
                    (
                        Swarm {
                            authority: ctx.authority,
                            swarm_id,
                            name,
                            metadata_uri,
                            coord_model,
                            approval_threshold,
                            member_count: 0,
                            task_count: 0,
                            total_share_bps: 0,
                            treasury_bump,
                            created_at: now,
                            bump: swarm_bump,
                        },
                        SwarmCreated {
                            swarm: ctx.swarm,
                            creator: ctx.authority,
                            swarm_id,
                            coord_model,
                        },
                    ),
                ),
            },
        },
{
    let (swarm_bump, treasury_bump) = ctx.try_accounts(swarm_id)?;
    match crate::instructions::swarm::create::handler(
        ctx,
        swarm_bump,
        treasury_bump,
        swarm_id,
        name,
        metadata_uri,
        coord_model,
        approval_threshold,
        now,
    ) {
        Ok(v) => Ok(v),
        Err(e) => Err(Error::Apollo(e)),
    }
}

/// Joins an agent to a swarm. Gives the new membership account, to be
/// created at `ctx.membership`, and its announcement.
pub fn add_member(ctx: &mut AddMember, role: String, share_bps: u16, now: i64) -> (r: Result<
    (Membership, MemberAdded),
    Error,
>)
    ensures
        final(ctx).authority == old(ctx).authority,
        final(ctx).swarm.key == old(ctx).swarm.key,
        final(ctx).agent == old(ctx).agent,
        final(ctx).membership == old(ctx).membership,
        match old(ctx).spec_try_accounts() {
            Err(e) => r == Err::<(Membership, MemberAdded), _>(e) && final(ctx).swarm.data == old(ctx).swarm.data,
            Ok(bump) => match add_member_refusal(
                old(ctx).swarm.data,
                old(ctx).agent.data,
                role,
                share_bps,
            ) {
                Some(e) => r == Err::<(Membership, MemberAdded), _>(Error::Apollo(e)) && final(ctx).swarm.data == old(ctx).swarm.data,
                None => {
                    &&& final(ctx).swarm.data == (Swarm {
                        member_count: (old(ctx).swarm.data.member_count + 1) as u32,
                        total_share_bps: (old(ctx).swarm.data.total_share_bps + share_bps) as u16,
                        ..old(ctx).swarm.data
                    })
                    &&& r == Ok::<_, Error>(
                        (
                            Membership {
                                swarm: old(ctx).swarm.key,
                                agent: old(ctx).agent.key,
                                role,
                                share_bps,
                                tasks_executed: 0,
                                joined_at: now,
                                bump,
                            },
                            MemberAdded {
                                swarm: old(ctx).swarm.key,
                                agent: old(ctx).agent.key,
                                share_bps,
                                role,
                            },
                        ),
                    )
                },
            },
        },
{
    let bump = ctx.try_accounts()?;
    match crate::instructions::swarm::add_member::handler(ctx, bump, role, share_bps, now) {
        Ok(v) => Ok(v),
        Err(e) => Err(Error::Apollo(e)),
    }
}

/// Takes a member out of a swarm; the membership account is then closed into
/// the signer.
pub fn remove_member(ctx: &mut RemoveMember) -> (r: Result<MemberRemoved, Error>)
    ensures
        final(ctx).authority == old(ctx).authority,
        final(ctx).swarm.key == old(ctx).swarm.key,
        final(ctx).membership == old(ctx).membership,
        match old(ctx).spec_try_accounts() {
            Err(e) => r == Err::<MemberRemoved, _>(e) && final(ctx).swarm.data == old(ctx).swarm.data,
            Ok(_) => match remove_member_refusal(old(ctx).swarm.data, old(ctx).membership.data) {
                Some(e) => r == Err::<MemberRemoved, _>(Error::Apollo(e)) && final(ctx).swarm.data
                    == old(ctx).swarm.data,
                None => {
                    &&& final(ctx).swarm.data == (Swarm {
                        member_count: (old(ctx).swarm.data.member_count - 1) as u32,
                        total_share_bps: (old(ctx).swarm.data.total_share_bps
                            - old(ctx).membership.data.share_bps) as u16,
                        ..old(ctx).swarm.data
                    })
                    &&& r == Ok::<_, Error>(
                        MemberRemoved {
                            swarm: old(ctx).swarm.key,
                            agent: old(ctx).membership.data.agent,
                        },
                    )
                },
            },
        },
{
    ctx.try_accounts()?;
    match crate::instructions::swarm::remove_member::handler(ctx) {
        Ok(v) => Ok(v),
        Err(e) => Err(Error::Apollo(e)),
    }
}

/// Delegates a task in a swarm. Gives the new task account, to be created at
/// `ctx.task`, and its announcement.
pub fn create_task(
    ctx: &mut CreateTask,
    task_id: u64,
    required_role: String,
    payload_uri: String,
    reward: u64,
    work_based: bool,
    now: i64,
) -> (r: Result<(Task, TaskCreated), Error>)
    ensures
        final(ctx).creator == old(ctx).creator,
        final(ctx).creator_agent == old(ctx).creator_agent,
        final(ctx).authority == old(ctx).authority,
        final(ctx).swarm.key == old(ctx).swarm.key,
        final(ctx).creator_membership == old(ctx).creator_membership,
        final(ctx).task == old(ctx).task,
        match old(ctx).spec_try_accounts(task_id) {
            Err(e) => r == Err::<(Task, TaskCreated), _>(e) && final(ctx).swarm.data == old(ctx).swarm.data,
            Ok(bump) => match create_task_refusal(
                old(ctx).creator_agent.data,
                old(ctx).swarm.data,
                task_id,
                required_role,
                payload_uri,
            ) {
                Some(e) => r == Err::<(Task, TaskCreated), _>(Error::Apollo(e)) && final(ctx).swarm.data == old(ctx).swarm.data,
                None => {
                    &&& final(ctx).swarm.data == (Swarm {
                        task_count: (old(ctx).swarm.data.task_count + 1) as u64,
                        ..old(ctx).swarm.data
                    })
                    &&& r matches Ok((t, e)) && is_new_task(
                        t,
                        old(ctx).swarm.key,
                        old(ctx).creator_agent.key,
                        task_id,
                        required_role,
                        payload_uri,
                        reward,
                        work_based,
                        now,
                        bump,
                    ) && e == (TaskCreated {
                        task: old(ctx).task,
                        swarm: old(ctx).swarm.key,
                        task_id,
                        required_role,
                        reward,
                    })
                },
            },
        },
{
    let bump = ctx.try_accounts(task_id)?;
    match crate::instructions::task::create::handler(
        ctx,
        bump,
        task_id,
        required_role,
        payload_uri,
        reward,
        work_based,
        now,
    ) {
        Ok(v) => Ok(v),
        Err(e) => Err(Error::Apollo(e)),
    }
}

/// A member takes a created task on.
pub fn accept_task(ctx: &mut AcceptTask, now: i64) -> (r: Result<TaskAccepted, Error>)
    ensures
        final(ctx).executor == old(ctx).executor,
        final(ctx).executor_agent == old(ctx).executor_agent,
        final(ctx).authority == old(ctx).authority,
        final(ctx).swarm == old(ctx).swarm,
        final(ctx).membership == old(ctx).membership,
        final(ctx).task.key == old(ctx).task.key,
        match old(ctx).spec_try_accounts() {
            Err(e) => r == Err::<TaskAccepted, _>(e) && final(ctx).task.data == old(ctx).task.data,
            Ok(_) => match accept_refusal(
                old(ctx).executor_agent.data,
                old(ctx).membership.data,
                old(ctx).task.data,
            ) {
                Some(e) => r == Err::<TaskAccepted, _>(Error::Apollo(e)) && final(ctx).task.data
                    == old(ctx).task.data,
                None => {
                    &&& final(ctx).task.data == (Task {
                        executor: old(ctx).executor_agent.key,
                        state: task_state_value(TaskState::Accepted),
                        accepted_at: now,
                        ..old(ctx).task.data
                    })
                    &&& r == Ok::<_, Error>(
                        TaskAccepted {
                            task: old(ctx).task.key,
                            executor: old(ctx).executor_agent.key,
                        },
                    )
                },
            },
        },
{
    ctx.try_accounts()?;
    match crate::instructions::task::accept::handler(ctx, now) {
        Ok(v) => Ok(v),
        Err(e) => Err(Error::Apollo(e)),
    }
}

/// The executor posts the result of an accepted task.
pub fn complete_task(ctx: &mut CompleteTask, result_uri: String, now: i64) -> (r: Result<
    TaskCompleted,
    Error,
>)
    ensures
        final(ctx).executor == old(ctx).executor,
        final(ctx).executor_agent == old(ctx).executor_agent,
        final(ctx).authority == old(ctx).authority,
        final(ctx).swarm == old(ctx).swarm,
        final(ctx).task.key == old(ctx).task.key,
        match old(ctx).spec_try_accounts() {
            Err(e) => r == Err::<TaskCompleted, _>(e) && final(ctx).task.data == old(ctx).task.data,
            Ok(_) => match complete_refusal(old(ctx).task.data, result_uri) {
                Some(e) => r == Err::<TaskCompleted, _>(Error::Apollo(e)) && final(ctx).task.data
                    == old(ctx).task.data,
                None => {
                    &&& final(ctx).task.data == (Task {
                        result_uri,
                        state: task_state_value(TaskState::Completed),
                        completed_at: now,
                        ..old(ctx).task.data
                    })
                    &&& r == Ok::<_, Error>(
                        TaskCompleted {
                            task: old(ctx).task.key,
                            executor: old(ctx).task.data.executor,
                            result_uri,
                        },
                    )
                },
            },
        },
{
    ctx.try_accounts()?;
    match crate::instructions::task::complete::handler(ctx, result_uri, now) {
        Ok(v) => Ok(v),
        Err(e) => Err(Error::Apollo(e)),
    }
}

/// The executor or the swarm's authority aborts an open task.
pub fn fail_task(ctx: &mut FailTask, reason: String) -> (r: Result<TaskFailed, Error>)
    ensures
        final(ctx).signer == old(ctx).signer,
        final(ctx).agent.key == old(ctx).agent.key,
        final(ctx).authority == old(ctx).authority,
        final(ctx).swarm == old(ctx).swarm,
        final(ctx).task.key == old(ctx).task.key,
        match old(ctx).spec_try_accounts() {
            Err(e) => r == Err::<TaskFailed, _>(e) && final(ctx).task.data == old(ctx).task.data
                && final(ctx).agent.data == old(ctx).agent.data,
            Ok(_) => match fail_refusal(old(ctx), reason) {
                Some(e) => r == Err::<TaskFailed, _>(Error::Apollo(e)) && final(ctx).task.data
                    == old(ctx).task.data && final(ctx).agent.data == old(ctx).agent.data,
                None => {
                    &&& final(ctx).task.data == (Task {
                        failure_reason: reason,
                        state: task_state_value(TaskState::Failed),
                        ..old(ctx).task.data
                    })
                    &&& final(ctx).agent.data == if old(ctx).task.data.executor@ == old(ctx).agent.key@ {
                        Agent {
                            tasks_failed: saturating_inc_u64(old(ctx).agent.data.tasks_failed),
                            reputation: saturating_dec(old(ctx).agent.data.reputation),
                            ..old(ctx).agent.data
                        }
                    } else {
                        old(ctx).agent.data
                    }
                    &&& r == Ok::<_, Error>(TaskFailed { task: old(ctx).task.key, reason })
                },
            },
        },
{
    ctx.try_accounts()?;
    match crate::instructions::task::fail::handler(ctx, reason) {
        Ok(v) => Ok(v),
        Err(e) => Err(Error::Apollo(e)),
    }
}

/// A member other than the executor approves a completed task. Gives the new
/// approval account, to be created at `ctx.approval`, and its announcement.
pub fn approve_task(ctx: &mut ApproveTask, now: i64) -> (r: Result<(Approval, TaskApproved), Error>)
    ensures
        final(ctx).approver == old(ctx).approver,
        final(ctx).approver_agent == old(ctx).approver_agent,
        final(ctx).authority == old(ctx).authority,
        final(ctx).swarm == old(ctx).swarm,
        final(ctx).membership == old(ctx).membership,
        final(ctx).task.key == old(ctx).task.key,
        final(ctx).approval == old(ctx).approval,
        match old(ctx).spec_try_accounts() {
            Err(e) => r == Err::<(Approval, TaskApproved), _>(e) && final(ctx).task.data == old(ctx).task.data,
            Ok(bump) => match approve_refusal(old(ctx).approver_agent, old(ctx).task.data) {
                Some(e) => r == Err::<(Approval, TaskApproved), _>(Error::Apollo(e)) && final(ctx).task.data == old(ctx).task.data,
                None => {
                    &&& final(ctx).task.data == (Task {
                        approvals: (old(ctx).task.data.approvals + 1) as u16,
                        ..old(ctx).task.data
                    })
                    &&& r == Ok::<_, Error>(
                        (
                            Approval {
                                task: old(ctx).task.key,
                                approver: old(ctx).approver_agent.key,
                                approved_at: now,
                                bump,
                            },
                            TaskApproved {
                                task: old(ctx).task.key,
                                approver: old(ctx).approver_agent.key,
                                approvals: final(ctx).task.data.approvals,
                                threshold: old(ctx).swarm.data.approval_threshold,
                            },
                        ),
                    )
                },
            },
        },
{
    let bump = ctx.try_accounts()?;
    match crate::instructions::task::approve::handler(ctx, bump, now) {
        Ok(v) => Ok(v),
        Err(e) => Err(Error::Apollo(e)),
    }
}

/// Finalizes a completed task, by the swarm's authority or by the approval
/// threshold, as the swarm's coordination model says.
pub fn verify_task(ctx: &mut VerifyTask) -> (r: Result<TaskVerified, Error>)
    ensures
        final(ctx).signer == old(ctx).signer,
        final(ctx).executor_agent.key == old(ctx).executor_agent.key,
        final(ctx).swarm == old(ctx).swarm,
        final(ctx).task.key == old(ctx).task.key,
        match old(ctx).spec_try_accounts() {
            Err(e) => r == Err::<TaskVerified, _>(e) && final(ctx).task.data == old(ctx).task.data
                && final(ctx).executor_agent.data == old(ctx).executor_agent.data,
            Ok(_) => match verify_refusal(old(ctx).signer, old(ctx).swarm.data, old(ctx).task.data) {
                Some(e) => r == Err::<TaskVerified, _>(Error::Apollo(e)) && final(ctx).task.data
                    == old(ctx).task.data && final(ctx).executor_agent.data == old(ctx).executor_agent.data,
                None => {
                    &&& final(ctx).task.data == (Task {
                        state: task_state_value(TaskState::Verified),
                        ..old(ctx).task.data
                    })
                    &&& final(ctx).executor_agent.data == (Agent {
                        tasks_completed: saturating_inc_u64(
                            old(ctx).executor_agent.data.tasks_completed,
                        ),
                        reputation: saturating_inc(old(ctx).executor_agent.data.reputation),
                        ..old(ctx).executor_agent.data
                    })
                    &&& r == Ok::<_, Error>(TaskVerified { task: old(ctx).task.key })
                },
            },
        },
{
    ctx.try_accounts()?;
    match crate::instructions::task::verify::handler(ctx) {
        Ok(v) => Ok(v),
        Err(e) => Err(Error::Apollo(e)),
    }
}

/// Tops up a swarm's treasury. Gives the transfer for the runtime to make,
/// and the announcement that follows it.
pub fn deposit_treasury(ctx: &DepositTreasury, amount: u64) -> (r: Result<
    (Transfer, TreasuryDeposit),
    Error,
>)
    ensures
        match ctx.spec_try_accounts() {
            Err(e) => r == Err::<(Transfer, TreasuryDeposit), _>(e),
            Ok(_) => r == Ok::<_, Error>(
                (
                    Transfer { from: ctx.payer, to: ctx.treasury, lamports: amount },
                    TreasuryDeposit { swarm: ctx.swarm.key, from: ctx.payer, amount },
                ),
            ),
        },
{
    ctx.try_accounts()?;
    Ok(crate::instructions::treasury::deposit::handler(ctx, amount))
}

/// Pays out a verified task. Gives the transfers for the runtime to make, in
/// order, and the announcement that follows them.
pub fn settle_task(ctx: &mut SettleTask) -> (r: Result<(Vec<Transfer>, TaskSettled), Error>)
    ensures
        final(ctx).signer == old(ctx).signer,
        final(ctx).swarm == old(ctx).swarm,
        final(ctx).task.key == old(ctx).task.key,
        final(ctx).treasury == old(ctx).treasury,
        final(ctx).treasury_lamports == old(ctx).treasury_lamports,
        final(ctx).remaining == old(ctx).remaining,
        match old(ctx).spec_try_accounts() {
            Err(e) => r == Err::<(Vec<Transfer>, TaskSettled), _>(e) && final(ctx).task.data == old(ctx).task.data,
            Ok(_) => match settlement(old(ctx)) {
                Err(e) => r == Err::<(Vec<Transfer>, TaskSettled), _>(e) && final(ctx).task.data
                    == old(ctx).task.data,
                Ok((transfers, paid)) => {
                    &&& final(ctx).task.data == (Task {
                        state: task_state_value(TaskState::Settled),
                        ..old(ctx).task.data
                    })
                    &&& r matches Ok((ts, event)) && ts@ == transfers && event == (TaskSettled {
                        task: old(ctx).task.key,
                        swarm: old(ctx).swarm.key,
                        total_paid: paid,
                        work_based: old(ctx).task.data.work_based,
                    })
                },
            },
        },
{
    ctx.try_accounts()?;
    crate::instructions::treasury::settle::handler(ctx)
}

} // verus!
