use anchor_lang::prelude::Pubkey as AnchorPubkey;
use apollo_swarm::account::Account;
use apollo_swarm::apollo_swarm::{
    accept_task, approve_task, complete_task, create_task, fail_task, settle_task, verify_task,
};
use apollo_swarm::constants::{AGENT_SEED, APPROVAL_SEED, MEMBER_SEED, SWARM_SEED, TASK_SEED, TREASURY_SEED};
use apollo_swarm::errors::{ApolloError, Error, ErrorCode};
use apollo_swarm::instructions::treasury::settle::RemainingAccount;
use apollo_swarm::instructions::{
    AcceptTask, ApproveTask, CompleteTask, CreateTask, FailTask, SettleTask, VerifyTask,
};
use apollo_swarm::pubkey::Pubkey;
use apollo_swarm::state::{Agent, Membership, Swarm, Task, TaskState};

fn key(n: u8) -> Pubkey {
    Pubkey::new_from_array([n; 32])
}

fn pda(seeds: &[&[u8]]) -> (Pubkey, u8) {
    let (k, b) = AnchorPubkey::find_program_address(
        seeds,
        &AnchorPubkey::new_from_array(apollo_swarm::ID_BYTES),
    );
    (Pubkey::new_from_array(k.to_bytes()), b)
}

const GOVERNOR: u8 = 1;
const CREATOR: u8 = 2;
const EXECUTOR: u8 = 3;
const APPROVER: u8 = 4;

fn swarm(coord_model: u8, threshold: u16) -> Account<Swarm> {
    let authority = key(GOVERNOR);
    let (k, bump) = pda(&[&SWARM_SEED, &authority.bytes, &1u64.to_le_bytes()]);
    let (_, treasury_bump) = pda(&[&TREASURY_SEED, &k.bytes]);
    Account {
        key: k,
        data: Swarm {
            authority,
            swarm_id: 1,
            name: "s".to_string(),
            metadata_uri: String::new(),
            coord_model,
            approval_threshold: threshold,
            member_count: 3,
            task_count: 0,
            total_share_bps: 10_000,
            treasury_bump,
            created_at: 0,
            bump,
        },
    }
}

fn agent(n: u8, role: &str) -> Account<Agent> {
    let authority = key(n);
    let (k, bump) = pda(&[&AGENT_SEED, &authority.bytes]);
    Account {
        key: k,
        data: Agent {
            authority,
            role: role.to_string(),
            metadata_uri: String::new(),
            status: 0,
            reputation: 5,
            tasks_completed: 0,
            tasks_failed: 0,
            created_at: 0,
            bump,
        },
    }
}

fn membership(swarm: &Account<Swarm>, agent: &Account<Agent>, role: &str, share: u16) -> Account<Membership> {
    let (k, bump) = pda(&[&MEMBER_SEED, &swarm.key.bytes, &agent.key.bytes]);
    Account {
        key: k,
        data: Membership {
            swarm: swarm.key,
            agent: agent.key,
            role: role.to_string(),
            share_bps: share,
            tasks_executed: 0,
            joined_at: 0,
            bump,
        },
    }
}

fn created(swarm: Account<Swarm>, role: &str, reward: u64, work_based: bool) -> (Account<Swarm>, Account<Task>) {
    let creator = agent(CREATOR, "lead");
    let creator_membership = membership(&swarm, &creator, "lead", 0);
    let (task_key, _) = pda(&[&TASK_SEED, &swarm.key.bytes, &0u64.to_le_bytes()]);
    let mut ctx = CreateTask {
        creator: key(CREATOR),
        creator_agent: creator,
        authority: key(CREATOR),
        swarm,
        creator_membership,
        task: task_key,
    };
    let (task, _) = create_task(&mut ctx, 0, role.to_string(), "ipfs://p".to_string(), reward, work_based, 10).unwrap();
    (ctx.swarm, Account { key: task_key, data: task })
}

fn accepted(swarm: Account<Swarm>, task: Account<Task>) -> (Account<Swarm>, Account<Task>) {
    let exec = agent(EXECUTOR, "worker");
    let m = membership(&swarm, &exec, "worker", 8000);
    let mut ctx = AcceptTask { executor: key(EXECUTOR), executor_agent: exec, authority: key(EXECUTOR), swarm, membership: m, task };
    accept_task(&mut ctx, 20).unwrap();
    (ctx.swarm, ctx.task)
}

fn completed(swarm: Account<Swarm>, task: Account<Task>) -> (Account<Swarm>, Account<Task>) {
    let mut ctx = CompleteTask {
        executor: key(EXECUTOR),
        executor_agent: agent(EXECUTOR, "worker"),
        authority: key(EXECUTOR),
        swarm,
        task,
    };
    complete_task(&mut ctx, "ipfs://r".to_string(), 30).unwrap();
    (ctx.swarm, ctx.task)
}

fn approve_ctx(swarm: Account<Swarm>, task: Account<Task>, n: u8) -> ApproveTask {
    let a = agent(n, "checker");
    let m = membership(&swarm, &a, "checker", 2000);
    let (approval, _) = pda(&[&APPROVAL_SEED, &task.key.bytes, &a.key.bytes]);
    ApproveTask { approver: key(n), approver_agent: a, authority: key(n), swarm, membership: m, task, approval }
}

#[test]
fn create_task_takes_the_next_number() {
    let (swarm, task) = created(swarm(1, 1), "worker", 1_000_000, true);
    assert_eq!(swarm.data.task_count, 1);
    assert_eq!(task.data.task_id, 0);
    assert_eq!(task.data.state, TaskState::Created.as_u8());
    assert_eq!(task.data.executor, Pubkey::zeroed());
    assert_eq!(task.data.reward, 1_000_000);
    assert!(task.data.work_based);
    assert_eq!(task.data.result_uri, "");
    assert_eq!(task.data.failure_reason, "");
    assert_eq!(task.data.approvals, 0);
    assert_eq!(task.data.created_at, 10);
    assert_eq!(task.data.swarm, swarm.key);
    assert_eq!(task.data.creator, agent(CREATOR, "lead").key);
}

#[test]
fn tasks_are_numbered_in_order() {
    let s = swarm(1, 1);
    let creator = agent(CREATOR, "lead");
    let cm = membership(&s, &creator, "lead", 0);
    let mut ctx = CreateTask { creator: key(CREATOR), creator_agent: creator, authority: key(CREATOR), swarm: s, creator_membership: cm, task: key(0) };
    for id in 0u64..3 {
        let (task_key, _) = pda(&[&TASK_SEED, &ctx.swarm.key.bytes, &id.to_le_bytes()]);
        ctx.task = task_key;
        let (task, event) = create_task(&mut ctx, id, String::new(), String::new(), 1, false, 0).unwrap();
        assert_eq!(task.task_id, id);
        assert_eq!(event.task_id, id);
        assert_eq!(ctx.swarm.data.task_count, id + 1);
    }
    assert_eq!(ctx.swarm.data.task_count, 3);
}

#[test]
fn create_task_refusals() {
    let s = swarm(1, 1);
    let creator = agent(CREATOR, "lead");
    let cm = membership(&s, &creator, "lead", 0);
    let (task_key, _) = pda(&[&TASK_SEED, &s.key.bytes, &1u64.to_le_bytes()]);
    let mut ctx = CreateTask { creator: key(CREATOR), creator_agent: creator, authority: key(CREATOR), swarm: s, creator_membership: cm, task: task_key };
    // Task number 1 while the swarm counts 0 tasks.
    let r = create_task(&mut ctx, 1, String::new(), String::new(), 0, false, 0);
    assert_eq!(r.err(), Some(Error::Apollo(ApolloError::InvalidTaskState)));
    assert_eq!(ctx.swarm.data.task_count, 0);
    // The address must be the one of the number given.
    let r = create_task(&mut ctx, 0, String::new(), String::new(), 0, false, 0);
    assert_eq!(r.err(), Some(Error::Anchor(ErrorCode::ConstraintSeeds)));
    // An authority account other than the signer.
    ctx.authority = key(9);
    let r = create_task(&mut ctx, 1, String::new(), String::new(), 0, false, 0);
    assert_eq!(r.err(), Some(Error::Apollo(ApolloError::UnauthorizedAgent)));
    // An agent whose authority is not the signer although it is named.
    ctx.authority = key(9);
    ctx.creator_agent.data.authority = key(9);
    let r = create_task(&mut ctx, 1, String::new(), String::new(), 0, false, 0);
    assert_eq!(r.err(), Some(Error::Anchor(ErrorCode::ConstraintRaw)));
}

#[test]
fn accept_task_checks_state_and_role() {
    let (s, task) = created(swarm(1, 1), "auditor", 5, false);
    let exec = agent(EXECUTOR, "worker");
    let m = membership(&s, &exec, "worker", 8000);
    let mut ctx = AcceptTask { executor: key(EXECUTOR), executor_agent: exec, authority: key(EXECUTOR), swarm: s, membership: m, task };
    assert_eq!(accept_task(&mut ctx, 1).err(), Some(Error::Apollo(ApolloError::RoleMismatch)));
    assert_eq!(ctx.task.data.state, 0);
    // The membership's role is enough.
    ctx.membership.data.role = "auditor".to_string();
    let event = accept_task(&mut ctx, 21).unwrap();
    assert_eq!(ctx.task.data.state, TaskState::Accepted.as_u8());
    assert_eq!(ctx.task.data.executor, ctx.executor_agent.key);
    assert_eq!(ctx.task.data.accepted_at, 21);
    assert_eq!(event.executor, ctx.executor_agent.key);
    // A second acceptance is refused.
    assert_eq!(accept_task(&mut ctx, 22).err(), Some(Error::Apollo(ApolloError::InvalidTaskState)));
    assert_eq!(ctx.task.data.accepted_at, 21);
}

#[test]
fn accept_task_with_no_required_role() {
    let (s, task) = created(swarm(1, 1), "", 5, false);
    let exec = agent(EXECUTOR, "anything");
    let m = membership(&s, &exec, "other", 8000);
    let mut ctx = AcceptTask { executor: key(EXECUTOR), executor_agent: exec, authority: key(EXECUTOR), swarm: s, membership: m, task };
    assert!(accept_task(&mut ctx, 1).is_ok());
    // An inactive agent is refused before anything else.
    let (s, task) = created(swarm(1, 1), "", 5, false);
    let mut exec = agent(EXECUTOR, "x");
    exec.data.status = 2;
    let m = membership(&s, &exec, "x", 0);
    let mut ctx = AcceptTask { executor: key(EXECUTOR), executor_agent: exec, authority: key(EXECUTOR), swarm: s, membership: m, task };
    assert_eq!(accept_task(&mut ctx, 1).err(), Some(Error::Apollo(ApolloError::AgentInactive)));
}

#[test]
fn only_the_executor_completes() {
    let (s, t) = created(swarm(1, 1), "worker", 5, false);
    let (s, t) = accepted(s, t);
    let mut ctx = CompleteTask { executor: key(APPROVER), executor_agent: agent(APPROVER, "x"), authority: key(APPROVER), swarm: s, task: t };
    assert_eq!(complete_task(&mut ctx, String::new(), 0).err(), Some(Error::Apollo(ApolloError::ExecutorMismatch)));
    let mut ctx = CompleteTask { executor: key(EXECUTOR), executor_agent: agent(EXECUTOR, "worker"), authority: key(EXECUTOR), swarm: ctx.swarm, task: ctx.task };
    assert_eq!(complete_task(&mut ctx, "r".repeat(201), 0).err(), Some(Error::Apollo(ApolloError::StringTooLong)));
    let event = complete_task(&mut ctx, "ipfs://r".to_string(), 31).unwrap();
    assert_eq!(ctx.task.data.state, TaskState::Completed.as_u8());
    assert_eq!(ctx.task.data.result_uri, "ipfs://r");
    assert_eq!(ctx.task.data.completed_at, 31);
    assert_eq!(event.result_uri, "ipfs://r");
    assert_eq!(complete_task(&mut ctx, String::new(), 32).err(), Some(Error::Apollo(ApolloError::InvalidTaskState)));
}

#[test]
fn verify_task_takes_the_executor_agent_at_its_own_address() {
    let (s, t) = created(swarm(0, 0), "worker", 5, false);
    let (s, t) = accepted(s, t);
    let (s, t) = completed(s, t);
    // An agent account at an address that its authority does not derive.
    let mut wrong = agent(EXECUTOR, "worker");
    wrong.key = key(66);
    let mut ctx = VerifyTask { signer: key(GOVERNOR), executor_agent: wrong, swarm: s, task: t };
    assert_eq!(verify_task(&mut ctx).err(), Some(Error::Anchor(ErrorCode::ConstraintSeeds)));
    assert_eq!(ctx.task.data.state, TaskState::Completed.as_u8());
    // A real agent that is not the task's executor.
    ctx.executor_agent = agent(APPROVER, "checker");
    assert_eq!(verify_task(&mut ctx).err(), Some(Error::Apollo(ApolloError::ExecutorMismatch)));
    assert_eq!(ctx.executor_agent.data.tasks_completed, 0);
    // The executor's own agent account passes.
    ctx.executor_agent = agent(EXECUTOR, "worker");
    let event = verify_task(&mut ctx).unwrap();
    assert_eq!(event.task, ctx.task.key);
    assert_eq!(ctx.task.data.state, TaskState::Verified.as_u8());
    assert_eq!(ctx.executor_agent.data.tasks_completed, 1);
    assert_eq!(ctx.executor_agent.data.reputation, 6);
}

#[test]
fn threshold_verification_needs_enough_approvals() {
    let (s, t) = created(swarm(1, 2), "worker", 5, false);
    let (s, t) = accepted(s, t);
    let (s, t) = completed(s, t);
    let mut ctx = VerifyTask { signer: key(GOVERNOR), executor_agent: agent(EXECUTOR, "worker"), swarm: s, task: t };
    assert_eq!(verify_task(&mut ctx).err(), Some(Error::Apollo(ApolloError::ThresholdNotMet)));
    let mut ap = approve_ctx(ctx.swarm, ctx.task, APPROVER);
    let (approval, event) = approve_task(&mut ap, 40).unwrap();
    assert_eq!(approval.task, ap.task.key);
    assert_eq!(approval.approver, ap.approver_agent.key);
    assert_eq!(approval.approved_at, 40);
    assert_eq!(event.approvals, 1);
    assert_eq!(event.threshold, 2);
    let mut ap2 = approve_ctx(ap.swarm, ap.task, 5);
    approve_task(&mut ap2, 41).unwrap();
    assert_eq!(ap2.task.data.approvals, 2);
    let mut ctx = VerifyTask { signer: key(77), executor_agent: agent(EXECUTOR, "worker"), swarm: ap2.swarm, task: ap2.task };
    verify_task(&mut ctx).unwrap();
    assert_eq!(ctx.task.data.state, TaskState::Verified.as_u8());
    assert_eq!(ctx.executor_agent.data.tasks_completed, 1);
    assert_eq!(ctx.executor_agent.data.reputation, 6);
}

#[test]
fn executor_cannot_approve_its_own_task() {
    let (s, t) = created(swarm(1, 1), "worker", 5, false);
    let (s, t) = accepted(s, t);
    let (s, t) = completed(s, t);
    let mut ap = approve_ctx(s, t, EXECUTOR);
    assert_eq!(approve_task(&mut ap, 0).err(), Some(Error::Apollo(ApolloError::UnauthorizedAgent)));
    assert_eq!(ap.task.data.approvals, 0);
    // An approval before completion is refused.
    let (s, t) = created(swarm(1, 1), "worker", 5, false);
    let mut ap = approve_ctx(s, t, APPROVER);
    assert_eq!(approve_task(&mut ap, 0).err(), Some(Error::Apollo(ApolloError::InvalidTaskState)));
    // The approval address must derive from task and approver.
    let (s, t) = created(swarm(1, 1), "worker", 5, false);
    let (s, t) = accepted(s, t);
    let (s, t) = completed(s, t);
    let mut ap = approve_ctx(s, t, APPROVER);
    ap.approval = key(60);
    assert_eq!(approve_task(&mut ap, 0).err(), Some(Error::Anchor(ErrorCode::ConstraintSeeds)));
}

#[test]
fn role_based_verification_by_the_authority_only() {
    let (s, t) = created(swarm(0, 0), "worker", 5, false);
    let (s, t) = accepted(s, t);
    let (s, t) = completed(s, t);
    let mut ctx = VerifyTask { signer: key(EXECUTOR), executor_agent: agent(EXECUTOR, "worker"), swarm: s, task: t };
    assert_eq!(verify_task(&mut ctx).err(), Some(Error::Apollo(ApolloError::UnauthorizedSwarm)));
    assert_eq!(ctx.executor_agent.data.tasks_completed, 0);
    ctx.signer = key(GOVERNOR);
    assert!(verify_task(&mut ctx).is_ok());
    // A second verification is refused.
    assert_eq!(verify_task(&mut ctx).err(), Some(Error::Apollo(ApolloError::InvalidTaskState)));
    // Round robin verifies the same way; a model number out of range too.
    for model in [2u8, 200u8] {
        let (s, t) = created(swarm(model, 0), "worker", 5, false);
        let (s, t) = accepted(s, t);
        let (s, t) = completed(s, t);
        let mut ctx = VerifyTask { signer: key(EXECUTOR), executor_agent: agent(EXECUTOR, "worker"), swarm: s, task: t };
        assert_eq!(verify_task(&mut ctx).err(), Some(Error::Apollo(ApolloError::UnauthorizedSwarm)));
    }
}

#[test]
fn reputation_is_held_at_its_bounds() {
    let (s, t) = created(swarm(0, 0), "worker", 5, false);
    let (s, t) = accepted(s, t);
    let (s, t) = completed(s, t);
    let mut exec = agent(EXECUTOR, "worker");
    exec.data.reputation = i64::MAX;
    exec.data.tasks_completed = u64::MAX;
    let mut ctx = VerifyTask { signer: key(GOVERNOR), executor_agent: exec, swarm: s, task: t };
    verify_task(&mut ctx).unwrap();
    assert_eq!(ctx.executor_agent.data.reputation, i64::MAX);
    assert_eq!(ctx.executor_agent.data.tasks_completed, u64::MAX);
}

#[test]
fn executor_fails_its_own_task() {
    let (s, t) = created(swarm(1, 1), "worker", 5, false);
    let (s, t) = accepted(s, t);
    let mut ctx = FailTask { signer: key(EXECUTOR), agent: agent(EXECUTOR, "worker"), authority: key(EXECUTOR), swarm: s, task: t };
    assert_eq!(fail_task(&mut ctx, "x".repeat(129)).err(), Some(Error::Apollo(ApolloError::StringTooLong)));
    let event = fail_task(&mut ctx, "gave up".to_string()).unwrap();
    assert_eq!(event.reason, "gave up");
    assert_eq!(ctx.task.data.state, TaskState::Failed.as_u8());
    assert_eq!(ctx.task.data.failure_reason, "gave up");
    assert_eq!(ctx.agent.data.tasks_failed, 1);
    assert_eq!(ctx.agent.data.reputation, 4);
    // A failed task cannot fail again.
    assert_eq!(fail_task(&mut ctx, String::new()).err(), Some(Error::Apollo(ApolloError::InvalidTaskState)));
    assert_eq!(ctx.agent.data.tasks_failed, 1);
}

#[test]
fn swarm_authority_fails_a_task_without_penalty() {
    let (s, t) = created(swarm(1, 1), "worker", 5, false);
    let mut gov = agent(GOVERNOR, "gov");
    gov.data.reputation = i64::MIN;
    let mut ctx = FailTask { signer: key(GOVERNOR), agent: gov, authority: key(GOVERNOR), swarm: s, task: t };
    fail_task(&mut ctx, "cancelled".to_string()).unwrap();
    assert_eq!(ctx.task.data.state, TaskState::Failed.as_u8());
    assert_eq!(ctx.agent.data.tasks_failed, 0);
    assert_eq!(ctx.agent.data.reputation, i64::MIN);
    // Anyone else is refused.
    let (s, t) = created(swarm(1, 1), "worker", 5, false);
    let mut ctx = FailTask { signer: key(APPROVER), agent: agent(APPROVER, "x"), authority: key(APPROVER), swarm: s, task: t };
    assert_eq!(fail_task(&mut ctx, String::new()).err(), Some(Error::Apollo(ApolloError::UnauthorizedAgent)));
    assert_eq!(ctx.task.data.state, 0);
}

#[test]
fn reputation_floor_when_failing() {
    let (s, t) = created(swarm(1, 1), "worker", 5, false);
    let (s, t) = accepted(s, t);
    let mut exec = agent(EXECUTOR, "worker");
    exec.data.reputation = i64::MIN;
    let mut ctx = FailTask { signer: key(EXECUTOR), agent: exec, authority: key(EXECUTOR), swarm: s, task: t };
    fail_task(&mut ctx, String::new()).unwrap();
    assert_eq!(ctx.agent.data.reputation, i64::MIN);
}

fn verified(work_based: bool, reward: u64) -> (Account<Swarm>, Account<Task>) {
    let (s, t) = created(swarm(0, 0), "worker", reward, work_based);
    let (s, t) = accepted(s, t);
    let (s, t) = completed(s, t);
    let mut ctx = VerifyTask { signer: key(GOVERNOR), executor_agent: agent(EXECUTOR, "worker"), swarm: s, task: t };
    verify_task(&mut ctx).unwrap();
    (ctx.swarm, ctx.task)
}

fn pair(m: Account<Membership>, recipient: Pubkey) -> Vec<RemainingAccount> {
    vec![
        RemainingAccount { key: m.key, membership: Ok(m.data) },
        RemainingAccount { key: recipient, membership: Err(ErrorCode::AccountOwnedByWrongProgram) },
    ]
}

fn settle_ctx(s: Account<Swarm>, t: Account<Task>, lamports: u64, remaining: Vec<RemainingAccount>) -> SettleTask {
    let (treasury, _) = pda(&[&TREASURY_SEED, &s.key.bytes]);
    SettleTask { signer: key(GOVERNOR), swarm: s, task: t, treasury, treasury_lamports: lamports, remaining }
}

#[test]
fn work_based_settlement_pays_the_executor() {
    let (s, t) = verified(true, 1_000_000);
    let m = membership(&s, &agent(EXECUTOR, "worker"), "worker", 8000);
    let mut ctx = settle_ctx(s, t, 1_000_000, pair(m, key(90)));
    let (transfers, event) = settle_task(&mut ctx).unwrap();
    assert_eq!(transfers.len(), 1);
    assert_eq!(transfers[0].from, ctx.treasury);
    assert_eq!(transfers[0].to, key(90));
    assert_eq!(transfers[0].lamports, 1_000_000);
    assert_eq!(event.total_paid, 1_000_000);
    assert!(event.work_based);
    assert_eq!(ctx.task.data.state, TaskState::Settled.as_u8());
    // Settled is final.
    assert_eq!(settle_task(&mut ctx).err(), Some(Error::Apollo(ApolloError::InvalidTaskState)));
}

#[test]
fn work_based_settlement_refusals() {
    let (s, t) = verified(true, 1_000);
    let other = membership(&s, &agent(APPROVER, "x"), "x", 2000);
    let mut ctx = settle_ctx(s, t, 1_000, pair(other, key(90)));
    assert_eq!(settle_task(&mut ctx).err(), Some(Error::Apollo(ApolloError::ExecutorMismatch)));
    // The treasury must hold the reward.
    ctx.treasury_lamports = 999;
    assert_eq!(settle_task(&mut ctx).err(), Some(Error::Apollo(ApolloError::InsufficientTreasury)));
    // Pairs only, not empty, exactly one for work-based tasks.
    ctx.treasury_lamports = 1_000;
    ctx.remaining.pop();
    assert_eq!(settle_task(&mut ctx).err(), Some(Error::Apollo(ApolloError::InvalidMemberCount)));
    ctx.remaining.clear();
    assert_eq!(settle_task(&mut ctx).err(), Some(Error::Apollo(ApolloError::InvalidMemberCount)));
    assert_eq!(ctx.task.data.state, TaskState::Verified.as_u8());
}

#[test]
fn share_based_settlement_splits_the_reward() {
    let (mut s, t) = verified(false, 1_000_001);
    s.data.total_share_bps = 10_000;
    let a = membership(&s, &agent(EXECUTOR, "worker"), "worker", 8000);
    let b = membership(&s, &agent(APPROVER, "x"), "x", 2000);
    let mut remaining = pair(a, key(91));
    remaining.extend(pair(b, key(92)));
    let mut ctx = settle_ctx(s, t, 2_000_000, remaining);
    let (transfers, event) = settle_task(&mut ctx).unwrap();
    assert_eq!(transfers.len(), 2);
    assert_eq!(transfers[0].to, key(91));
    assert_eq!(transfers[0].lamports, 800_000);
    assert_eq!(transfers[1].to, key(92));
    assert_eq!(transfers[1].lamports, 200_000);
    assert_eq!(event.total_paid, 1_000_000);
    assert!(event.total_paid <= ctx.task.data.reward);
    assert!(!event.work_based);
}

#[test]
fn share_based_settlement_needs_every_share() {
    let (mut s, t) = verified(false, 100);
    s.data.total_share_bps = 10_000;
    let a = membership(&s, &agent(EXECUTOR, "worker"), "worker", 8000);
    let mut ctx = settle_ctx(s, t, 100, pair(a, key(91)));
    assert_eq!(settle_task(&mut ctx).err(), Some(Error::Apollo(ApolloError::InvalidMemberCount)));
    assert_eq!(ctx.task.data.state, TaskState::Verified.as_u8());
}

#[test]
fn share_based_settlement_skips_empty_payouts() {
    let (mut s, t) = verified(false, 3);
    s.data.total_share_bps = 10_000;
    let a = membership(&s, &agent(EXECUTOR, "worker"), "worker", 9999);
    let b = membership(&s, &agent(APPROVER, "x"), "x", 1);
    let mut remaining = pair(a, key(91));
    remaining.extend(pair(b, key(92)));
    let mut ctx = settle_ctx(s, t, 3, remaining);
    let (transfers, event) = settle_task(&mut ctx).unwrap();
    assert_eq!(transfers.len(), 1);
    assert_eq!(transfers[0].lamports, 2);
    assert_eq!(event.total_paid, 2);
}

#[test]
fn share_based_settlement_reads_every_membership() {
    let (mut s, t) = verified(false, 100);
    s.data.total_share_bps = 10_000;
    let a = membership(&s, &agent(EXECUTOR, "worker"), "worker", 10_000);
    let mut remaining = pair(a, key(91));
    remaining[0].membership = Err(ErrorCode::AccountDidNotDeserialize);
    let mut ctx = settle_ctx(s, t, 100, remaining);
    assert_eq!(settle_task(&mut ctx).err(), Some(Error::Anchor(ErrorCode::AccountDidNotDeserialize)));
    // A membership at an address that does not derive from it.
    let (mut s, t) = verified(false, 100);
    s.data.total_share_bps = 10_000;
    let mut a = membership(&s, &agent(EXECUTOR, "worker"), "worker", 10_000);
    a.key = key(55);
    let mut ctx = settle_ctx(s, t, 100, pair(a, key(91)));
    assert_eq!(settle_task(&mut ctx).err(), Some(Error::Apollo(ApolloError::NotMember)));
}

#[test]
fn settlement_refuses_a_membership_listed_twice() {
    let (mut s, t) = verified(false, 1_000_000);
    s.data.total_share_bps = 10_000;
    let a = membership(&s, &agent(EXECUTOR, "worker"), "worker", 5000);
    let b = membership(&s, &agent(APPROVER, "x"), "x", 5000);
    let again = membership(&s, &agent(EXECUTOR, "worker"), "worker", 5000);
    let mut remaining = pair(a, key(91));
    remaining.extend(pair(again, key(92)));
    let mut ctx = settle_ctx(s, t, 10_000_000, remaining);
    assert_eq!(settle_task(&mut ctx).err(), Some(Error::Apollo(ApolloError::InvalidMemberCount)));
    assert_eq!(ctx.task.data.state, TaskState::Verified.as_u8());
    // With each member listed once, both are paid their share.
    let a = membership(&ctx.swarm, &agent(EXECUTOR, "worker"), "worker", 5000);
    let mut remaining = pair(a, key(91));
    remaining.extend(pair(b, key(92)));
    ctx.remaining = remaining;
    let (transfers, event) = settle_task(&mut ctx).unwrap();
    assert_eq!(transfers.len(), 2);
    assert_eq!(transfers[0].lamports, 500_000);
    assert_eq!(transfers[1].lamports, 500_000);
    assert_eq!(event.total_paid, 1_000_000);
    assert_eq!(ctx.task.data.state, TaskState::Settled.as_u8());
}

#[test]
fn settlement_with_no_shares_pays_nothing() {
    let (mut s, t) = verified(false, 100);
    s.data.total_share_bps = 0;
    let a = membership(&s, &agent(EXECUTOR, "worker"), "worker", 0);
    let mut ctx = settle_ctx(s, t, 100, pair(a, key(91)));
    let (transfers, event) = settle_task(&mut ctx).unwrap();
    assert!(transfers.is_empty());
    assert_eq!(event.total_paid, 0);
}

#[test]
fn settlement_needs_a_verified_task() {
    let (s, t) = created(swarm(0, 0), "worker", 5, true);
    let m = membership(&s, &agent(EXECUTOR, "worker"), "worker", 8000);
    let mut ctx = settle_ctx(s, t, 5, pair(m, key(90)));
    assert_eq!(settle_task(&mut ctx).err(), Some(Error::Apollo(ApolloError::InvalidTaskState)));
    // The treasury must be the swarm's.
    ctx.treasury = key(3);
    assert_eq!(settle_task(&mut ctx).err(), Some(Error::Anchor(ErrorCode::ConstraintSeeds)));
}

#[test]
fn finished_tasks_are_final() {
    let (s, t) = created(swarm(1, 1), "", 5, false);
    let mut ctx = FailTask { signer: key(GOVERNOR), agent: agent(GOVERNOR, "gov"), authority: key(GOVERNOR), swarm: s, task: t };
    fail_task(&mut ctx, "stop".to_string()).unwrap();
    let exec = agent(EXECUTOR, "worker");
    let m = membership(&ctx.swarm, &exec, "worker", 0);
    let mut acc = AcceptTask { executor: key(EXECUTOR), executor_agent: exec, authority: key(EXECUTOR), swarm: ctx.swarm, membership: m, task: ctx.task };
    assert_eq!(accept_task(&mut acc, 0).err(), Some(Error::Apollo(ApolloError::InvalidTaskState)));
    acc.task.data.executor = acc.executor_agent.key;
    let mut com = CompleteTask { executor: key(EXECUTOR), executor_agent: acc.executor_agent, authority: key(EXECUTOR), swarm: acc.swarm, task: acc.task };
    assert_eq!(complete_task(&mut com, String::new(), 0).err(), Some(Error::Apollo(ApolloError::InvalidTaskState)));
    let mut ap = approve_ctx(com.swarm, com.task, APPROVER);
    assert_eq!(approve_task(&mut ap, 0).err(), Some(Error::Apollo(ApolloError::InvalidTaskState)));
    let mut v = VerifyTask { signer: key(GOVERNOR), executor_agent: agent(EXECUTOR, "worker"), swarm: ap.swarm, task: ap.task };
    assert_eq!(verify_task(&mut v).err(), Some(Error::Apollo(ApolloError::InvalidTaskState)));
    let m = membership(&v.swarm, &agent(EXECUTOR, "worker"), "worker", 0);
    let mut st = settle_ctx(v.swarm, v.task, 100, pair(m, key(90)));
    assert_eq!(settle_task(&mut st).err(), Some(Error::Apollo(ApolloError::InvalidTaskState)));
    assert_eq!(st.task.data.state, TaskState::Failed.as_u8());
}

#[test]
fn task_state_numbers_round_trip() {
    for s in [
        TaskState::Created,
        TaskState::Accepted,
        TaskState::Completed,
        TaskState::Verified,
        TaskState::Failed,
        TaskState::Settled,
    ] {
        assert_eq!(TaskState::from(s.as_u8()), s);
    }
    assert_eq!(TaskState::from(6u8), TaskState::Created);
    assert_eq!(TaskState::Settled.as_u8(), 5);
}
