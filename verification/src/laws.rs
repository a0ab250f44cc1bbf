//! Properties of the program that span its instructions.
use vstd::prelude::*;

use crate::account::{Account, Transfer};
use crate::constants::{BPS_DENOMINATOR, MAX_METADATA_URI_LEN, MAX_REASON_LEN};
use crate::errors::{ApolloError, ErrorCode};
use crate::instructions::agent::register::registered_agent;
use crate::instructions::agent::update::{update_refusal, updated_agent};
use crate::instructions::swarm::create::create_swarm_refusal;
use crate::instructions::swarm::add_member::add_member_refusal;
use crate::instructions::swarm::remove_member::remove_member_refusal;
use crate::instructions::task::accept::accept_refusal;
use crate::instructions::task::approve::approve_refusal;
use crate::instructions::task::complete::complete_refusal;
use crate::instructions::task::create::create_task_refusal;
use crate::instructions::task::fail::fail_refusal;
use crate::instructions::task::verify::verify_refusal;
use crate::instructions::treasury::settle::{
    listed_earlier, pair_member_key, parsed_membership, settlement, share_amount, share_divisor, share_payouts,
    RemainingAccount,
};
use crate::instructions::{
    AcceptTask, AddMember, ApproveTask, CompleteTask, FailTask, RegisterAgent, RemoveMember,
    SettleTask, UpdateAgent, VerifyTask,
};
use crate::pda::{
    agent_seeds, member_seeds, bump_search, derived_from, found_program_address, program_address,
    seeds_within_limits, with_bump,
};
use crate::program_id_bytes;
use crate::pubkey::Pubkey;
use crate::state::agent::{agent_status_of, agent_status_value};
use crate::state::swarm::{coord_model_of, coord_model_value};
use crate::state::task::{task_state_of, task_state_value};
use crate::state::{Agent, AgentStatus, CoordModel, Membership, Swarm, Task, TaskState};
use crate::text::byte_len;

verus! {

/// The lamports that a list of transfers moves.
pub open spec fn lamports_total(ts: Seq<Transfer>) -> int
    decreases ts.len(),
{
    if ts.len() == 0 {
        0
    } else {
        lamports_total(ts.drop_last()) + ts.last().lamports
    }
}

/// What holds of the share-based payouts of a prefix of the pairs: the share
/// sum is not negative, every transfer leaves the treasury, the sum paid is
/// what the transfers move, and, while the share sum is at most the divisor,
/// the divisor times the sum paid is at most the reward times the share sum.
proof fn lemma_share_payouts_bound(
    remaining: Seq<RemainingAccount>,
    swarm: Seq<u8>,
    treasury: Pubkey,
    reward: u64,
    divisor: u16,
    n: nat,
)
    requires
        divisor > 0,
    ensures
        share_payouts(remaining, swarm, treasury, reward, divisor, n) matches Ok((sum, ts, paid)) ==> {
            &&& 0 <= sum
            &&& 0 <= paid <= u64::MAX
            &&& lamports_total(ts) == paid
            &&& forall|i: int| 0 <= i < ts.len() ==> (#[trigger] ts[i]).from == treasury
            &&& sum <= divisor ==> divisor * paid <= reward * sum
        },
    decreases n,
{
    if n > 0 {
        let prev = share_payouts(remaining, swarm, treasury, reward, divisor, (n - 1) as nat);
        lemma_share_payouts_bound(remaining, swarm, treasury, reward, divisor, (n - 1) as nat);
        if let Ok((sum0, ts0, paid0)) = prev {
            if let Ok((sum, ts, paid)) = share_payouts(
                remaining,
                swarm,
                treasury,
                reward,
                divisor,
                n,
            ) {
                let s: int = sum - sum0;
                let d: int = divisor as int;
                let r: int = reward as int;
                let q: int = (r * s) / d;
                assert(0 <= s <= u16::MAX);
                if sum <= d {
                    assert(s <= d);
                    assert(0 <= r * s <= r * d) by (nonlinear_arith)
                        requires
                            0 <= s <= d,
                            0 <= r,
                    ;
                    vstd::arithmetic::div_mod::lemma_div_is_ordered(r * s, r * d, d);
                    vstd::arithmetic::div_mod::lemma_div_multiples_vanish(r, d);
                    assert(d * r == r * d) by (nonlinear_arith);
                    vstd::arithmetic::div_mod::lemma_fundamental_div_mod(r * s, d);
                    assert(0 <= (r * s) % d) by {
                        vstd::arithmetic::div_mod::lemma_mod_pos_bound(r * s, d);
                    }
                    assert(0 <= q <= r);
                    assert(share_amount(reward, sum_share(sum, sum0), divisor) == q);
                    assert(d * q <= r * s);
                    if paid == paid0 {
                        assert(d * paid <= r * sum) by (nonlinear_arith)
                            requires
                                d * paid0 <= r * sum0,
                                paid == paid0,
                                sum == sum0 + s,
                                0 <= s,
                                0 <= r,
                        ;
                    } else {
                        assert(paid == paid0 + q);
                        assert(d * paid <= r * sum) by (nonlinear_arith)
                            requires
                                d * paid0 <= r * sum0,
                                paid == paid0 + q,
                                sum == sum0 + s,
                                d * q <= r * s,
                        ;
                    }
                }
                if ts.len() > ts0.len() {
                    assert(ts.drop_last() =~= ts0);
                } else {
                    assert(ts =~= ts0);
                }
            }
        }
    }
}

/// The share value whose difference the payout of one pair adds.
spec fn sum_share(sum: int, sum0: int) -> u16 {
    (sum - sum0) as u16
}

/// A settlement never pays more than the task's reward, and the reward is in
/// the treasury: the transfers all leave the treasury, and together they move
/// exactly the sum announced as paid.
pub proof fn settlement_within_reward(ctx: &SettleTask)
    ensures
        settlement(ctx) matches Ok((ts, paid)) ==> {
            &&& paid <= ctx.task.data.reward <= ctx.treasury_lamports
            &&& lamports_total(ts) == paid
            &&& forall|i: int| 0 <= i < ts.len() ==> (#[trigger] ts[i]).from == ctx.treasury
        },
{
    if let Ok((ts, paid)) = settlement(ctx) {
        if ctx.task.data.work_based {
            assert(ts.len() == 1);
            assert(ts.drop_last() =~= Seq::<Transfer>::empty());
            assert(lamports_total(Seq::<Transfer>::empty()) == 0);
            assert(lamports_total(ts) == ts.last().lamports);
        } else {
            let d = share_divisor(ctx.swarm.data);
            let n = (ctx.remaining@.len() / 2) as nat;
            lemma_share_payouts_bound(
                ctx.remaining@,
                ctx.swarm.key@,
                ctx.treasury,
                ctx.task.data.reward,
                d,
                n,
            );
            let (sum, ts1, paid1) = share_payouts(
                ctx.remaining@,
                ctx.swarm.key@,
                ctx.treasury,
                ctx.task.data.reward,
                d,
                n,
            ).unwrap();
            assert(sum == ctx.swarm.data.total_share_bps);
            let r = ctx.task.data.reward as int;
            if ctx.swarm.data.total_share_bps == 0 {
                assert(d == BPS_DENOMINATOR);
                assert(d * paid1 <= 0) by (nonlinear_arith)
                    requires
                        d * paid1 <= r * sum,
                        sum == 0,
                ;
                assert(paid1 <= 0) by (nonlinear_arith)
                    requires
                        d * paid1 <= 0,
                        d > 0,
                ;
            } else {
                assert(paid1 <= r) by (nonlinear_arith)
                    requires
                        d * paid1 <= r * sum,
                        sum == d,
                        d > 0,
                ;
            }
        }
    }
}

/// The share-based payouts of the first `n` pairs succeed only when no
/// membership account is listed in two of them.
proof fn lemma_share_payouts_distinct(
    remaining: Seq<RemainingAccount>,
    swarm: Seq<u8>,
    treasury: Pubkey,
    reward: u64,
    divisor: u16,
    n: nat,
)
    ensures
        share_payouts(remaining, swarm, treasury, reward, divisor, n) is Ok ==> forall|i: int, j: int|
            0 <= i < j < n ==> pair_member_key(remaining, i) != pair_member_key(remaining, j),
    decreases n,
{
    if n > 0 {
        lemma_share_payouts_distinct(remaining, swarm, treasury, reward, divisor, (n - 1) as nat);
        if share_payouts(remaining, swarm, treasury, reward, divisor, n) is Ok {
            assert(!listed_earlier(remaining, n - 1));
            assert forall|i: int, j: int| 0 <= i < j < n implies pair_member_key(remaining, i)
                != pair_member_key(remaining, j) by {
                if j == n - 1 {
                    if pair_member_key(remaining, i) == pair_member_key(remaining, j) {
                        assert(listed_earlier(remaining, n - 1));
                    }
                }
            }
        }
    }
}

/// A share-based settlement has one pair per paid member: no membership
/// account is listed in two pairs, so no member is paid twice in place of
/// another.
pub proof fn settlement_pays_each_member_once(ctx: &SettleTask)
    ensures
        !ctx.task.data.work_based && settlement(ctx) is Ok ==> forall|i: int, j: int|
            0 <= i < j < ctx.remaining@.len() / 2 ==> pair_member_key(ctx.remaining@, i)
                != pair_member_key(ctx.remaining@, j),
{
    lemma_share_payouts_distinct(
        ctx.remaining@,
        ctx.swarm.key@,
        ctx.treasury,
        ctx.task.data.reward,
        share_divisor(ctx.swarm.data),
        (ctx.remaining@.len() / 2) as nat,
    );
}

/// The shares of a list of memberships, added up.
pub open spec fn share_total(ms: Seq<Membership>) -> int
    decreases ms.len(),
{
    if ms.len() == 0 {
        0
    } else {
        share_total(ms.drop_last()) + ms.last().share_bps
    }
}

/// The swarm after `add_member` accepted a member with `share_bps`.
pub open spec fn swarm_after_add(swarm: Swarm, share_bps: u16) -> Swarm {
    Swarm {
        member_count: (swarm.member_count + 1) as u32,
        total_share_bps: (swarm.total_share_bps + share_bps) as u16,
        ..swarm
    }
}

/// The swarm after `remove_member` accepted the removal of `membership`.
pub open spec fn swarm_after_remove(swarm: Swarm, membership: Membership) -> Swarm {
    Swarm {
        member_count: (swarm.member_count - 1) as u32,
        total_share_bps: (swarm.total_share_bps - membership.share_bps) as u16,
        ..swarm
    }
}

/// Whether the swarm's books agree with its memberships: it counts them, and
/// its share total is the sum of their shares.
pub open spec fn books_agree(swarm: Swarm, ms: Seq<Membership>) -> bool {
    &&& swarm.member_count == ms.len()
    &&& swarm.total_share_bps == share_total(ms)
}

/// The shares of a list of memberships, added up, are not negative.
proof fn lemma_share_total_nonnegative(ms: Seq<Membership>)
    ensures
        share_total(ms) >= 0,
    decreases ms.len(),
{
    if ms.len() > 0 {
        lemma_share_total_nonnegative(ms.drop_last());
    }
}

/// Taking one membership out of a list takes its share out of the sum.
proof fn lemma_share_total_remove(ms: Seq<Membership>, i: int)
    requires
        0 <= i < ms.len(),
    ensures
        share_total(ms.remove(i)) == share_total(ms) - ms[i].share_bps,
    decreases ms.len(),
{
    if i == ms.len() - 1 {
        assert(ms.remove(i) =~= ms.drop_last());
    } else {
        lemma_share_total_remove(ms.drop_last(), i);
        assert(ms.remove(i).drop_last() =~= ms.drop_last().remove(i));
        assert(ms.remove(i).last() == ms.last());
    }
}

/// A share total never exceeds 10 000: `add_member` accepts a share only when
/// the swarm's new total stays within 10 000.
pub proof fn added_share_within_cap(swarm: Swarm, agent: Agent, role: String, share_bps: u16)
    requires
        add_member_refusal(swarm, agent, role, share_bps) is None,
    ensures
        swarm_after_add(swarm, share_bps).total_share_bps <= BPS_DENOMINATOR,
        swarm_after_add(swarm, share_bps).total_share_bps == swarm.total_share_bps + share_bps,
{
}

/// The swarm after `create_task` accepted a task.
pub open spec fn swarm_after_create(swarm: Swarm) -> Swarm {
    Swarm { task_count: (swarm.task_count + 1) as u64, ..swarm }
}

/// The numbering of the first `m` of a run of accepted task creations.
proof fn lemma_tasks_numbered_prefix(
    swarms: Seq<Swarm>,
    agents: Seq<Agent>,
    ids: Seq<u64>,
    roles: Seq<String>,
    payloads: Seq<String>,
    m: int,
)
    requires
        0 <= m <= ids.len(),
        swarms.len() == ids.len() + 1,
        agents.len() == ids.len(),
        roles.len() == ids.len(),
        payloads.len() == ids.len(),
        swarms[0].task_count == 0,
        forall|i: int|
            0 <= i < ids.len() ==> #[trigger] create_task_refusal(
                agents[i],
                swarms[i],
                ids[i],
                roles[i],
                payloads[i],
            ) is None && swarms[i + 1] == swarm_after_create(swarms[i]),
    ensures
        forall|i: int| 0 <= i < m ==> #[trigger] ids[i] == i,
        swarms[m].task_count == m,
    decreases m,
{
    if m > 0 {
        lemma_tasks_numbered_prefix(swarms, agents, ids, roles, payloads, m - 1);
        assert(create_task_refusal(
            agents[m - 1],
            swarms[m - 1],
            ids[m - 1],
            roles[m - 1],
            payloads[m - 1],
        ) is None);
    }
}

/// Tasks are numbered in order: from a swarm that counts no tasks, `k`
/// accepted `create_task` requests, each on the swarm that the one before
/// left, take the numbers 0, 1, ..., k - 1, and the swarm then counts `k`
/// tasks.
pub proof fn tasks_are_numbered_in_order(
    swarms: Seq<Swarm>,
    agents: Seq<Agent>,
    ids: Seq<u64>,
    roles: Seq<String>,
    payloads: Seq<String>,
)
    requires
        swarms.len() == ids.len() + 1,
        agents.len() == ids.len(),
        roles.len() == ids.len(),
        payloads.len() == ids.len(),
        swarms[0].task_count == 0,
        forall|i: int|
            0 <= i < ids.len() ==> #[trigger] create_task_refusal(
                agents[i],
                swarms[i],
                ids[i],
                roles[i],
                payloads[i],
            ) is None && swarms[i + 1] == swarm_after_create(swarms[i]),
    ensures
        forall|i: int| 0 <= i < ids.len() ==> #[trigger] ids[i] == i,
        swarms[ids.len() as int].task_count == ids.len(),
{
    lemma_tasks_numbered_prefix(swarms, agents, ids, roles, payloads, ids.len() as int);
}

/// No instruction lowers a swarm's task count: an accepted `create_task`
/// raises it by one, and adding or removing a member leaves it as it is.
pub proof fn task_count_never_decreases(
    swarm: Swarm,
    agent: Agent,
    task_id: u64,
    required_role: String,
    payload_uri: String,
    share_bps: u16,
    membership: Membership,
)
    ensures
        create_task_refusal(agent, swarm, task_id, required_role, payload_uri) is None
            ==> swarm_after_create(swarm).task_count == swarm.task_count + 1,
        swarm_after_add(swarm, share_bps).task_count == swarm.task_count,
        swarm_after_remove(swarm, membership).task_count == swarm.task_count,
{
}

/// The swarm's share total is the sum of its members' shares, and its member
/// count is their number: when this holds, it still holds after an accepted
/// `add_member` with the new membership among the members, and a removal of
/// any member is accepted and leaves it holding without that member.
pub proof fn books_stay_in_agreement(
    swarm: Swarm,
    ms: Seq<Membership>,
    agent: Agent,
    role: String,
    added: Membership,
    i: int,
)
    requires
        books_agree(swarm, ms),
    ensures
        add_member_refusal(swarm, agent, role, added.share_bps) is None ==> books_agree(
            swarm_after_add(swarm, added.share_bps),
            ms.push(added),
        ),
        0 <= i < ms.len() ==> remove_member_refusal(swarm, ms[i]) is None && books_agree(
            swarm_after_remove(swarm, ms[i]),
            ms.remove(i),
        ),
{
    assert(ms.push(added).drop_last() =~= ms);
    if 0 <= i < ms.len() {
        lemma_share_total_remove(ms, i);
        lemma_share_total_nonnegative(ms.remove(i));
    }
}

/// Removing a member undoes adding it: the swarm's member count and share
/// total come back to what they were.
pub proof fn remove_undoes_add(swarm: Swarm, agent: Agent, role: String, membership: Membership)
    requires
        add_member_refusal(swarm, agent, role, membership.share_bps) is None,
    ensures
        remove_member_refusal(swarm_after_add(swarm, membership.share_bps), membership) is None,
        swarm_after_remove(swarm_after_add(swarm, membership.share_bps), membership) == swarm,
{
}

/// Whether a task may go from the state numbered `from` to the state
/// numbered `to`: Created to Accepted to Completed to Verified to Settled, and
/// from Created, Accepted or Completed to Failed.
pub open spec fn lifecycle_edge(from: u8, to: u8) -> bool {
    let created = task_state_value(TaskState::Created);
    let accepted = task_state_value(TaskState::Accepted);
    let completed = task_state_value(TaskState::Completed);
    let verified = task_state_value(TaskState::Verified);
    let failed = task_state_value(TaskState::Failed);
    let settled = task_state_value(TaskState::Settled);
    ||| from == created && to == accepted
    ||| from == accepted && to == completed
    ||| from == completed && to == verified
    ||| from == verified && to == settled
    ||| (from == created || from == accepted || from == completed) && to == failed
}

/// Every change of a task's state that an instruction makes follows an edge
/// of the lifecycle; an approval leaves the state as it is. An instruction
/// that meets the task in another state than the one it moves from is
/// refused with `InvalidTaskState` (once its earlier checks pass).
pub proof fn task_moves_along_lifecycle(
    accept: &AcceptTask,
    complete: &CompleteTask,
    result_uri: String,
    verify: &VerifyTask,
    fail: &FailTask,
    reason: String,
    settle: &SettleTask,
)
    ensures
        accept_refusal(accept.executor_agent.data, accept.membership.data, accept.task.data)
            is None ==> lifecycle_edge(
            accept.task.data.state,
            task_state_value(TaskState::Accepted),
        ),
        complete_refusal(complete.task.data, result_uri) is None ==> lifecycle_edge(
            complete.task.data.state,
            task_state_value(TaskState::Completed),
        ),
        verify_refusal(verify.signer, verify.swarm.data, verify.task.data) is None
            ==> lifecycle_edge(verify.task.data.state, task_state_value(TaskState::Verified)),
        fail_refusal(fail, reason) is None ==> lifecycle_edge(
            fail.task.data.state,
            task_state_value(TaskState::Failed),
        ),
        settlement(settle) is Ok ==> lifecycle_edge(
            settle.task.data.state,
            task_state_value(TaskState::Settled),
        ),
        accept.executor_agent.data.spec_is_active() && accept.task.data.state
            != task_state_value(TaskState::Created) ==> accept_refusal(
            accept.executor_agent.data,
            accept.membership.data,
            accept.task.data,
        ) == Some(ApolloError::InvalidTaskState),
        byte_len(result_uri) <= MAX_METADATA_URI_LEN && complete.task.data.state
            != task_state_value(TaskState::Accepted) ==> complete_refusal(
            complete.task.data,
            result_uri,
        ) == Some(ApolloError::InvalidTaskState),
        verify.task.data.state != task_state_value(TaskState::Completed) ==> verify_refusal(
            verify.signer,
            verify.swarm.data,
            verify.task.data,
        ) == Some(ApolloError::InvalidTaskState),
        byte_len(reason) <= MAX_REASON_LEN && (fail.task.data.executor@ == fail.agent.key@
            || fail.swarm.data.authority@ == fail.signer@) && fail.task.data.state
            > task_state_value(TaskState::Completed) ==> fail_refusal(fail, reason) == Some(
            ApolloError::InvalidTaskState,
        ),
        settle.task.data.state != task_state_value(TaskState::Verified) ==> settlement(settle)
            == Err::<(Seq<Transfer>, u64), _>(
            crate::errors::Error::Apollo(ApolloError::InvalidTaskState),
        ),
{
}

/// A failed or settled task is final: every instruction that would change
/// its state, or approve it, is refused.
pub proof fn finished_tasks_are_final(
    accept: &AcceptTask,
    complete: &CompleteTask,
    result_uri: String,
    approve: &ApproveTask,
    verify: &VerifyTask,
    fail: &FailTask,
    reason: String,
    settle: &SettleTask,
)
    ensures
        accept.task.data.state == task_state_value(TaskState::Failed) || accept.task.data.state
            == task_state_value(TaskState::Settled) ==> accept_refusal(
            accept.executor_agent.data,
            accept.membership.data,
            accept.task.data,
        ) is Some,
        complete.task.data.state == task_state_value(TaskState::Failed) || complete.task.data.state
            == task_state_value(TaskState::Settled) ==> complete_refusal(
            complete.task.data,
            result_uri,
        ) is Some,
        approve.task.data.state == task_state_value(TaskState::Failed) || approve.task.data.state
            == task_state_value(TaskState::Settled) ==> approve_refusal(
            approve.approver_agent,
            approve.task.data,
        ) is Some,
        verify.task.data.state == task_state_value(TaskState::Failed) || verify.task.data.state
            == task_state_value(TaskState::Settled) ==> verify_refusal(
            verify.signer,
            verify.swarm.data,
            verify.task.data,
        ) is Some,
        fail.task.data.state == task_state_value(TaskState::Failed) || fail.task.data.state
            == task_state_value(TaskState::Settled) ==> fail_refusal(fail, reason) is Some,
        settle.task.data.state == task_state_value(TaskState::Failed) || settle.task.data.state
            == task_state_value(TaskState::Settled) ==> settlement(settle) is Err,
{
}

/// A completed task is verified, under `ThresholdApproval` or `Voting`, once
/// its approvals reach the swarm's threshold, and not before; under
/// `RoleBased` or `RoundRobin`, when the swarm's authority signs, and only
/// then.
pub proof fn verification_by_coordination_model(signer: Pubkey, swarm: Swarm, task: Task)
    requires
        task.state == task_state_value(TaskState::Completed),
    ensures
        coord_model_of(swarm.coord_model) == CoordModel::ThresholdApproval || coord_model_of(
            swarm.coord_model,
        ) == CoordModel::Voting ==> (verify_refusal(signer, swarm, task) is None <==> task.approvals
            >= swarm.approval_threshold),
        coord_model_of(swarm.coord_model) == CoordModel::RoleBased || coord_model_of(
            swarm.coord_model,
        ) == CoordModel::RoundRobin ==> (verify_refusal(signer, swarm, task) is None
            <==> swarm.authority@ == signer@),
{
}

/// The canonical search finds an address at a bump from 1 to `bump`, and that
/// bump derives that address.
proof fn lemma_bump_search_derives(seeds: Seq<Seq<u8>>, program_id: Seq<u8>, bump: int)
    requires
        bump <= 255,
    ensures
        bump_search(seeds, program_id, bump) matches Some((a, b)) ==> 1 <= b <= bump
            && program_address(seeds.push(seq![b]), program_id) == Some(a),
    decreases bump,
{
    if bump >= 1 {
        lemma_bump_search_derives(seeds, program_id, bump - 1);
    }
}

/// The address that the canonical search finds is derived again from the
/// same seeds and the bump it found: an account created at its canonical
/// address passes the seed check of the instructions that use it later.
pub proof fn canonical_address_rederives(seeds: Seq<Seq<u8>>)
    ensures
        found_program_address(seeds, program_id_bytes()) matches Some((a, b)) ==> derived_from(
            with_bump(seeds, b),
            a,
        ),
{
    lemma_bump_search_derives(seeds, program_id_bytes(), 255);
    if let Some((a, b)) = found_program_address(seeds, program_id_bytes()) {
        let full = seeds.push(seq![255u8]);
        let mine = seeds.push(seq![b]);
        assert forall|i: int| 0 <= i < mine.len() implies #[trigger] mine[i].len() <= 32 by {
            if i < seeds.len() {
                assert(mine[i] == full[i]);
            }
        }
        assert(seeds_within_limits(mine));
    }
}

/// A freshly registered agent passes the account checks of `update_agent`
/// signed by its authority.
pub proof fn registered_agent_can_be_updated(
    ctx: RegisterAgent,
    role: String,
    metadata_uri: String,
    now: i64,
)
    ensures
        ctx.spec_try_accounts() matches Ok(bump) ==> (UpdateAgent {
            authority: ctx.authority,
            agent: Account {
                key: ctx.agent,
                data: registered_agent(ctx.authority, role, metadata_uri, now, bump),
            },
        }).spec_try_accounts() is Ok,
{
    canonical_address_rederives(agent_seeds(ctx.authority@));
}

/// Only the swarm's authority adds or removes members; only the agent named
/// as a task's executor, signed for by its own authority, completes it; a
/// task fails only at the hand of its executor's agent or of the swarm's
/// authority; the executor never approves its own task.
pub proof fn who_may_act(
    add: &AddMember,
    remove: &RemoveMember,
    complete: &CompleteTask,
    fail: &FailTask,
    reason: String,
    approve: &ApproveTask,
)
    ensures
        add.spec_try_accounts() is Ok ==> add.swarm.data.authority@ == add.authority@,
        remove.spec_try_accounts() is Ok ==> remove.swarm.data.authority@ == remove.authority@,
        complete.spec_try_accounts() is Ok ==> complete.task.data.executor@
            == complete.executor_agent.key@ && derived_from(
            with_bump(agent_seeds(complete.executor@), complete.executor_agent.data.bump),
            complete.executor_agent.key@,
        ),
        fail_refusal(fail, reason) is None ==> fail.task.data.executor@ == fail.agent.key@
            || fail.swarm.data.authority@ == fail.signer@,
        approve_refusal(approve.approver_agent, approve.task.data) is None
            ==> approve.task.data.executor@ != approve.approver_agent.key@,
{
}

/// Each state, status and coordination model is read back from the number
/// that stands for it, and each number in range is the number of what it is
/// read as.
pub proof fn stored_numbers_round_trip(status: AgentStatus, model: CoordModel, state: TaskState, v: u8)
    ensures
        agent_status_of(agent_status_value(status)) == status,
        coord_model_of(coord_model_value(model)) == model,
        task_state_of(task_state_value(state)) == state,
        v <= 2 ==> agent_status_value(agent_status_of(v)) == v,
        v <= 3 ==> coord_model_value(coord_model_of(v)) == v,
        v <= 5 ==> task_state_value(task_state_of(v)) == v,
{
}

/// An agent joins a swarm, and approves a task, at one address only: two
/// requests that pass the account checks for the same swarm and agent name
/// the same membership account, and two for the same task and approver name
/// the same approval account. The second creation of an account at an address
/// in use fails, so an agent is not added twice and does not approve twice.
pub proof fn one_account_per_pair(a: &AddMember, b: &AddMember, c: &ApproveTask, d: &ApproveTask)
    ensures
        a.spec_try_accounts() is Ok && b.spec_try_accounts() is Ok && a.swarm.key@ == b.swarm.key@
            && a.agent.key@ == b.agent.key@ ==> a.membership@ == b.membership@,
        c.spec_try_accounts() is Ok && d.spec_try_accounts() is Ok && c.task.key@ == d.task.key@
            && c.approver_agent.key@ == d.approver_agent.key@ ==> c.approval@ == d.approval@,
{
}

/// An approval is recorded only for a completed task (state number 2): an
/// active approver meets a task in any other state with `InvalidTaskState`.
pub proof fn approval_needs_a_completed_task(agent: Account<Agent>, task: Task)
    ensures
        approve_refusal(agent, task) is None ==> task.state == 2,
        agent.data.status == 0 && task.state != 2 ==> approve_refusal(agent, task) == Some(
            ApolloError::InvalidTaskState,
        ),
        agent.data.status == 0 && task.state == 2 && task.executor@ != agent.key@
            && task.approvals < u16::MAX ==> approve_refusal(agent, task) is None,
{
}

/// A created task (state number 0) is accepted by an active agent when the
/// task requires no role, or when the required role is the membership's role
/// or the agent's own role; a role mismatch is reported only when the
/// required role is set and differs from both.
pub proof fn acceptance_by_either_role(agent: Agent, membership: Membership, task: Task)
    ensures
        agent.status == 0 && task.state == 0 && (task.required_role@.len() == 0
            || task.required_role@ == membership.role@ || task.required_role@ == agent.role@)
            ==> accept_refusal(agent, membership, task) is None,
        accept_refusal(agent, membership, task) == Some(ApolloError::RoleMismatch) ==> {
            &&& task.required_role@.len() != 0
            &&& task.required_role@ != membership.role@
            &&& task.required_role@ != agent.role@
        },
        accept_refusal(agent, membership, task) is None ==> agent.status == 0 && task.state == 0,
{
}

/// A task is failed, by the executor's agent or by the swarm's authority with
/// a reason of at most 128 bytes, exactly when it is still open: created,
/// accepted or completed (state numbers 0, 1 and 2). A verified, failed or
/// settled task is refused with `InvalidTaskState`.
pub proof fn failing_an_open_task(fail: &FailTask, reason: String)
    ensures
        byte_len(reason) <= 128 && (fail.task.data.executor@ == fail.agent.key@
            || fail.swarm.data.authority@ == fail.signer@) ==> {
            &&& fail.task.data.state <= 2 ==> fail_refusal(fail, reason) is None
            &&& fail.task.data.state > 2 ==> fail_refusal(fail, reason) == Some(
                ApolloError::InvalidTaskState,
            )
        },
        fail_refusal(fail, reason) is None ==> fail.task.data.state <= 2,
{
}

/// A task is created when its role takes at most 32 bytes and its payload
/// address at most 200, the creator is active, and its number is the swarm's
/// task count, below the largest `u64`; a payload is refused as too long only
/// past 200 bytes.
pub proof fn task_creation_within_limits(
    agent: Agent,
    swarm: Swarm,
    task_id: u64,
    required_role: String,
    payload_uri: String,
)
    ensures
        byte_len(required_role) <= 32 && byte_len(payload_uri) <= 200 && agent.status == 0
            && task_id == swarm.task_count && swarm.task_count < u64::MAX ==> create_task_refusal(
            agent,
            swarm,
            task_id,
            required_role,
            payload_uri,
        ) is None,
        create_task_refusal(agent, swarm, task_id, required_role, payload_uri) == Some(
            ApolloError::StringTooLong,
        ) ==> byte_len(required_role) > 32 || byte_len(payload_uri) > 200,
{
}

/// The share that pair `k` of the remaining accounts lists: that of its
/// membership, or nothing when the membership does not read.
pub open spec fn pair_share(remaining: Seq<RemainingAccount>, swarm: Seq<u8>, k: int) -> int {
    match parsed_membership(remaining[2 * k], swarm) {
        Ok(m) => m.share_bps as int,
        Err(_) => 0,
    }
}

/// What pair `k` is owed: the reward times its share over the divisor,
/// rounded down.
pub open spec fn owed(
    remaining: Seq<RemainingAccount>,
    swarm: Seq<u8>,
    reward: u64,
    divisor: int,
    k: int,
) -> int {
    (reward as int * pair_share(remaining, swarm, k)) / divisor
}

/// What the first `n` pairs are owed together.
pub open spec fn owed_total(
    remaining: Seq<RemainingAccount>,
    swarm: Seq<u8>,
    reward: u64,
    divisor: int,
    n: nat,
) -> int
    decreases n,
{
    if n == 0 {
        0
    } else {
        owed_total(remaining, swarm, reward, divisor, (n - 1) as nat) + owed(
            remaining,
            swarm,
            reward,
            divisor,
            n - 1,
        )
    }
}

/// The transfer that pays pair `k` of the remaining accounts `lamports` from
/// the treasury: to the wallet that follows its membership.
pub open spec fn payment_to_pair(
    remaining: Seq<RemainingAccount>,
    treasury: Pubkey,
    k: int,
    lamports: int,
) -> Transfer {
    Transfer { from: treasury, to: remaining[2 * k + 1].key, lamports: lamports as u64 }
}

/// The divisor of share payouts: the swarm's share total, or 10 000 when the
/// swarm has no shares.
pub open spec fn payout_divisor(swarm: Swarm) -> int {
    if swarm.total_share_bps == 0 {
        10_000
    } else {
        swarm.total_share_bps as int
    }
}

/// A part `share / divisor` of a reward, rounded down, with the share at most
/// the divisor, lies between nothing and the whole reward.
proof fn lemma_part_of_reward(r: int, sh: int, d: int)
    requires
        0 <= r,
        0 <= sh <= d,
        0 < d,
    ensures
        0 <= (r * sh) / d <= r,
{
    assert(0 <= r * sh <= r * d) by (nonlinear_arith)
        requires
            0 <= sh <= d,
            0 <= r,
    ;
    vstd::arithmetic::div_mod::lemma_div_is_ordered(r * sh, r * d, d);
    vstd::arithmetic::div_mod::lemma_div_multiples_vanish(r, d);
    assert(d * r == r * d) by (nonlinear_arith);
    vstd::arithmetic::div_mod::lemma_div_pos_is_pos(r * sh, d);
}

/// One more pair of successful payouts, when its share is at most the
/// divisor: the payouts before it succeed too, its share joins the sum, and
/// what it is owed is added to the sum paid and, when positive, paid by a
/// transfer to its wallet.
proof fn lemma_payout_step(
    remaining: Seq<RemainingAccount>,
    swarm: Seq<u8>,
    treasury: Pubkey,
    reward: u64,
    divisor: u16,
    n: nat,
)
    requires
        divisor > 0,
        n > 0,
        share_payouts(remaining, swarm, treasury, reward, divisor, n) is Ok,
    ensures
        share_payouts(remaining, swarm, treasury, reward, divisor, (n - 1) as nat) is Ok,
        ({
            let (sum, ts, paid) = share_payouts(
                remaining,
                swarm,
                treasury,
                reward,
                divisor,
                n,
            ).unwrap();
            let (sum0, ts0, paid0) = share_payouts(
                remaining,
                swarm,
                treasury,
                reward,
                divisor,
                (n - 1) as nat,
            ).unwrap();
            let q = owed(remaining, swarm, reward, divisor as int, n - 1);
            &&& sum == sum0 + pair_share(remaining, swarm, n - 1)
            &&& 0 <= pair_share(remaining, swarm, n - 1)
            &&& pair_share(remaining, swarm, n - 1) <= divisor ==> {
                &&& 0 <= q
                &&& paid == paid0 + q
                &&& ts == if q > 0 {
                    ts0.push(payment_to_pair(remaining, treasury, n - 1, q))
                } else {
                    ts0
                }
            }
        }),
{
    let j = n - 1;
    let m = parsed_membership(remaining[2 * j], swarm).unwrap();
    assert(pair_share(remaining, swarm, j) == m.share_bps);
    if m.share_bps <= divisor {
        lemma_part_of_reward(reward as int, m.share_bps as int, divisor as int);
    }
}

/// Every share listed by successful payouts of the first `n` pairs lies
/// between nothing and the share sum.
proof fn lemma_payout_shares(
    remaining: Seq<RemainingAccount>,
    swarm: Seq<u8>,
    treasury: Pubkey,
    reward: u64,
    divisor: u16,
    n: nat,
)
    requires
        divisor > 0,
    ensures
        share_payouts(remaining, swarm, treasury, reward, divisor, n) matches Ok((sum, ts, paid))
            ==> forall|k: int|
            0 <= k < n ==> 0 <= #[trigger] pair_share(remaining, swarm, k) <= sum,
    decreases n,
{
    if n > 0 && share_payouts(remaining, swarm, treasury, reward, divisor, n) is Ok {
        lemma_payout_step(remaining, swarm, treasury, reward, divisor, n);
        lemma_payout_shares(remaining, swarm, treasury, reward, divisor, (n - 1) as nat);
        lemma_share_payouts_bound(remaining, swarm, treasury, reward, divisor, (n - 1) as nat);
        let (sum, ts, paid) = share_payouts(remaining, swarm, treasury, reward, divisor, n).unwrap();
        let (sum0, ts0, paid0) = share_payouts(
            remaining,
            swarm,
            treasury,
            reward,
            divisor,
            (n - 1) as nat,
        ).unwrap();
        assert forall|k: int| 0 <= k < n implies 0 <= #[trigger] pair_share(remaining, swarm, k)
            <= sum by {
            if k < n - 1 {
                assert(pair_share(remaining, swarm, k) <= sum0);
            }
        }
    }
}

/// Successful payouts of the first `n` pairs, none of whose shares exceeds
/// the divisor, pay what the pairs are owed.
proof fn lemma_payout_paid(
    remaining: Seq<RemainingAccount>,
    swarm: Seq<u8>,
    treasury: Pubkey,
    reward: u64,
    divisor: u16,
    n: nat,
)
    requires
        divisor > 0,
        forall|k: int| 0 <= k < n ==> #[trigger] pair_share(remaining, swarm, k) <= divisor,
    ensures
        share_payouts(remaining, swarm, treasury, reward, divisor, n) matches Ok((sum, ts, paid))
            ==> paid == owed_total(remaining, swarm, reward, divisor as int, n),
    decreases n,
{
    if n > 0 && share_payouts(remaining, swarm, treasury, reward, divisor, n) is Ok {
        assert(pair_share(remaining, swarm, n - 1) <= divisor);
        lemma_payout_step(remaining, swarm, treasury, reward, divisor, n);
        lemma_payout_paid(remaining, swarm, treasury, reward, divisor, (n - 1) as nat);
    }
}

/// Successful payouts of the first `n` pairs, none of whose shares exceeds
/// the divisor, pay every pair owed something by a transfer of exactly that
/// to its wallet, and make no other transfer.
proof fn lemma_payout_transfers(
    remaining: Seq<RemainingAccount>,
    swarm: Seq<u8>,
    treasury: Pubkey,
    reward: u64,
    divisor: u16,
    n: nat,
)
    requires
        divisor > 0,
        forall|k: int| 0 <= k < n ==> #[trigger] pair_share(remaining, swarm, k) <= divisor,
    ensures
        share_payouts(remaining, swarm, treasury, reward, divisor, n) matches Ok((sum, ts, paid))
            ==> {
            &&& forall|k: int|
                0 <= k < n && #[trigger] owed(remaining, swarm, reward, divisor as int, k) > 0
                    ==> exists|i: int|
                    0 <= i < ts.len() && #[trigger] ts[i] == payment_to_pair(
                        remaining,
                        treasury,
                        k,
                        owed(remaining, swarm, reward, divisor as int, k),
                    )
            &&& forall|i: int|
                #![trigger ts[i]]
                0 <= i < ts.len() ==> exists|k: int|
                    0 <= k < n && #[trigger] owed(remaining, swarm, reward, divisor as int, k) > 0
                        && ts[i] == payment_to_pair(
                        remaining,
                        treasury,
                        k,
                        owed(remaining, swarm, reward, divisor as int, k),
                    )
        },
    decreases n,
{
    if n > 0 && share_payouts(remaining, swarm, treasury, reward, divisor, n) is Ok {
        let d = divisor as int;
        let j = n - 1;
        assert(pair_share(remaining, swarm, j) <= divisor);
        lemma_payout_step(remaining, swarm, treasury, reward, divisor, n);
        lemma_payout_transfers(remaining, swarm, treasury, reward, divisor, (n - 1) as nat);
        let (sum, ts, paid) = share_payouts(remaining, swarm, treasury, reward, divisor, n).unwrap();
        let (sum0, ts0, paid0) = share_payouts(
            remaining,
            swarm,
            treasury,
            reward,
            divisor,
            (n - 1) as nat,
        ).unwrap();
        let q = owed(remaining, swarm, reward, d, j);
        assert forall|k: int|
            0 <= k < n && #[trigger] owed(remaining, swarm, reward, d, k) > 0 implies exists|i: int|
            0 <= i < ts.len() && #[trigger] ts[i] == payment_to_pair(
                remaining,
                treasury,
                k,
                owed(remaining, swarm, reward, d, k),
            ) by {
            if k == j {
                assert(ts[ts.len() - 1] == payment_to_pair(remaining, treasury, j, q));
            } else {
                let i = choose|i: int|
                    0 <= i < ts0.len() && #[trigger] ts0[i] == payment_to_pair(
                        remaining,
                        treasury,
                        k,
                        owed(remaining, swarm, reward, d, k),
                    );
                assert(ts[i] == ts0[i]);
            }
        }
        assert forall|i: int| #![trigger ts[i]] 0 <= i < ts.len() implies exists|k: int|
            0 <= k < n && #[trigger] owed(remaining, swarm, reward, d, k) > 0 && ts[i]
                == payment_to_pair(remaining, treasury, k, owed(remaining, swarm, reward, d, k)) by {
            if i < ts0.len() {
                assert(ts[i] == ts0[i]);
                let k = choose|k: int|
                    0 <= k < n - 1 && #[trigger] owed(remaining, swarm, reward, d, k) > 0 && ts0[i]
                        == payment_to_pair(
                        remaining,
                        treasury,
                        k,
                        owed(remaining, swarm, reward, d, k),
                    );
                assert(0 <= k < n);
            } else {
                assert(q > 0);
                assert(ts[i] == payment_to_pair(remaining, treasury, j, q));
            }
        }
    }
}

/// A share-based settlement pays each listed member its share: the divisor is
/// the swarm's share total (10 000 when it has none), each pair is owed the
/// reward times its membership's share over the divisor, rounded down; the
/// sum paid is what all pairs are owed, every pair owed something gets one
/// transfer of exactly that from the treasury to its wallet, and no other
/// transfer is made.
pub proof fn share_settlement_pays_what_is_owed(ctx: &SettleTask)
    ensures
        settlement(ctx) matches Ok((ts, paid)) ==> (!ctx.task.data.work_based ==> {
            let d = payout_divisor(ctx.swarm.data);
            let n = (ctx.remaining@.len() / 2) as nat;
            let rem = ctx.remaining@;
            let sw = ctx.swarm.key@;
            let reward = ctx.task.data.reward;
            &&& paid == owed_total(rem, sw, reward, d, n)
            &&& forall|k: int|
                0 <= k < n && #[trigger] owed(rem, sw, reward, d, k) > 0 ==> exists|i: int|
                    0 <= i < ts.len() && #[trigger] ts[i] == payment_to_pair(
                        rem,
                        ctx.treasury,
                        k,
                        owed(rem, sw, reward, d, k),
                    )
            &&& forall|i: int|
                #![trigger ts[i]]
                0 <= i < ts.len() ==> exists|k: int|
                    0 <= k < n && #[trigger] owed(rem, sw, reward, d, k) > 0 && ts[i]
                        == payment_to_pair(rem, ctx.treasury, k, owed(rem, sw, reward, d, k))
        }),
{
    if let Ok((ts, paid)) = settlement(ctx) {
        if !ctx.task.data.work_based {
            let divisor = share_divisor(ctx.swarm.data);
            let n = (ctx.remaining@.len() / 2) as nat;
            let rem = ctx.remaining@;
            let sw = ctx.swarm.key@;
            lemma_payout_shares(rem, sw, ctx.treasury, ctx.task.data.reward, divisor, n);
            lemma_share_payouts_bound(rem, sw, ctx.treasury, ctx.task.data.reward, divisor, n);
            let (sum, ts1, paid1) = share_payouts(
                rem,
                sw,
                ctx.treasury,
                ctx.task.data.reward,
                divisor,
                n,
            ).unwrap();
            assert(sum == ctx.swarm.data.total_share_bps);
            assert(divisor as int == payout_divisor(ctx.swarm.data));
            assert forall|k: int| 0 <= k < n implies #[trigger] pair_share(rem, sw, k)
                <= divisor by {
                assert(pair_share(rem, sw, k) <= sum);
            }
            lemma_payout_paid(rem, sw, ctx.treasury, ctx.task.data.reward, divisor, n);
            lemma_payout_transfers(rem, sw, ctx.treasury, ctx.task.data.reward, divisor, n);
            assert(ts == ts1);
            assert(paid == paid1);
        }
    }
}

/// A result is posted, with an address of at most 200 bytes, exactly for an
/// accepted task (state number 1).
pub proof fn completion_of_an_accepted_task(task: Task, result_uri: String)
    ensures
        complete_refusal(task, result_uri) is None <==> byte_len(result_uri) <= 200 && task.state
            == 1,
        byte_len(result_uri) <= 200 && task.state != 1 ==> complete_refusal(task, result_uri)
            == Some(ApolloError::InvalidTaskState),
{
}

/// A completed task (state number 2) is verified, under the threshold models
/// (numbers 1 and 3), exactly when its approvals reach the threshold, whoever
/// signs; under every other model number, exactly when the swarm's authority
/// signs, whatever the approvals. A task in any other state is refused with
/// `InvalidTaskState`.
pub proof fn verification_by_model_number(signer: Pubkey, swarm: Swarm, task: Task)
    ensures
        task.state != 2 ==> verify_refusal(signer, swarm, task) == Some(
            ApolloError::InvalidTaskState,
        ),
        task.state == 2 && (swarm.coord_model == 1 || swarm.coord_model == 3) ==> (verify_refusal(
            signer,
            swarm,
            task,
        ) is None <==> task.approvals >= swarm.approval_threshold),
        task.state == 2 && (swarm.coord_model == 1 || swarm.coord_model == 3)
            && task.approvals < swarm.approval_threshold ==> verify_refusal(signer, swarm, task)
            == Some(ApolloError::ThresholdNotMet),
        task.state == 2 && swarm.coord_model != 1 && swarm.coord_model != 3 ==> (verify_refusal(
            signer,
            swarm,
            task,
        ) is None <==> swarm.authority@ == signer@),
        task.state == 2 && swarm.coord_model != 1 && swarm.coord_model != 3 && swarm.authority@
            != signer@ ==> verify_refusal(signer, swarm, task) == Some(
            ApolloError::UnauthorizedSwarm,
        ),
{
}

/// An agent update is accepted exactly when a given status is 0, 1 or 2 and
/// given metadata takes at most 200 bytes; it sets what is given and keeps
/// the rest.
pub proof fn agent_update_sets_what_is_given(
    agent: Agent,
    status: Option<u8>,
    metadata_uri: Option<String>,
)
    ensures
        update_refusal(status, metadata_uri) is None <==> (status matches Some(s) ==> s <= 2) && (
        metadata_uri matches Some(u) ==> byte_len(u) <= 200),
        status matches Some(s) ==> updated_agent(agent, status, metadata_uri).status == s,
        status is None ==> updated_agent(agent, status, metadata_uri).status == agent.status,
        metadata_uri matches Some(u) ==> updated_agent(agent, status, metadata_uri).metadata_uri
            == u,
        metadata_uri is None ==> updated_agent(agent, status, metadata_uri).metadata_uri
            == agent.metadata_uri,
        updated_agent(agent, status, metadata_uri).authority == agent.authority,
        updated_agent(agent, status, metadata_uri).role == agent.role,
        updated_agent(agent, status, metadata_uri).reputation == agent.reputation,
        updated_agent(agent, status, metadata_uri).tasks_completed == agent.tasks_completed,
        updated_agent(agent, status, metadata_uri).tasks_failed == agent.tasks_failed,
        updated_agent(agent, status, metadata_uri).bump == agent.bump,
{
}

/// A swarm is opened exactly when its name takes at most 64 bytes, its
/// metadata at most 200, and its coordination model is numbered 0 to 3.
pub proof fn swarm_parameters_within_limits(name: String, metadata_uri: String, coord_model: u8)
    ensures
        create_swarm_refusal(name, metadata_uri, coord_model) is None <==> byte_len(name) <= 64
            && byte_len(metadata_uri) <= 200 && coord_model <= 3,
{
}

/// A member is added exactly when its role takes at most 32 bytes, its agent
/// is active, the swarm's shares stay within 10 000 and its member count
/// below the largest `u32`; removal is accepted exactly when the swarm has a
/// member and its share total covers the member's share.
pub proof fn membership_changes_within_limits(
    swarm: Swarm,
    agent: Agent,
    role: String,
    share_bps: u16,
    membership: Membership,
)
    ensures
        add_member_refusal(swarm, agent, role, share_bps) is None <==> byte_len(role) <= 32
            && agent.status == 0 && swarm.total_share_bps + share_bps <= 10_000 && swarm.member_count
            < u32::MAX,
        byte_len(role) <= 32 && agent.status == 0 && swarm.total_share_bps + share_bps > 10_000
            && swarm.total_share_bps + share_bps <= u16::MAX ==> add_member_refusal(
            swarm,
            agent,
            role,
            share_bps,
        ) == Some(ApolloError::ShareOverflow),
        remove_member_refusal(swarm, membership) is None <==> swarm.member_count > 0
            && swarm.total_share_bps >= membership.share_bps,
{
}

/// A settlement pays only a verified task (state number 3) whose reward the
/// treasury holds, from a non-empty list of pairs. A work-based task is paid
/// whole, in one transfer from the treasury to the wallet of its single pair,
/// exactly when that pair's membership is read as the executor's.
pub proof fn settlement_of_a_verified_task(ctx: &SettleTask)
    ensures
        settlement(ctx) is Ok ==> ctx.task.data.state == 3 && ctx.treasury_lamports
            >= ctx.task.data.reward && ctx.remaining@.len() > 0 && ctx.remaining@.len() % 2 == 0,
        ctx.task.data.state != 3 ==> settlement(ctx) == Err::<(Seq<Transfer>, u64), _>(
            crate::errors::Error::Apollo(ApolloError::InvalidTaskState),
        ),
        ctx.task.data.state == 3 && ctx.treasury_lamports < ctx.task.data.reward ==> settlement(ctx)
            == Err::<(Seq<Transfer>, u64), _>(
            crate::errors::Error::Apollo(ApolloError::InsufficientTreasury),
        ),
        ctx.task.data.work_based ==> (settlement(ctx) matches Ok((ts, paid)) ==> {
            &&& ctx.remaining@.len() == 2
            &&& paid == ctx.task.data.reward
            &&& ts == seq![
                Transfer {
                    from: ctx.treasury,
                    to: ctx.remaining@[1].key,
                    lamports: ctx.task.data.reward,
                },
            ]
            &&& parsed_membership(ctx.remaining@[0], ctx.swarm.key@) matches Ok(m)
                && m.agent@ == ctx.task.data.executor@
        }),
        ctx.task.data.work_based && ctx.task.data.state == 3 && ctx.treasury_lamports
            >= ctx.task.data.reward && ctx.remaining@.len() == 2 && (parsed_membership(
            ctx.remaining@[0],
            ctx.swarm.key@,
        ) matches Ok(m) && m.agent@ == ctx.task.data.executor@) ==> settlement(ctx) is Ok,
{
}

/// A remaining account is read as a membership exactly when it decoded, the
/// membership names the swarm, and the account sits at the address derived
/// from the swarm, the membership's agent and its bump; it is then that
/// membership. A decoding failure is reported as it came; the other two as
/// `NotMember`.
pub proof fn remaining_membership_reads(info: RemainingAccount, swarm: Seq<u8>)
    ensures
        parsed_membership(info, swarm) matches Ok(m) ==> info.membership == Ok::<_, ErrorCode>(m)
            && m.swarm@ == swarm && derived_from(
            with_bump(member_seeds(swarm, m.agent@), m.bump),
            info.key@,
        ),
        info.membership matches Err(code) ==> parsed_membership(info, swarm) == Err::<
            Membership,
            _,
        >(crate::errors::Error::Anchor(code)),
        info.membership matches Ok(m) ==> (m.swarm@ != swarm || !derived_from(
            with_bump(member_seeds(swarm, m.agent@), m.bump),
            info.key@,
        )) ==> parsed_membership(info, swarm) == Err::<Membership, _>(
            crate::errors::Error::Apollo(ApolloError::NotMember),
        ),
{
}

/// The shares that the first `n` pairs list, added up.
pub open spec fn listed_share_total(remaining: Seq<RemainingAccount>, swarm: Seq<u8>, n: nat) -> int
    decreases n,
{
    if n == 0 {
        0
    } else {
        listed_share_total(remaining, swarm, (n - 1) as nat) + pair_share(remaining, swarm, n - 1)
    }
}

/// The share sum of successful payouts of the first `n` pairs is the sum of
/// the shares they list.
proof fn lemma_payout_share_sum(
    remaining: Seq<RemainingAccount>,
    swarm: Seq<u8>,
    treasury: Pubkey,
    reward: u64,
    divisor: u16,
    n: nat,
)
    requires
        divisor > 0,
    ensures
        share_payouts(remaining, swarm, treasury, reward, divisor, n) matches Ok((sum, ts, paid))
            ==> sum == listed_share_total(remaining, swarm, n),
    decreases n,
{
    if n > 0 && share_payouts(remaining, swarm, treasury, reward, divisor, n) is Ok {
        lemma_payout_step(remaining, swarm, treasury, reward, divisor, n);
        lemma_payout_share_sum(remaining, swarm, treasury, reward, divisor, (n - 1) as nat);
    }
}

/// Rounding each pair's part down loses less than one lamport per pair: the
/// divisor times what the first `n` pairs are owed, plus `n` times one less
/// than the divisor, is at least the reward times their listed shares.
proof fn lemma_owed_rounding(
    remaining: Seq<RemainingAccount>,
    swarm: Seq<u8>,
    reward: u64,
    d: int,
    n: nat,
)
    requires
        d > 0,
    ensures
        d * owed_total(remaining, swarm, reward, d, n) + n * (d - 1) >= reward * listed_share_total(
            remaining,
            swarm,
            n,
        ),
    decreases n,
{
    if n > 0 {
        lemma_owed_rounding(remaining, swarm, reward, d, (n - 1) as nat);
        let x = reward * pair_share(remaining, swarm, n - 1);
        let q = owed(remaining, swarm, reward, d, n - 1);
        vstd::arithmetic::div_mod::lemma_fundamental_div_mod(x, d);
        vstd::arithmetic::div_mod::lemma_mod_pos_bound(x, d);
        assert(q == x / d);
        assert(d * q + (d - 1) >= x);
        let t0 = owed_total(remaining, swarm, reward, d, (n - 1) as nat);
        let l0 = listed_share_total(remaining, swarm, (n - 1) as nat);
        assert(d * (t0 + q) == d * t0 + d * q) by (nonlinear_arith);
        assert(n * (d - 1) == (n - 1) * (d - 1) + (d - 1)) by (nonlinear_arith);
        let sh = pair_share(remaining, swarm, n - 1);
        let r = reward as int;
        assert(r * (l0 + sh) == r * l0 + r * sh) by (nonlinear_arith);
    }
}

/// A share-based settlement of a swarm with shares pays out the reward up to
/// less than one lamport per listed pair: what rounding down leaves in the
/// treasury is smaller than the number of pairs.
pub proof fn share_settlement_pays_nearly_all(ctx: &SettleTask)
    ensures
        settlement(ctx) matches Ok((ts, paid)) ==> (!ctx.task.data.work_based
            && ctx.swarm.data.total_share_bps > 0 ==> paid + ctx.remaining@.len() / 2
            > ctx.task.data.reward),
{
    if let Ok((ts, paid)) = settlement(ctx) {
        if !ctx.task.data.work_based && ctx.swarm.data.total_share_bps > 0 {
            let divisor = share_divisor(ctx.swarm.data);
            let n = (ctx.remaining@.len() / 2) as nat;
            let rem = ctx.remaining@;
            let sw = ctx.swarm.key@;
            let reward = ctx.task.data.reward;
            let d = divisor as int;
            share_settlement_pays_what_is_owed(ctx);
            lemma_payout_share_sum(rem, sw, ctx.treasury, reward, divisor, n);
            lemma_owed_rounding(rem, sw, reward, d, n);
            assert(listed_share_total(rem, sw, n) == d);
            assert(paid == owed_total(rem, sw, reward, d, n));
            assert(n > 0);
            let p = paid as int;
            let r = reward as int;
            let nn = n as int;
            assert(p + nn > r) by (nonlinear_arith)
                requires
                    d * p + nn * (d - 1) >= r * d,
                    d > 0,
                    nn > 0,
            ;
        }
    }
}

} // verus!
