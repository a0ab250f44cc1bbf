use vstd::prelude::*;

use crate::account::{Account, Transfer};
use crate::constants::BPS_DENOMINATOR;
use crate::errors::{ApolloError, Error, ErrorCode};
use crate::events::TaskSettled;
use crate::instructions::{member_at, swarm_at, task_at, treasury_at};
use crate::pda::{derived_from, member_seeds, swarm_seeds, task_seeds, treasury_seeds, with_bump};
use crate::pubkey::Pubkey;
use crate::state::task::task_state_value;
use crate::state::{Membership, Swarm, Task, TaskState};

verus! {

/// An account passed after the named ones: its address, and what reading it
/// as a membership account of this program gave.
pub struct RemainingAccount {
    pub key: Pubkey,
    pub membership: Result<Membership, ErrorCode>,
}

/// The accounts of `settle_task`.
pub struct SettleTask {
    /// The signer.
    pub signer: Pubkey,
    /// The swarm of the task.
    pub swarm: Account<Swarm>,
    /// The task.
    pub task: Account<Task>,
    /// The swarm's treasury.
    pub treasury: Pubkey,
    /// The lamports that the treasury holds.
    pub treasury_lamports: u64,
    /// Alternating pairs: a membership account, then the wallet that receives
    /// that member's payout.
    pub remaining: Vec<RemainingAccount>,
}

impl SettleTask {
    /// The outcome of the account constraints: the swarm is at its derived
    /// address; the task derives from the swarm and its number and names the
    /// swarm; the treasury is at the address derived from the swarm with the
    /// swarm's treasury bump.
    pub open spec fn spec_try_accounts(&self) -> Result<(), Error> {
        if !derived_from(
            with_bump(
                swarm_seeds(self.swarm.data.authority@, self.swarm.data.swarm_id),
                self.swarm.data.bump,
            ),
            self.swarm.key@,
        ) {
            Err(Error::Anchor(ErrorCode::ConstraintSeeds))
        } else if !derived_from(
            with_bump(task_seeds(self.swarm.key@, self.task.data.task_id), self.task.data.bump),
            self.task.key@,
        ) {
            Err(Error::Anchor(ErrorCode::ConstraintSeeds))
        } else if self.task.data.swarm@ != self.swarm.key@ {
            Err(Error::Apollo(ApolloError::ExecutorMismatch))
        } else if !derived_from(
            with_bump(treasury_seeds(self.swarm.key@), self.swarm.data.treasury_bump),
            self.treasury@,
        ) {
            Err(Error::Anchor(ErrorCode::ConstraintSeeds))
        } else {
            Ok(())
        }
    }

    /// Checks the account constraints in the order they are declared.
    pub fn try_accounts(&self) -> (r: Result<(), Error>)
        ensures
            r == self.spec_try_accounts(),
    {
        if !swarm_at(
            &self.swarm.key,
            &self.swarm.data.authority,
            self.swarm.data.swarm_id,
            self.swarm.data.bump,
        ) {
            return Err(Error::Anchor(ErrorCode::ConstraintSeeds));
        }
        if !task_at(&self.task.key, &self.swarm.key, self.task.data.task_id, self.task.data.bump) {
            return Err(Error::Anchor(ErrorCode::ConstraintSeeds));
        }
        if self.task.data.swarm != self.swarm.key {
            return Err(Error::Apollo(ApolloError::ExecutorMismatch));
        }
        if !treasury_at(&self.treasury, &self.swarm.key, self.swarm.data.treasury_bump) {
            return Err(Error::Anchor(ErrorCode::ConstraintSeeds));
        }
        Ok(())
    }
}

/// What a remaining account gives as a membership of `swarm`: its decoding
/// failure, or `NotMember` when it names another swarm or is not at the
/// address derived from the swarm, its agent and its bump.
pub open spec fn parsed_membership(info: RemainingAccount, swarm: Seq<u8>) -> Result<
    Membership,
    Error,
> {
    match info.membership {
        Err(code) => Err(Error::Anchor(code)),
        Ok(m) => if m.swarm@ != swarm {
            Err(Error::Apollo(ApolloError::NotMember))
        } else if !derived_from(with_bump(member_seeds(swarm, m.agent@), m.bump), info.key@) {
            Err(Error::Apollo(ApolloError::NotMember))
        } else {
            Ok(m)
        },
    }
}

/// Reads a remaining account as a membership of the swarm at `expected_swarm`.
pub fn parse_membership<'a>(info: &'a RemainingAccount, expected_swarm: &Pubkey) -> (r: Result<
    &'a Membership,
    Error,
>)
    ensures
        match r {
            Ok(m) => parsed_membership(*info, expected_swarm@) == Ok::<_, Error>(*m),
            Err(e) => parsed_membership(*info, expected_swarm@) == Err::<Membership, _>(e),
        },
{
    match &info.membership {
        Err(code) => Err(Error::Anchor(*code)),
        Ok(m) => {
            if m.swarm != *expected_swarm {
                return Err(Error::Apollo(ApolloError::NotMember));
            }
            if !member_at(&info.key, expected_swarm, &m.agent, m.bump) {
                return Err(Error::Apollo(ApolloError::NotMember));
            }
            Ok(m)
        },
    }
}

/// The divisor of member payouts: the swarm's share total, or 10 000 when
/// that is zero.
pub open spec fn share_divisor(swarm: Swarm) -> u16 {
    if swarm.total_share_bps == 0 {
        BPS_DENOMINATOR
    } else {
        swarm.total_share_bps
    }
}

/// A member's payout: the reward times the share over the divisor, rounded
/// down, as a `u64`.
pub open spec fn share_amount(reward: u64, share_bps: u16, divisor: u16) -> u64 {
    ((reward as int * share_bps as int) / divisor as int) as u64
}

/// The address of the membership account of pair `k` of the remaining
/// accounts.
pub open spec fn pair_member_key(remaining: Seq<RemainingAccount>, k: int) -> Seq<u8> {
    remaining[2 * k].key@
}

/// Whether the membership account of pair `k` is also that of an earlier
/// pair.
pub open spec fn listed_earlier(remaining: Seq<RemainingAccount>, k: int) -> bool {
    exists|j: int|
        0 <= j < k && #[trigger] pair_member_key(remaining, j) == pair_member_key(remaining, k)
}

/// Whether the membership account of pair `k` is also that of an earlier
/// pair.
pub fn membership_listed_earlier(remaining: &Vec<RemainingAccount>, k: usize) -> (r: bool)
    requires
        2 * k < remaining@.len(),
    ensures
        r == listed_earlier(remaining@, k as int),
{
    let mut j: usize = 0;
    while j < k
        invariant
            0 <= j <= k,
            2 * k < remaining.len(),
            forall|jj: int|
                0 <= jj < j ==> #[trigger] pair_member_key(remaining@, jj) != pair_member_key(
                    remaining@,
                    k as int,
                ),
        decreases k - j,
    {
        if remaining[2 * j].key.same(&remaining[2 * k].key) {
            assert(pair_member_key(remaining@, j as int) == pair_member_key(remaining@, k as int));
            return true;
        }
        j = j + 1;
    }
    false
}

/// The share-based payouts of the first `n` pairs of remaining accounts, in
/// order: the sum of their shares, the transfers of the positive payouts from
/// the treasury to each pair's wallet, and the sum paid; or the first failure
/// among them (a membership that does not read, a membership already listed
/// in an earlier pair, a share sum past `u16`, a paid sum past `u64`).
pub open spec fn share_payouts(
    remaining: Seq<RemainingAccount>,
    swarm: Seq<u8>,
    treasury: Pubkey,
    reward: u64,
    divisor: u16,
    n: nat,
) -> Result<(int, Seq<Transfer>, int), Error>
    decreases n,
{
    if n == 0 {
        Ok((0, Seq::empty(), 0))
    } else {
        match share_payouts(remaining, swarm, treasury, reward, divisor, (n - 1) as nat) {
            Err(e) => Err(e),
            Ok((sum, transfers, paid)) => match parsed_membership(remaining[2 * (n - 1)], swarm) {
                Err(e) => Err(e),
                Ok(m) => if listed_earlier(remaining, n - 1) {
                    Err(Error::Apollo(ApolloError::InvalidMemberCount))
                } else if sum + m.share_bps > u16::MAX {
                    Err(Error::Apollo(ApolloError::MathOverflow))
                } else {
                    let amount = share_amount(reward, m.share_bps, divisor);
                    if amount > 0 {
                        if paid + amount > u64::MAX {
                            Err(Error::Apollo(ApolloError::MathOverflow))
                        } else {
                            Ok(
                                (
                                    sum + m.share_bps,
                                    transfers.push(
                                        Transfer {
                                            from: treasury,
                                            to: remaining[2 * (n - 1) + 1].key,
                                            lamports: amount,
                                        },
                                    ),
                                    paid + amount,
                                ),
                            )
                        }
                    } else {
                        Ok((sum + m.share_bps, transfers, paid))
                    }
                },
            },
        }
    }
}

/// The payout of a verified task: the transfers from the treasury and the
/// sum paid, or why it is refused. In order: the task must be `Verified`,
/// the treasury must hold the reward, the remaining accounts must come in
/// pairs and not be empty. A work-based task takes exactly one pair, whose
/// membership must be the executor's, and pays it the whole reward. Otherwise
/// there is one pair per paid member: no membership may be listed twice, each
/// pair is paid its share of the reward, and the listed shares must sum to the
/// swarm's share total.
pub open spec fn settlement(ctx: &SettleTask) -> Result<(Seq<Transfer>, u64), Error> {
    let task = ctx.task.data;
    let remaining = ctx.remaining@;
    if task.state != task_state_value(TaskState::Verified) {
        Err(Error::Apollo(ApolloError::InvalidTaskState))
    } else if ctx.treasury_lamports < task.reward {
        Err(Error::Apollo(ApolloError::InsufficientTreasury))
    } else if remaining.len() % 2 != 0 || remaining.len() == 0 {
        Err(Error::Apollo(ApolloError::InvalidMemberCount))
    } else if task.work_based {
        if remaining.len() != 2 {
            Err(Error::Apollo(ApolloError::InvalidMemberCount))
        } else {
            match parsed_membership(remaining[0], ctx.swarm.key@) {
                Err(e) => Err(e),
                Ok(m) => if m.agent@ != task.executor@ {
                    Err(Error::Apollo(ApolloError::ExecutorMismatch))
                } else {
                    Ok(
                        (
                            seq![
                                Transfer {
                                    from: ctx.treasury,
                                    to: remaining[1].key,
                                    lamports: task.reward,
                                },
                            ],
                            task.reward,
                        ),
                    )
                },
            }
        }
    } else {
        match share_payouts(
            remaining,
            ctx.swarm.key@,
            ctx.treasury,
            task.reward,
            share_divisor(ctx.swarm.data),
            remaining.len() / 2,
        ) {
            Err(e) => Err(e),
            Ok((sum, transfers, paid)) => if sum != ctx.swarm.data.total_share_bps {
                Err(Error::Apollo(ApolloError::InvalidMemberCount))
            } else {
                Ok((transfers, paid as u64))
            },
        }
    }
}

/// Once the payouts of a prefix of the pairs fail, the payouts of every
/// longer prefix fail the same way.
proof fn lemma_payout_failure_persists(
    remaining: Seq<RemainingAccount>,
    swarm: Seq<u8>,
    treasury: Pubkey,
    reward: u64,
    divisor: u16,
    k: nat,
    n: nat,
)
    requires
        k <= n,
        share_payouts(remaining, swarm, treasury, reward, divisor, k) is Err,
    ensures
        share_payouts(remaining, swarm, treasury, reward, divisor, n) == share_payouts(
            remaining,
            swarm,
            treasury,
            reward,
            divisor,
            k,
        ),
    decreases n - k,
{
    if k < n {
        lemma_payout_failure_persists(remaining, swarm, treasury, reward, divisor, k, (n - 1) as nat);
    }
}

/// Pays out a verified task from the swarm's treasury and moves it to
/// `Settled`; the transfers that come back are made by the runtime, in order.
/// A refused settlement leaves the task as it was.
pub fn handler(ctx: &mut SettleTask) -> (r: Result<(Vec<Transfer>, TaskSettled), Error>)
    ensures
        final(ctx).signer == old(ctx).signer,
        final(ctx).swarm == old(ctx).swarm,
        final(ctx).task.key == old(ctx).task.key,
        final(ctx).treasury == old(ctx).treasury,
        final(ctx).treasury_lamports == old(ctx).treasury_lamports,
        final(ctx).remaining == old(ctx).remaining,
        match settlement(old(ctx)) {
            Err(e) => r == Err::<(Vec<Transfer>, TaskSettled), _>(e) && final(ctx).task.data == old(ctx).task.data,
            Ok((transfers, paid)) => {
                &&& final(ctx).task.data == (Task {
                    state: task_state_value(TaskState::Settled),
                    ..old(ctx).task.data
                })
                &&& r matches Ok((ts, event)) && ts@ == transfers && event == (TaskSettled {
                    task: old(ctx).task.key,
                    swarm: old(ctx).swarm.key,
                    total_paid: paid,
                    work_based: old(ctx).task.data.work_based,
                })
            },
        },
{
    let swarm_key = ctx.swarm.key;
    if ctx.task.data.state != TaskState::Verified.as_u8() {
        return Err(Error::Apollo(ApolloError::InvalidTaskState));
    }
    let reward = ctx.task.data.reward;
    if ctx.treasury_lamports < reward {
        return Err(Error::Apollo(ApolloError::InsufficientTreasury));
    }
    let len = ctx.remaining.len();
    if len % 2 != 0 {
        return Err(Error::Apollo(ApolloError::InvalidMemberCount));
    }
    if len == 0 {
        return Err(Error::Apollo(ApolloError::InvalidMemberCount));
    }
    let mut transfers: Vec<Transfer> = Vec::new();
    let mut total_paid: u64 = 0;
    if ctx.task.data.work_based {
        if len != 2 {
            return Err(Error::Apollo(ApolloError::InvalidMemberCount));
        }
        let membership = parse_membership(&ctx.remaining[0], &swarm_key)?;
        if membership.agent != ctx.task.data.executor {
            return Err(Error::Apollo(ApolloError::ExecutorMismatch));
        }
        transfers.push(Transfer { from: ctx.treasury, to: ctx.remaining[1].key, lamports: reward });
        total_paid = reward;
        proof {
            assert(transfers@ =~= seq![
                Transfer { from: ctx.treasury, to: ctx.remaining@[1].key, lamports: reward },
            ]);
        }
    } else {
        let divisor: u16 = if ctx.swarm.data.total_share_bps == 0 {
            BPS_DENOMINATOR
        } else {
            ctx.swarm.data.total_share_bps
        };
        let pairs = len / 2;
        let mut share_sum: u16 = 0;
        let mut i: usize = 0;
        while i < pairs
            invariant
                *ctx == *old(ctx),
                ctx.task.data.state == task_state_value(TaskState::Verified),
                ctx.treasury_lamports >= ctx.task.data.reward,
                !ctx.task.data.work_based,
                len != 0,
                0 <= i <= pairs,
                pairs == len / 2,
                len == ctx.remaining@.len(),
                len % 2 == 0,
                divisor == share_divisor(ctx.swarm.data),
                swarm_key == ctx.swarm.key,
                reward == ctx.task.data.reward,
                share_payouts(ctx.remaining@, swarm_key@, ctx.treasury, reward, divisor, i as nat)
                    == Ok::<_, Error>((share_sum as int, transfers@, total_paid as int)),
            decreases pairs - i,
        {
            let m = match parse_membership(&ctx.remaining[2 * i], &swarm_key) {
                Ok(m) => m,
                Err(e) => {
                    proof {
                        assert(((i + 1) as nat - 1) as nat == i as nat);
                        assert(share_payouts(
                            ctx.remaining@,
                            swarm_key@,
                            ctx.treasury,
                            reward,
                            divisor,
                            (i + 1) as nat,
                        ) == Err::<(int, Seq<Transfer>, int), _>(e));
                        lemma_payout_failure_persists(
                            ctx.remaining@,
                            swarm_key@,
                            ctx.treasury,
                            reward,
                            divisor,
                            (i + 1) as nat,
                            pairs as nat,
                        );
                    }
                    return Err(e);
                },
            };
            if membership_listed_earlier(&ctx.remaining, i) {
                proof {
                    lemma_payout_failure_persists(
                        ctx.remaining@,
                        swarm_key@,
                        ctx.treasury,
                        reward,
                        divisor,
                        (i + 1) as nat,
                        pairs as nat,
                    );
                }
                return Err(Error::Apollo(ApolloError::InvalidMemberCount));
            }
            share_sum = match share_sum.checked_add(m.share_bps) {
                Some(s) => s,
                None => {
                    proof {
                        lemma_payout_failure_persists(
                            ctx.remaining@,
                            swarm_key@,
                            ctx.treasury,
                            reward,
                            divisor,
                            (i + 1) as nat,
                            pairs as nat,
                        );
                    }
                    return Err(Error::Apollo(ApolloError::MathOverflow));
                },
            };
            proof {
                let share = m.share_bps;
                assert(reward as int * share as int <= u64::MAX as int * u16::MAX as int)
                    by (nonlinear_arith)
                    requires
                        reward <= u64::MAX,
                        share <= u16::MAX,
                ;
            }
            let wide: u128 = (reward as u128) * (m.share_bps as u128);
            let amount: u64 = (wide / (divisor as u128)) as u64;
            if amount > 0 {
                total_paid = match total_paid.checked_add(amount) {
                    Some(t) => t,
                    None => {
                        proof {
                            lemma_payout_failure_persists(
                                ctx.remaining@,
                                swarm_key@,
                                ctx.treasury,
                                reward,
                                divisor,
                                (i + 1) as nat,
                                pairs as nat,
                            );
                        }
                        return Err(Error::Apollo(ApolloError::MathOverflow));
                    },
                };
                transfers.push(
                    Transfer { from: ctx.treasury, to: ctx.remaining[2 * i + 1].key, lamports: amount },
                );
            }
            i = i + 1;
        }
        if share_sum != ctx.swarm.data.total_share_bps {
            return Err(Error::Apollo(ApolloError::InvalidMemberCount));
        }
    }
    ctx.task.data.state = TaskState::Settled.as_u8();
    let event = TaskSettled {
        task: ctx.task.key,
        swarm: swarm_key,
        total_paid,
        work_based: ctx.task.data.work_based,
    };
    Ok((transfers, event))
}

} // verus!
