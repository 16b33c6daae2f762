use vstd::prelude::*;
use crate::address::Address;
use crate::error::MemeTokenError;
use vstd::arithmetic::div_mod::{
    lemma_div_is_ordered, lemma_div_is_ordered_by_denominator, lemma_div_multiples_vanish,
    lemma_fundamental_div_mod, lemma_mod_pos_bound,
};
use vstd::arithmetic::mul::lemma_mul_inequality;

verus! {

/// Fixed-point scale of the reward-per-share accumulator.
pub const REWARD_SCALE: u64 = 1_000_000;

/// Most holders a reward pool can track.
pub const MAX_HOLDERS: usize = 1000;

/// Settlement record of one holder.
#[derive(Clone, Copy, Debug)]
pub struct HolderInfo {
    pub address: Address,
    pub balance: u64,
    pub last_deposit_time: i64,
    /// Accumulator value at this holder's last settlement.
    pub rewards_per_token_paid: u64,
    pub unclaimed_rewards: u64,
    pub staked_amount: u64,
    pub last_stake_time: i64,
}

/// The pool that spreads pooled rewards over holders in proportion to their balances.
#[derive(Clone, Debug)]
pub struct RewardPool {
    /// Reward balance not yet attributed to anyone.
    pub accumulated_rewards: u64,
    pub last_distribution_time: i64,
    /// Reward per staked unit since inception, scaled by `REWARD_SCALE`.
    pub reward_per_token_stored: u64,
    pub total_staked: u64,
    /// One record per holder that has ever settled.
    pub holders: Vec<HolderInfo>,
}

/// The accounts of one settlement: the calling holder and the pool.
pub struct UpdateRewards {
    pub holder: Address,
    pub reward_pool: RewardPool,
}

/// Whether `i` is the first position in `hs` that holds the record of `who`.
pub open spec fn first_record_of(hs: Seq<HolderInfo>, who: Seq<u8>, i: int) -> bool {
    &&& 0 <= i < hs.len()
    &&& hs[i].address@ == who
    &&& forall|j: int| 0 <= j < i ==> (#[trigger] hs[j]).address@ != who
}

/// Where in `hs` the record of `who` stands, if it has one (the first one,
/// should there be several).
pub open spec fn holder_index(hs: Seq<HolderInfo>, who: Seq<u8>) -> Option<int> {
    if exists|i: int| first_record_of(hs, who, i) {
        Some(choose|i: int| first_record_of(hs, who, i))
    } else {
        None
    }
}

/// Time since the last distribution, when the pool accrues over it.
pub open spec fn accrual_window(pool: RewardPool, now: i64) -> int {
    if pool.total_staked != 0 && now - pool.last_distribution_time > 0 {
        now - pool.last_distribution_time
    } else {
        0
    }
}

/// Reward released per unit of time over the window, times `REWARD_SCALE`.
pub open spec fn scaled_rate(pool: RewardPool, now: i64) -> int {
    let w = accrual_window(pool, now);
    if w > 0 {
        (pool.accumulated_rewards as int / w) * REWARD_SCALE
    } else {
        0
    }
}

/// Growth of the accumulator that a settlement at `now` brings.
pub open spec fn accrual_increment(pool: RewardPool, now: i64) -> int {
    if accrual_window(pool, now) > 0 {
        scaled_rate(pool, now) / pool.total_staked as int
    } else {
        0
    }
}

/// The accumulator brought up to `now`.
pub open spec fn accrued_index(pool: RewardPool, now: i64) -> int {
    pool.reward_per_token_stored + accrual_increment(pool, now)
}

/// The reward earned by `balance` while the accumulator moved from `paid` to
/// `index`; nothing when it did not move forward.
pub open spec fn reward_delta(balance: int, index: int, paid: int) -> int {
    if index > paid {
        balance * (index - paid) / REWARD_SCALE as int
    } else {
        0
    }
}

/// Why a settlement of `who` with `new_balance` at `now` fails, if it does.
pub open spec fn settle_error(pool: RewardPool, who: Seq<u8>, new_balance: u64, now: i64) -> Option<
    MemeTokenError,
> {
    let index = accrued_index(pool, now);
    if scaled_rate(pool, now) > u64::MAX || index > u64::MAX {
        Some(MemeTokenError::ArithmeticOverflow)
    } else {
        match holder_index(pool.holders@, who) {
            Some(i) => {
                let h = pool.holders@[i];
                let diff = if index > h.rewards_per_token_paid {
                    index - h.rewards_per_token_paid
                } else {
                    0
                };
                if new_balance * diff > u64::MAX || h.unclaimed_rewards + reward_delta(
                    new_balance as int,
                    index,
                    h.rewards_per_token_paid as int,
                ) > u64::MAX {
                    Some(MemeTokenError::ArithmeticOverflow)
                } else {
                    None
                }
            },
            None => {
                if pool.holders.len() >= MAX_HOLDERS {
                    Some(MemeTokenError::CapacityExceeded)
                } else {
                    None
                }
            },
        }
    }
}

/// `post` is `pre` after a successful settlement of `who` with `new_balance` at `now`.
pub open spec fn settled(pre: RewardPool, post: RewardPool, who: Address, new_balance: u64, now: i64) -> bool {
    let index = accrued_index(pre, now);
    &&& post.accumulated_rewards == pre.accumulated_rewards
    &&& post.total_staked == pre.total_staked
    &&& post.reward_per_token_stored == index
    &&& post.last_distribution_time == now
    &&& match holder_index(pre.holders@, who@) {
        Some(i) => {
            let h = pre.holders@[i];
            post.holders@ == pre.holders@.update(
                i,
                HolderInfo {
                    balance: new_balance,
                    last_deposit_time: now,
                    rewards_per_token_paid: index as u64,
                    unclaimed_rewards: (h.unclaimed_rewards + reward_delta(
                        new_balance as int,
                        index,
                        h.rewards_per_token_paid as int,
                    )) as u64,
                    ..h
                },
            )
        },
        None => post.holders@ == pre.holders@.push(
            HolderInfo {
                address: who,
                balance: new_balance,
                last_deposit_time: now,
                rewards_per_token_paid: index as u64,
                unclaimed_rewards: 0,
                staked_amount: 0,
                last_stake_time: now,
            },
        ),
    }
}

impl RewardPool {
    /// The pool's invariant: bounded, one record per address, and no record
    /// ahead of the accumulator.
    pub open spec fn wf(&self) -> bool {
        &&& self.holders.len() <= MAX_HOLDERS
        &&& forall|i: int, j: int|
            0 <= i < j < self.holders.len() ==> (#[trigger] self.holders@[i]).address@
                != (#[trigger] self.holders@[j]).address@
        &&& forall|i: int|
            0 <= i < self.holders.len() ==> (#[trigger] self.holders@[i]).rewards_per_token_paid
                <= self.reward_per_token_stored
    }

    /// Position of the record of `who`, searching from the front.
    fn find_holder(&self, who: &Address) -> (r: Option<usize>)
        ensures
            r matches Some(i) ==> holder_index(self.holders@, who@) == Some(i as int),
            r is None ==> holder_index(self.holders@, who@) is None,
            r is None ==> forall|j: int|
                0 <= j < self.holders.len() ==> (#[trigger] self.holders@[j]).address@ != who@,
    {
        let mut i: usize = 0;
        while i < self.holders.len()
            invariant
                0 <= i <= self.holders.len(),
                forall|j: int| 0 <= j < i ==> (#[trigger] self.holders@[j]).address@ != who@,
            decreases self.holders.len() - i,
        {
            if self.holders[i].address.same_as(who) {
                assert(first_record_of(self.holders@, who@, i as int));
                let ghost k = choose|k: int| first_record_of(self.holders@, who@, k);
                assert(k == i as int) by {
                    if k < i as int {
                        assert(self.holders@[k].address@ != who@);
                    } else if k > i as int {
                        assert(self.holders@[i as int].address@ != who@);
                    }
                }
                return Some(i);
            }
            i = i + 1;
        }
        None
    }
}

/// With a single holder, whose record is therefore level with the
/// accumulator, and a balance no larger than the total staked, one
/// settlement credits at most the pool's undistributed rewards divided by
/// the time since the last distribution, hence at most those rewards; and
/// the record stays level with the accumulator for the next settlement.
pub proof fn lemma_single_staker_credit_bounded(
    pre: RewardPool,
    post: RewardPool,
    who: Address,
    new_balance: u64,
    now: i64,
)
    requires
        pre.wf(),
        pre.holders.len() == 1,
        pre.holders@[0].address@ == who@,
        pre.holders@[0].rewards_per_token_paid == pre.reward_per_token_stored,
        new_balance <= pre.total_staked,
        settle_error(pre, who@, new_balance, now) is None,
        settled(pre, post, who, new_balance, now),
    ensures
        post.holders.len() == 1,
        post.holders@[0].rewards_per_token_paid == post.reward_per_token_stored,
        post.holders@[0].unclaimed_rewards - pre.holders@[0].unclaimed_rewards
            <= pre.accumulated_rewards as int / (if accrual_window(pre, now) > 0 {
            accrual_window(pre, now)
        } else {
            1
        }),
        post.holders@[0].unclaimed_rewards - pre.holders@[0].unclaimed_rewards
            <= pre.accumulated_rewards,
{
    assert(first_record_of(pre.holders@, who@, 0));
    assert(holder_index(pre.holders@, who@) == Some(0int));
    let a = pre.accumulated_rewards as int;
    let s = REWARD_SCALE as int;
    let t = pre.total_staked as int;
    let nb = new_balance as int;
    let w = accrual_window(pre, now);
    let inc = accrual_increment(pre, now);
    let credit = reward_delta(nb, accrued_index(pre, now), pre.reward_per_token_stored as int);
    lemma_div_is_ordered_by_denominator(a, 1, if w > 0 { w } else { 1 });
    if w > 0 {
        let rate = a / w;
        let x = rate * s;
        lemma_mod_pos_bound(a, w);
        assert(rate >= 0) by (nonlinear_arith)
            requires a >= 0, w > 0, rate == a / w;
        assert(x >= 0) by (nonlinear_arith)
            requires rate >= 0, s > 0, x == rate * s;
        assert(inc == x / t);
        lemma_fundamental_div_mod(x, t);
        lemma_mod_pos_bound(x, t);
        assert(t * inc <= x);
        assert(inc >= 0) by (nonlinear_arith)
            requires x >= 0, t > 0, inc == x / t;
        lemma_mul_inequality(nb, t, inc);
        assert(nb * inc <= x);
        if inc > 0 {
            assert(credit == nb * inc / s);
            lemma_div_is_ordered(nb * inc, x, s);
            lemma_div_multiples_vanish(rate, s);
            assert(x == s * rate) by (nonlinear_arith)
                requires x == rate * s;
        }
    }
}

/// Where some record of `who` exists, a first one does.
proof fn lemma_record_has_first(hs: Seq<HolderInfo>, who: Seq<u8>, j: int)
    requires
        0 <= j < hs.len(),
        hs[j].address@ == who,
    ensures
        exists|i: int| first_record_of(hs, who, i),
    decreases j,
{
    if forall|k: int| 0 <= k < j ==> (#[trigger] hs[k]).address@ != who {
        assert(first_record_of(hs, who, j));
    } else {
        let k = choose|k: int| 0 <= k < j && (#[trigger] hs[k]).address@ == who;
        lemma_record_has_first(hs, who, k);
    }
}

/// A holder's first settlement credits nothing: the new record starts level
/// with the accumulator as it stands after the settlement, so growth from
/// before that instant never reaches it.
pub proof fn lemma_first_settlement_earns_nothing(
    pre: RewardPool,
    post: RewardPool,
    who: Address,
    new_balance: u64,
    now: i64,
)
    requires
        holder_index(pre.holders@, who@) is None,
        settled(pre, post, who, new_balance, now),
    ensures
        holder_index(post.holders@, who@) == Some(pre.holders.len() as int),
        post.holders@[pre.holders.len() as int].unclaimed_rewards == 0,
        post.holders@[pre.holders.len() as int].rewards_per_token_paid == post.reward_per_token_stored,
{
    let n = pre.holders.len() as int;
    assert forall|j: int| 0 <= j < n implies (#[trigger] pre.holders@[j]).address@ != who@ by {
        if pre.holders@[j].address@ == who@ {
            lemma_record_has_first(pre.holders@, who@, j);
        }
    }
    assert(first_record_of(post.holders@, who@, n));
}

/// A holder's second settlement, when no one settled in between, credits
/// exactly the new balance times the accumulator's growth since the first
/// settlement, over the scale: growth from before the first settlement
/// counts for nothing.
pub proof fn lemma_second_settlement_credits_growth_since_first(
    start: RewardPool,
    first: RewardPool,
    second: RewardPool,
    who: Address,
    first_balance: u64,
    first_now: i64,
    new_balance: u64,
    now: i64,
)
    requires
        holder_index(start.holders@, who@) is None,
        settled(start, first, who, first_balance, first_now),
        settle_error(first, who@, new_balance, now) is None,
        settled(first, second, who, new_balance, now),
    ensures
        holder_index(second.holders@, who@) == Some(start.holders.len() as int),
        second.holders@[start.holders.len() as int].unclaimed_rewards == new_balance * (
        second.reward_per_token_stored - first.reward_per_token_stored) / REWARD_SCALE as int,
{
    let n = start.holders.len() as int;
    lemma_first_settlement_earns_nothing(start, first, who, first_balance, first_now);
    assert(first_record_of(second.holders@, who@, n));
    assert(second.holders@[n].address@ == first.holders@[n].address@);
}

/// Settles the holder of `ctx` at `now`: brings the accumulator up to `now`,
/// credits what the holder's tracked balance earned since the last
/// settlement (computed on `amount`, the holder's full new balance), and
/// records `amount` as that balance. A first-time holder starts at the
/// current accumulator with nothing unclaimed.
pub fn update_rewards(ctx: &mut UpdateRewards, amount: u64, now: i64) -> (r: Result<(), MemeTokenError>)
    ensures
        final(ctx).holder == old(ctx).holder,
        old(ctx).reward_pool.wf() ==> final(ctx).reward_pool.wf(),
        final(ctx).reward_pool.reward_per_token_stored >= old(ctx).reward_pool.reward_per_token_stored,
        match r {
            Ok(()) => {
                &&& settle_error(old(ctx).reward_pool, old(ctx).holder@, amount, now) is None
                &&& settled(old(ctx).reward_pool, final(ctx).reward_pool, old(ctx).holder, amount, now)
            },
            Err(e) => {
                &&& settle_error(old(ctx).reward_pool, old(ctx).holder@, amount, now) == Some(e)
                &&& *final(ctx) == *old(ctx)
            },
        },
{
    let pool = &ctx.reward_pool;
    let mut index: u64 = pool.reward_per_token_stored;
    if pool.total_staked != 0 {
        let elapsed: i128 = now as i128 - pool.last_distribution_time as i128;
        if elapsed > 0 {
            let rate: u64 = pool.accumulated_rewards / (elapsed as u64);
            let scaled: u64 = match rate.checked_mul(REWARD_SCALE) {
                Some(v) => v,
                None => return Err(MemeTokenError::ArithmeticOverflow),
            };
            index = match index.checked_add(scaled / pool.total_staked) {
                Some(v) => v,
                None => return Err(MemeTokenError::ArithmeticOverflow),
            };
        }
    }
    assert(index == accrued_index(*pool, now));
    let found = pool.find_holder(&ctx.holder);
    match found {
        Some(i) => {
            let h: HolderInfo = pool.holders[i];
            let diff: u64 = if index > h.rewards_per_token_paid {
                index - h.rewards_per_token_paid
            } else {
                0
            };
            let earned: u64 = match amount.checked_mul(diff) {
                Some(v) => v / REWARD_SCALE,
                None => return Err(MemeTokenError::ArithmeticOverflow),
            };
            let unclaimed: u64 = match h.unclaimed_rewards.checked_add(earned) {
                Some(v) => v,
                None => return Err(MemeTokenError::ArithmeticOverflow),
            };
            let updated = HolderInfo {
                balance: amount,
                last_deposit_time: now,
                rewards_per_token_paid: index,
                unclaimed_rewards: unclaimed,
                ..h
            };
            ctx.reward_pool.holders.set(i, updated);
        },
        None => {
            if pool.holders.len() >= MAX_HOLDERS {
                return Err(MemeTokenError::CapacityExceeded);
            }
            let record = HolderInfo {
                address: ctx.holder,
                balance: amount,
                last_deposit_time: now,
                rewards_per_token_paid: index,
                unclaimed_rewards: 0,
                staked_amount: 0,
                last_stake_time: now,
            };
            ctx.reward_pool.holders.push(record);
        },
    }
    ctx.reward_pool.reward_per_token_stored = index;
    ctx.reward_pool.last_distribution_time = now;
    Ok(())
}

} // verus!
