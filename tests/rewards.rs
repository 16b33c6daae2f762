use meme_token::address::Address;
use meme_token::error::MemeTokenError;
use meme_token::rewards::{update_rewards, HolderInfo, RewardPool, UpdateRewards, MAX_HOLDERS};

fn addr(b: u8) -> Address {
    Address::new([b; 32])
}

fn pool(accumulated: u64, last: i64, stored: u64, staked: u64) -> RewardPool {
    RewardPool {
        accumulated_rewards: accumulated,
        last_distribution_time: last,
        reward_per_token_stored: stored,
        total_staked: staked,
        holders: Vec::new(),
    }
}

fn ctx(holder: u8, reward_pool: RewardPool) -> UpdateRewards {
    UpdateRewards { holder: addr(holder), reward_pool }
}

fn record(p: &RewardPool, b: u8) -> HolderInfo {
    *p.holders.iter().find(|h| h.address.bytes == [b; 32]).expect("record")
}

#[test]
fn first_settlement_starts_at_current_accumulator() {
    let mut c = ctx(7, pool(1000, 0, 0, 1000));
    assert_eq!(update_rewards(&mut c, 400, 10), Ok(()));
    // rate 1000 / 10 = 100; increment 100 * 1_000_000 / 1000 = 100_000
    assert_eq!(c.reward_pool.reward_per_token_stored, 100_000);
    assert_eq!(c.reward_pool.last_distribution_time, 10);
    let h = record(&c.reward_pool, 7);
    assert_eq!(h.unclaimed_rewards, 0);
    assert_eq!(h.rewards_per_token_paid, 100_000);
    assert_eq!(h.balance, 400);
    assert_eq!(h.last_deposit_time, 10);
    assert_eq!(h.staked_amount, 0);
    assert_eq!(h.last_stake_time, 10);
}

#[test]
fn later_settlement_credits_growth_on_new_balance() {
    let mut c = ctx(7, pool(1000, 0, 0, 1000));
    assert_eq!(update_rewards(&mut c, 400, 10), Ok(()));
    assert_eq!(update_rewards(&mut c, 500, 20), Ok(()));
    assert_eq!(c.reward_pool.reward_per_token_stored, 200_000);
    let h = record(&c.reward_pool, 7);
    // 500 * (200_000 - 100_000) / 1_000_000 = 50
    assert_eq!(h.unclaimed_rewards, 50);
    assert_eq!(h.rewards_per_token_paid, 200_000);
    assert_eq!(h.balance, 500);
    assert_eq!(h.last_deposit_time, 20);
    assert_eq!(h.last_stake_time, 10);
    assert_eq!(c.reward_pool.holders.len(), 1);
}

#[test]
fn late_holder_gets_nothing_from_earlier_growth() {
    let mut p = pool(1000, 0, 0, 1000);
    let mut a = ctx(1, p.clone());
    assert_eq!(update_rewards(&mut a, 1000, 10), Ok(()));
    p = a.reward_pool;
    let mut b = ctx(2, p);
    assert_eq!(update_rewards(&mut b, 1000, 20), Ok(()));
    assert_eq!(b.reward_pool.reward_per_token_stored, 200_000);
    let h = record(&b.reward_pool, 2);
    assert_eq!(h.unclaimed_rewards, 0);
    assert_eq!(h.rewards_per_token_paid, 200_000);
    assert_eq!(record(&b.reward_pool, 1).unclaimed_rewards, 0);
}

#[test]
fn nothing_staked_skips_accrual_but_settles() {
    let mut c = ctx(3, pool(1000, 5, 42, 0));
    assert_eq!(update_rewards(&mut c, 10, 100), Ok(()));
    assert_eq!(c.reward_pool.reward_per_token_stored, 42);
    assert_eq!(c.reward_pool.last_distribution_time, 100);
    assert_eq!(c.reward_pool.accumulated_rewards, 1000);
    let h = record(&c.reward_pool, 3);
    assert_eq!(h.rewards_per_token_paid, 42);
    assert_eq!(h.unclaimed_rewards, 0);
}

#[test]
fn small_pool_over_long_window_accrues_nothing() {
    let mut c = ctx(3, pool(5, 0, 9, 10));
    assert_eq!(update_rewards(&mut c, 10, 10), Ok(()));
    assert_eq!(c.reward_pool.reward_per_token_stored, 9);
}

#[test]
fn clock_going_back_accrues_nothing() {
    let mut c = ctx(3, pool(1000, 50, 9, 10));
    assert_eq!(update_rewards(&mut c, 10, 40), Ok(()));
    assert_eq!(c.reward_pool.reward_per_token_stored, 9);
    assert_eq!(c.reward_pool.last_distribution_time, 40);
}

#[test]
fn extreme_times_do_not_wrap() {
    let mut c = ctx(3, pool(u64::MAX, i64::MIN, 0, u64::MAX));
    assert_eq!(update_rewards(&mut c, 1, i64::MAX), Ok(()));
    // elapsed is 2^64 - 1, so the rate is 1 and the increment rounds to 0
    assert_eq!(c.reward_pool.reward_per_token_stored, 0);
}

#[test]
fn rate_overflow_fails_and_changes_nothing() {
    let mut c = ctx(3, pool(u64::MAX, 0, 0, 1));
    assert_eq!(update_rewards(&mut c, 1, 1), Err(MemeTokenError::ArithmeticOverflow));
    assert_eq!(c.reward_pool.reward_per_token_stored, 0);
    assert_eq!(c.reward_pool.last_distribution_time, 0);
    assert!(c.reward_pool.holders.is_empty());
}

#[test]
fn accumulator_overflow_fails() {
    let mut c = ctx(3, pool(1, 0, u64::MAX, 1));
    assert_eq!(update_rewards(&mut c, 1, 1), Err(MemeTokenError::ArithmeticOverflow));
    assert_eq!(c.reward_pool.reward_per_token_stored, u64::MAX);
}

#[test]
fn reward_multiply_overflow_fails() {
    let mut c = ctx(3, pool(1_000_000, 0, 0, 1));
    assert_eq!(update_rewards(&mut c, 1, 0), Ok(()));
    // the accumulator grows by 10^12; 2^63 * 10^12 does not fit
    assert_eq!(update_rewards(&mut c, 1u64 << 63, 1), Err(MemeTokenError::ArithmeticOverflow));
    assert_eq!(c.reward_pool.reward_per_token_stored, 0);
    assert_eq!(record(&c.reward_pool, 3).balance, 1);
}

#[test]
fn full_pool_refuses_new_holder() {
    let mut p = pool(0, 0, 0, 0);
    for i in 0..MAX_HOLDERS {
        let mut bytes = [0u8; 32];
        bytes[0] = (i % 256) as u8;
        bytes[1] = (i / 256) as u8;
        bytes[2] = 1;
        p.holders.push(HolderInfo {
            address: Address::new(bytes),
            balance: 0,
            last_deposit_time: 0,
            rewards_per_token_paid: 0,
            unclaimed_rewards: 0,
            staked_amount: 0,
            last_stake_time: 0,
        });
    }
    let mut c = ctx(9, p);
    assert_eq!(update_rewards(&mut c, 5, 10), Err(MemeTokenError::CapacityExceeded));
    assert_eq!(c.reward_pool.holders.len(), MAX_HOLDERS);
    assert_eq!(c.reward_pool.last_distribution_time, 0);
    let mut known = [0u8; 32];
    known[2] = 1;
    let mut k = UpdateRewards { holder: Address::new(known), reward_pool: c.reward_pool };
    assert_eq!(update_rewards(&mut k, 5, 10), Ok(()));
    assert_eq!(k.reward_pool.holders[0].balance, 5);
}

#[test]
fn accumulator_never_decreases_over_calls() {
    let mut c = ctx(1, pool(10_000, 0, 0, 300));
    let mut last = 0u64;
    for (i, now) in [3i64, 3, 7, 20, 21, 100, 100, 5000].iter().enumerate() {
        c.holder = addr((i % 3) as u8);
        assert_eq!(update_rewards(&mut c, 100, *now), Ok(()));
        assert!(c.reward_pool.reward_per_token_stored >= last);
        last = c.reward_pool.reward_per_token_stored;
    }
    assert!(last > 0);
}

#[test]
fn single_staker_credit_bounded_by_pool() {
    let mut c = ctx(1, pool(1000, 0, 0, 700));
    assert_eq!(update_rewards(&mut c, 700, 1), Ok(()));
    let mut before = record(&c.reward_pool, 1).unclaimed_rewards;
    for now in [2i64, 4, 9, 30] {
        assert_eq!(update_rewards(&mut c, 700, now), Ok(()));
        let after = record(&c.reward_pool, 1).unclaimed_rewards;
        assert!(after - before <= 1000);
        before = after;
    }
    // first of these windows is one second long: the whole pool per unit
    assert!(before > 0);
}
