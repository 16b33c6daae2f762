use vstd::prelude::*;
use crate::address::Address;
use crate::error::MemeTokenError;
use crate::governance::{GovernanceConfig, BPS_DENOMINATOR};
use crate::rewards::RewardPool;

verus! {

/// Tokens minted to the creator at initialization.
pub const INITIAL_SUPPLY: u64 = 1_000_000_000;

/// How long liquidity stays locked after initialization, in seconds (180 days).
pub const LIQUIDITY_LOCK_PERIOD: i64 = 180 * 24 * 60 * 60;

pub const DEFAULT_TRANSACTION_FEE_BPS: u16 = 100;

pub const DEFAULT_BURN_RATE_BPS: u16 = 50;

pub const DEFAULT_REWARD_RATE_BPS: u16 = 50;

pub const DEFAULT_MAX_WALLET_BPS: u16 = 200;

pub const DEFAULT_MAX_TX_BPS: u16 = 100;

pub const MIN_PROPOSAL_THRESHOLD_BPS: u16 = 100;

pub const MIN_QUORUM_BPS: u16 = 1000;

/// Identity and economic parameters of the token.
#[derive(Clone, Copy, Debug)]
pub struct TokenConfig {
    pub creator: Address,
    pub mint: Address,
    pub liquidity_unlock_time: i64,
    pub total_supply: u64,
    pub circulating_supply: u64,
    pub transaction_fee_bps: u16,
    pub burn_rate_bps: u16,
    pub reward_rate_bps: u16,
    pub max_wallet_bps: u16,
    pub max_tx_bps: u16,
    pub total_burned: u64,
    pub total_rewards_distributed: u64,
}

impl TokenConfig {
    /// Every rate is a share in basis points, at most the whole.
    pub open spec fn wf(&self) -> bool {
        &&& self.transaction_fee_bps <= BPS_DENOMINATOR
        &&& self.burn_rate_bps <= BPS_DENOMINATOR
        &&& self.reward_rate_bps <= BPS_DENOMINATOR
        &&& self.max_wallet_bps <= BPS_DENOMINATOR
        &&& self.max_tx_bps <= BPS_DENOMINATOR
    }
}

/// A sample of how much a transfer moved the price.
#[derive(Clone, Copy, Debug)]
pub struct PriceImpactEntry {
    pub timestamp: i64,
    pub amount: u64,
    pub price_impact_bps: i16,
}

/// Activity counters of the token.
#[derive(Clone, Debug)]
pub struct Analytics {
    pub total_transactions: u64,
    pub unique_holders: u64,
    pub volume_24h: u64,
    pub largest_transfer: u64,
    pub total_proposals: u64,
    pub total_votes: u64,
    /// Volume of each hour of the last day.
    pub hourly_volume: [u64; 24],
    pub daily_active_wallets: u64,
    pub avg_holding_time: i64,
    pub price_impact_data: Vec<PriceImpactEntry>,
}

/// The records a token starts with.
pub struct Initialize {
    pub creator: Address,
    pub mint: Address,
    pub token_config: TokenConfig,
    pub reward_pool: RewardPool,
    pub governance_config: GovernanceConfig,
    pub analytics: Analytics,
}

/// Sets up the records of a token created by `creator` with mint `mint` at
/// `now`: the default rates, the whole `INITIAL_SUPPLY` in circulation,
/// liquidity locked until `now + LIQUIDITY_LOCK_PERIOD`, the governance
/// thresholds, an empty reward pool and analytics that count the creator as
/// the one holder. The caller then mints `INITIAL_SUPPLY` to the creator.
pub fn initialize(creator: Address, mint: Address, now: i64) -> (r: Result<Initialize, MemeTokenError>)
    ensures
        r is Ok <==> now + LIQUIDITY_LOCK_PERIOD <= i64::MAX,
        r matches Err(e) ==> e == MemeTokenError::ArithmeticOverflow,
        r matches Ok(init) ==> {
            let tc = init.token_config;
            let gc = init.governance_config;
            let rp = init.reward_pool;
            let an = init.analytics;
            &&& init.creator == creator
            &&& init.mint == mint
            &&& tc.wf()
            &&& tc.creator == creator
            &&& tc.mint == mint
            &&& tc.liquidity_unlock_time == now + LIQUIDITY_LOCK_PERIOD
            &&& tc.total_supply == INITIAL_SUPPLY
            &&& tc.circulating_supply == INITIAL_SUPPLY
            &&& tc.transaction_fee_bps == DEFAULT_TRANSACTION_FEE_BPS
            &&& tc.burn_rate_bps == DEFAULT_BURN_RATE_BPS
            &&& tc.reward_rate_bps == DEFAULT_REWARD_RATE_BPS
            &&& tc.max_wallet_bps == DEFAULT_MAX_WALLET_BPS
            &&& tc.max_tx_bps == DEFAULT_MAX_TX_BPS
            &&& tc.total_burned == 0
            &&& tc.total_rewards_distributed == 0
            &&& gc.wf()
            &&& gc.proposals@.len() == 0
            &&& gc.executed_proposals@.len() == 0
            &&& gc.proposal_count == 0
            &&& gc.min_proposal_threshold_bps == MIN_PROPOSAL_THRESHOLD_BPS
            &&& gc.min_quorum_bps == MIN_QUORUM_BPS
            &&& rp.wf()
            &&& rp.accumulated_rewards == 0
            &&& rp.last_distribution_time == 0
            &&& rp.reward_per_token_stored == 0
            &&& rp.total_staked == 0
            &&& rp.holders@.len() == 0
            &&& an.total_transactions == 0
            &&& an.unique_holders == 1
            &&& an.volume_24h == 0
            &&& an.largest_transfer == 0
            &&& an.total_proposals == 0
            &&& an.total_votes == 0
            &&& forall|h: int| 0 <= h < 24 ==> an.hourly_volume@[h] == 0
            &&& an.daily_active_wallets == 0
            &&& an.avg_holding_time == 0
            &&& an.price_impact_data@.len() == 0
        },
{
    if now as i128 + LIQUIDITY_LOCK_PERIOD as i128 > i64::MAX as i128 {
        return Err(MemeTokenError::ArithmeticOverflow);
    }
    let token_config = TokenConfig {
        creator,
        mint,
        liquidity_unlock_time: now + LIQUIDITY_LOCK_PERIOD,
        total_supply: INITIAL_SUPPLY,
        circulating_supply: INITIAL_SUPPLY,
        transaction_fee_bps: DEFAULT_TRANSACTION_FEE_BPS,
        burn_rate_bps: DEFAULT_BURN_RATE_BPS,
        reward_rate_bps: DEFAULT_REWARD_RATE_BPS,
        max_wallet_bps: DEFAULT_MAX_WALLET_BPS,
        max_tx_bps: DEFAULT_MAX_TX_BPS,
        total_burned: 0,
        total_rewards_distributed: 0,
    };
    let governance_config = GovernanceConfig {
        proposals: Vec::new(),
        executed_proposals: Vec::new(),
        proposal_count: 0,
        min_proposal_threshold_bps: MIN_PROPOSAL_THRESHOLD_BPS,
        min_quorum_bps: MIN_QUORUM_BPS,
    };
    let reward_pool = RewardPool {
        accumulated_rewards: 0,
        last_distribution_time: 0,
        reward_per_token_stored: 0,
        total_staked: 0,
        holders: Vec::new(),
    };
    let analytics = Analytics {
        total_transactions: 0,
        unique_holders: 1,
        volume_24h: 0,
        largest_transfer: 0,
        total_proposals: 0,
        total_votes: 0,
        hourly_volume: [0u64; 24],
        daily_active_wallets: 0,
        avg_holding_time: 0,
        price_impact_data: Vec::new(),
    };
    Ok(Initialize { creator, mint, token_config, reward_pool, governance_config, analytics })
}

} // verus!
