//! What is stored of the pool and of each position.
use crate::pubkey::Pubkey;
use crate::rewards::interest;
use crate::tier::{tier_of, StakingTier};
use vstd::prelude::*;

verus! {

/// The most that a pool may set aside for rewards: 5M ZARA.
pub const INITIAL_REWARD_POOL: u64 = 5_000_000_000_000;

/// The most that a claim may pay, whatever the stake: 1M ZARA, the maximum for a year.
pub const MAX_ANNUAL_REWARDS: u64 = 1_000_000_000_000;

/// The pool.
#[derive(Clone, Copy, Debug, PartialEq, Eq)]
pub struct StakingPool {
    /// Who may pause the pool, and in whose name stakes are taken.
    pub authority: Pubkey,
    /// The token that is staked.
    pub zara_mint: Pubkey,
    /// The sum of all open stakes.
    pub total_staked: u64,
    /// The number of open positions.
    pub staker_count: u64,
    /// No stakes are taken and no claims paid while this is set.
    pub paused: bool,
    /// What was set aside for rewards.
    pub reward_pool_amount: u64,
    /// The number that the next position gets.
    pub next_position_id: u64,
}

/// A position: one stake of one owner.
#[derive(Clone, Copy, Debug, PartialEq, Eq)]
pub struct StakerInfo {
    pub owner: Pubkey,
    pub pool: Pubkey,
    pub position_id: u64,
    pub stake_start_time: i64,
    /// The stake cannot be taken out before this time.
    pub stake_end_time: i64,
    /// Rewards up to this time have been paid.
    pub last_claim_time: i64,
    pub staked_amount: u64,
    pub tier: StakingTier,
    pub apr: u64,
    /// The rewards claimed so far.
    pub reward_debt: u64,
}

/// The bump seeds of the pool's derived addresses.
#[derive(Clone, Copy, Debug, PartialEq, Eq)]
pub struct PoolBumps {
    pub pool: u8,
    pub stake_vault: u8,
    pub reward_vault: u8,
}

impl StakingPool {
    /// The bytes that a stored pool takes: `authority`, `zara_mint`, `total_staked`,
    /// `staker_count`, `reward_pool_amount`, `paused`, `next_position_id`.
    pub const LEN: usize = 32 + 32 + 8 + 8 + 8 + 1 + 8;
}

impl StakerInfo {
    /// The bytes that a stored position takes: `owner`, `pool`, `position_id`,
    /// `stake_start_time`, `stake_end_time`, `last_claim_time`, `staked_amount`, `tier`, `apr`,
    /// `reward_debt`.
    pub const LEN: usize = 32 + 32 + 8 + 8 + 8 + 8 + 8 + 1 + 8 + 8;

    /// The terms of the position are those of the tier that its stake falls in, its times are in
    /// order, and no more has been claimed than was earned up to the last claim.
    pub open spec fn well_formed(self) -> bool {
        &&& tier_of(self.staked_amount) == Some(self.tier)
        &&& self.apr == self.tier.apr()
        &&& self.stake_end_time == self.stake_start_time + self.tier.lock_period()
        &&& self.stake_start_time <= self.last_claim_time
        &&& self.reward_debt <= interest(
            self.staked_amount,
            self.stake_start_time,
            self.last_claim_time,
            self.apr,
        )
    }
}

impl Default for StakingPool {
    fn default() -> (pool: Self)
        ensures
            pool.authority.bytes@ == Seq::new(32, |i: int| 0u8),
            pool.zara_mint.bytes@ == Seq::new(32, |i: int| 0u8),
            pool.total_staked == 0,
            pool.staker_count == 0,
            !pool.paused,
            pool.reward_pool_amount == 0,
            pool.next_position_id == 0,
    {
        StakingPool {
            authority: Pubkey::default(),
            zara_mint: Pubkey::default(),
            total_staked: 0,
            staker_count: 0,
            paused: false,
            reward_pool_amount: 0,
            next_position_id: 0,
        }
    }
}

impl Default for StakerInfo {
    fn default() -> (staker: Self)
        ensures
            staker.owner.bytes@ == Seq::new(32, |i: int| 0u8),
            staker.pool.bytes@ == Seq::new(32, |i: int| 0u8),
            staker.position_id == 0,
            staker.stake_start_time == 0,
            staker.stake_end_time == 0,
            staker.last_claim_time == 0,
            staker.staked_amount == 0,
            staker.tier == StakingTier::Basic,
            staker.apr == 0,
            staker.reward_debt == 0,
    {
        StakerInfo {
            owner: Pubkey::default(),
            pool: Pubkey::default(),
            position_id: 0,
            stake_start_time: 0,
            stake_end_time: 0,
            last_claim_time: 0,
            staked_amount: 0,
            tier: StakingTier::default(),
            apr: 0,
            reward_debt: 0,
        }
    }
}

impl Default for PoolBumps {
    fn default() -> (bumps: Self)
        ensures
            bumps == (PoolBumps { pool: 0, stake_vault: 0, reward_vault: 0 }),
    {
        PoolBumps { pool: 0, stake_vault: 0, reward_vault: 0 }
    }
}

} // verus!
