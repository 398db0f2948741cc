//! The rules of a token staking pool.
//!
//! Owners stake ZARA in a pool for the lock period of a tier, earn simple interest on it, claim what
//! they have earned, and take their stake out again. Each instruction is a decision over plain
//! values: the accounts it was given, the reading of the clock, and what became of the token
//! movements that it asked for. Whoever runs the instructions decodes the accounts, reads the
//! clock, moves the tokens and stores the accounts.
//!
//! - [`accounts`]: the accounts of each instruction, and the relations that must hold between them
//! - [`address`]: the addresses derived for the pool and for each position
//! - [`tier`]: the tiers, by amount, with their lock period and rate
//! - [`rewards`]: what a stake earns
//! - [`pool`], [`stake`], [`unstake`], [`claim`]: the instructions
//! - [`admissions`]: which accounts they take, fault by fault
//! - [`effects`]: what each of them decides, moves and stores, in amounts, keys and times
//! - [`ledger`]: the pool with all its positions, and what every instruction keeps of it
//! - [`laws`]: what holds between one instruction and another
pub mod accounts;
pub mod address;
pub mod admissions;
pub mod claim;
pub mod effects;
pub mod error;
pub mod events;
pub mod laws;
pub mod ledger;
pub mod pool;
pub mod pubkey;
pub mod rewards;
pub mod stake;
pub mod state;
pub mod tier;
pub mod transfer;
pub mod unstake;

pub use accounts::{
    Account, AccountState, ClaimRewards, InitializePool, Stake, TokenAccount, Unstake, UpdatePool,
};
pub use claim::{admit_claim_rewards, claim_rewards, PendingClaim};
pub use error::{Constraint, Failure, StakingError};
pub use events::{
    ClaimEvent, EmergencyEvent, EmergencyUnstakeEvent, PoolInitializedEvent, RewardRateUpdateEvent,
    StakeEvent, UnstakeEvent,
};
pub use pool::{admit_initialize_pool, initialize_pool, update_pool};
pub use pubkey::Pubkey;
pub use rewards::{calculate_annual_rewards, calculate_rewards, can_calculate_rewards};
pub use stake::{admit_stake, stake, PendingStake};
pub use state::{PoolBumps, StakerInfo, StakingPool, INITIAL_REWARD_POOL, MAX_ANNUAL_REWARDS};
pub use tier::{
    StakingTier, BASIC_APR, BASIC_LOCK, BASIC_TIER_AMOUNT, ELITE_APR, ELITE_LOCK,
    ELITE_TIER_AMOUNT, PREMIUM_APR, PREMIUM_LOCK, PREMIUM_TIER_AMOUNT,
};
pub use transfer::{Closing, Transfer, TransferAuthority};
pub use unstake::{
    admit_emergency_unstake, admit_unstake, emergency_unstake, unstake, PendingEmergencyUnstake,
    UnstakeStep,
};
