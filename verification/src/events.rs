//! What is announced when an instruction has succeeded.
use crate::pubkey::Pubkey;
use crate::tier::StakingTier;
use vstd::prelude::*;

verus! {

#[derive(Clone, Copy, Debug, PartialEq, Eq)]
pub struct PoolInitializedEvent {
    pub authority: Pubkey,
    pub reward_pool: u64,
    pub timestamp: i64,
}

#[derive(Clone, Copy, Debug, PartialEq, Eq)]
pub struct StakeEvent {
    pub owner: Pubkey,
    pub position_id: u64,
    pub amount: u64,
    pub tier: StakingTier,
    pub lock_period: i64,
    pub apr: u64,
    pub timestamp: i64,
}

#[derive(Clone, Copy, Debug, PartialEq, Eq)]
pub struct RewardRateUpdateEvent {
    pub old_rate: u64,
    pub new_rate: u64,
    pub timestamp: i64,
}

#[derive(Clone, Copy, Debug, PartialEq, Eq)]
pub struct EmergencyEvent {
    pub paused: bool,
    pub timestamp: i64,
}

#[derive(Clone, Copy, Debug, PartialEq, Eq)]
pub struct UnstakeEvent {
    pub owner: Pubkey,
    pub position_id: u64,
    pub amount: u64,
    pub rewards: u64,
    pub timestamp: i64,
}

#[derive(Clone, Copy, Debug, PartialEq, Eq)]
pub struct EmergencyUnstakeEvent {
    pub owner: Pubkey,
    pub position_id: u64,
    pub amount: u64,
    pub timestamp: i64,
}

#[derive(Clone, Copy, Debug, PartialEq, Eq)]
pub struct ClaimEvent {
    pub owner: Pubkey,
    pub position_id: u64,
    pub rewards: u64,
    pub timestamp: i64,
}

} // verus!
