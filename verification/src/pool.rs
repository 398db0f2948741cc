//! Opening the pool, and pausing and resuming it.
use crate::accounts::{Account, InitializePool, UpdatePool};
use crate::error::{Failure, StakingError};
use crate::events::{EmergencyEvent, PoolInitializedEvent};
use crate::state::{StakingPool, INITIAL_REWARD_POOL};
use vstd::prelude::*;

verus! {

/// Why the pool is not opened, if it is not.
pub open spec fn initialize_refusal(reward_pool_amount: u64, clock: Result<i64, u64>) -> Option<
    Failure,
> {
    if reward_pool_amount > INITIAL_REWARD_POOL {
        Some(Failure::Staking(StakingError::ExcessiveRewardPool))
    } else {
        match clock {
            Err(code) => Some(Failure::Runtime(code)),
            Ok(_) => None,
        }
    }
}

impl InitializePool {
    /// What `initialize_pool` decides, and announces.
    pub open spec fn decision(self, reward_pool_amount: u64, clock: Result<i64, u64>) -> Result<
        PoolInitializedEvent,
        Failure,
    > {
        match initialize_refusal(reward_pool_amount, clock) {
            Some(failure) => Err(failure),
            None => Ok(
                PoolInitializedEvent {
                    authority: self.authority,
                    reward_pool: reward_pool_amount,
                    timestamp: clock->Ok_0,
                },
            ),
        }
    }

    /// The accounts once the pool is open: empty, not paused, run by the authority, and about to
    /// number its first position 1.
    pub open spec fn initialized(self, reward_pool_amount: u64) -> InitializePool {
        let pool = StakingPool {
            authority: self.authority,
            zara_mint: self.zara_mint,
            total_staked: 0,
            staker_count: 0,
            paused: false,
            reward_pool_amount,
            next_position_id: 1,
        };
        InitializePool { pool: Account { key: self.pool.key, data: pool }, ..self }
    }
}

impl InitializePool {
    /// The accounts after `initialize_pool`.
    pub open spec fn after(self, reward_pool_amount: u64, clock: Result<i64, u64>) -> InitializePool {
        if self.decision(reward_pool_amount, clock) is Ok {
            self.initialized(reward_pool_amount)
        } else {
            self
        }
    }

    /// What `admit_initialize_pool` decides.
    pub open spec fn admitted_decision(
        self,
        reward_pool_amount: u64,
        clock: Result<i64, u64>,
    ) -> Option<Result<PoolInitializedEvent, Failure>> {
        match self.validation() {
            None => None,
            Some(Err(failure)) => Some(Err(failure)),
            Some(Ok(_)) => Some(self.decision(reward_pool_amount, clock)),
        }
    }
}

/// Opens the pool with `reward_pool_amount` set aside for rewards. `clock` is what reading the
/// clock gave.
pub fn initialize_pool(
    accounts: &mut InitializePool,
    reward_pool_amount: u64,
    clock: Result<i64, u64>,
) -> (outcome: Result<PoolInitializedEvent, Failure>)
    ensures
        outcome == old(accounts).decision(reward_pool_amount, clock),
        *final(accounts) == old(accounts).after(reward_pool_amount, clock),
        match initialize_refusal(reward_pool_amount, clock) {
            Some(failure) => {
                &&& outcome == Err::<PoolInitializedEvent, Failure>(failure)
                &&& *final(accounts) == *old(accounts)
            },
            None => {
                &&& outcome == Ok::<PoolInitializedEvent, Failure>(
                    (PoolInitializedEvent {
                        authority: old(accounts).authority,
                        reward_pool: reward_pool_amount,
                        timestamp: clock->Ok_0,
                    }),
                )
                &&& *final(accounts) == old(accounts).initialized(reward_pool_amount)
            },
        },
{
    if reward_pool_amount > INITIAL_REWARD_POOL {
        return Err(Failure::Staking(StakingError::ExcessiveRewardPool));
    }
    let timestamp: i64 = match clock {
        Ok(now) => now,
        Err(code) => {
            return Err(Failure::Runtime(code));
        },
    };
    accounts.pool.data.authority = accounts.authority;
    accounts.pool.data.zara_mint = accounts.zara_mint;
    accounts.pool.data.total_staked = 0;
    accounts.pool.data.staker_count = 0;
    accounts.pool.data.paused = false;
    accounts.pool.data.reward_pool_amount = reward_pool_amount;
    accounts.pool.data.next_position_id = 1;
    Ok(
        PoolInitializedEvent {
            authority: accounts.pool.data.authority,
            reward_pool: reward_pool_amount,
            timestamp,
        },
    )
}

/// Opens the pool only where its account lies at its address. `None` where no address can be
/// derived.
pub fn admit_initialize_pool(
    accounts: &mut InitializePool,
    reward_pool_amount: u64,
    clock: Result<i64, u64>,
) -> (outcome: Option<Result<PoolInitializedEvent, Failure>>)
    ensures
        outcome == old(accounts).admitted_decision(reward_pool_amount, clock),
        *final(accounts) == if outcome matches Some(Ok(_)) {
            old(accounts).initialized(reward_pool_amount)
        } else {
            *old(accounts)
        },
        match old(accounts).validation() {
            None => {
                &&& outcome is None
                &&& *final(accounts) == *old(accounts)
            },
            Some(Err(failure)) => {
                &&& outcome == Some(Err::<PoolInitializedEvent, Failure>(failure))
                &&& *final(accounts) == *old(accounts)
            },
            Some(Ok(_)) => match initialize_refusal(reward_pool_amount, clock) {
                Some(failure) => {
                    &&& outcome == Some(Err::<PoolInitializedEvent, Failure>(failure))
                    &&& *final(accounts) == *old(accounts)
                },
                None => {
                    &&& outcome == Some(
                        Ok::<PoolInitializedEvent, Failure>(
                            (PoolInitializedEvent {
                                authority: old(accounts).authority,
                                reward_pool: reward_pool_amount,
                                timestamp: clock->Ok_0,
                            }),
                        ),
                    )
                    &&& *final(accounts) == old(accounts).initialized(reward_pool_amount)
                },
            },
        },
{
    match accounts.validate() {
        None => None,
        Some(Err(failure)) => Some(Err(failure)),
        Some(Ok(_)) => Some(initialize_pool(accounts, reward_pool_amount, clock)),
    }
}

impl UpdatePool {
    /// Why the pool is not updated, if it is not.
    pub open spec fn refusal(self, clock: Result<i64, u64>) -> Option<Failure> {
        if self.authority != self.pool.data.authority {
            Some(Failure::Staking(StakingError::Unauthorized))
        } else {
            match clock {
                Err(code) => Some(Failure::Runtime(code)),
                Ok(_) => None,
            }
        }
    }

    /// What `update_pool` decides, and announces.
    pub open spec fn decision(self, clock: Result<i64, u64>) -> Result<EmergencyEvent, Failure> {
        match self.refusal(clock) {
            Some(failure) => Err(failure),
            None => Ok(
                EmergencyEvent { paused: !self.pool.data.paused, timestamp: clock->Ok_0 },
            ),
        }
    }

    /// The accounts once the pool is paused, or resumed if it was paused.
    pub open spec fn toggled(self) -> UpdatePool {
        let pool = StakingPool { paused: !self.pool.data.paused, ..self.pool.data };
        UpdatePool { pool: Account { key: self.pool.key, data: pool }, ..self }
    }
}

impl UpdatePool {
    /// The accounts after `update_pool`.
    pub open spec fn after(self, clock: Result<i64, u64>) -> UpdatePool {
        if self.decision(clock) is Ok {
            self.toggled()
        } else {
            self
        }
    }
}

/// Pauses the pool, or resumes it if it was paused. `clock` is what reading the clock gave.
pub fn update_pool(accounts: &mut UpdatePool, clock: Result<i64, u64>) -> (outcome: Result<
    EmergencyEvent,
    Failure,
>)
    ensures
        outcome == old(accounts).decision(clock),
        *final(accounts) == old(accounts).after(clock),
        match old(accounts).refusal(clock) {
            Some(failure) => {
                &&& outcome == Err::<EmergencyEvent, Failure>(failure)
                &&& *final(accounts) == *old(accounts)
            },
            None => {
                &&& outcome == Ok::<EmergencyEvent, Failure>(
                    (EmergencyEvent {
                        paused: !old(accounts).pool.data.paused,
                        timestamp: clock->Ok_0,
                    }),
                )
                &&& *final(accounts) == old(accounts).toggled()
            },
        },
{
    if accounts.authority != accounts.pool.data.authority {
        return Err(Failure::Staking(StakingError::Unauthorized));
    }
    let timestamp: i64 = match clock {
        Ok(now) => now,
        Err(code) => {
            return Err(Failure::Runtime(code));
        },
    };
    accounts.pool.data.paused = !accounts.pool.data.paused;
    Ok(EmergencyEvent { paused: accounts.pool.data.paused, timestamp })
}

/// Updating a pool twice leaves it as it was.
pub proof fn law_toggling_twice_changes_nothing(accounts: UpdatePool)
    ensures
        accounts.toggled().toggled() == accounts,
        accounts.toggled().pool.data.paused != accounts.pool.data.paused,
{
}

} // verus!
