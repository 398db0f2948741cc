//! Claiming the rewards of a position.
use crate::accounts::{admitted, Account, ClaimRewards};
use crate::error::{Failure, StakingError};
use crate::events::ClaimEvent;
use crate::rewards::{
    annual_reward_amount, calculate_annual_rewards, calculate_rewards, can_calculate_rewards,
    reward_amount, rewards_defined,
};
use crate::state::{StakerInfo, MAX_ANNUAL_REWARDS};
use crate::transfer::{Transfer, TransferAuthority};
use vstd::prelude::*;

verus! {

/// A claim that has been admitted and waits for the rewards to be moved to the owner.
#[derive(Clone, Copy, Debug, PartialEq, Eq)]
pub struct PendingClaim {
    pub transfer: Transfer,
    pub now: i64,
}

impl ClaimRewards {
    /// What the position has earned since the last claim.
    pub open spec fn rewards(self, now: i64) -> u64 {
        reward_amount(
            self.staker.data.staked_amount,
            self.staker.data.last_claim_time,
            now,
            self.staker.data.apr,
        )
    }

    /// Wherever the rewards come to be computed, they can be.
    pub open spec fn computable(self, clock: Result<i64, u64>) -> bool {
        clock matches Ok(now) ==> !self.pool.data.paused ==> rewards_defined(
            self.staker.data.staked_amount,
            self.staker.data.last_claim_time,
            now,
            self.staker.data.apr,
        )
    }

    /// Why the claim is refused, if it is.
    pub open spec fn refusal(self, clock: Result<i64, u64>) -> Option<Failure> {
        if self.pool.data.paused {
            Some(Failure::Staking(StakingError::PoolPaused))
        } else {
            match clock {
                Err(code) => Some(Failure::Runtime(code)),
                Ok(now) => if self.reward_vault.data.amount < self.rewards(now) {
                    Some(Failure::Staking(StakingError::InsufficientRewardPool))
                } else if self.rewards(now) > annual_reward_amount(
                    self.staker.data.staked_amount,
                    self.staker.data.apr,
                ) || self.rewards(now) > MAX_ANNUAL_REWARDS {
                    Some(Failure::Staking(StakingError::AnnualRewardLimitExceeded))
                } else {
                    None
                },
            }
        }
    }

    /// What an admitted claim waits for: the rewards, moved from the reward vault to the owner.
    /// Where nothing has been earned there is nothing to wait for.
    pub open spec fn pending(self, now: i64) -> Option<PendingClaim> {
        if self.rewards(now) == 0 {
            None
        } else {
            Some(
                PendingClaim {
                    transfer: Transfer {
                        from: self.reward_vault.key,
                        to: self.staker_token_account.key,
                        authority: TransferAuthority::Pool(self.pool.key),
                        amount: self.rewards(now),
                    },
                    now,
                },
            )
        }
    }

    /// What `claim_rewards` decides.
    pub open spec fn decision(self, clock: Result<i64, u64>) -> Result<
        Option<PendingClaim>,
        Failure,
    > {
        match self.refusal(clock) {
            Some(failure) => Err(failure),
            None => Ok(self.pending(clock->Ok_0)),
        }
    }

    /// What `admit_claim_rewards` decides.
    pub open spec fn admitted_decision(self, clock: Result<i64, u64>) -> Option<
        Result<(u8, Option<PendingClaim>), Failure>,
    > {
        if self.validation() matches Some(Ok(_)) && !self.computable(clock) {
            None
        } else {
            admitted(self.validation(), self.decision(clock))
        }
    }

    /// Whether the rewards can be computed, if they come to be.
    pub fn can_compute(&self, clock: Result<i64, u64>) -> (possible: bool)
        ensures
            possible == self.computable(clock),
    {
        match clock {
            Err(_) => true,
            Ok(now) => self.pool.data.paused || can_calculate_rewards(
                self.staker.data.staked_amount,
                self.staker.data.last_claim_time,
                now,
                self.staker.data.apr,
            ),
        }
    }
}

/// Decides on a claim. `clock` is what reading the clock gave. `None` where nothing has been
/// earned: the claim then succeeds and changes nothing.
pub fn claim_rewards(accounts: &ClaimRewards, clock: Result<i64, u64>) -> (outcome: Result<
    Option<PendingClaim>,
    Failure,
>)
    requires
        accounts.computable(clock),
    ensures
        outcome == accounts.decision(clock),
{
    if accounts.pool.data.paused {
        return Err(Failure::Staking(StakingError::PoolPaused));
    }
    let now: i64 = match clock {
        Ok(now) => now,
        Err(code) => {
            return Err(Failure::Runtime(code));
        },
    };
    let staker = &accounts.staker.data;
    let rewards: u64 = match calculate_rewards(
        staker.staked_amount,
        staker.last_claim_time,
        now,
        staker.apr,
    ) {
        Ok(rewards) => rewards,
        Err(error) => {
            return Err(Failure::Staking(error));
        },
    };
    if rewards == 0 {
        return Ok(None);
    }
    if accounts.reward_vault.data.amount < rewards {
        return Err(Failure::Staking(StakingError::InsufficientRewardPool));
    }
    let annual_rewards: u64 = match calculate_annual_rewards(staker.staked_amount, staker.apr) {
        Ok(annual_rewards) => annual_rewards,
        Err(error) => {
            return Err(Failure::Staking(error));
        },
    };
    if rewards > annual_rewards || rewards > MAX_ANNUAL_REWARDS {
        return Err(Failure::Staking(StakingError::AnnualRewardLimitExceeded));
    }
    Ok(
        Some(
            PendingClaim {
                transfer: Transfer {
                    from: accounts.reward_vault.key,
                    to: accounts.staker_token_account.key,
                    authority: TransferAuthority::Pool(accounts.pool.key),
                    amount: rewards,
                },
                now,
            },
        ),
    )
}

/// Admits a claim: decides on it only where its accounts belong together, and gives the pool's bump
/// seed with the decision. `None` where an address is needed that cannot be derived, or where the
/// rewards come to be computed and cannot be.
pub fn admit_claim_rewards(accounts: &ClaimRewards, clock: Result<i64, u64>) -> (outcome: Option<
    Result<(u8, Option<PendingClaim>), Failure>,
>)
    ensures
        outcome == accounts.admitted_decision(clock),
{
    match accounts.validate() {
        None => None,
        Some(Err(failure)) => Some(Err(failure)),
        Some(Ok(bump)) => {
            if !accounts.can_compute(clock) {
                return None;
            }
            match claim_rewards(accounts, clock) {
                Err(failure) => Some(Err(failure)),
                Ok(pending) => Some(Ok((bump, pending))),
            }
        },
    }
}

impl PendingClaim {
    /// The rewards claimed so far can take these.
    pub open spec fn settleable(self, accounts: ClaimRewards) -> bool {
        accounts.staker.data.reward_debt + self.transfer.amount <= u64::MAX
    }

    /// The accounts once the rewards are booked as paid.
    pub open spec fn settled(self, accounts: ClaimRewards) -> ClaimRewards {
        let staker = accounts.staker.data;
        ClaimRewards {
            staker: Account {
                key: accounts.staker.key,
                data: StakerInfo {
                    last_claim_time: self.now,
                    reward_debt: (staker.reward_debt + self.transfer.amount) as u64,
                    ..staker
                },
            },
            ..accounts
        }
    }

    /// What is announced of the claim.
    pub open spec fn event(self, accounts: ClaimRewards) -> ClaimEvent {
        ClaimEvent {
            owner: accounts.owner,
            position_id: accounts.staker.data.position_id,
            rewards: self.transfer.amount,
            timestamp: self.now,
        }
    }

    /// What `settle` gives, and the accounts after it.
    pub open spec fn result(self, accounts: ClaimRewards, moved: Result<(), u64>) -> (
        Result<ClaimEvent, Failure>,
        ClaimRewards,
    ) {
        match moved {
            Err(code) => (Err(Failure::Runtime(code)), accounts),
            Ok(()) => (Ok(self.event(accounts)), self.settled(accounts)),
        }
    }

    /// Whether the rewards claimed so far can take these.
    pub fn can_settle(&self, accounts: &ClaimRewards) -> (possible: bool)
        ensures
            possible == self.settleable(*accounts),
    {
        accounts.staker.data.reward_debt.checked_add(self.transfer.amount).is_some()
    }

    /// Books the rewards as paid, once they have been moved; `moved` is what moving them gave.
    pub fn settle(self, accounts: &mut ClaimRewards, moved: Result<(), u64>) -> (outcome: Result<
        ClaimEvent,
        Failure,
    >)
        requires
            moved is Ok ==> self.settleable(*old(accounts)),
        ensures
            (outcome, *final(accounts)) == self.result(*old(accounts), moved),
            match moved {
                Err(code) => {
                    &&& outcome == Err::<ClaimEvent, Failure>(Failure::Runtime(code))
                    &&& *final(accounts) == *old(accounts)
                },
                Ok(()) => {
                    &&& outcome == Ok::<ClaimEvent, Failure>(self.event(*old(accounts)))
                    &&& *final(accounts) == self.settled(*old(accounts))
                },
            },
    {
        if let Err(code) = moved {
            return Err(Failure::Runtime(code));
        }
        let rewards: u64 = self.transfer.amount;
        accounts.staker.data.last_claim_time = self.now;
        accounts.staker.data.reward_debt = accounts.staker.data.reward_debt + rewards;
        Ok(
            ClaimEvent {
                owner: accounts.owner,
                position_id: accounts.staker.data.position_id,
                rewards,
                timestamp: self.now,
            },
        )
    }
}

} // verus!
