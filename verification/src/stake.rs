//! Opening a position.
use crate::accounts::{admitted, Account, Stake};
use crate::error::{Failure, StakingError};
use crate::events::StakeEvent;
use crate::state::{StakerInfo, StakingPool};
use crate::tier::{tier_of, StakingTier};
use crate::transfer::{Transfer, TransferAuthority};
use vstd::prelude::*;

verus! {

/// A stake that has been admitted and waits for its tokens to arrive in the vault.
#[derive(Clone, Copy, Debug, PartialEq, Eq)]
pub struct PendingStake {
    /// The tokens to be moved.
    pub transfer: Transfer,
    /// The tier that they buy.
    pub tier: StakingTier,
    /// The time at which the stake begins.
    pub now: i64,
}

impl Stake {
    /// Why a stake of `amount` is not admitted, if it is not.
    pub open spec fn refusal(self, amount: u64, clock: Result<i64, u64>) -> Option<Failure> {
        if self.pool.data.paused {
            Some(Failure::Staking(StakingError::PoolPaused))
        } else if self.authority != self.pool.data.authority {
            Some(Failure::Staking(StakingError::Unauthorized))
        } else if clock is Err {
            Some(Failure::Runtime(clock->Err_0))
        } else if tier_of(amount) is None {
            Some(Failure::Staking(StakingError::InsufficientStakeAmount))
        } else if self.stake_vault.data.amount + amount > u64::MAX {
            Some(Failure::Staking(StakingError::MaxStakeExceeded))
        } else {
            None
        }
    }

    /// What an admitted stake of `amount` waits for: the owner's tokens, moved to the stake vault.
    pub open spec fn pending(self, amount: u64, now: i64) -> PendingStake {
        PendingStake {
            transfer: Transfer {
                from: self.staker_token_account.key,
                to: self.stake_vault.key,
                authority: TransferAuthority::Owner(self.owner),
                amount,
            },
            tier: tier_of(amount)->0,
            now,
        }
    }

    /// What `process` decides.
    pub open spec fn decision(self, amount: u64, clock: Result<i64, u64>) -> Result<
        PendingStake,
        Failure,
    > {
        match self.refusal(amount, clock) {
            Some(failure) => Err(failure),
            None => Ok(self.pending(amount, clock->Ok_0)),
        }
    }

    /// What `admit_stake` decides.
    pub open spec fn admitted_decision(self, amount: u64, clock: Result<i64, u64>) -> Option<
        Result<(u8, PendingStake), Failure>,
    > {
        admitted(self.validation(), self.decision(amount, clock))
    }

    /// Decides on a stake of `amount`. `clock` is what reading the clock gave.
    pub fn process(&self, amount: u64, clock: Result<i64, u64>) -> (outcome: Result<
        PendingStake,
        Failure,
    >)
        ensures
            outcome == self.decision(amount, clock),
    {
        if self.pool.data.paused {
            return Err(Failure::Staking(StakingError::PoolPaused));
        }
        if self.authority != self.pool.data.authority {
            return Err(Failure::Staking(StakingError::Unauthorized));
        }
        let now: i64 = match clock {
            Ok(now) => now,
            Err(code) => {
                return Err(Failure::Runtime(code));
            },
        };
        let tier = match StakingTier::for_amount(amount) {
            Some(tier) => tier,
            None => {
                return Err(Failure::Staking(StakingError::InsufficientStakeAmount));
            },
        };
        if self.stake_vault.data.amount.checked_add(amount).is_none() {
            return Err(Failure::Staking(StakingError::MaxStakeExceeded));
        }
        Ok(
            PendingStake {
                transfer: Transfer {
                    from: self.staker_token_account.key,
                    to: self.stake_vault.key,
                    authority: TransferAuthority::Owner(self.owner),
                    amount,
                },
                tier,
                now,
            },
        )
    }
}

/// Decides on a stake of `amount`.
pub fn stake(accounts: &Stake, amount: u64, clock: Result<i64, u64>) -> (outcome: Result<
    PendingStake,
    Failure,
>)
    ensures
        outcome == accounts.decision(amount, clock),
{
    accounts.process(amount, clock)
}

/// Admits a stake: decides on it only where its accounts belong together, and gives the pool's bump
/// seed with the decision. `None` where an address is needed that cannot be derived.
pub fn admit_stake(accounts: &Stake, amount: u64, clock: Result<i64, u64>) -> (outcome: Option<
    Result<(u8, PendingStake), Failure>,
>)
    ensures
        outcome == accounts.admitted_decision(amount, clock),
{
    match accounts.validate() {
        None => None,
        Some(Err(failure)) => Some(Err(failure)),
        Some(Ok(bump)) => match stake(accounts, amount, clock) {
            Err(failure) => Some(Err(failure)),
            Ok(pending) => Some(Ok((bump, pending))),
        },
    }
}

impl PendingStake {
    /// The end of the lock can be told, and the totals of the pool can take the stake.
    pub open spec fn settleable(self, accounts: Stake) -> bool {
        &&& self.now + self.tier.lock_period() <= i64::MAX
        &&& accounts.pool.data.total_staked + self.transfer.amount <= u64::MAX
        &&& accounts.pool.data.staker_count < u64::MAX
        &&& accounts.pool.data.next_position_id < u64::MAX
    }

    /// The position that is opened.
    pub open spec fn position(self, accounts: Stake) -> StakerInfo {
        StakerInfo {
            owner: accounts.owner,
            pool: accounts.pool.key,
            position_id: accounts.pool.data.next_position_id,
            stake_start_time: self.now,
            stake_end_time: (self.now + self.tier.lock_period()) as i64,
            last_claim_time: self.now,
            staked_amount: self.transfer.amount,
            tier: self.tier,
            apr: self.tier.apr(),
            reward_debt: 0,
        }
    }

    /// The accounts once the position is open and counted in the pool.
    pub open spec fn settled(self, accounts: Stake) -> Stake {
        let pool = accounts.pool.data;
        Stake {
            staker: Account { key: accounts.staker.key, data: self.position(accounts) },
            pool: Account {
                key: accounts.pool.key,
                data: StakingPool {
                    total_staked: (pool.total_staked + self.transfer.amount) as u64,
                    staker_count: (pool.staker_count + 1) as u64,
                    next_position_id: (pool.next_position_id + 1) as u64,
                    ..pool
                },
            },
            ..accounts
        }
    }

    /// What is announced of the new position.
    pub open spec fn event(self, accounts: Stake) -> StakeEvent {
        StakeEvent {
            owner: accounts.owner,
            position_id: accounts.pool.data.next_position_id,
            amount: self.transfer.amount,
            tier: self.tier,
            lock_period: self.tier.lock_period(),
            apr: self.tier.apr(),
            timestamp: self.now,
        }
    }

    /// What `settle` gives, and the accounts after it.
    pub open spec fn result(self, accounts: Stake, moved: Result<(), u64>) -> (
        Result<StakeEvent, Failure>,
        Stake,
    ) {
        match moved {
            Err(code) => (Err(Failure::Runtime(code)), accounts),
            Ok(()) => (Ok(self.event(accounts)), self.settled(accounts)),
        }
    }

    /// Whether the position can be opened: the end of its lock can be told, and the totals of the
    /// pool can take it.
    pub fn can_settle(&self, accounts: &Stake) -> (possible: bool)
        ensures
            possible == self.settleable(*accounts),
    {
        self.now.checked_add(self.tier.lock_period()).is_some()
            && accounts.pool.data.total_staked.checked_add(self.transfer.amount).is_some()
            && accounts.pool.data.staker_count < u64::MAX && accounts.pool.data.next_position_id
            < u64::MAX
    }

    /// Opens the position, once its tokens have been moved; `moved` is what moving them gave.
    pub fn settle(self, accounts: &mut Stake, moved: Result<(), u64>) -> (outcome: Result<
        StakeEvent,
        Failure,
    >)
        requires
            moved is Ok ==> self.settleable(*old(accounts)),
        ensures
            (outcome, *final(accounts)) == self.result(*old(accounts), moved),
            match moved {
                Err(code) => {
                    &&& outcome == Err::<StakeEvent, Failure>(Failure::Runtime(code))
                    &&& *final(accounts) == *old(accounts)
                },
                Ok(()) => {
                    &&& outcome == Ok::<StakeEvent, Failure>(self.event(*old(accounts)))
                    &&& *final(accounts) == self.settled(*old(accounts))
                },
            },
    {
        if let Err(code) = moved {
            return Err(Failure::Runtime(code));
        }
        let amount: u64 = self.transfer.amount;
        let position_id: u64 = accounts.pool.data.next_position_id;
        let lock_period: i64 = self.tier.lock_period();
        let apr: u64 = self.tier.apr();

        accounts.staker.data = StakerInfo {
            owner: accounts.owner,
            pool: accounts.pool.key,
            position_id,
            stake_start_time: self.now,
            stake_end_time: self.now + lock_period,
            last_claim_time: self.now,
            staked_amount: amount,
            tier: self.tier,
            apr,
            reward_debt: 0,
        };

        accounts.pool.data.total_staked = accounts.pool.data.total_staked + amount;
        accounts.pool.data.staker_count = accounts.pool.data.staker_count + 1;
        accounts.pool.data.next_position_id = accounts.pool.data.next_position_id + 1;

        Ok(
            StakeEvent {
                owner: accounts.owner,
                position_id,
                amount,
                tier: self.tier,
                lock_period,
                apr,
                timestamp: self.now,
            },
        )
    }
}

} // verus!
