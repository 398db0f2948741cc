//! Closing a position: with its rewards once its lock is over, or without them while the pool is
//! paused.
use crate::accounts::{admitted, Account, AccountState, Unstake};
use crate::error::{Failure, StakingError};
use crate::events::{EmergencyUnstakeEvent, UnstakeEvent};
use crate::rewards::{calculate_rewards, can_calculate_rewards, reward_amount, rewards_defined};
use crate::state::StakingPool;
use crate::transfer::{Closing, Transfer, TransferAuthority};
use vstd::prelude::*;

verus! {

/// Where an unstake stands.
#[derive(Clone, Copy, Debug, PartialEq, Eq)]
pub enum UnstakeStep {
    /// The stake is to be moved back to its owner.
    ReturnStake { transfer: Transfer, rewards: u64, now: i64 },
    /// The stake has been moved; the rewards are to follow.
    PayRewards { transfer: Transfer, rewards: u64, now: i64 },
    /// All tokens have been moved and the position no longer counts: its account is to be closed.
    Done { event: UnstakeEvent, closing: Closing },
}

/// An emergency unstake that has been admitted and waits for the stake to be moved back.
#[derive(Clone, Copy, Debug, PartialEq, Eq)]
pub struct PendingEmergencyUnstake {
    pub transfer: Transfer,
}

impl Unstake {
    /// What the position has earned since the last claim.
    pub open spec fn rewards(self, now: i64) -> u64 {
        reward_amount(
            self.staker.data.staked_amount,
            self.staker.data.last_claim_time,
            now,
            self.staker.data.apr,
        )
    }

    /// Wherever the rewards come to be computed, they can be.
    pub open spec fn computable(self, clock: Result<i64, u64>) -> bool {
        clock matches Ok(now) ==> now >= self.staker.data.stake_end_time
            && self.stake_vault.data.amount >= self.staker.data.staked_amount ==> rewards_defined(
            self.staker.data.staked_amount,
            self.staker.data.last_claim_time,
            now,
            self.staker.data.apr,
        )
    }

    /// Why the position is not closed, if it is not.
    pub open spec fn refusal(self, clock: Result<i64, u64>) -> Option<Failure> {
        match clock {
            Err(code) => Some(Failure::Runtime(code)),
            Ok(now) => if now < self.staker.data.stake_end_time {
                Some(Failure::Staking(StakingError::MinStakeDurationNotMet))
            } else if self.stake_vault.data.amount < self.staker.data.staked_amount {
                Some(Failure::Staking(StakingError::InsufficientStakeVault))
            } else if self.reward_vault.data.amount < self.rewards(now) {
                Some(Failure::Staking(StakingError::InsufficientRewardPool))
            } else {
                None
            },
        }
    }

    /// The stake on its way from the stake vault to its owner.
    pub open spec fn stake_transfer(self) -> Transfer {
        Transfer {
            from: self.stake_vault.key,
            to: self.staker_token_account.key,
            authority: TransferAuthority::Pool(self.pool.key),
            amount: self.staker.data.staked_amount,
        }
    }

    /// Rewards on their way from the reward vault to the owner.
    pub open spec fn reward_transfer(self, rewards: u64) -> Transfer {
        Transfer {
            from: self.reward_vault.key,
            to: self.staker_token_account.key,
            authority: TransferAuthority::Pool(self.pool.key),
            amount: rewards,
        }
    }

    /// What `unstake` decides.
    pub open spec fn decision(self, clock: Result<i64, u64>) -> Result<UnstakeStep, Failure> {
        match self.refusal(clock) {
            Some(failure) => Err(failure),
            None => Ok(
                UnstakeStep::ReturnStake {
                    transfer: self.stake_transfer(),
                    rewards: self.rewards(clock->Ok_0),
                    now: clock->Ok_0,
                },
            ),
        }
    }

    /// What `admit_unstake` decides.
    pub open spec fn admitted_decision(self, clock: Result<i64, u64>) -> Option<
        Result<(u8, UnstakeStep), Failure>,
    > {
        if self.validation() matches Some(Ok(_)) && !self.computable(clock) {
            None
        } else {
            admitted(self.validation(), self.decision(clock))
        }
    }

    /// The totals of the pool hold the position.
    pub open spec fn counted(self) -> bool {
        &&& self.pool.data.total_staked >= self.staker.data.staked_amount
        &&& self.pool.data.staker_count >= 1
    }

    /// The accounts once the position is no longer counted in the pool and its account is closed.
    pub open spec fn after_closing(self) -> Unstake {
        let pool = self.pool.data;
        Unstake {
            pool: Account {
                key: self.pool.key,
                data: StakingPool {
                    total_staked: (pool.total_staked - self.staker.data.staked_amount) as u64,
                    staker_count: (pool.staker_count - 1) as u64,
                    ..pool
                },
            },
            staker_state: AccountState::Vacant,
            ..self
        }
    }

    /// The position's account is to be closed in favour of the owner.
    pub open spec fn closing(self) -> Closing {
        Closing { account: self.staker.key, destination: self.owner }
    }

    /// The end of an unstake that paid `rewards`.
    pub open spec fn done(self, rewards: u64, now: i64) -> UnstakeStep {
        UnstakeStep::Done {
            event: UnstakeEvent {
                owner: self.owner,
                position_id: self.staker.data.position_id,
                amount: self.staker.data.staked_amount,
                rewards,
                timestamp: now,
            },
            closing: self.closing(),
        }
    }

    /// Whether the totals of the pool hold the position.
    pub fn is_counted(&self) -> (held: bool)
        ensures
            held == self.counted(),
    {
        self.pool.data.total_staked >= self.staker.data.staked_amount
            && self.pool.data.staker_count >= 1
    }

    /// Whether the rewards can be computed, if they come to be.
    pub fn can_compute(&self, clock: Result<i64, u64>) -> (possible: bool)
        ensures
            possible == self.computable(clock),
    {
        match clock {
            Err(_) => true,
            Ok(now) => now < self.staker.data.stake_end_time || self.stake_vault.data.amount
                < self.staker.data.staked_amount || can_calculate_rewards(
                self.staker.data.staked_amount,
                self.staker.data.last_claim_time,
                now,
                self.staker.data.apr,
            ),
        }
    }

    /// Takes the position out of the totals of the pool and closes it.
    fn close(&mut self)
        requires
            old(self).counted(),
        ensures
            *final(self) == old(self).after_closing(),
    {
        self.pool.data.total_staked = self.pool.data.total_staked - self.staker.data.staked_amount;
        self.pool.data.staker_count = self.pool.data.staker_count - 1;
        self.staker_state = AccountState::Vacant;
    }

    /// Closes the position and ends the unstake.
    fn finish(&mut self, rewards: u64, now: i64) -> (step: UnstakeStep)
        requires
            old(self).counted(),
        ensures
            step == old(self).done(rewards, now),
            *final(self) == old(self).after_closing(),
    {
        self.close();
        UnstakeStep::Done {
            event: UnstakeEvent {
                owner: self.owner,
                position_id: self.staker.data.position_id,
                amount: self.staker.data.staked_amount,
                rewards,
                timestamp: now,
            },
            closing: Closing { account: self.staker.key, destination: self.owner },
        }
    }
}

/// Decides on closing the position with its rewards. `clock` is what reading the clock gave.
pub fn unstake(accounts: &Unstake, clock: Result<i64, u64>) -> (outcome: Result<
    UnstakeStep,
    Failure,
>)
    requires
        accounts.computable(clock),
    ensures
        outcome == accounts.decision(clock),
{
    let now: i64 = match clock {
        Ok(now) => now,
        Err(code) => {
            return Err(Failure::Runtime(code));
        },
    };
    let staker = &accounts.staker.data;

    if now < staker.stake_end_time {
        return Err(Failure::Staking(StakingError::MinStakeDurationNotMet));
    }
    if accounts.stake_vault.data.amount < staker.staked_amount {
        return Err(Failure::Staking(StakingError::InsufficientStakeVault));
    }
    let rewards: u64 = match calculate_rewards(
        staker.staked_amount,
        staker.last_claim_time,
        now,
        staker.apr,
    ) {
        Ok(rewards) => rewards,
        Err(error) => {
            return Err(Failure::Staking(error));
        },
    };
    if rewards > 0 {
        if accounts.reward_vault.data.amount < rewards {
            return Err(Failure::Staking(StakingError::InsufficientRewardPool));
        }
    }
    Ok(
        UnstakeStep::ReturnStake {
            transfer: Transfer {
                from: accounts.stake_vault.key,
                to: accounts.staker_token_account.key,
                authority: TransferAuthority::Pool(accounts.pool.key),
                amount: staker.staked_amount,
            },
            rewards,
            now,
        },
    )
}

/// Admits an unstake: decides on it only where its accounts belong together, and gives the pool's
/// bump seed with the decision. `None` where an address is needed that cannot be derived, or where
/// the rewards come to be computed and cannot be.
pub fn admit_unstake(accounts: &Unstake, clock: Result<i64, u64>) -> (outcome: Option<
    Result<(u8, UnstakeStep), Failure>,
>)
    ensures
        outcome == accounts.admitted_decision(clock),
{
    match accounts.validate() {
        None => None,
        Some(Err(failure)) => Some(Err(failure)),
        Some(Ok(bump)) => {
            if !accounts.can_compute(clock) {
                return None;
            }
            match unstake(accounts, clock) {
                Err(failure) => Some(Err(failure)),
                Ok(step) => Some(Ok((bump, step))),
            }
        },
    }
}

impl UnstakeStep {
    /// The tokens that the step waits for.
    pub open spec fn transfer(self) -> Option<Transfer> {
        match self {
            UnstakeStep::ReturnStake { transfer, .. } => Some(transfer),
            UnstakeStep::PayRewards { transfer, .. } => Some(transfer),
            UnstakeStep::Done { .. } => None,
        }
    }

    /// The step after this one, once its tokens have been moved: the rewards follow the stake if
    /// there are any, and the last movement ends the unstake.
    pub open spec fn next(self, accounts: Unstake) -> UnstakeStep {
        match self {
            UnstakeStep::ReturnStake { rewards, now, .. } => if rewards > 0 {
                UnstakeStep::PayRewards {
                    transfer: accounts.reward_transfer(rewards),
                    rewards,
                    now,
                }
            } else {
                accounts.done(rewards, now)
            },
            UnstakeStep::PayRewards { rewards, now, .. } => accounts.done(rewards, now),
            UnstakeStep::Done { .. } => self,
        }
    }

    /// The movement that the step waits for is the last one.
    pub open spec fn spec_is_last(&self) -> bool {
        match *self {
            UnstakeStep::ReturnStake { rewards, .. } => rewards == 0,
            UnstakeStep::PayRewards { .. } => true,
            UnstakeStep::Done { .. } => false,
        }
    }

    /// Whether the movement that the step waits for is the last one.
    #[verifier::when_used_as_spec(spec_is_last)]
    pub fn is_last(&self) -> (last: bool)
        ensures
            last == self.spec_is_last(),
    {
        match *self {
            UnstakeStep::ReturnStake { transfer: _, rewards, now: _ } => rewards == 0,
            UnstakeStep::PayRewards { .. } => true,
            UnstakeStep::Done { .. } => false,
        }
    }

    /// What `advance` gives, and the accounts after it.
    pub open spec fn result(self, accounts: Unstake, moved: Result<(), u64>) -> (
        Result<UnstakeStep, Failure>,
        Unstake,
    ) {
        match moved {
            Err(code) => (Err(Failure::Runtime(code)), accounts),
            Ok(()) => (
                Ok(self.next(accounts)),
                if self.is_last() {
                    accounts.after_closing()
                } else {
                    accounts
                },
            ),
        }
    }

    /// Goes on from a step whose tokens have been moved; `moved` is what moving them gave. The last
    /// movement takes the position out of the totals of the pool and closes it.
    pub fn advance(self, accounts: &mut Unstake, moved: Result<(), u64>) -> (outcome: Result<
        UnstakeStep,
        Failure,
    >)
        requires
            moved is Ok && self.is_last() ==> old(accounts).counted(),
        ensures
            (outcome, *final(accounts)) == self.result(*old(accounts), moved),
            match moved {
                Err(code) => {
                    &&& outcome == Err::<UnstakeStep, Failure>(Failure::Runtime(code))
                    &&& *final(accounts) == *old(accounts)
                },
                Ok(()) => {
                    &&& outcome == Ok::<UnstakeStep, Failure>(self.next(*old(accounts)))
                    &&& *final(accounts) == if self.is_last() {
                        old(accounts).after_closing()
                    } else {
                        *old(accounts)
                    }
                },
            },
    {
        if let Err(code) = moved {
            return Err(Failure::Runtime(code));
        }
        match self {
            UnstakeStep::ReturnStake { transfer: _, rewards, now } => {
                if rewards > 0 {
                    Ok(
                        UnstakeStep::PayRewards {
                            transfer: Transfer {
                                from: accounts.reward_vault.key,
                                to: accounts.staker_token_account.key,
                                authority: TransferAuthority::Pool(accounts.pool.key),
                                amount: rewards,
                            },
                            rewards,
                            now,
                        },
                    )
                } else {
                    Ok(accounts.finish(rewards, now))
                }
            },
            UnstakeStep::PayRewards { transfer: _, rewards, now } => Ok(
                accounts.finish(rewards, now),
            ),
            UnstakeStep::Done { .. } => Ok(self),
        }
    }
}

impl Unstake {
    /// Why the position is not closed without rewards, if it is not.
    pub open spec fn emergency_refusal(self) -> Option<Failure> {
        if !self.pool.data.paused {
            Some(Failure::Staking(StakingError::PoolNotPaused))
        } else if self.stake_vault.data.amount < self.staker.data.staked_amount {
            Some(Failure::Staking(StakingError::InsufficientStakeVault))
        } else {
            None
        }
    }

    /// What `emergency_unstake` decides.
    pub open spec fn emergency_decision(self) -> Result<PendingEmergencyUnstake, Failure> {
        match self.emergency_refusal() {
            Some(failure) => Err(failure),
            None => Ok(PendingEmergencyUnstake { transfer: self.stake_transfer() }),
        }
    }

    /// What `admit_emergency_unstake` decides.
    pub open spec fn admitted_emergency_decision(self) -> Option<
        Result<(u8, PendingEmergencyUnstake), Failure>,
    > {
        admitted(self.validation(), self.emergency_decision())
    }

    /// What is announced of an emergency unstake.
    pub open spec fn emergency_event(self, now: i64) -> EmergencyUnstakeEvent {
        EmergencyUnstakeEvent {
            owner: self.owner,
            position_id: self.staker.data.position_id,
            amount: self.staker.data.staked_amount,
            timestamp: now,
        }
    }
}

/// Decides on closing the position without rewards, whether or not its lock is over.
pub fn emergency_unstake(accounts: &Unstake) -> (outcome: Result<PendingEmergencyUnstake, Failure>)
    ensures
        outcome == accounts.emergency_decision(),
{
    if !accounts.pool.data.paused {
        return Err(Failure::Staking(StakingError::PoolNotPaused));
    }
    if accounts.stake_vault.data.amount < accounts.staker.data.staked_amount {
        return Err(Failure::Staking(StakingError::InsufficientStakeVault));
    }
    Ok(
        PendingEmergencyUnstake {
            transfer: Transfer {
                from: accounts.stake_vault.key,
                to: accounts.staker_token_account.key,
                authority: TransferAuthority::Pool(accounts.pool.key),
                amount: accounts.staker.data.staked_amount,
            },
        },
    )
}

/// Admits an emergency unstake: decides on it only where its accounts belong together, and gives the
/// pool's bump seed with the decision. `None` where an address is needed that cannot be derived.
pub fn admit_emergency_unstake(accounts: &Unstake) -> (outcome: Option<
    Result<(u8, PendingEmergencyUnstake), Failure>,
>)
    ensures
        outcome == accounts.admitted_emergency_decision(),
{
    match accounts.validate() {
        None => None,
        Some(Err(failure)) => Some(Err(failure)),
        Some(Ok(bump)) => match emergency_unstake(accounts) {
            Err(failure) => Some(Err(failure)),
            Ok(pending) => Some(Ok((bump, pending))),
        },
    }
}

impl PendingEmergencyUnstake {
    /// What `settle` gives, and the accounts after it.
    pub open spec fn result(
        self,
        accounts: Unstake,
        moved: Result<(), u64>,
        clock: Result<i64, u64>,
    ) -> (Result<(EmergencyUnstakeEvent, Closing), Failure>, Unstake) {
        match (moved, clock) {
            (Err(code), _) => (Err(Failure::Runtime(code)), accounts),
            (Ok(()), Err(code)) => (Err(Failure::Runtime(code)), accounts),
            (Ok(()), Ok(now)) => (
                Ok((accounts.emergency_event(now), accounts.closing())),
                accounts.after_closing(),
            ),
        }
    }

    /// Ends the emergency unstake, once the stake has been moved; `moved` is what moving it gave,
    /// and `clock` what reading the clock after that gave.
    pub fn settle(
        self,
        accounts: &mut Unstake,
        moved: Result<(), u64>,
        clock: Result<i64, u64>,
    ) -> (outcome: Result<(EmergencyUnstakeEvent, Closing), Failure>)
        requires
            moved is Ok ==> old(accounts).counted(),
        ensures
            (outcome, *final(accounts)) == self.result(*old(accounts), moved, clock),
            match (moved, clock) {
                (Err(code), _) => {
                    &&& outcome == Err::<(EmergencyUnstakeEvent, Closing), Failure>(
                        Failure::Runtime(code),
                    )
                    &&& *final(accounts) == *old(accounts)
                },
                (Ok(()), Err(code)) => {
                    &&& outcome == Err::<(EmergencyUnstakeEvent, Closing), Failure>(
                        Failure::Runtime(code),
                    )
                    &&& *final(accounts) == *old(accounts)
                },
                (Ok(()), Ok(now)) => {
                    &&& outcome == Ok::<(EmergencyUnstakeEvent, Closing), Failure>(
                        (old(accounts).emergency_event(now), old(accounts).closing()),
                    )
                    &&& *final(accounts) == old(accounts).after_closing()
                },
            },
    {
        if let Err(code) = moved {
            return Err(Failure::Runtime(code));
        }
        let now: i64 = match clock {
            Ok(now) => now,
            Err(code) => {
                return Err(Failure::Runtime(code));
            },
        };
        accounts.close();
        Ok(
            (
                EmergencyUnstakeEvent {
                    owner: accounts.owner,
                    position_id: accounts.staker.data.position_id,
                    amount: accounts.staker.data.staked_amount,
                    timestamp: now,
                },
                Closing { account: accounts.staker.key, destination: accounts.owner },
            ),
        )
    }
}

} // verus!
