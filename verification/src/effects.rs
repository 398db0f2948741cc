//! What each operation decides, moves and stores, told from what it is given alone: in amounts, keys
//! and times, with the numbers of the terms written out.
use crate::accounts::{Account, ClaimRewards, InitializePool, Stake, Unstake, UpdatePool};
use crate::claim::PendingClaim;
use crate::error::{Failure, StakingError};
use crate::events::{
    ClaimEvent, EmergencyEvent, EmergencyUnstakeEvent, PoolInitializedEvent, StakeEvent,
};
use crate::pool::initialize_refusal;
use crate::rewards::{annual_reward_amount, reward_amount, rewards_defined};
use crate::stake::PendingStake;
use crate::state::{StakerInfo, StakingPool};
use crate::tier::{tier_of, StakingTier};
use crate::transfer::{Closing, TransferAuthority};
use crate::unstake::{PendingEmergencyUnstake, UnstakeStep};
use vstd::arithmetic::mul::*;
use vstd::prelude::*;

verus! {

/// A stake buys the highest tier whose minimum it reaches: 5,000, 50,000 or 250,000 ZARA, of a
/// million units each.
pub proof fn law_what_a_stake_buys(amount: u64)
    ensures
        tier_of(amount) is None <==> amount < 5_000_000_000,
        tier_of(amount) == Some(StakingTier::Basic) <==> 5_000_000_000 <= amount < 50_000_000_000,
        tier_of(amount) == Some(StakingTier::Premium) <==> 50_000_000_000 <= amount
            < 250_000_000_000,
        tier_of(amount) == Some(StakingTier::Elite) <==> 250_000_000_000 <= amount,
{
}

/// The tiers lock for 3, 7 and 14 days and earn 4, 6 and 8 percent a year.
pub proof fn law_the_terms_of_the_tiers(tier: StakingTier)
    ensures
        tier is Basic ==> tier.lock_period() == 3 * 86_400 && tier.apr() == 400 && tier.minimum()
            == 5_000_000_000,
        tier is Premium ==> tier.lock_period() == 7 * 86_400 && tier.apr() == 600 && tier.minimum()
            == 50_000_000_000,
        tier is Elite ==> tier.lock_period() == 14 * 86_400 && tier.apr() == 800 && tier.minimum()
            == 250_000_000_000,
{
}

/// Over any span that does not run backwards, however long, the rewards are the simple interest
/// rounded down, as long as it fits in 64 bits: the largest whole number of units that stake, rate
/// and seconds pay for, at 10,000 basis points and 365 days a unit.
pub proof fn law_rewards_are_the_simple_interest(
    staked_amount: u64,
    last_claim_time: i64,
    current_time: i64,
    apr: u64,
)
    requires
        last_claim_time <= current_time,
        staked_amount * apr * (current_time - last_claim_time) / 315_360_000_000 <= u64::MAX,
    ensures
        rewards_defined(staked_amount, last_claim_time, current_time, apr) <==> current_time
            - last_claim_time <= i64::MAX,
        ({
            let rewards = reward_amount(staked_amount, last_claim_time, current_time, apr);
            let product = staked_amount * apr * (current_time - last_claim_time);
            &&& rewards == product / 315_360_000_000
            &&& rewards * 315_360_000_000 <= product < (rewards + 1) * 315_360_000_000
        }),
{
    let product = staked_amount * apr * (current_time - last_claim_time);
    assert(0 <= product) by (nonlinear_arith)
        requires
            0 <= staked_amount,
            0 <= apr,
            0 <= current_time - last_claim_time,
            product == staked_amount * apr * (current_time - last_claim_time),
    ;
}

/// Of a longer span, wherever it begins, a larger stake and a higher rate the rewards are never
/// less, as long as they fit in 64 bits.
pub proof fn law_rewards_grow(
    staked_amount: u64,
    from: i64,
    to: i64,
    apr: u64,
    more_staked: u64,
    longer_from: i64,
    longer_to: i64,
    higher_apr: u64,
)
    requires
        staked_amount <= more_staked,
        0 <= to - from <= longer_to - longer_from,
        apr <= higher_apr,
        more_staked * higher_apr * (longer_to - longer_from) / 315_360_000_000 <= u64::MAX,
    ensures
        reward_amount(staked_amount, from, to, apr) <= reward_amount(
            more_staked,
            longer_from,
            longer_to,
            higher_apr,
        ),
{
    let less = staked_amount * apr;
    let more = more_staked * higher_apr;
    let shorter = to - from;
    let longer = longer_to - longer_from;
    assert(0 <= less <= more) by (nonlinear_arith)
        requires
            0 <= staked_amount <= more_staked,
            0 <= apr <= higher_apr,
            less == staked_amount * apr,
            more == more_staked * higher_apr,
    ;
    assert(0 <= less * shorter <= more * longer) by (nonlinear_arith)
        requires
            0 <= less <= more,
            0 <= shorter <= longer,
    ;
    law_rewards_are_the_simple_interest(more_staked, longer_from, longer_to, higher_apr);
    law_rewards_are_the_simple_interest(staked_amount, from, to, apr);
}

/// The rewards can be computed exactly where the times are 64 bits of seconds apart at most and the
/// product of stake, rate and seconds fits in 128 bits; they are its quotient in 64 bits. A span
/// that runs backwards counts as its two's complement in 128 bits.
pub proof fn law_rewards_in_machine_words(
    staked_amount: u64,
    last_claim_time: i64,
    current_time: i64,
    apr: u64,
)
    ensures
        ({
            let elapsed = current_time - last_claim_time;
            let word = if elapsed >= 0 {
                elapsed
            } else {
                elapsed + 0x1_0000_0000_0000_0000_0000_0000_0000_0000int
            };
            let product = staked_amount * apr * word;
            &&& rewards_defined(staked_amount, last_claim_time, current_time, apr)
                <==> -0x8000_0000_0000_0000 <= elapsed <= 0x7fff_ffff_ffff_ffff && product
                < 0x1_0000_0000_0000_0000_0000_0000_0000_0000int
            &&& reward_amount(staked_amount, last_claim_time, current_time, apr) == (product
                / 315_360_000_000) % 0x1_0000_0000_0000_0000
        }),
{
}

/// The annual reward is stake times rate over 10,000, rounded down, in 64 bits: exact wherever it
/// fits, and so at any rate of at most 100 percent.
pub proof fn law_the_annual_reward_is_the_yearly_interest(staked_amount: u64, apr: u64)
    ensures
        ({
            let annual = annual_reward_amount(staked_amount, apr);
            let product = staked_amount * apr;
            &&& annual == (product / 10_000) % 0x1_0000_0000_0000_0000
            &&& product / 10_000 <= u64::MAX ==> annual * 10_000 <= product < (annual + 1) * 10_000
            &&& apr <= 10_000 ==> product / 10_000 <= u64::MAX
        }),
{
    let product = staked_amount * apr;
    assert(0 <= product) by (nonlinear_arith)
        requires
            0 <= staked_amount,
            0 <= apr,
            product == staked_amount * apr,
    ;
    if apr <= 10_000 {
        assert(product <= staked_amount * 10_000) by (nonlinear_arith)
            requires
                0 <= staked_amount,
                0 <= apr <= 10_000,
                product == staked_amount * apr,
        ;
    }
}

/// A stake of `amount` is refused exactly where the pool is paused, the authority is not the pool's,
/// the clock cannot be read, the amount is below 5,000 ZARA or the vault cannot take it, in this
/// order. Otherwise it asks the owner for exactly `amount`, from the owner's token account to the
/// stake vault.
pub proof fn law_a_stake_moves_the_amount_asked_for(
    accounts: Stake,
    amount: u64,
    clock: Result<i64, u64>,
)
    ensures
        ({
            let decision = accounts.decision(amount, clock);
            let open = !accounts.pool.data.paused;
            let allowed = open && accounts.authority == accounts.pool.data.authority;
            let timed = allowed && clock is Ok;
            let enough = timed && amount >= 5_000_000_000;
            &&& decision == Err::<PendingStake, Failure>(Failure::Staking(StakingError::PoolPaused))
                <==> !open
            &&& decision == Err::<PendingStake, Failure>(
                Failure::Staking(StakingError::Unauthorized),
            ) <==> open && !allowed
            &&& (decision is Err && decision->Err_0 is Runtime) <==> allowed && clock is Err
            &&& allowed && clock is Err ==> decision == Err::<PendingStake, Failure>(
                Failure::Runtime(clock->Err_0),
            )
            &&& decision == Err::<PendingStake, Failure>(
                Failure::Staking(StakingError::InsufficientStakeAmount),
            ) <==> timed && !enough
            &&& decision == Err::<PendingStake, Failure>(
                Failure::Staking(StakingError::MaxStakeExceeded),
            ) <==> enough && accounts.stake_vault.data.amount + amount > u64::MAX
            &&& decision is Ok <==> enough && accounts.stake_vault.data.amount + amount <= u64::MAX
            &&& decision matches Ok(pending) ==> {
                &&& pending.transfer.amount == amount
                &&& pending.transfer.from == accounts.staker_token_account.key
                &&& pending.transfer.to == accounts.stake_vault.key
                &&& pending.transfer.authority == TransferAuthority::Owner(accounts.owner)
                &&& pending.tier is Basic <==> amount < 50_000_000_000
                &&& pending.tier is Premium <==> 50_000_000_000 <= amount < 250_000_000_000
                &&& pending.tier is Elite <==> 250_000_000_000 <= amount
                &&& clock == Ok::<i64, u64>(pending.now)
            }
        }),
{
}

/// Once the tokens of a stake of `amount` have been moved, the position that is open holds `amount`
/// under the pool's next number, on the terms that the amount buys, and the totals of the pool have
/// grown by it. Nothing else has changed.
pub proof fn law_a_stake_opens_a_position_of_the_amount(
    accounts: Stake,
    amount: u64,
    clock: Result<i64, u64>,
    pending: PendingStake,
)
    requires
        accounts.decision(amount, clock) == Ok::<PendingStake, Failure>(pending),
        pending.settleable(accounts),
    ensures
        ({
            let after = pending.settled(accounts);
            let position = after.staker.data;
            let now = clock->Ok_0;
            let before = accounts.pool.data;
            &&& position.staked_amount == amount
            &&& position.owner == accounts.owner
            &&& position.pool == accounts.pool.key
            &&& position.position_id == before.next_position_id
            &&& position.stake_start_time == now
            &&& position.last_claim_time == now
            &&& position.reward_debt == 0
            &&& amount < 50_000_000_000 ==> position.tier is Basic && position.apr == 400
                && position.stake_end_time == now + 3 * 86_400
            &&& 50_000_000_000 <= amount < 250_000_000_000 ==> position.tier is Premium
                && position.apr == 600 && position.stake_end_time == now + 7 * 86_400
            &&& 250_000_000_000 <= amount ==> position.tier is Elite && position.apr == 800
                && position.stake_end_time == now + 14 * 86_400
            &&& after.pool.data.total_staked == before.total_staked + amount
            &&& after.pool.data.staker_count == before.staker_count + 1
            &&& after.pool.data.next_position_id == before.next_position_id + 1
            &&& pending.event(accounts).amount == amount
        }),
{
}

/// Opening a position stores what its tokens, tier and time say, announces the same, and leaves all
/// else as it was. It can be done exactly where the end of the lock and the new totals fit.
pub proof fn law_opening_stores_what_was_moved(pending: PendingStake, accounts: Stake)
    ensures
        ({
            let before = accounts.pool.data;
            let lock: int = match pending.tier {
                StakingTier::Basic => 259_200int,
                StakingTier::Premium => 604_800int,
                StakingTier::Elite => 1_209_600int,
            };
            let apr: u64 = match pending.tier {
                StakingTier::Basic => 400,
                StakingTier::Premium => 600,
                StakingTier::Elite => 800,
            };
            let amount = pending.transfer.amount;
            let after = pending.settled(accounts);
            &&& pending.settleable(accounts) <==> {
                &&& pending.now + lock <= 0x7fff_ffff_ffff_ffff
                &&& before.total_staked + amount <= 0xffff_ffff_ffff_ffff
                &&& before.staker_count + 1 <= 0xffff_ffff_ffff_ffff
                &&& before.next_position_id + 1 <= 0xffff_ffff_ffff_ffff
            }
            &&& pending.settleable(accounts) ==> {
                &&& after.staker.data.stake_end_time - after.staker.data.stake_start_time == lock
                &&& after.staker.data == (StakerInfo {
                    owner: accounts.owner,
                    pool: accounts.pool.key,
                    position_id: before.next_position_id,
                    stake_start_time: pending.now,
                    stake_end_time: after.staker.data.stake_end_time,
                    last_claim_time: pending.now,
                    staked_amount: amount,
                    tier: pending.tier,
                    apr,
                    reward_debt: 0,
                })
                &&& after.pool.data.total_staked - before.total_staked == amount
                &&& after.pool.data.staker_count - before.staker_count == 1
                &&& after.pool.data.next_position_id - before.next_position_id == 1
                &&& after.pool.data == (StakingPool {
                    total_staked: after.pool.data.total_staked,
                    staker_count: after.pool.data.staker_count,
                    next_position_id: after.pool.data.next_position_id,
                    ..before
                })
                &&& after == (Stake {
                    staker: Account { key: accounts.staker.key, data: after.staker.data },
                    pool: Account { key: accounts.pool.key, data: after.pool.data },
                    ..accounts
                })
                &&& pending.event(accounts) == (StakeEvent {
                    owner: accounts.owner,
                    position_id: before.next_position_id,
                    amount,
                    tier: pending.tier,
                    lock_period: pending.event(accounts).lock_period,
                    apr,
                    timestamp: pending.now,
                })
                &&& pending.event(accounts).lock_period == lock
            }
        }),
{
}

/// An unstake is refused exactly where the clock cannot be read, the lock is not over, the stake
/// vault does not hold the stake or the reward vault not the rewards, in this order. Otherwise it
/// first returns exactly what was staked, from the stake vault to the owner's token account with the
/// pool's consent, and goes on with the interest since the last claim. What was claimed before does
/// not come into it.
pub proof fn law_an_unstake_returns_the_whole_stake(accounts: Unstake, clock: Result<i64, u64>)
    ensures
        ({
            let decision = accounts.decision(clock);
            let position = accounts.staker.data;
            let now = clock->Ok_0;
            let elapsed = now - position.last_claim_time;
            let word = if elapsed >= 0 {
                elapsed
            } else {
                elapsed + 0x1_0000_0000_0000_0000_0000_0000_0000_0000int
            };
            let earned = (position.staked_amount * position.apr * word / 315_360_000_000)
                % 0x1_0000_0000_0000_0000;
            let over = clock is Ok && now >= position.stake_end_time;
            let covered = over && accounts.stake_vault.data.amount >= position.staked_amount;
            &&& (decision is Err && decision->Err_0 is Runtime) <==> clock is Err
            &&& clock is Err ==> decision == Err::<UnstakeStep, Failure>(
                Failure::Runtime(clock->Err_0),
            )
            &&& decision == Err::<UnstakeStep, Failure>(
                Failure::Staking(StakingError::MinStakeDurationNotMet),
            ) <==> clock is Ok && !over
            &&& decision == Err::<UnstakeStep, Failure>(
                Failure::Staking(StakingError::InsufficientStakeVault),
            ) <==> over && !covered
            &&& decision == Err::<UnstakeStep, Failure>(
                Failure::Staking(StakingError::InsufficientRewardPool),
            ) <==> covered && accounts.reward_vault.data.amount < earned
            &&& decision is Ok <==> covered && accounts.reward_vault.data.amount >= earned
            &&& decision matches Ok(step) ==> {
                &&& step is ReturnStake
                &&& step->ReturnStake_transfer.amount == position.staked_amount
                &&& step->ReturnStake_transfer.from == accounts.stake_vault.key
                &&& step->ReturnStake_transfer.to == accounts.staker_token_account.key
                &&& step->ReturnStake_transfer.authority == TransferAuthority::Pool(
                    accounts.pool.key,
                )
                &&& step->ReturnStake_rewards == earned
                &&& step->ReturnStake_now == now
                &&& step.transfer() == Some(step->ReturnStake_transfer)
            }
            &&& accounts.computable(clock) <==> (covered ==> {
                &&& -0x8000_0000_0000_0000 <= elapsed <= 0x7fff_ffff_ffff_ffff
                &&& position.staked_amount * position.apr * word
                    < 0x1_0000_0000_0000_0000_0000_0000_0000_0000int
            })
        }),
{
    let position = accounts.staker.data;
    law_rewards_in_machine_words(
        position.staked_amount,
        position.last_claim_time,
        clock->Ok_0,
        position.apr,
    );
}

/// Of a position whose interest since the last claim fits in 64 bits, an unstake that is not refused
/// pays exactly the stake and that interest, rounded down, in one movement or two, and then closes
/// the position in favour of its owner.
pub proof fn law_an_unstake_pays_stake_and_interest(accounts: Unstake, now: i64)
    requires
        accounts.decision(Ok(now)) is Ok,
        accounts.staker.data.last_claim_time <= now,
        accounts.staker.data.staked_amount * accounts.staker.data.apr * (now
            - accounts.staker.data.last_claim_time) / 315_360_000_000 <= u64::MAX,
    ensures
        ({
            let position = accounts.staker.data;
            let earned = position.staked_amount * position.apr * (now - position.last_claim_time)
                / 315_360_000_000;
            let first = accounts.decision(Ok(now))->Ok_0;
            let second = first.next(accounts);
            let last = second.next(accounts);
            &&& first.transfer()->0.amount == position.staked_amount
            &&& first.transfer()->0.from == accounts.stake_vault.key
            &&& first.transfer()->0.to == accounts.staker_token_account.key
            &&& earned == 0 ==> first.is_last() && second is Done && second == last
            &&& earned > 0 ==> {
                &&& !first.is_last()
                &&& second.is_last()
                &&& second.transfer()->0.amount == earned
                &&& second.transfer()->0.from == accounts.reward_vault.key
                &&& second.transfer()->0.to == accounts.staker_token_account.key
                &&& second.transfer()->0.authority == TransferAuthority::Pool(accounts.pool.key)
            }
            &&& last is Done
            &&& last->event.amount == position.staked_amount
            &&& last->event.rewards == earned
            &&& last->event.owner == accounts.owner
            &&& last->event.position_id == position.position_id
            &&& last->event.timestamp == now
            &&& last->closing == (Closing {
                account: accounts.staker.key,
                destination: accounts.owner,
            })
        }),
{
    law_an_unstake_returns_the_whole_stake(accounts, Ok(now));
    let position = accounts.staker.data;
    law_rewards_are_the_simple_interest(
        position.staked_amount,
        position.last_claim_time,
        now,
        position.apr,
    );
    law_rewards_in_machine_words(
        position.staked_amount,
        position.last_claim_time,
        now,
        position.apr,
    );
    law_the_steps_of_an_unstake(accounts.decision(Ok(now))->Ok_0, accounts);
    law_the_steps_of_an_unstake(accounts.decision(Ok(now))->Ok_0.next(accounts), accounts);
}

/// From any step an unstake goes on in order: rewards follow the stake, in full, from the reward
/// vault to the owner's token account, and only if there are any; the last movement ends it with what
/// was paid; and nothing follows the end.
pub proof fn law_the_steps_of_an_unstake(step: UnstakeStep, accounts: Unstake)
    ensures
        ({
            let next = step.next(accounts);
            &&& step matches UnstakeStep::ReturnStake { transfer, rewards, now } ==> {
                &&& step.transfer() == Some(transfer)
                &&& step.is_last() <==> rewards == 0
                &&& next is Done <==> rewards == 0
                &&& next is PayRewards <==> rewards > 0
                &&& next matches UnstakeStep::PayRewards { transfer, rewards: paid, now: time } ==> {
                    &&& transfer.amount == rewards
                    &&& transfer.from == accounts.reward_vault.key
                    &&& transfer.to == accounts.staker_token_account.key
                    &&& transfer.authority == TransferAuthority::Pool(accounts.pool.key)
                    &&& paid == rewards
                    &&& time == now
                }
                &&& next is Done ==> next->event.rewards == 0 && next->event.timestamp == now
            }
            &&& step matches UnstakeStep::PayRewards { transfer, rewards, now } ==> {
                &&& step.transfer() == Some(transfer)
                &&& step.is_last()
                &&& next is Done
                &&& next->event.rewards == rewards
                &&& next->event.timestamp == now
            }
            &&& step is Done ==> next == step && step.transfer() is None && !step.is_last()
            &&& step !is Done && next is Done ==> {
                &&& next->event.owner == accounts.owner
                &&& next->event.position_id == accounts.staker.data.position_id
                &&& next->event.amount == accounts.staker.data.staked_amount
                &&& next->closing.account == accounts.staker.key
                &&& next->closing.destination == accounts.owner
            }
        }),
{
}

/// Closing a position takes exactly its stake and one position out of the totals of the pool, leaves
/// nothing at the position's address and everything else as it was. It can be done exactly where the
/// totals hold the position.
pub proof fn law_closing_takes_out_the_stake(accounts: Unstake)
    ensures
        accounts.counted() <==> accounts.pool.data.total_staked
            >= accounts.staker.data.staked_amount && accounts.pool.data.staker_count > 0,
        accounts.closing().account == accounts.staker.key,
        accounts.closing().destination == accounts.owner,
        accounts.counted() ==> {
            let after = accounts.after_closing();
            &&& after.pool.data.total_staked + accounts.staker.data.staked_amount
                == accounts.pool.data.total_staked
            &&& after.pool.data.staker_count + 1 == accounts.pool.data.staker_count
            &&& after.staker_state is Vacant
            &&& after == (Unstake {
                pool: Account {
                    key: accounts.pool.key,
                    data: StakingPool {
                        total_staked: after.pool.data.total_staked,
                        staker_count: after.pool.data.staker_count,
                        ..accounts.pool.data
                    },
                },
                staker_state: after.staker_state,
                ..accounts
            })
        },
{
}

/// An emergency unstake is refused exactly where the pool is not paused or the stake vault does not
/// hold the stake, in this order; neither the lock nor the tier comes into it. Otherwise its one
/// movement is exactly what was staked, from the stake vault to the owner's token account, with the
/// pool's consent.
pub proof fn law_an_emergency_returns_the_whole_stake(accounts: Unstake, now: i64)
    ensures
        ({
            let decision = accounts.emergency_decision();
            let staked = accounts.staker.data.staked_amount;
            &&& decision == Err::<PendingEmergencyUnstake, Failure>(
                Failure::Staking(StakingError::PoolNotPaused),
            ) <==> !accounts.pool.data.paused
            &&& decision == Err::<PendingEmergencyUnstake, Failure>(
                Failure::Staking(StakingError::InsufficientStakeVault),
            ) <==> accounts.pool.data.paused && accounts.stake_vault.data.amount < staked
            &&& decision is Ok <==> accounts.pool.data.paused && accounts.stake_vault.data.amount
                >= staked
            &&& decision matches Ok(pending) ==> {
                &&& pending.transfer.amount == staked
                &&& pending.transfer.from == accounts.stake_vault.key
                &&& pending.transfer.to == accounts.staker_token_account.key
                &&& pending.transfer.authority == TransferAuthority::Pool(accounts.pool.key)
            }
        }),
        accounts.emergency_event(now) == (EmergencyUnstakeEvent {
            owner: accounts.owner,
            position_id: accounts.staker.data.position_id,
            amount: accounts.staker.data.staked_amount,
            timestamp: now,
        }),
{
}

/// A stake comes back whole: closing the position that a stake of `amount` opened, with its rewards
/// or without, moves exactly `amount` out of the stake vault, whatever has been claimed in between.
pub proof fn law_what_was_staked_comes_back(
    stake: Stake,
    amount: u64,
    clock: Result<i64, u64>,
    pending: PendingStake,
    unstake: Unstake,
    later: Result<i64, u64>,
)
    requires
        stake.decision(amount, clock) == Ok::<PendingStake, Failure>(pending),
        unstake.staker.data == (StakerInfo {
            last_claim_time: unstake.staker.data.last_claim_time,
            reward_debt: unstake.staker.data.reward_debt,
            ..pending.settled(stake).staker.data
        }),
    ensures
        pending.transfer.amount == amount,
        unstake.decision(later) matches Ok(step) ==> step.transfer()->0.amount == amount,
        unstake.emergency_decision() matches Ok(returned) ==> returned.transfer.amount == amount,
{
}

/// A claim is refused exactly where the pool is paused, the clock cannot be read, the reward vault
/// does not hold the rewards, or they are more than the position's yearly interest or a million
/// ZARA, in this order. Otherwise it moves exactly the interest since the last claim, if there is
/// any, from the reward vault to the owner's token account with the pool's consent.
pub proof fn law_a_claim_moves_the_interest(accounts: ClaimRewards, clock: Result<i64, u64>)
    ensures
        ({
            let decision = accounts.decision(clock);
            let position = accounts.staker.data;
            let now = clock->Ok_0;
            let elapsed = now - position.last_claim_time;
            let word = if elapsed >= 0 {
                elapsed
            } else {
                elapsed + 0x1_0000_0000_0000_0000_0000_0000_0000_0000int
            };
            let earned = (position.staked_amount * position.apr * word / 315_360_000_000)
                % 0x1_0000_0000_0000_0000;
            let yearly = (position.staked_amount * position.apr / 10_000)
                % 0x1_0000_0000_0000_0000;
            let open = !accounts.pool.data.paused;
            let timed = open && clock is Ok;
            let covered = timed && accounts.reward_vault.data.amount >= earned;
            let within = earned <= yearly && earned <= 1_000_000_000_000;
            &&& decision == Err::<Option<PendingClaim>, Failure>(
                Failure::Staking(StakingError::PoolPaused),
            ) <==> !open
            &&& (decision is Err && decision->Err_0 is Runtime) <==> open && clock is Err
            &&& open && clock is Err ==> decision == Err::<Option<PendingClaim>, Failure>(
                Failure::Runtime(clock->Err_0),
            )
            &&& decision == Err::<Option<PendingClaim>, Failure>(
                Failure::Staking(StakingError::InsufficientRewardPool),
            ) <==> timed && !covered
            &&& decision == Err::<Option<PendingClaim>, Failure>(
                Failure::Staking(StakingError::AnnualRewardLimitExceeded),
            ) <==> covered && !within
            &&& decision is Ok <==> covered && within
            &&& decision is Ok ==> (decision->Ok_0 is None <==> earned == 0)
            &&& decision matches Ok(Some(pending)) ==> {
                &&& pending.transfer.amount == earned
                &&& pending.transfer.from == accounts.reward_vault.key
                &&& pending.transfer.to == accounts.staker_token_account.key
                &&& pending.transfer.authority == TransferAuthority::Pool(accounts.pool.key)
                &&& pending.now == now
            }
            &&& accounts.computable(clock) <==> (timed ==> {
                &&& -0x8000_0000_0000_0000 <= elapsed <= 0x7fff_ffff_ffff_ffff
                &&& position.staked_amount * position.apr * word
                    < 0x1_0000_0000_0000_0000_0000_0000_0000_0000int
            })
        }),
{
    let position = accounts.staker.data;
    law_rewards_in_machine_words(
        position.staked_amount,
        position.last_claim_time,
        clock->Ok_0,
        position.apr,
    );
    law_the_annual_reward_is_the_yearly_interest(position.staked_amount, position.apr);
    assert(0 <= position.staked_amount * position.apr) by (nonlinear_arith)
        requires
            0 <= position.staked_amount,
            0 <= position.apr,
    ;
}

/// Booking a claim moves the last claim on to its time and adds exactly what was moved to the
/// rewards claimed so far, announces the same, and leaves all else as it was. It can be done exactly
/// where the sum fits.
pub proof fn law_booking_a_claim_stores_what_was_moved(
    pending: PendingClaim,
    accounts: ClaimRewards,
)
    ensures
        pending.settleable(accounts) <==> accounts.staker.data.reward_debt + pending.transfer.amount
            <= 0xffff_ffff_ffff_ffff,
        pending.settleable(accounts) ==> {
            let after = pending.settled(accounts);
            &&& after.staker.data.reward_debt - accounts.staker.data.reward_debt
                == pending.transfer.amount
            &&& after.staker.data.last_claim_time == pending.now
            &&& after == (ClaimRewards {
                staker: Account {
                    key: accounts.staker.key,
                    data: StakerInfo {
                        last_claim_time: after.staker.data.last_claim_time,
                        reward_debt: after.staker.data.reward_debt,
                        ..accounts.staker.data
                    },
                },
                ..accounts
            })
        },
        pending.event(accounts) == (ClaimEvent {
            owner: accounts.owner,
            position_id: accounts.staker.data.position_id,
            rewards: pending.transfer.amount,
            timestamp: pending.now,
        }),
{
}

/// What a claim pays is what an unstake at the same time would have paid in rewards, and after it
/// an unstake pays only what is earned from then on: the two together never pay a second twice, and
/// lose at most one unit of the interest to rounding.
pub proof fn law_a_claim_and_an_unstake_pay_each_second_once(
    claim: ClaimRewards,
    pending: PendingClaim,
    unstake: Unstake,
    claimed_at: i64,
    now: i64,
)
    requires
        claim.decision(Ok(claimed_at)) == Ok::<Option<PendingClaim>, Failure>(Some(pending)),
        pending.settleable(claim),
        unstake.staker.data == pending.settled(claim).staker.data,
        unstake.decision(Ok(now)) is Ok,
        claim.staker.data.last_claim_time <= claimed_at <= now,
        claim.staker.data.staked_amount * claim.staker.data.apr * (now
            - claim.staker.data.last_claim_time) / 315_360_000_000 <= u64::MAX,
    ensures
        ({
            let position = claim.staker.data;
            let whole = position.staked_amount * position.apr * (now - position.last_claim_time)
                / 315_360_000_000;
            let paid = pending.transfer.amount
                + unstake.decision(Ok(now))->Ok_0->ReturnStake_rewards;
            &&& paid <= whole <= paid + 1
            &&& unstake.decision(Ok(now))->Ok_0->ReturnStake_transfer.amount
                == position.staked_amount
        }),
{
    let position = claim.staker.data;
    let yearly = position.staked_amount * position.apr;
    let before = claimed_at - position.last_claim_time;
    let after = now - claimed_at;
    law_a_claim_moves_the_interest(claim, Ok(claimed_at));
    law_an_unstake_returns_the_whole_stake(unstake, Ok(now));
    law_booking_a_claim_stores_what_was_moved(pending, claim);
    lemma_mul_is_distributive_add(yearly, before, after);
    assert(0 <= yearly) by (nonlinear_arith)
        requires
            0 <= position.staked_amount,
            0 <= position.apr,
            yearly == position.staked_amount * position.apr,
    ;
    assert(0 <= yearly * before && 0 <= yearly * after) by (nonlinear_arith)
        requires
            0 <= yearly,
            0 <= before,
            0 <= after,
    ;
}

/// An instruction whose tokens do not move fails with the code of the movement, and changes nothing;
/// so does an emergency unstake after which the clock cannot be read.
pub proof fn law_what_does_not_move_changes_nothing(
    pending_stake: PendingStake,
    stake: Stake,
    pending_claim: PendingClaim,
    claim: ClaimRewards,
    step: UnstakeStep,
    emergency: PendingEmergencyUnstake,
    unstake: Unstake,
    clock: Result<i64, u64>,
    code: u64,
)
    ensures
        pending_stake.result(stake, Err(code)) == (
            Err::<StakeEvent, Failure>(Failure::Runtime(code)),
            stake,
        ),
        pending_claim.result(claim, Err(code)) == (
            Err::<ClaimEvent, Failure>(Failure::Runtime(code)),
            claim,
        ),
        step.result(unstake, Err(code)) == (
            Err::<UnstakeStep, Failure>(Failure::Runtime(code)),
            unstake,
        ),
        emergency.result(unstake, Err(code), clock) == (
            Err::<(EmergencyUnstakeEvent, Closing), Failure>(Failure::Runtime(code)),
            unstake,
        ),
        emergency.result(unstake, Ok(()), Err(code)) == (
            Err::<(EmergencyUnstakeEvent, Closing), Failure>(Failure::Runtime(code)),
            unstake,
        ),
{
}

/// Once the tokens have moved, a stake opens its position, a claim is booked, an unstake goes on to
/// its next step, and the position is closed with the last movement and not before.
pub proof fn law_what_has_moved_is_stored(
    pending_stake: PendingStake,
    stake: Stake,
    pending_claim: PendingClaim,
    claim: ClaimRewards,
    step: UnstakeStep,
    emergency: PendingEmergencyUnstake,
    unstake: Unstake,
    now: i64,
)
    ensures
        pending_stake.result(stake, Ok(())) == (
            Ok::<StakeEvent, Failure>(pending_stake.event(stake)),
            pending_stake.settled(stake),
        ),
        pending_claim.result(claim, Ok(())) == (
            Ok::<ClaimEvent, Failure>(pending_claim.event(claim)),
            pending_claim.settled(claim),
        ),
        step.result(unstake, Ok(())).0 == Ok::<UnstakeStep, Failure>(step.next(unstake)),
        step !is Done ==> step.result(unstake, Ok(())).1 == if step.next(unstake) is Done {
            unstake.after_closing()
        } else {
            unstake
        },
        step is Done ==> step.result(unstake, Ok(())).1 == unstake,
        emergency.result(unstake, Ok(()), Ok(now)) == (
            Ok::<(EmergencyUnstakeEvent, Closing), Failure>(
                (unstake.emergency_event(now), unstake.closing()),
            ),
            unstake.after_closing(),
        ),
{
}

/// A pool is opened with at most 5 million ZARA set aside, once the clock can be read: then it is
/// empty, not paused, run by the authority, of the mint given, and numbers its first position 1.
/// Otherwise nothing changes.
pub proof fn law_opening_a_pool(
    accounts: InitializePool,
    reward_pool_amount: u64,
    clock: Result<i64, u64>,
)
    ensures
        ({
            let decision = accounts.decision(reward_pool_amount, clock);
            let within = reward_pool_amount <= 5_000_000_000_000;
            &&& decision == Err::<PoolInitializedEvent, Failure>(
                Failure::Staking(StakingError::ExcessiveRewardPool),
            ) <==> !within
            &&& (decision is Err && decision->Err_0 is Runtime) <==> within && clock is Err
            &&& within && clock is Err ==> decision == Err::<PoolInitializedEvent, Failure>(
                Failure::Runtime(clock->Err_0),
            )
            &&& decision is Ok <==> within && clock is Ok
            &&& decision matches Ok(event) ==> {
                &&& event.authority == accounts.authority
                &&& event.reward_pool == reward_pool_amount
                &&& clock == Ok::<i64, u64>(event.timestamp)
            }
            &&& initialize_refusal(reward_pool_amount, clock) == match decision {
                Ok(_) => None::<Failure>,
                Err(failure) => Some(failure),
            }
            &&& decision is Ok ==> accounts.after(reward_pool_amount, clock)
                == accounts.initialized(reward_pool_amount)
            &&& decision is Err ==> accounts.after(reward_pool_amount, clock) == accounts
        }),
        ({
            let after = accounts.initialized(reward_pool_amount);
            &&& after.authority == accounts.authority
            &&& after.zara_mint == accounts.zara_mint
            &&& after.pool.key == accounts.pool.key
            &&& after.pool.data.authority == accounts.authority
            &&& after.pool.data.zara_mint == accounts.zara_mint
            &&& after.pool.data.total_staked == 0
            &&& after.pool.data.staker_count == 0
            &&& !after.pool.data.paused
            &&& after.pool.data.reward_pool_amount == reward_pool_amount
            &&& after.pool.data.next_position_id == 1
        }),
{
}

/// The authority of a pool, and nobody else, pauses it, or resumes it if it was paused; nothing else
/// of the pool changes.
pub proof fn law_pausing_and_resuming(accounts: UpdatePool, clock: Result<i64, u64>)
    ensures
        ({
            let decision = accounts.decision(clock);
            let allowed = accounts.authority == accounts.pool.data.authority;
            &&& decision == Err::<EmergencyEvent, Failure>(
                Failure::Staking(StakingError::Unauthorized),
            ) <==> !allowed
            &&& (decision is Err && decision->Err_0 is Runtime) <==> allowed && clock is Err
            &&& allowed && clock is Err ==> decision == Err::<EmergencyEvent, Failure>(
                Failure::Runtime(clock->Err_0),
            )
            &&& decision is Ok <==> allowed && clock is Ok
            &&& decision matches Ok(event) ==> {
                &&& event.paused != accounts.pool.data.paused
                &&& clock == Ok::<i64, u64>(event.timestamp)
            }
            &&& accounts.refusal(clock) == match decision {
                Ok(_) => None::<Failure>,
                Err(failure) => Some(failure),
            }
            &&& decision is Ok ==> accounts.after(clock) == accounts.toggled()
            &&& decision is Err ==> accounts.after(clock) == accounts
        }),
        ({
            let after = accounts.toggled();
            &&& after.pool.data.paused != accounts.pool.data.paused
            &&& after == (UpdatePool {
                pool: Account {
                    key: accounts.pool.key,
                    data: StakingPool { paused: after.pool.data.paused, ..accounts.pool.data },
                },
                ..accounts
            })
        }),
{
}

} // verus!
