//! What holds between one instruction and another.
use crate::accounts::{
    admission, Account, ClaimRewards, InitializePool, Stake, TokenAccount, Unstake,
};
use crate::address::{pool_seeds, program_address, staker_seeds, PROGRAM_ID};
use crate::claim::PendingClaim;
use crate::error::{Constraint, Failure, StakingError};
use crate::pubkey::Pubkey;
use crate::rewards::{
    annual_reward_amount, law_no_time_earns_nothing, law_within_a_year_the_annual_limit_holds,
    SECONDS_PER_YEAR,
};
use crate::stake::PendingStake;
use crate::state::{StakerInfo, StakingPool, MAX_ANNUAL_REWARDS};
use crate::unstake::{PendingEmergencyUnstake, UnstakeStep};
use vstd::prelude::*;

verus! {

/// While a pool is paused it takes no stake and pays no claim, and positions can be closed without
/// rewards; while it is not paused they cannot. Closing a position with its rewards does not depend
/// on it.
pub proof fn law_what_pausing_stops(
    stake: Stake,
    amount: u64,
    claim: ClaimRewards,
    unstake: Unstake,
    clock: Result<i64, u64>,
)
    ensures
        stake.pool.data.paused <==> stake.refusal(amount, clock) == Some(
            Failure::Staking(StakingError::PoolPaused),
        ),
        claim.pool.data.paused <==> claim.refusal(clock) == Some(
            Failure::Staking(StakingError::PoolPaused),
        ),
        unstake.pool.data.paused <==> unstake.emergency_refusal() != Some(
            Failure::Staking(StakingError::PoolNotPaused),
        ),
        ({
            let pool = StakingPool { paused: !unstake.pool.data.paused, ..unstake.pool.data };
            let other = Unstake { pool: Account { data: pool, ..unstake.pool }, ..unstake };
            unstake.refusal(clock) == other.refusal(clock)
        }),
{
}

/// A position cannot be closed with its rewards before the lock of its tier is over, counted from
/// the time of the stake, and from then on is not refused for that reason.
pub proof fn law_a_position_is_locked_for_its_period(
    pending: PendingStake,
    stake: Stake,
    unstake: Unstake,
    now: i64,
)
    requires
        pending.settleable(stake),
        unstake.staker.data == pending.settled(stake).staker.data,
    ensures
        unstake.refusal(Ok(now)) == Some(Failure::Staking(StakingError::MinStakeDurationNotMet))
            <==> now < pending.now + pending.tier.lock_period(),
{
}

/// Closing a position that was just opened restores the totals of the pool; only the number that
/// the next position gets has moved on.
pub proof fn law_closing_undoes_opening(pending: PendingStake, stake: Stake, unstake: Unstake)
    requires
        pending.settleable(stake),
        unstake.staker == pending.settled(stake).staker,
        unstake.pool == pending.settled(stake).pool,
    ensures
        unstake.counted(),
        unstake.after_closing().pool.data == (StakingPool {
            next_position_id: (stake.pool.data.next_position_id + 1) as u64,
            ..stake.pool.data
        }),
{
}

/// An unstake moves the stake first, then the rewards if there are any, then ends: whatever is
/// moved goes to the owner's token account, and comes to the stake plus the rewards.
pub proof fn law_an_unstake_pays_stake_and_rewards(accounts: Unstake, rewards: u64, now: i64)
    ensures
        ({
            let first = UnstakeStep::ReturnStake {
                transfer: accounts.stake_transfer(),
                rewards,
                now,
            };
            let second = first.next(accounts);
            &&& first.transfer() matches Some(transfer) && transfer.amount
                == accounts.staker.data.staked_amount && transfer.to
                == accounts.staker_token_account.key
            &&& rewards == 0 ==> first.is_last() && second == accounts.done(rewards, now)
            &&& rewards > 0 ==> {
                &&& !first.is_last()
                &&& second.transfer() matches Some(transfer) && transfer.amount == rewards
                    && transfer.to == accounts.staker_token_account.key
                &&& second.is_last()
                &&& second.next(accounts) == accounts.done(rewards, now)
            }
        }),
{
}

/// What has been claimed is not paid again: right after a claim there is nothing to claim, and
/// closing the position pays no rewards.
pub proof fn law_rewards_are_paid_once(
    pending: PendingClaim,
    claim: ClaimRewards,
    unstake: Unstake,
)
    requires
        unstake.staker == pending.settled(claim).staker,
    ensures
        pending.settled(claim).computable(Ok(pending.now)),
        pending.settled(claim).refusal(Ok(pending.now)) is None <==> !claim.pool.data.paused,
        pending.settled(claim).pending(pending.now) is None,
        unstake.computable(Ok(pending.now)),
        unstake.rewards(pending.now) == 0,
{
    let staker = claim.staker.data;
    law_no_time_earns_nothing(staker.staked_amount, pending.now, staker.apr);
}

/// A claim adds to the rewards claimed so far exactly what is moved to the owner, and leaves the
/// stake, its terms and the pool as they are.
pub proof fn law_a_claim_books_what_it_pays(pending: PendingClaim, claim: ClaimRewards)
    requires
        pending.settleable(claim),
    ensures
        pending.settled(claim).staker.data.reward_debt == claim.staker.data.reward_debt
            + pending.transfer.amount,
        pending.settled(claim).staker.data == (StakerInfo {
            last_claim_time: pending.now,
            reward_debt: pending.settled(claim).staker.data.reward_debt,
            ..claim.staker.data
        }),
        pending.settled(claim).pool == claim.pool,
        pending.event(claim).rewards == pending.transfer.amount,
{
}

/// A claim that is admitted pays no more than the position's annual reward, and no more than the
/// maximum for a year.
pub proof fn law_a_claim_pays_at_most_the_annual_maximum(
    claim: ClaimRewards,
    clock: Result<i64, u64>,
)
    requires
        claim.refusal(clock) is None,
    ensures
        claim.pending(clock->Ok_0) matches Some(pending) ==> {
            &&& pending.transfer.amount <= MAX_ANNUAL_REWARDS
            &&& pending.transfer.amount <= annual_reward_amount(
                claim.staker.data.staked_amount,
                claim.staker.data.apr,
            )
        },
{
}

/// What a well-formed position claims at least once a year can be computed, and meets no annual
/// limit as long as it is within the maximum for a year.
pub proof fn law_yearly_claims_meet_no_limit(claim: ClaimRewards, now: i64)
    requires
        claim.staker.data.well_formed(),
        0 <= now - claim.staker.data.last_claim_time <= SECONDS_PER_YEAR,
        claim.rewards(now) <= MAX_ANNUAL_REWARDS,
    ensures
        claim.computable(Ok(now)),
        claim.refusal(Ok(now)) != Some(Failure::Staking(StakingError::AnnualRewardLimitExceeded)),
{
    let staker = claim.staker.data;
    law_within_a_year_the_annual_limit_holds(
        staker.staked_amount,
        staker.last_claim_time,
        now,
        staker.apr,
    );
}

/// An unstake is admitted, with or without rewards, exactly where its accounts belong together: the
/// position is open, lies at its address and is the owner's and the pool's, the pool lies at its
/// address, the owner's token account takes what is paid, and the vaults are the pool's. What comes
/// with it is the bump seed of the pool's address.
pub proof fn law_unstake_accounts_belong_together(unstake: Unstake, bump: u8)
    ensures
        unstake.validation() == Some(Ok::<u8, Failure>(bump)) <==> {
            &&& unstake.staker_state is Open
            &&& lies_at(
                unstake.staker.key,
                staker_seeds(unstake.owner, unstake.staker.data.position_id),
            )
            &&& unstake.staker.key != unstake.owner
            &&& unstake.staker.data.owner == unstake.owner
            &&& unstake.staker.data.pool == unstake.pool.key
            &&& program_address(pool_seeds(), PROGRAM_ID@) == Some((unstake.pool.key.bytes@, bump))
            &&& belongs_to(unstake.staker_token_account.data, unstake.owner, unstake.zara_mint)
            &&& belongs_to(unstake.stake_vault.data, unstake.pool.key, unstake.zara_mint)
            &&& belongs_to(unstake.reward_vault.data, unstake.pool.key, unstake.zara_mint)
        },
{
}

/// A claim is admitted exactly where its accounts belong together.
pub proof fn law_claim_accounts_belong_together(claim: ClaimRewards, bump: u8)
    ensures
        claim.validation() == Some(Ok::<u8, Failure>(bump)) <==> {
            &&& claim.staker_state is Open
            &&& lies_at(
                claim.staker.key,
                staker_seeds(claim.owner, claim.staker.data.position_id),
            )
            &&& claim.staker.data.owner == claim.owner
            &&& claim.staker.data.pool == claim.pool.key
            &&& program_address(pool_seeds(), PROGRAM_ID@) == Some((claim.pool.key.bytes@, bump))
            &&& belongs_to(claim.staker_token_account.data, claim.owner, claim.zara_mint)
            &&& belongs_to(claim.reward_vault.data, claim.pool.key, claim.zara_mint)
        },
{
}

/// A stake is admitted exactly where its accounts belong together and the token staked is the
/// pool's. The position lies at the address of the pool's next number.
pub proof fn law_stake_accounts_belong_together(stake: Stake, bump: u8)
    ensures
        stake.validation() == Some(Ok::<u8, Failure>(bump)) <==> {
            &&& lies_at(
                stake.staker.key,
                staker_seeds(stake.owner, stake.pool.data.next_position_id),
            )
            &&& program_address(pool_seeds(), PROGRAM_ID@) == Some((stake.pool.key.bytes@, bump))
            &&& stake.pool.data.zara_mint == stake.zara_mint
            &&& belongs_to(stake.staker_token_account.data, stake.owner, stake.zara_mint)
            &&& belongs_to(stake.stake_vault.data, stake.pool.key, stake.zara_mint)
            &&& belongs_to(stake.reward_vault.data, stake.pool.key, stake.zara_mint)
        },
{
}

/// A pool is opened exactly at its address.
pub proof fn law_a_pool_is_opened_at_its_address(accounts: InitializePool, bump: u8)
    ensures
        accounts.validation() == Some(Ok::<u8, Failure>(bump)) <==> program_address(
            pool_seeds(),
            PROGRAM_ID@,
        ) == Some((accounts.pool.key.bytes@, bump)),
{
}

/// Where the addresses of the position and of the pool can be derived, admitting an instruction is
/// checking its accounts against the two.
pub proof fn law_admission_is_the_check_against_the_addresses(
    stake: Stake,
    unstake: Unstake,
    claim: ClaimRewards,
    staker_address: Seq<u8>,
    staker_bump: u8,
    pool_address: Seq<u8>,
    pool_bump: u8,
)
    requires
        program_address(pool_seeds(), PROGRAM_ID@) == Some((pool_address, pool_bump)),
    ensures
        program_address(
            staker_seeds(stake.owner, stake.pool.data.next_position_id),
            PROGRAM_ID@,
        ) == Some((staker_address, staker_bump)) ==> stake.validation() == Some(
            admission(stake.violation(staker_address, pool_address), pool_bump),
        ),
        program_address(
            staker_seeds(unstake.owner, unstake.staker.data.position_id),
            PROGRAM_ID@,
        ) == Some((staker_address, staker_bump)) ==> unstake.validation() == Some(
            admission(unstake.violation(staker_address, pool_address), pool_bump),
        ),
        program_address(
            staker_seeds(claim.owner, claim.staker.data.position_id),
            PROGRAM_ID@,
        ) == Some((staker_address, staker_bump)) ==> claim.validation() == Some(
            admission(claim.violation(staker_address, pool_address), pool_bump),
        ),
{
}

/// The key is the address that the program derives from the seeds.
pub open spec fn lies_at(key: Pubkey, seeds: Seq<Seq<u8>>) -> bool {
    program_address(seeds, PROGRAM_ID@) matches Some((address, _)) && key.bytes@ == address
}

/// The token account is of this owner and this mint.
pub open spec fn belongs_to(account: TokenAccount, owner: Pubkey, mint: Pubkey) -> bool {
    account.owner == owner && account.mint == mint
}

/// The position that a stake opens passes the checks that an unstake and a claim by its owner, made
/// with the same pool, make of a position. One thing only can stand in the way of the unstake: an
/// account is not closed into itself.
pub proof fn law_an_opened_position_is_its_owners(
    pending: PendingStake,
    stake: Stake,
    staker_address: Seq<u8>,
    unstake: Unstake,
    claim: ClaimRewards,
)
    requires
        stake.staker.key.bytes@ == staker_address,
        unstake.staker == pending.settled(stake).staker,
        unstake.owner == stake.owner,
        unstake.pool.key == stake.pool.key,
        claim.staker == pending.settled(stake).staker,
        claim.owner == stake.owner,
        claim.pool.key == stake.pool.key,
    ensures
        unstake.position_part(staker_address) is None <==> stake.staker.key != stake.owner,
        claim.position_part(staker_address) is None,
        unstake.staker.data.position_id == stake.pool.data.next_position_id,
        claim.staker.data.position_id == stake.pool.data.next_position_id,
{
}

/// Once a position is closed, closing it again, with or without rewards, is refused, whatever the
/// time; so is a claim of it.
pub proof fn law_a_closed_account_is_refused(
    closed: Unstake,
    claim: ClaimRewards,
    clock: Result<i64, u64>,
)
    requires
        claim.staker_state == closed.after_closing().staker_state,
    ensures
        ({
            let again = closed.after_closing();
            let refused = Failure::Constraint(Constraint::NotInitialized);
            &&& again.validation() == Some(Err::<u8, Failure>(refused))
            &&& again.admitted_decision(clock) == Some(
                Err::<(u8, UnstakeStep), Failure>(refused),
            )
            &&& again.admitted_emergency_decision() == Some(
                Err::<(u8, PendingEmergencyUnstake), Failure>(refused),
            )
            &&& claim.admitted_decision(clock) == Some(
                Err::<(u8, Option<PendingClaim>), Failure>(refused),
            )
        }),
{
}

} // verus!
