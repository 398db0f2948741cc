//! Which accounts each instruction takes, fault by fault, and what becomes of it then.
use crate::accounts::{outcome_of, ClaimRewards, InitializePool, Stake, Unstake};
use crate::address::{found_bytes, pool_seeds, program_address, staker_seeds, PROGRAM_ID};
use crate::claim::PendingClaim;
use crate::error::{Constraint, Failure, StakingError};
use crate::events::PoolInitializedEvent;
use crate::pubkey::Pubkey;
use crate::stake::PendingStake;
use crate::unstake::{PendingEmergencyUnstake, UnstakeStep};
use vstd::bytes::*;
use vstd::prelude::*;

verus! {

/// The pool's address comes from the seed `pool_v3`, that of a position from `staker`, its owner and
/// its number, least byte first; and what is found is told byte for byte.
pub proof fn law_what_addresses_come_from(
    owner: Pubkey,
    position_id: u64,
    address: Pubkey,
    bump: u8,
)
    ensures
        pool_seeds() == seq![seq![112u8, 111u8, 111u8, 108u8, 95u8, 118u8, 51u8]],
        staker_seeds(owner, position_id) == seq![
            seq![115u8, 116u8, 97u8, 107u8, 101u8, 114u8],
            owner.bytes@,
            spec_u64_to_le_bytes(position_id),
        ],
        found_bytes(Some((address, bump))) == Some((address.bytes@, bump)),
        found_bytes(None) is None,
{
    assert(pool_seeds()[0] =~= seq![112u8, 111u8, 111u8, 108u8, 95u8, 118u8, 51u8]);
    assert(staker_seeds(owner, position_id)[0] =~= seq![
        115u8,
        116u8,
        97u8,
        107u8,
        101u8,
        114u8,
    ]);
}

/// A check fails with exactly what it finds wrong, and passes where it finds nothing.
pub proof fn law_a_check_tells_what_is_wrong(failure: Failure)
    ensures
        outcome_of(Some(failure)) == Err::<(), Failure>(failure),
        outcome_of(None) == Ok::<(), Failure>(()),
{
}

/// The faults of the accounts of a stake, in the order in which they are told: the position lies
/// elsewhere, the token account is another's or of another mint, the pool lies elsewhere or takes
/// another mint, a vault is not the pool's or of another mint.
pub proof fn law_the_faults_of_a_stake(stake: Stake, staker_address: Seq<u8>, pool_address: Seq<u8>)
    ensures
        ({
            let fault = stake.violation(staker_address, pool_address);
            let payer = stake.staker_token_account.data;
            let mint = stake.zara_mint;
            let placed = stake.staker.key.bytes@ == staker_address;
            let paying = placed && payer.owner == stake.owner && payer.mint == mint;
            let pooled = paying && stake.pool.key.bytes@ == pool_address;
            let minted = pooled && stake.pool.data.zara_mint == mint;
            let vault = stake.stake_vault.data;
            let vaulted = minted && vault.owner == stake.pool.key && vault.mint == mint;
            let other = stake.reward_vault.data;
            &&& !placed ==> fault == Some(Failure::Constraint(Constraint::Seeds))
            &&& placed && payer.owner != stake.owner ==> fault == Some(
                Failure::Constraint(Constraint::TokenOwner),
            )
            &&& placed && payer.owner == stake.owner && payer.mint != mint ==> fault == Some(
                Failure::Constraint(Constraint::TokenMint),
            )
            &&& paying && !pooled ==> fault == Some(Failure::Constraint(Constraint::Seeds))
            &&& pooled && !minted ==> fault == Some(Failure::Staking(StakingError::InvalidMint))
            &&& minted && vault.owner != stake.pool.key ==> fault == Some(
                Failure::Constraint(Constraint::TokenOwner),
            )
            &&& minted && vault.owner == stake.pool.key && vault.mint != mint ==> fault == Some(
                Failure::Constraint(Constraint::TokenMint),
            )
            &&& vaulted && other.owner != stake.pool.key ==> fault == Some(
                Failure::Constraint(Constraint::TokenOwner),
            )
            &&& vaulted && other.owner == stake.pool.key && other.mint != mint ==> fault == Some(
                Failure::Constraint(Constraint::TokenMint),
            )
            &&& fault is None <==> vaulted && other.owner == stake.pool.key && other.mint == mint
        }),
{
}

/// The faults of the accounts of an unstake, in the order in which they are told: the position is
/// not open, the token account is another's or of another mint, the position lies elsewhere, is
/// another's or another pool's or would be closed into itself, the pool lies elsewhere, a vault is
/// not the pool's or of another mint.
pub proof fn law_the_faults_of_an_unstake(
    unstake: Unstake,
    staker_address: Seq<u8>,
    pool_address: Seq<u8>,
)
    ensures
        ({
            let fault = unstake.violation(staker_address, pool_address);
            let position = unstake.staker.data;
            let payee = unstake.staker_token_account.data;
            let mint = unstake.zara_mint;
            let open = unstake.staker_state is Open;
            let paid = open && payee.owner == unstake.owner && payee.mint == mint;
            let placed = paid && unstake.staker.key.bytes@ == staker_address;
            let owned = placed && position.owner == unstake.owner && position.pool
                == unstake.pool.key;
            let closable = owned && unstake.staker.key != unstake.owner;
            let pooled = closable && unstake.pool.key.bytes@ == pool_address;
            let vault = unstake.stake_vault.data;
            let vaulted = pooled && vault.owner == unstake.pool.key && vault.mint == mint;
            let other = unstake.reward_vault.data;
            &&& unstake.staker_state is Vacant ==> fault == Some(
                Failure::Constraint(Constraint::NotInitialized),
            )
            &&& unstake.staker_state is Foreign ==> fault == Some(
                Failure::Constraint(Constraint::WrongProgram),
            )
            &&& open && payee.owner != unstake.owner ==> fault == Some(
                Failure::Constraint(Constraint::TokenOwner),
            )
            &&& open && payee.owner == unstake.owner && payee.mint != mint ==> fault == Some(
                Failure::Constraint(Constraint::TokenMint),
            )
            &&& paid && !placed ==> fault == Some(Failure::Constraint(Constraint::Seeds))
            &&& placed && !owned ==> fault == Some(Failure::Constraint(Constraint::HasOne))
            &&& owned && !closable ==> fault == Some(Failure::Constraint(Constraint::Close))
            &&& closable && !pooled ==> fault == Some(Failure::Constraint(Constraint::Seeds))
            &&& pooled && vault.owner != unstake.pool.key ==> fault == Some(
                Failure::Constraint(Constraint::TokenOwner),
            )
            &&& pooled && vault.owner == unstake.pool.key && vault.mint != mint ==> fault == Some(
                Failure::Constraint(Constraint::TokenMint),
            )
            &&& vaulted && other.owner != unstake.pool.key ==> fault == Some(
                Failure::Constraint(Constraint::TokenOwner),
            )
            &&& vaulted && other.owner == unstake.pool.key && other.mint != mint ==> fault == Some(
                Failure::Constraint(Constraint::TokenMint),
            )
            &&& fault is None <==> vaulted && other.owner == unstake.pool.key && other.mint == mint
        }),
{
}

/// The faults of the accounts of a claim, in the order in which they are told: the position is not
/// open, the token account is another's or of another mint, the position lies elsewhere, is
/// another's or another pool's, the pool lies elsewhere, the reward vault is not the pool's or of
/// another mint.
pub proof fn law_the_faults_of_a_claim(
    claim: ClaimRewards,
    staker_address: Seq<u8>,
    pool_address: Seq<u8>,
)
    ensures
        ({
            let fault = claim.violation(staker_address, pool_address);
            let position = claim.staker.data;
            let payee = claim.staker_token_account.data;
            let mint = claim.zara_mint;
            let open = claim.staker_state is Open;
            let paid = open && payee.owner == claim.owner && payee.mint == mint;
            let placed = paid && claim.staker.key.bytes@ == staker_address;
            let owned = placed && position.owner == claim.owner && position.pool == claim.pool.key;
            let pooled = owned && claim.pool.key.bytes@ == pool_address;
            let vault = claim.reward_vault.data;
            &&& claim.staker_state is Vacant ==> fault == Some(
                Failure::Constraint(Constraint::NotInitialized),
            )
            &&& claim.staker_state is Foreign ==> fault == Some(
                Failure::Constraint(Constraint::WrongProgram),
            )
            &&& open && payee.owner != claim.owner ==> fault == Some(
                Failure::Constraint(Constraint::TokenOwner),
            )
            &&& open && payee.owner == claim.owner && payee.mint != mint ==> fault == Some(
                Failure::Constraint(Constraint::TokenMint),
            )
            &&& paid && !placed ==> fault == Some(Failure::Constraint(Constraint::Seeds))
            &&& placed && !owned ==> fault == Some(Failure::Constraint(Constraint::HasOne))
            &&& owned && !pooled ==> fault == Some(Failure::Constraint(Constraint::Seeds))
            &&& pooled && vault.owner != claim.pool.key ==> fault == Some(
                Failure::Constraint(Constraint::TokenOwner),
            )
            &&& pooled && vault.owner == claim.pool.key && vault.mint != mint ==> fault == Some(
                Failure::Constraint(Constraint::TokenMint),
            )
            &&& fault is None <==> pooled && vault.owner == claim.pool.key && vault.mint == mint
        }),
{
}

/// A pool's account has one fault only: it lies elsewhere.
pub proof fn law_the_fault_of_opening_a_pool(accounts: InitializePool, pool_address: Seq<u8>)
    ensures
        accounts.violation(pool_address) is None <==> accounts.pool.key.bytes@ == pool_address,
        accounts.violation(pool_address) is Some ==> accounts.violation(pool_address) == Some(
            Failure::Constraint(Constraint::Seeds),
        ),
        program_address(pool_seeds(), PROGRAM_ID@) is None <==> accounts.validation() is None,
        accounts.validation() is Some && accounts.pool.key.bytes@ != (program_address(
            pool_seeds(),
            PROGRAM_ID@,
        )->0).0 ==> accounts.validation() == Some(
            Err::<u8, Failure>(Failure::Constraint(Constraint::Seeds)),
        ),
{
}

/// A fault that can be told without an address is told without one, and a fault of the position
/// without the pool's address. Only where an address is needed that cannot be derived is nothing
/// told; otherwise the first fault is, or the bump seed of the pool.
pub proof fn law_faults_are_told_as_early_as_can_be(
    stake: Stake,
    unstake: Unstake,
    claim: ClaimRewards,
)
    ensures
        ({
            let found = program_address(
                staker_seeds(stake.owner, stake.pool.data.next_position_id),
                PROGRAM_ID@,
            );
            let pool = program_address(pool_seeds(), PROGRAM_ID@);
            let payer = stake.staker_token_account.data;
            let placed = stake.staker.key.bytes@ == (found->0).0 && payer.owner == stake.owner
                && payer.mint == stake.zara_mint;
            &&& stake.validation() is None <==> found is None || placed && pool is None
            &&& found is Some && !placed ==> stake.validation() == Some(
                Err::<u8, Failure>(stake.violation((found->0).0, Seq::empty())->0),
            )
            &&& found is Some && pool is Some ==> stake.validation() == Some(
                match stake.violation((found->0).0, (pool->0).0) {
                    Some(failure) => Err::<u8, Failure>(failure),
                    None => Ok::<u8, Failure>((pool->0).1),
                },
            )
        }),
        ({
            let position = unstake.staker.data;
            let found = program_address(
                staker_seeds(unstake.owner, position.position_id),
                PROGRAM_ID@,
            );
            let pool = program_address(pool_seeds(), PROGRAM_ID@);
            let payee = unstake.staker_token_account.data;
            let paid = unstake.staker_state is Open && payee.owner == unstake.owner && payee.mint
                == unstake.zara_mint;
            let placed = unstake.staker.key.bytes@ == (found->0).0 && position.owner == unstake.owner
                && position.pool == unstake.pool.key && unstake.staker.key != unstake.owner;
            &&& unstake.validation() is None <==> paid && (found is None || placed && pool is None)
            &&& !paid ==> unstake.validation() == Some(
                Err::<u8, Failure>(unstake.violation(Seq::empty(), Seq::empty())->0),
            )
            &&& paid && found is Some && !placed ==> unstake.validation() == Some(
                Err::<u8, Failure>(unstake.violation((found->0).0, Seq::empty())->0),
            )
            &&& found is Some && pool is Some ==> unstake.validation() == Some(
                match unstake.violation((found->0).0, (pool->0).0) {
                    Some(failure) => Err::<u8, Failure>(failure),
                    None => Ok::<u8, Failure>((pool->0).1),
                },
            )
        }),
        ({
            let position = claim.staker.data;
            let found = program_address(
                staker_seeds(claim.owner, position.position_id),
                PROGRAM_ID@,
            );
            let pool = program_address(pool_seeds(), PROGRAM_ID@);
            let payee = claim.staker_token_account.data;
            let paid = claim.staker_state is Open && payee.owner == claim.owner && payee.mint
                == claim.zara_mint;
            let placed = claim.staker.key.bytes@ == (found->0).0 && position.owner == claim.owner
                && position.pool == claim.pool.key;
            &&& claim.validation() is None <==> paid && (found is None || placed && pool is None)
            &&& !paid ==> claim.validation() == Some(
                Err::<u8, Failure>(claim.violation(Seq::empty(), Seq::empty())->0),
            )
            &&& paid && found is Some && !placed ==> claim.validation() == Some(
                Err::<u8, Failure>(claim.violation((found->0).0, Seq::empty())->0),
            )
            &&& found is Some && pool is Some ==> claim.validation() == Some(
                match claim.violation((found->0).0, (pool->0).0) {
                    Some(failure) => Err::<u8, Failure>(failure),
                    None => Ok::<u8, Failure>((pool->0).1),
                },
            )
        }),
{
}

/// An instruction is decided on only where its accounts are admitted, and then exactly as without
/// the check, with the pool's bump seed beside it; where they are not, their fault is the answer.
/// Where rewards cannot be computed on admitted accounts there is none.
pub proof fn law_only_admitted_accounts_are_decided_on(
    stake: Stake,
    amount: u64,
    unstake: Unstake,
    claim: ClaimRewards,
    opening: InitializePool,
    clock: Result<i64, u64>,
)
    ensures
        match opening.validation() {
            None => opening.admitted_decision(amount, clock) is None,
            Some(Err(failure)) => opening.admitted_decision(amount, clock) == Some(
                Err::<PoolInitializedEvent, Failure>(failure),
            ),
            Some(Ok(_)) => opening.admitted_decision(amount, clock) == Some(
                opening.decision(amount, clock),
            ),
        },
        match stake.validation() {
            None => stake.admitted_decision(amount, clock) is None,
            Some(Err(failure)) => stake.admitted_decision(amount, clock) == Some(
                Err::<(u8, PendingStake), Failure>(failure),
            ),
            Some(Ok(bump)) => match stake.decision(amount, clock) {
                Err(failure) => stake.admitted_decision(amount, clock) == Some(
                    Err::<(u8, PendingStake), Failure>(failure),
                ),
                Ok(pending) => stake.admitted_decision(amount, clock) == Some(
                    Ok::<(u8, PendingStake), Failure>((bump, pending)),
                ),
            },
        },
        match unstake.validation() {
            None => unstake.admitted_decision(clock) is None,
            Some(Err(failure)) => unstake.admitted_decision(clock) == Some(
                Err::<(u8, UnstakeStep), Failure>(failure),
            ),
            Some(Ok(bump)) => if !unstake.computable(clock) {
                unstake.admitted_decision(clock) is None
            } else {
                match unstake.decision(clock) {
                    Err(failure) => unstake.admitted_decision(clock) == Some(
                        Err::<(u8, UnstakeStep), Failure>(failure),
                    ),
                    Ok(step) => unstake.admitted_decision(clock) == Some(
                        Ok::<(u8, UnstakeStep), Failure>((bump, step)),
                    ),
                }
            },
        },
        match unstake.validation() {
            None => unstake.admitted_emergency_decision() is None,
            Some(Err(failure)) => unstake.admitted_emergency_decision() == Some(
                Err::<(u8, PendingEmergencyUnstake), Failure>(failure),
            ),
            Some(Ok(bump)) => match unstake.emergency_decision() {
                Err(failure) => unstake.admitted_emergency_decision() == Some(
                    Err::<(u8, PendingEmergencyUnstake), Failure>(failure),
                ),
                Ok(pending) => unstake.admitted_emergency_decision() == Some(
                    Ok::<(u8, PendingEmergencyUnstake), Failure>((bump, pending)),
                ),
            },
        },
        match claim.validation() {
            None => claim.admitted_decision(clock) is None,
            Some(Err(failure)) => claim.admitted_decision(clock) == Some(
                Err::<(u8, Option<PendingClaim>), Failure>(failure),
            ),
            Some(Ok(bump)) => if !claim.computable(clock) {
                claim.admitted_decision(clock) is None
            } else {
                match claim.decision(clock) {
                    Err(failure) => claim.admitted_decision(clock) == Some(
                        Err::<(u8, Option<PendingClaim>), Failure>(failure),
                    ),
                    Ok(pending) => claim.admitted_decision(clock) == Some(
                        Ok::<(u8, Option<PendingClaim>), Failure>((bump, pending)),
                    ),
                }
            },
        },
{
}

} // verus!
