//! The accounts that each instruction is given, and the relations that must hold between them.
//!
//! Whether an account signed, may be written to and is of its type is settled when it is decoded;
//! here the accounts are at hand as values. Of a position, which is closed in the end, it is also
//! told whether there is anything to decode.
use crate::address::{
    pool_address, pool_seeds, program_address, staker_address, staker_seeds, PROGRAM_ID,
};
use crate::error::{Constraint, Failure, StakingError};
use crate::pubkey::{lemma_key_is_its_bytes, Pubkey};
use crate::state::{StakerInfo, StakingPool};
use vstd::prelude::*;

verus! {

/// An account: its address and what is stored in it.
#[derive(Debug, PartialEq, Eq)]
pub struct Account<T> {
    pub key: Pubkey,
    pub data: T,
}

impl<T: Copy> Clone for Account<T> {
    fn clone(&self) -> (copy: Self)
        ensures
            copy == *self,
    {
        *self
    }
}

impl<T: Copy> Copy for Account<T> {

}

/// What lies at the address of a position.
#[derive(Clone, Copy, Debug, PartialEq, Eq, Structural)]
pub enum AccountState {
    /// An account of the program.
    Open,
    /// Nothing: no account was opened there, or it was closed.
    Vacant,
    /// An account of another program, such as a closed one that was funded again.
    Foreign,
}

/// What a token account stores.
#[derive(Clone, Copy, Debug, PartialEq, Eq)]
pub struct TokenAccount {
    pub mint: Pubkey,
    pub owner: Pubkey,
    pub amount: u64,
}

/// The accounts of `initialize_pool`.
#[derive(Clone, Copy, Debug, PartialEq, Eq)]
pub struct InitializePool {
    pub authority: Pubkey,
    pub pool: Account<StakingPool>,
    pub zara_mint: Pubkey,
}

/// The accounts of `stake`.
#[derive(Clone, Copy, Debug, PartialEq, Eq)]
pub struct Stake {
    pub owner: Pubkey,
    pub staker_token_account: Account<TokenAccount>,
    /// The account that is created for the new position.
    pub staker: Account<StakerInfo>,
    pub pool: Account<StakingPool>,
    pub stake_vault: Account<TokenAccount>,
    pub reward_vault: Account<TokenAccount>,
    pub authority: Pubkey,
    pub zara_mint: Pubkey,
}

/// The accounts of `unstake` and of `emergency_unstake`.
#[derive(Clone, Copy, Debug, PartialEq, Eq)]
pub struct Unstake {
    pub owner: Pubkey,
    pub staker_token_account: Account<TokenAccount>,
    pub staker: Account<StakerInfo>,
    pub staker_state: AccountState,
    pub pool: Account<StakingPool>,
    pub stake_vault: Account<TokenAccount>,
    pub reward_vault: Account<TokenAccount>,
    pub zara_mint: Pubkey,
}

/// The accounts of `claim_rewards`.
#[derive(Clone, Copy, Debug, PartialEq, Eq)]
pub struct ClaimRewards {
    pub owner: Pubkey,
    pub staker_token_account: Account<TokenAccount>,
    pub staker: Account<StakerInfo>,
    pub staker_state: AccountState,
    pub pool: Account<StakingPool>,
    pub reward_vault: Account<TokenAccount>,
    pub zara_mint: Pubkey,
}

/// The accounts of `update_pool`.
#[derive(Clone, Copy, Debug, PartialEq, Eq)]
pub struct UpdatePool {
    pub authority: Pubkey,
    pub pool: Account<StakingPool>,
}

/// What is wrong with a token account, if anything: it belongs to another owner, or holds tokens of
/// another mint.
pub open spec fn token_account_violation(
    account: TokenAccount,
    owner: Pubkey,
    mint: Pubkey,
) -> Option<Failure> {
    if account.owner != owner {
        Some(Failure::Constraint(Constraint::TokenOwner))
    } else if account.mint != mint {
        Some(Failure::Constraint(Constraint::TokenMint))
    } else {
        None
    }
}

/// What is wrong with an account that should be open, if anything.
pub open spec fn state_violation(state: AccountState) -> Option<Failure> {
    match state {
        AccountState::Open => None,
        AccountState::Vacant => Some(Failure::Constraint(Constraint::NotInitialized)),
        AccountState::Foreign => Some(Failure::Constraint(Constraint::WrongProgram)),
    }
}

/// The first of the two that there is.
pub open spec fn first_violation(first: Option<Failure>, next: Option<Failure>) -> Option<Failure> {
    match first {
        Some(failure) => Some(failure),
        None => next,
    }
}

/// The outcome of a check that finds this.
pub open spec fn outcome_of(violation: Option<Failure>) -> Result<(), Failure> {
    match violation {
        Some(failure) => Err(failure),
        None => Ok(()),
    }
}

/// The outcome of admitting an instruction whose check finds `violation`: the pool's bump seed, or
/// the failure.
pub open spec fn admission(violation: Option<Failure>, pool_bump: u8) -> Result<u8, Failure> {
    match violation {
        Some(failure) => Err(failure),
        None => Ok(pool_bump),
    }
}

/// What admitting an instruction gives: the pool's bump seed, or the first violation. What is wrong
/// at first sight comes before the position of `owner` numbered `position_id`, and that before the
/// pool. Each of the two addresses is derived only when what comes before it is in order; `None`
/// where it cannot be derived.
pub open spec fn validation_in_turn(
    first_part: Option<Failure>,
    owner: Pubkey,
    position_id: u64,
    position_part: spec_fn(Seq<u8>) -> Option<Failure>,
    pool_part: spec_fn(Seq<u8>) -> Option<Failure>,
) -> Option<Result<u8, Failure>> {
    match first_part {
        Some(failure) => Some(Err(failure)),
        None => match program_address(staker_seeds(owner, position_id), PROGRAM_ID@) {
            None => None,
            Some((staker, _)) => match position_part(staker) {
                Some(failure) => Some(Err(failure)),
                None => match program_address(pool_seeds(), PROGRAM_ID@) {
                    None => None,
                    Some((pool, bump)) => Some(admission(pool_part(pool), bump)),
                },
            },
        },
    }
}

/// The outcome of an instruction that decides only on accounts that are admitted: the pool's bump
/// seed with the decision.
pub open spec fn admitted<T>(
    validation: Option<Result<u8, Failure>>,
    decision: Result<T, Failure>,
) -> Option<Result<(u8, T), Failure>> {
    match validation {
        None => None,
        Some(Err(failure)) => Some(Err(failure)),
        Some(Ok(bump)) => match decision {
            Err(failure) => Some(Err(failure)),
            Ok(decided) => Some(Ok((bump, decided))),
        },
    }
}

/// Checks that an account is open.
fn check_state(state: AccountState) -> (outcome: Result<(), Failure>)
    ensures
        outcome == outcome_of(state_violation(state)),
{
    match state {
        AccountState::Open => Ok(()),
        AccountState::Vacant => Err(Failure::Constraint(Constraint::NotInitialized)),
        AccountState::Foreign => Err(Failure::Constraint(Constraint::WrongProgram)),
    }
}

/// Checks that the token account belongs to `owner` and holds tokens of `mint`.
fn check_token_account(account: &TokenAccount, owner: &Pubkey, mint: &Pubkey) -> (outcome: Result<
    (),
    Failure,
>)
    ensures
        outcome == outcome_of(token_account_violation(*account, *owner, *mint)),
{
    if account.owner != *owner {
        Err(Failure::Constraint(Constraint::TokenOwner))
    } else if account.mint != *mint {
        Err(Failure::Constraint(Constraint::TokenMint))
    } else {
        Ok(())
    }
}

impl InitializePool {
    /// What is wrong with the accounts, if anything, where `pool_address` is the pool's address.
    pub open spec fn violation(self, pool_address: Seq<u8>) -> Option<Failure> {
        if self.pool.key.bytes@ != pool_address {
            Some(Failure::Constraint(Constraint::Seeds))
        } else {
            None
        }
    }

    /// Checks the accounts, given the address derived for the pool.
    pub fn check_accounts(&self, pool_address: &Pubkey) -> (outcome: Result<(), Failure>)
        ensures
            outcome == outcome_of(self.violation(pool_address.bytes@)),
    {
        proof {
            lemma_key_is_its_bytes(self.pool.key, *pool_address);
        }
        if self.pool.key != *pool_address {
            return Err(Failure::Constraint(Constraint::Seeds));
        }
        Ok(())
    }

    /// What admitting the accounts gives: the pool's bump seed, or the violation; `None` where no
    /// address can be derived.
    pub open spec fn validation(self) -> Option<Result<u8, Failure>> {
        match program_address(pool_seeds(), PROGRAM_ID@) {
            Some((pool, bump)) => Some(admission(self.violation(pool), bump)),
            None => None,
        }
    }

    /// Checks the accounts against the address derived for the pool, and gives the pool's bump
    /// seed. `None` where no address can be derived.
    pub fn validate(&self) -> (outcome: Option<Result<u8, Failure>>)
        ensures
            outcome == self.validation(),
    {
        match pool_address() {
            Some((pool, bump)) => match self.check_accounts(&pool) {
                Ok(()) => Some(Ok(bump)),
                Err(failure) => Some(Err(failure)),
            },
            None => None,
        }
    }
}

/// What is wrong with the two vaults, if anything: one does not belong to the pool, or holds tokens
/// of another mint.
pub open spec fn vaults_violation(
    stake_vault: TokenAccount,
    reward_vault: TokenAccount,
    pool: Pubkey,
    mint: Pubkey,
) -> Option<Failure> {
    first_violation(
        token_account_violation(stake_vault, pool, mint),
        token_account_violation(reward_vault, pool, mint),
    )
}

impl Stake {
    /// What is wrong with the accounts, if anything, where `staker_address` is the address of the
    /// owner's position with the pool's next number, and `pool_address` the pool's.
    pub open spec fn violation(self, staker_address: Seq<u8>, pool_address: Seq<u8>) -> Option<
        Failure,
    > {
        first_violation(
            self.position_part(staker_address),
            self.pool_part(pool_address),
        )
    }

    /// What is wrong, if anything, with the account of the new position, where it belongs at
    /// `staker_address`, and with the owner's token account.
    pub open spec fn position_part(self, staker_address: Seq<u8>) -> Option<Failure> {
        if self.staker.key.bytes@ != staker_address {
            Some(Failure::Constraint(Constraint::Seeds))
        } else {
            token_account_violation(self.staker_token_account.data, self.owner, self.zara_mint)
        }
    }

    /// What is wrong, if anything, with the pool, where it belongs at `pool_address`, and with the
    /// vaults.
    pub open spec fn pool_part(self, pool_address: Seq<u8>) -> Option<Failure> {
        if self.pool.key.bytes@ != pool_address {
            Some(Failure::Constraint(Constraint::Seeds))
        } else if self.pool.data.zara_mint != self.zara_mint {
            Some(Failure::Staking(StakingError::InvalidMint))
        } else {
            vaults_violation(
                self.stake_vault.data,
                self.reward_vault.data,
                self.pool.key,
                self.zara_mint,
            )
        }
    }

    fn check_position_part(&self, staker_address: &Pubkey) -> (outcome: Result<(), Failure>)
        ensures
            outcome == outcome_of(self.position_part(staker_address.bytes@)),
    {
        proof {
            lemma_key_is_its_bytes(self.staker.key, *staker_address);
        }
        if self.staker.key != *staker_address {
            return Err(Failure::Constraint(Constraint::Seeds));
        }
        check_token_account(&self.staker_token_account.data, &self.owner, &self.zara_mint)
    }

    fn check_pool_part(&self, pool_address: &Pubkey) -> (outcome: Result<(), Failure>)
        ensures
            outcome == outcome_of(self.pool_part(pool_address.bytes@)),
    {
        proof {
            lemma_key_is_its_bytes(self.pool.key, *pool_address);
        }
        if self.pool.key != *pool_address {
            return Err(Failure::Constraint(Constraint::Seeds));
        }
        if self.pool.data.zara_mint != self.zara_mint {
            return Err(Failure::Staking(StakingError::InvalidMint));
        }
        check_token_account(&self.stake_vault.data, &self.pool.key, &self.zara_mint)?;
        check_token_account(&self.reward_vault.data, &self.pool.key, &self.zara_mint)
    }

    /// Checks the accounts, given the addresses derived for the new position and for the pool.
    pub fn check_accounts(&self, staker_address: &Pubkey, pool_address: &Pubkey) -> (outcome:
        Result<(), Failure>)
        ensures
            outcome == outcome_of(self.violation(staker_address.bytes@, pool_address.bytes@)),
    {
        self.check_position_part(staker_address)?;
        self.check_pool_part(pool_address)
    }

    /// What admitting the accounts gives: the pool's bump seed, or the first violation.
    pub open spec fn validation(self) -> Option<Result<u8, Failure>> {
        validation_in_turn(
            None,
            self.owner,
            self.pool.data.next_position_id,
            |staker_address: Seq<u8>| self.position_part(staker_address),
            |pool_address: Seq<u8>| self.pool_part(pool_address),
        )
    }

    /// Checks the accounts against the addresses derived for the new position and for the pool, and
    /// gives the pool's bump seed. `None` where an address is needed that cannot be derived.
    pub fn validate(&self) -> (outcome: Option<Result<u8, Failure>>)
        ensures
            outcome == self.validation(),
    {
        let staker: Pubkey = match staker_address(&self.owner, self.pool.data.next_position_id) {
            Some((staker, _)) => staker,
            None => {
                return None;
            },
        };
        if let Err(failure) = self.check_position_part(&staker) {
            return Some(Err(failure));
        }
        let (pool, bump): (Pubkey, u8) = match pool_address() {
            Some(found) => found,
            None => {
                return None;
            },
        };
        match self.check_pool_part(&pool) {
            Ok(()) => Some(Ok(bump)),
            Err(failure) => Some(Err(failure)),
        }
    }
}

/// What is wrong with a position account, if anything: it lies at another address than
/// `staker_address`, or belongs to another owner or another pool.
pub open spec fn position_violation(
    staker: Account<StakerInfo>,
    staker_address: Seq<u8>,
    owner: Pubkey,
    pool: Pubkey,
) -> Option<Failure> {
    if staker.key.bytes@ != staker_address {
        Some(Failure::Constraint(Constraint::Seeds))
    } else if staker.data.owner != owner || staker.data.pool != pool {
        Some(Failure::Constraint(Constraint::HasOne))
    } else {
        None
    }
}

/// Checks that the position lies at its address and belongs to `owner` and `pool`.
fn check_position(
    staker: &Account<StakerInfo>,
    staker_address: &Pubkey,
    owner: &Pubkey,
    pool: &Pubkey,
) -> (outcome: Result<(), Failure>)
    ensures
        outcome == outcome_of(position_violation(*staker, staker_address.bytes@, *owner, *pool)),
{
    proof {
        lemma_key_is_its_bytes(staker.key, *staker_address);
    }
    if staker.key != *staker_address {
        return Err(Failure::Constraint(Constraint::Seeds));
    }
    if staker.data.owner != *owner {
        return Err(Failure::Constraint(Constraint::HasOne));
    }
    if staker.data.pool != *pool {
        return Err(Failure::Constraint(Constraint::HasOne));
    }
    Ok(())
}

impl Unstake {
    /// What is wrong with the accounts, if anything, where `staker_address` is the address of the
    /// owner's position with the number that the position has, and `pool_address` the pool's.
    pub open spec fn violation(self, staker_address: Seq<u8>, pool_address: Seq<u8>) -> Option<
        Failure,
    > {
        first_violation(
            self.first_part(),
            first_violation(self.position_part(staker_address), self.pool_part(pool_address)),
        )
    }

    /// What is wrong, if anything, before any address is looked at: the position is not open, or
    /// the token account is not the owner's.
    pub open spec fn first_part(self) -> Option<Failure> {
        first_violation(
            state_violation(self.staker_state),
            token_account_violation(self.staker_token_account.data, self.owner, self.zara_mint),
        )
    }

    /// What is wrong, if anything, with the account of the position, where it belongs at
    /// `staker_address`.
    pub open spec fn position_part(self, staker_address: Seq<u8>) -> Option<Failure> {
        first_violation(
            position_violation(self.staker, staker_address, self.owner, self.pool.key),
            if self.staker.key == self.owner {
                Some(Failure::Constraint(Constraint::Close))
            } else {
                None
            },
        )
    }

    /// What is wrong, if anything, with the pool, where it belongs at `pool_address`, and with the
    /// vaults.
    pub open spec fn pool_part(self, pool_address: Seq<u8>) -> Option<Failure> {
        if self.pool.key.bytes@ != pool_address {
            Some(Failure::Constraint(Constraint::Seeds))
        } else {
            vaults_violation(
                self.stake_vault.data,
                self.reward_vault.data,
                self.pool.key,
                self.zara_mint,
            )
        }
    }

    fn check_first_part(&self) -> (outcome: Result<(), Failure>)
        ensures
            outcome == outcome_of(self.first_part()),
    {
        check_state(self.staker_state)?;
        check_token_account(&self.staker_token_account.data, &self.owner, &self.zara_mint)
    }

    fn check_position_part(&self, staker_address: &Pubkey) -> (outcome: Result<(), Failure>)
        ensures
            outcome == outcome_of(self.position_part(staker_address.bytes@)),
    {
        check_position(&self.staker, staker_address, &self.owner, &self.pool.key)?;
        if self.staker.key == self.owner {
            return Err(Failure::Constraint(Constraint::Close));
        }
        Ok(())
    }

    fn check_pool_part(&self, pool_address: &Pubkey) -> (outcome: Result<(), Failure>)
        ensures
            outcome == outcome_of(self.pool_part(pool_address.bytes@)),
    {
        proof {
            lemma_key_is_its_bytes(self.pool.key, *pool_address);
        }
        if self.pool.key != *pool_address {
            return Err(Failure::Constraint(Constraint::Seeds));
        }
        check_token_account(&self.stake_vault.data, &self.pool.key, &self.zara_mint)?;
        check_token_account(&self.reward_vault.data, &self.pool.key, &self.zara_mint)
    }

    /// Checks the accounts, given the addresses derived for the position and for the pool.
    pub fn check_accounts(&self, staker_address: &Pubkey, pool_address: &Pubkey) -> (outcome:
        Result<(), Failure>)
        ensures
            outcome == outcome_of(self.violation(staker_address.bytes@, pool_address.bytes@)),
    {
        self.check_first_part()?;
        self.check_position_part(staker_address)?;
        self.check_pool_part(pool_address)
    }

    /// What admitting the accounts gives: the pool's bump seed, or the first violation.
    pub open spec fn validation(self) -> Option<Result<u8, Failure>> {
        validation_in_turn(
            self.first_part(),
            self.owner,
            self.staker.data.position_id,
            |staker_address: Seq<u8>| self.position_part(staker_address),
            |pool_address: Seq<u8>| self.pool_part(pool_address),
        )
    }

    /// Checks the accounts against the addresses derived for the position and for the pool, and
    /// gives the pool's bump seed. `None` where an address is needed that cannot be derived.
    pub fn validate(&self) -> (outcome: Option<Result<u8, Failure>>)
        ensures
            outcome == self.validation(),
    {
        if let Err(failure) = self.check_first_part() {
            return Some(Err(failure));
        }
        let staker: Pubkey = match staker_address(&self.owner, self.staker.data.position_id) {
            Some((staker, _)) => staker,
            None => {
                return None;
            },
        };
        if let Err(failure) = self.check_position_part(&staker) {
            return Some(Err(failure));
        }
        let (pool, bump): (Pubkey, u8) = match pool_address() {
            Some(found) => found,
            None => {
                return None;
            },
        };
        match self.check_pool_part(&pool) {
            Ok(()) => Some(Ok(bump)),
            Err(failure) => Some(Err(failure)),
        }
    }
}

impl ClaimRewards {
    /// What is wrong with the accounts, if anything, where `staker_address` is the address of the
    /// owner's position with the number that the position has, and `pool_address` the pool's.
    pub open spec fn violation(self, staker_address: Seq<u8>, pool_address: Seq<u8>) -> Option<
        Failure,
    > {
        first_violation(
            self.first_part(),
            first_violation(self.position_part(staker_address), self.pool_part(pool_address)),
        )
    }

    /// What is wrong, if anything, before any address is looked at: the position is not open, or
    /// the token account is not the owner's.
    pub open spec fn first_part(self) -> Option<Failure> {
        first_violation(
            state_violation(self.staker_state),
            token_account_violation(self.staker_token_account.data, self.owner, self.zara_mint),
        )
    }

    /// What is wrong, if anything, with the account of the position, where it belongs at
    /// `staker_address`.
    pub open spec fn position_part(self, staker_address: Seq<u8>) -> Option<Failure> {
        position_violation(self.staker, staker_address, self.owner, self.pool.key)
    }

    /// What is wrong, if anything, with the pool, where it belongs at `pool_address`, and with the
    /// reward vault.
    pub open spec fn pool_part(self, pool_address: Seq<u8>) -> Option<Failure> {
        if self.pool.key.bytes@ != pool_address {
            Some(Failure::Constraint(Constraint::Seeds))
        } else {
            token_account_violation(self.reward_vault.data, self.pool.key, self.zara_mint)
        }
    }

    fn check_first_part(&self) -> (outcome: Result<(), Failure>)
        ensures
            outcome == outcome_of(self.first_part()),
    {
        check_state(self.staker_state)?;
        check_token_account(&self.staker_token_account.data, &self.owner, &self.zara_mint)
    }

    fn check_position_part(&self, staker_address: &Pubkey) -> (outcome: Result<(), Failure>)
        ensures
            outcome == outcome_of(self.position_part(staker_address.bytes@)),
    {
        check_position(&self.staker, staker_address, &self.owner, &self.pool.key)
    }

    fn check_pool_part(&self, pool_address: &Pubkey) -> (outcome: Result<(), Failure>)
        ensures
            outcome == outcome_of(self.pool_part(pool_address.bytes@)),
    {
        proof {
            lemma_key_is_its_bytes(self.pool.key, *pool_address);
        }
        if self.pool.key != *pool_address {
            return Err(Failure::Constraint(Constraint::Seeds));
        }
        check_token_account(&self.reward_vault.data, &self.pool.key, &self.zara_mint)
    }

    /// Checks the accounts, given the addresses derived for the position and for the pool.
    pub fn check_accounts(&self, staker_address: &Pubkey, pool_address: &Pubkey) -> (outcome:
        Result<(), Failure>)
        ensures
            outcome == outcome_of(self.violation(staker_address.bytes@, pool_address.bytes@)),
    {
        self.check_first_part()?;
        self.check_position_part(staker_address)?;
        self.check_pool_part(pool_address)
    }

    /// What admitting the accounts gives: the pool's bump seed, or the first violation.
    pub open spec fn validation(self) -> Option<Result<u8, Failure>> {
        validation_in_turn(
            self.first_part(),
            self.owner,
            self.staker.data.position_id,
            |staker_address: Seq<u8>| self.position_part(staker_address),
            |pool_address: Seq<u8>| self.pool_part(pool_address),
        )
    }

    /// Checks the accounts against the addresses derived for the position and for the pool, and
    /// gives the pool's bump seed. `None` where an address is needed that cannot be derived.
    pub fn validate(&self) -> (outcome: Option<Result<u8, Failure>>)
        ensures
            outcome == self.validation(),
    {
        if let Err(failure) = self.check_first_part() {
            return Some(Err(failure));
        }
        let staker: Pubkey = match staker_address(&self.owner, self.staker.data.position_id) {
            Some((staker, _)) => staker,
            None => {
                return None;
            },
        };
        if let Err(failure) = self.check_position_part(&staker) {
            return Some(Err(failure));
        }
        let (pool, bump): (Pubkey, u8) = match pool_address() {
            Some(found) => found,
            None => {
                return None;
            },
        };
        match self.check_pool_part(&pool) {
            Ok(()) => Some(Ok(bump)),
            Err(failure) => Some(Err(failure)),
        }
    }
}

} // verus!
