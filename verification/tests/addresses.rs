//! Derived addresses, and the relations between accounts.
use anchor_lang::prelude::Pubkey as Address;
use zara_staking::address::{
    pool_address, pool_signer_seeds, program_id, staker_address, POOL_SEED, STAKER_SEED,
};
use zara_staking::{
    admit_claim_rewards, admit_emergency_unstake, admit_initialize_pool, admit_stake,
    admit_unstake, Account, AccountState, ClaimRewards, Closing, Constraint, Failure,
    InitializePool, PoolInitializedEvent, Pubkey, Stake, StakerInfo, StakingError, StakingPool,
    StakingTier, TokenAccount, Transfer, TransferAuthority, Unstake, UnstakeEvent, UnstakeStep,
};

const ELITE: u64 = 250_000_000_000;
const DAY: i64 = 86_400;

fn key(n: u8) -> Pubkey {
    Pubkey { bytes: [n; 32] }
}

fn program() -> Address {
    Address::new_from_array(program_id().bytes)
}

fn token(n: u8, owner: Pubkey, mint: Pubkey) -> Account<TokenAccount> {
    Account { key: key(n), data: TokenAccount { mint, owner, amount: 0 } }
}

fn pool() -> Account<StakingPool> {
    let data = StakingPool { zara_mint: key(2), next_position_id: 8, ..StakingPool::default() };
    Account { key: pool_address().unwrap().0, data }
}

fn position(position_id: u64) -> Account<StakerInfo> {
    let data = StakerInfo {
        owner: key(1),
        pool: pool().key,
        position_id,
        ..StakerInfo::default()
    };
    Account { key: staker_address(&key(1), position_id).unwrap().0, data }
}

fn stake() -> Stake {
    Stake {
        owner: key(1),
        staker_token_account: token(10, key(1), key(2)),
        staker: Account { key: staker_address(&key(1), 8).unwrap().0, data: StakerInfo::default() },
        pool: pool(),
        stake_vault: token(11, pool().key, key(2)),
        reward_vault: token(12, pool().key, key(2)),
        authority: key(3),
        zara_mint: key(2),
    }
}

fn unstake() -> Unstake {
    Unstake {
        owner: key(1),
        staker_token_account: token(10, key(1), key(2)),
        staker: position(5),
        staker_state: AccountState::Open,
        pool: pool(),
        stake_vault: token(11, pool().key, key(2)),
        reward_vault: token(12, pool().key, key(2)),
        zara_mint: key(2),
    }
}

fn claim() -> ClaimRewards {
    ClaimRewards {
        owner: key(1),
        staker_token_account: token(10, key(1), key(2)),
        staker: position(5),
        staker_state: AccountState::Open,
        pool: pool(),
        reward_vault: token(12, pool().key, key(2)),
        zara_mint: key(2),
    }
}

fn admitted() -> Option<Result<u8, Failure>> {
    Some(Ok(pool_address().unwrap().1))
}

fn refused(constraint: Constraint) -> Option<Result<u8, Failure>> {
    Some(Err(Failure::Constraint(constraint)))
}

#[test]
fn seeds_are_their_names() {
    assert_eq!(&POOL_SEED, b"pool_v3");
    assert_eq!(&STAKER_SEED, b"staker");
    assert_eq!(program().to_string(), "8mdqFh7gtdZb2jpUtzoQRFwmjbGE3KAfzq3TqEJxknMt");
}

#[test]
fn the_pool_lies_at_its_derived_address() {
    let (expected, bump) = Address::find_program_address(&[b"pool_v3"], &program());
    let (found, found_bump) = pool_address().unwrap();
    assert_eq!(found.bytes, expected.to_bytes());
    assert_eq!(found_bump, bump);
    assert_ne!(found, program_id());
}

#[test]
fn a_position_lies_at_its_derived_address() {
    let owner = key(9);
    let (expected, bump) = Address::find_program_address(
        &[b"staker", &owner.bytes, &258u64.to_le_bytes()],
        &program(),
    );
    let (found, found_bump) = staker_address(&owner, 258).unwrap();
    assert_eq!(found.bytes, expected.to_bytes());
    assert_eq!(found_bump, bump);
    assert_ne!(found, owner);
}

#[test]
fn positions_have_addresses_of_their_own() {
    let first = staker_address(&key(1), 1).unwrap().0;
    assert_ne!(first, staker_address(&key(1), 2).unwrap().0);
    assert_ne!(first, staker_address(&key(2), 1).unwrap().0);
    assert_ne!(first, pool_address().unwrap().0);
}

#[test]
fn the_pool_signs_with_the_seeds_of_its_address() {
    let (found, bump) = pool_address().unwrap();
    let (seed, last) = pool_signer_seeds(bump);
    let signer = Address::create_program_address(&[&seed, &last], &program()).unwrap();
    assert_eq!(signer.to_bytes(), found.bytes);
}

#[test]
fn opening_takes_the_pool_at_its_address() {
    let mut accounts = InitializePool { authority: key(3), pool: pool(), zara_mint: key(2) };
    assert_eq!(accounts.validate(), admitted());
    assert_eq!(accounts.check_accounts(&pool().key), Ok(()));
    accounts.pool.key = key(7);
    assert_eq!(accounts.validate(), refused(Constraint::Seeds));
}

#[test]
fn a_stake_takes_accounts_that_belong_together() {
    assert_eq!(stake().validate(), admitted());

    let mut accounts = stake();
    accounts.staker.key = staker_address(&key(1), 9).unwrap().0;
    assert_eq!(accounts.validate(), refused(Constraint::Seeds));

    let mut accounts = stake();
    accounts.staker_token_account = token(10, key(4), key(2));
    assert_eq!(accounts.validate(), refused(Constraint::TokenOwner));

    let mut accounts = stake();
    accounts.staker_token_account = token(10, key(1), key(4));
    assert_eq!(accounts.validate(), refused(Constraint::TokenMint));

    let mut accounts = stake();
    accounts.pool.key = key(7);
    assert_eq!(accounts.validate(), refused(Constraint::Seeds));

    let mut accounts = stake();
    accounts.pool.data.zara_mint = key(4);
    assert_eq!(accounts.validate(), Some(Err(Failure::Staking(StakingError::InvalidMint))));

    let mut accounts = stake();
    accounts.stake_vault = token(11, key(1), key(2));
    assert_eq!(accounts.validate(), refused(Constraint::TokenOwner));

    let mut accounts = stake();
    accounts.reward_vault = token(12, pool().key, key(4));
    assert_eq!(accounts.validate(), refused(Constraint::TokenMint));
}

#[test]
fn an_unstake_takes_accounts_that_belong_together() {
    assert_eq!(unstake().validate(), admitted());

    let mut accounts = unstake();
    accounts.staker.key = key(7);
    assert_eq!(accounts.validate(), refused(Constraint::Seeds));

    let mut accounts = unstake();
    accounts.staker.data.owner = key(4);
    assert_eq!(accounts.validate(), refused(Constraint::HasOne));

    let mut accounts = unstake();
    accounts.staker.data.pool = key(4);
    assert_eq!(accounts.validate(), refused(Constraint::HasOne));

    let mut accounts = unstake();
    accounts.staker_token_account = token(10, key(4), key(2));
    assert_eq!(accounts.validate(), refused(Constraint::TokenOwner));

    let mut accounts = unstake();
    accounts.stake_vault = token(11, pool().key, key(4));
    assert_eq!(accounts.validate(), refused(Constraint::TokenMint));

    let mut accounts = unstake();
    accounts.reward_vault = token(12, key(1), key(2));
    assert_eq!(accounts.validate(), refused(Constraint::TokenOwner));

    // Another owner cannot pass for the owner of the position.
    let mut accounts = unstake();
    accounts.owner = key(4);
    accounts.staker_token_account = token(10, key(4), key(2));
    assert_eq!(accounts.validate(), refused(Constraint::Seeds));
}

#[test]
fn a_position_is_not_closed_into_itself() {
    let mut accounts = unstake();
    accounts.staker.key = key(1);
    assert_eq!(
        accounts.check_accounts(&key(1), &pool().key),
        Err(Failure::Constraint(Constraint::Close))
    );
    let mut accounts = unstake();
    accounts.pool.key = key(7);
    accounts.staker.data.pool = key(7);
    assert_eq!(accounts.validate(), refused(Constraint::Seeds));
}

#[test]
fn a_claim_takes_accounts_that_belong_together() {
    assert_eq!(claim().validate(), admitted());

    let mut accounts = claim();
    accounts.staker.data.position_id = 6;
    assert_eq!(accounts.validate(), refused(Constraint::Seeds));

    let mut accounts = claim();
    accounts.staker.data.owner = key(4);
    assert_eq!(accounts.validate(), refused(Constraint::HasOne));

    let mut accounts = claim();
    accounts.pool.key = key(7);
    accounts.staker.data.pool = key(7);
    assert_eq!(accounts.validate(), refused(Constraint::Seeds));

    let mut accounts = claim();
    accounts.reward_vault = token(12, key(1), key(2));
    assert_eq!(accounts.validate(), refused(Constraint::TokenOwner));
}

#[test]
fn an_opened_position_is_its_owners() {
    let mut accounts = stake();
    accounts.pool.data.authority = key(3);
    let pending = accounts.process(5_000_000_000, Ok(0)).unwrap();
    pending.settle(&mut accounts, Ok(())).unwrap();
    let mut closing = unstake();
    closing.staker = accounts.staker;
    closing.pool = accounts.pool;
    assert_eq!(closing.validate(), admitted());
    let mut claiming = claim();
    claiming.staker = accounts.staker;
    claiming.pool = accounts.pool;
    assert_eq!(claiming.validate(), admitted());

    // One thing stands in the way of the unstake: the account is not closed into itself.
    closing.owner = closing.staker.key;
    closing.staker.data.owner = closing.owner;
    closing.staker_token_account.data.owner = closing.owner;
    assert_eq!(
        closing.check_accounts(&closing.staker.key, &pool().key),
        Err(Failure::Constraint(Constraint::Close))
    );
}

#[test]
fn a_position_that_is_not_open_is_refused_first() {
    let mut accounts = unstake();
    accounts.staker_token_account = token(10, key(4), key(2));
    accounts.staker_state = AccountState::Vacant;
    assert_eq!(accounts.validate(), refused(Constraint::NotInitialized));
    accounts.staker_state = AccountState::Foreign;
    assert_eq!(accounts.validate(), refused(Constraint::WrongProgram));

    let mut accounts = claim();
    accounts.staker.key = key(7);
    accounts.staker_state = AccountState::Vacant;
    assert_eq!(accounts.validate(), refused(Constraint::NotInitialized));
    accounts.staker_state = AccountState::Foreign;
    assert_eq!(
        accounts.check_accounts(&key(7), &pool().key),
        Err(Failure::Constraint(Constraint::WrongProgram))
    );
}

#[test]
fn admission_is_the_check_against_the_addresses() {
    let position = staker_address(&key(1), 5).unwrap().0;
    assert_eq!(unstake().check_accounts(&position, &pool().key), Ok(()));
    assert_eq!(claim().check_accounts(&position, &pool().key), Ok(()));
    let next = staker_address(&key(1), 8).unwrap().0;
    assert_eq!(stake().check_accounts(&next, &pool().key), Ok(()));

    let mut accounts = unstake();
    accounts.stake_vault = token(11, pool().key, key(4));
    let failure = Failure::Constraint(Constraint::TokenMint);
    assert_eq!(accounts.check_accounts(&position, &pool().key), Err(failure));
    assert_eq!(accounts.validate(), Some(Err(failure)));
}

/// A pool with the authority that the stakes name.
fn guarded() -> Account<StakingPool> {
    let mut pool = pool();
    pool.data.authority = key(3);
    pool
}

/// The accounts of an unstake of an Elite position that began at time 0.
fn staked() -> Unstake {
    let mut opening = stake();
    opening.pool = guarded();
    let (_, pending) = admit_stake(&opening, ELITE, Ok(0)).unwrap().unwrap();
    pending.settle(&mut opening, Ok(())).unwrap();
    let mut accounts = unstake();
    accounts.staker = opening.staker;
    accounts.pool = opening.pool;
    accounts.stake_vault.data.amount = ELITE;
    accounts.reward_vault.data.amount = ELITE;
    accounts
}

#[test]
fn a_pool_is_opened_only_at_its_address() {
    let mut accounts = InitializePool { authority: key(3), pool: pool(), zara_mint: key(2) };
    assert_eq!(
        admit_initialize_pool(&mut accounts, 7, Ok(40)),
        Some(Ok(PoolInitializedEvent { authority: key(3), reward_pool: 7, timestamp: 40 }))
    );
    assert_eq!(accounts.pool.data.next_position_id, 1);
    assert_eq!(accounts.pool.data.authority, key(3));

    let mut accounts = InitializePool { authority: key(3), pool: pool(), zara_mint: key(2) };
    assert_eq!(
        admit_initialize_pool(&mut accounts, u64::MAX, Ok(40)),
        Some(Err(Failure::Staking(StakingError::ExcessiveRewardPool)))
    );
    accounts.pool.key = key(7);
    assert_eq!(
        admit_initialize_pool(&mut accounts, 7, Ok(40)),
        Some(Err(Failure::Constraint(Constraint::Seeds)))
    );
    assert_eq!(accounts.pool.data, pool().data);
}

#[test]
fn a_stake_is_decided_on_only_where_it_is_admitted() {
    let bump = pool_address().unwrap().1;
    let mut accounts = stake();
    accounts.pool = guarded();
    let (with, pending) = admit_stake(&accounts, ELITE, Ok(9)).unwrap().unwrap();
    assert_eq!(with, bump);
    assert_eq!(pending.tier, StakingTier::Elite);
    assert_eq!(pending.now, 9);
    assert_eq!(
        pending.transfer,
        Transfer {
            from: key(10),
            to: key(11),
            authority: TransferAuthority::Owner(key(1)),
            amount: ELITE
        }
    );
    assert_eq!(
        admit_stake(&accounts, 1, Ok(9)),
        Some(Err(Failure::Staking(StakingError::InsufficientStakeAmount)))
    );
    accounts.stake_vault = token(11, key(1), key(2));
    assert_eq!(
        admit_stake(&accounts, 1, Ok(9)),
        Some(Err(Failure::Constraint(Constraint::TokenOwner)))
    );
}

#[test]
fn an_unstake_is_decided_on_only_where_it_is_admitted() {
    let bump = pool_address().unwrap().1;
    let accounts = staked();
    let now = 365 * DAY;
    let stake = Transfer {
        from: key(11),
        to: key(10),
        authority: TransferAuthority::Pool(pool().key),
        amount: ELITE,
    };
    assert_eq!(
        admit_unstake(&accounts, Ok(now)),
        Some(Ok((
            bump,
            UnstakeStep::ReturnStake { transfer: stake, rewards: ELITE / 100 * 8, now }
        )))
    );
    assert_eq!(
        admit_unstake(&accounts, Ok(1)),
        Some(Err(Failure::Staking(StakingError::MinStakeDurationNotMet)))
    );
    assert_eq!(admit_unstake(&accounts, Err(17)), Some(Err(Failure::Runtime(17))));

    let mut others = accounts;
    others.staker_token_account = token(10, key(4), key(2));
    assert_eq!(
        admit_unstake(&others, Ok(now)),
        Some(Err(Failure::Constraint(Constraint::TokenOwner)))
    );

    // A claim later than now leaves rewards that cannot be computed.
    let mut ahead = accounts;
    ahead.staker.data.last_claim_time = now + 1;
    assert!(!ahead.can_compute(Ok(now)));
    assert_eq!(admit_unstake(&ahead, Ok(now)), None);
    ahead.staker_state = AccountState::Vacant;
    assert_eq!(
        admit_unstake(&ahead, Ok(now)),
        Some(Err(Failure::Constraint(Constraint::NotInitialized)))
    );
}

#[test]
fn an_emergency_unstake_is_decided_on_only_where_it_is_admitted() {
    let bump = pool_address().unwrap().1;
    let mut accounts = staked();
    assert_eq!(
        admit_emergency_unstake(&accounts),
        Some(Err(Failure::Staking(StakingError::PoolNotPaused)))
    );
    accounts.pool.data.paused = true;
    let (with, pending) = admit_emergency_unstake(&accounts).unwrap().unwrap();
    assert_eq!(with, bump);
    assert_eq!(pending.transfer.amount, ELITE);
    assert_eq!(pending.transfer.to, key(10));
    accounts.staker.data.owner = key(4);
    assert_eq!(
        admit_emergency_unstake(&accounts),
        Some(Err(Failure::Constraint(Constraint::HasOne)))
    );
}

#[test]
fn a_claim_is_decided_on_only_where_it_is_admitted() {
    let bump = pool_address().unwrap().1;
    let mut accounts = claim();
    accounts.staker = staked().staker;
    accounts.pool = staked().pool;
    accounts.reward_vault.data.amount = ELITE;
    let (with, pending) = admit_claim_rewards(&accounts, Ok(365 * DAY)).unwrap().unwrap();
    assert_eq!(with, bump);
    assert_eq!(pending.unwrap().transfer.amount, ELITE / 100 * 8);
    assert_eq!(admit_claim_rewards(&accounts, Ok(0)), Some(Ok((bump, None))));

    let mut ahead = accounts;
    ahead.staker.data.last_claim_time = 1;
    assert_eq!(admit_claim_rewards(&ahead, Ok(0)), None);

    accounts.pool.data.paused = true;
    assert_eq!(
        admit_claim_rewards(&accounts, Ok(0)),
        Some(Err(Failure::Staking(StakingError::PoolPaused)))
    );
    accounts.zara_mint = key(4);
    assert_eq!(
        admit_claim_rewards(&accounts, Ok(0)),
        Some(Err(Failure::Constraint(Constraint::TokenMint)))
    );
}

#[test]
fn a_closed_position_is_refused_ever_after() {
    let now = 365 * DAY;
    let mut accounts = staked();
    let (_, step) = admit_unstake(&accounts, Ok(now)).unwrap().unwrap();
    let step = step.advance(&mut accounts, Ok(())).unwrap();
    assert_eq!(accounts.staker_state, AccountState::Open);
    let step = step.advance(&mut accounts, Ok(())).unwrap();
    assert_eq!(
        step,
        UnstakeStep::Done {
            event: UnstakeEvent {
                owner: key(1),
                position_id: 8,
                amount: ELITE,
                rewards: ELITE / 100 * 8,
                timestamp: now
            },
            closing: Closing { account: accounts.staker.key, destination: key(1) }
        }
    );
    assert_eq!(accounts.staker_state, AccountState::Vacant);

    let before = accounts;
    let gone = Failure::Constraint(Constraint::NotInitialized);
    assert_eq!(admit_unstake(&accounts, Ok(now + DAY)), Some(Err(gone)));
    accounts.pool.data.paused = true;
    assert_eq!(admit_emergency_unstake(&accounts), Some(Err(gone)));
    accounts.pool.data.paused = false;
    assert_eq!(accounts, before);

    let mut claiming = claim();
    claiming.staker = accounts.staker;
    claiming.pool = accounts.pool;
    claiming.staker_state = accounts.staker_state;
    assert_eq!(admit_claim_rewards(&claiming, Ok(now)), Some(Err(gone)));
}

#[test]
fn an_emergency_closes_the_position_too() {
    let mut accounts = staked();
    accounts.pool.data.paused = true;
    let (_, pending) = admit_emergency_unstake(&accounts).unwrap().unwrap();
    pending.settle(&mut accounts, Ok(()), Ok(5)).unwrap();
    assert_eq!(accounts.staker_state, AccountState::Vacant);
    let gone = Failure::Constraint(Constraint::NotInitialized);
    assert_eq!(admit_emergency_unstake(&accounts), Some(Err(gone)));
    assert_eq!(admit_unstake(&accounts, Ok(365 * DAY)), Some(Err(gone)));
}
