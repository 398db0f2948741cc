//! The instructions, one by one and in turn.
use zara_staking::{
    calculate_rewards, claim_rewards, emergency_unstake, initialize_pool, stake, unstake,
    update_pool, Account, AccountState,
    ClaimEvent, ClaimRewards, Closing, EmergencyEvent, EmergencyUnstakeEvent, Failure,
    InitializePool, PoolInitializedEvent, Pubkey, Stake, StakeEvent, StakerInfo, StakingError,
    StakingPool, StakingTier, TokenAccount, Transfer, TransferAuthority, Unstake, UnstakeEvent,
    UnstakeStep, UpdatePool, BASIC_LOCK, BASIC_TIER_AMOUNT, ELITE_TIER_AMOUNT, INITIAL_REWARD_POOL,
    MAX_ANNUAL_REWARDS,
};

const YEAR: i64 = 365 * 24 * 60 * 60;
const START: i64 = 1_700_000_000;
const AMOUNT: u64 = 5_000_000_000;

fn key(n: u8) -> Pubkey {
    Pubkey { bytes: [n; 32] }
}

fn token(n: u8, owner: Pubkey, amount: u64) -> Account<TokenAccount> {
    Account { key: key(n), data: TokenAccount { mint: key(2), owner, amount } }
}

fn pool() -> Account<StakingPool> {
    let data = StakingPool {
        authority: key(3),
        zara_mint: key(2),
        total_staked: 70,
        staker_count: 2,
        paused: false,
        reward_pool_amount: 9,
        next_position_id: 8,
    };
    Account { key: key(20), data }
}

fn stake_accounts() -> Stake {
    Stake {
        owner: key(1),
        staker_token_account: token(10, key(1), AMOUNT),
        staker: Account { key: key(21), data: StakerInfo::default() },
        pool: pool(),
        stake_vault: token(11, key(20), 100),
        reward_vault: token(12, key(20), u64::MAX),
        authority: key(3),
        zara_mint: key(2),
    }
}

/// The accounts after a stake of `AMOUNT` at `START`.
fn staked() -> Stake {
    let mut accounts = stake_accounts();
    let pending = stake(&accounts, AMOUNT, Ok(START)).unwrap();
    assert!(pending.can_settle(&accounts));
    pending.settle(&mut accounts, Ok(())).unwrap();
    accounts
}

fn unstake_accounts() -> Unstake {
    let staked = staked();
    Unstake {
        owner: key(1),
        staker_token_account: token(10, key(1), 0),
        staker: staked.staker,
        staker_state: AccountState::Open,
        pool: staked.pool,
        stake_vault: token(11, key(20), AMOUNT + 100),
        reward_vault: token(12, key(20), AMOUNT),
        zara_mint: key(2),
    }
}

fn claim_accounts() -> ClaimRewards {
    let staked = staked();
    ClaimRewards {
        owner: key(1),
        staker_token_account: token(10, key(1), 0),
        staker: staked.staker,
        staker_state: AccountState::Open,
        pool: staked.pool,
        reward_vault: token(12, key(20), AMOUNT),
        zara_mint: key(2),
    }
}

fn refused<T>(error: StakingError) -> Result<T, Failure> {
    Err(Failure::Staking(error))
}

#[test]
fn a_pool_opens_empty() {
    let mut accounts = InitializePool { authority: key(3), pool: pool(), zara_mint: key(4) };
    accounts.pool.data.paused = true;
    let event = initialize_pool(&mut accounts, INITIAL_REWARD_POOL, Ok(START));
    assert_eq!(
        event,
        Ok(PoolInitializedEvent {
            authority: key(3),
            reward_pool: INITIAL_REWARD_POOL,
            timestamp: START
        })
    );
    assert_eq!(
        accounts.pool.data,
        StakingPool {
            authority: key(3),
            zara_mint: key(4),
            total_staked: 0,
            staker_count: 0,
            paused: false,
            reward_pool_amount: INITIAL_REWARD_POOL,
            next_position_id: 1,
        }
    );
    assert_eq!(accounts.pool.key, key(20));
}

#[test]
fn a_pool_opens_with_no_more_than_the_cap() {
    let before = InitializePool { authority: key(3), pool: pool(), zara_mint: key(4) };
    let mut accounts = before;
    assert_eq!(
        initialize_pool(&mut accounts, INITIAL_REWARD_POOL + 1, Err(5)),
        refused(StakingError::ExcessiveRewardPool)
    );
    assert_eq!(initialize_pool(&mut accounts, 1, Err(5)), Err(Failure::Runtime(5)));
    assert_eq!(accounts, before);
}

#[test]
fn updating_pauses_and_resumes() {
    let before = UpdatePool { authority: key(3), pool: pool() };
    let mut accounts = before;
    assert_eq!(
        update_pool(&mut accounts, Ok(START)),
        Ok(EmergencyEvent { paused: true, timestamp: START })
    );
    assert!(accounts.pool.data.paused);
    assert_eq!(
        update_pool(&mut accounts, Ok(START + 1)),
        Ok(EmergencyEvent { paused: false, timestamp: START + 1 })
    );
    assert_eq!(accounts, before);
}

#[test]
fn only_the_authority_updates() {
    let before = UpdatePool { authority: key(1), pool: pool() };
    let mut accounts = before;
    assert_eq!(update_pool(&mut accounts, Ok(START)), refused(StakingError::Unauthorized));
    assert_eq!(accounts, before);
    accounts.authority = key(3);
    assert_eq!(update_pool(&mut accounts, Err(6)), Err(Failure::Runtime(6)));
    assert!(!accounts.pool.data.paused);
}

#[test]
fn a_stake_asks_for_the_tokens() {
    let pending = stake(&stake_accounts(), AMOUNT, Ok(START)).unwrap();
    assert_eq!(
        pending.transfer,
        Transfer {
            from: key(10),
            to: key(11),
            authority: TransferAuthority::Owner(key(1)),
            amount: AMOUNT
        }
    );
    assert_eq!((pending.tier, pending.now), (StakingTier::Basic, START));
    assert_eq!(stake_accounts().process(AMOUNT, Ok(START)), Ok(pending));
}

#[test]
fn a_stake_opens_a_position() {
    let mut accounts = stake_accounts();
    let pending = stake(&accounts, ELITE_TIER_AMOUNT, Ok(START)).unwrap();
    let event = pending.settle(&mut accounts, Ok(()));
    assert_eq!(
        event,
        Ok(StakeEvent {
            owner: key(1),
            position_id: 8,
            amount: ELITE_TIER_AMOUNT,
            tier: StakingTier::Elite,
            lock_period: 1_209_600,
            apr: 800,
            timestamp: START,
        })
    );
    assert_eq!(
        accounts.staker.data,
        StakerInfo {
            owner: key(1),
            pool: key(20),
            position_id: 8,
            stake_start_time: START,
            stake_end_time: START + 1_209_600,
            last_claim_time: START,
            staked_amount: ELITE_TIER_AMOUNT,
            tier: StakingTier::Elite,
            apr: 800,
            reward_debt: 0,
        }
    );
    assert_eq!(
        accounts.pool.data,
        StakingPool {
            total_staked: 70 + ELITE_TIER_AMOUNT,
            staker_count: 3,
            next_position_id: 9,
            ..pool().data
        }
    );
}

#[test]
fn a_stake_is_refused_in_order() {
    let mut accounts = stake_accounts();
    accounts.stake_vault.data.amount = u64::MAX;
    assert_eq!(
        stake(&accounts, AMOUNT, Ok(START)),
        refused(StakingError::MaxStakeExceeded)
    );
    assert_eq!(
        stake(&accounts, BASIC_TIER_AMOUNT - 1, Ok(START)),
        refused(StakingError::InsufficientStakeAmount)
    );
    assert_eq!(stake(&accounts, 0, Err(3)), Err(Failure::Runtime(3)));
    accounts.authority = key(1);
    assert_eq!(stake(&accounts, 0, Err(3)), refused(StakingError::Unauthorized));
    accounts.pool.data.paused = true;
    assert_eq!(stake(&accounts, 0, Err(3)), refused(StakingError::PoolPaused));
}

#[test]
fn a_vault_may_be_filled_to_the_brim() {
    let mut accounts = stake_accounts();
    accounts.stake_vault.data.amount = u64::MAX - AMOUNT;
    assert!(stake(&accounts, AMOUNT, Ok(START)).is_ok());
    assert_eq!(
        stake(&accounts, AMOUNT + 1, Ok(START)),
        refused(StakingError::MaxStakeExceeded)
    );
}

#[test]
fn a_stake_whose_tokens_do_not_move_changes_nothing() {
    let mut accounts = stake_accounts();
    let pending = stake(&accounts, AMOUNT, Ok(START)).unwrap();
    assert_eq!(pending.settle(&mut accounts, Err(9)), Err(Failure::Runtime(9)));
    assert_eq!(accounts, stake_accounts());
}

#[test]
fn stakes_that_cannot_be_settled_are_told() {
    let pending = stake(&stake_accounts(), AMOUNT, Ok(START)).unwrap();
    let mut accounts = stake_accounts();
    accounts.pool.data.total_staked = u64::MAX - AMOUNT;
    assert!(pending.can_settle(&accounts));
    accounts.pool.data.total_staked += 1;
    assert!(!pending.can_settle(&accounts));
    let mut accounts = stake_accounts();
    accounts.pool.data.staker_count = u64::MAX;
    assert!(!pending.can_settle(&accounts));
    let mut accounts = stake_accounts();
    accounts.pool.data.next_position_id = u64::MAX;
    assert!(!pending.can_settle(&accounts));
    let late = stake(&stake_accounts(), AMOUNT, Ok(i64::MAX - BASIC_LOCK)).unwrap();
    assert!(late.can_settle(&stake_accounts()));
    let later = stake(&stake_accounts(), AMOUNT, Ok(i64::MAX - BASIC_LOCK + 1)).unwrap();
    assert!(!later.can_settle(&stake_accounts()));
}

#[test]
fn an_unstake_returns_stake_then_rewards_then_ends() {
    let mut accounts = unstake_accounts();
    let now = START + BASIC_LOCK;
    assert!(accounts.can_compute(Ok(now)));
    let step = unstake(&accounts, Ok(now)).unwrap();
    let rewards: u64 = 1_643_835;
    let stake_back = Transfer {
        from: key(11),
        to: key(10),
        authority: TransferAuthority::Pool(key(20)),
        amount: AMOUNT,
    };
    assert_eq!(step, UnstakeStep::ReturnStake { transfer: stake_back, rewards, now });
    assert!(!step.is_last());

    let step = step.advance(&mut accounts, Ok(())).unwrap();
    let pay = Transfer {
        from: key(12),
        to: key(10),
        authority: TransferAuthority::Pool(key(20)),
        amount: rewards,
    };
    assert_eq!(step, UnstakeStep::PayRewards { transfer: pay, rewards, now });
    assert_eq!(accounts, unstake_accounts());
    assert!(step.is_last() && accounts.is_counted());

    let step = step.advance(&mut accounts, Ok(())).unwrap();
    let event =
        UnstakeEvent { owner: key(1), position_id: 8, amount: AMOUNT, rewards, timestamp: now };
    let closing = Closing { account: key(21), destination: key(1) };
    assert_eq!(step, UnstakeStep::Done { event, closing });
    assert!(!step.is_last());
    assert_eq!(step.advance(&mut accounts, Ok(())), Ok(step));
    // The totals are those of before the stake; the numbers have moved on.
    assert_eq!(accounts.pool.data, StakingPool { next_position_id: 9, ..pool().data });
}

#[test]
fn an_unstake_without_rewards_takes_one_movement() {
    let mut accounts = unstake_accounts();
    let now = START + BASIC_LOCK;
    accounts.staker.data.last_claim_time = now;
    accounts.reward_vault.data.amount = 0;
    let step = unstake(&accounts, Ok(now)).unwrap();
    assert!(step.is_last());
    let step = step.advance(&mut accounts, Ok(())).unwrap();
    assert!(matches!(step, UnstakeStep::Done { event: UnstakeEvent { rewards: 0, .. }, .. }));
    assert_eq!(accounts.pool.data.total_staked, 70);
}

#[test]
fn an_unstake_is_refused_in_order() {
    let mut accounts = unstake_accounts();
    let end = START + BASIC_LOCK;
    accounts.reward_vault.data.amount = 1_643_834;
    assert_eq!(unstake(&accounts, Ok(end)), refused(StakingError::InsufficientRewardPool));
    accounts.stake_vault.data.amount = AMOUNT - 1;
    assert_eq!(unstake(&accounts, Ok(end)), refused(StakingError::InsufficientStakeVault));
    assert_eq!(unstake(&accounts, Ok(end - 1)), refused(StakingError::MinStakeDurationNotMet));
    assert_eq!(unstake(&accounts, Err(4)), Err(Failure::Runtime(4)));
}

#[test]
fn an_unstake_works_while_the_pool_is_paused() {
    let mut accounts = unstake_accounts();
    accounts.pool.data.paused = true;
    assert!(unstake(&accounts, Ok(START + BASIC_LOCK)).is_ok());
}

#[test]
fn an_unstake_whose_tokens_do_not_move_changes_nothing() {
    let mut accounts = unstake_accounts();
    let step = unstake(&accounts, Ok(START + BASIC_LOCK)).unwrap();
    assert_eq!(step.advance(&mut accounts, Err(9)), Err(Failure::Runtime(9)));
    let step = step.advance(&mut accounts, Ok(())).unwrap();
    assert_eq!(step.advance(&mut accounts, Err(9)), Err(Failure::Runtime(9)));
    assert_eq!(accounts, unstake_accounts());
}

#[test]
fn unstakes_that_cannot_be_carried_out_are_told() {
    let mut accounts = unstake_accounts();
    let end = START + BASIC_LOCK;
    accounts.staker.data.last_claim_time = end + 1;
    assert!(!accounts.can_compute(Ok(end)));
    assert!(accounts.can_compute(Ok(end - 1)));
    assert!(accounts.can_compute(Err(1)));
    accounts.stake_vault.data.amount = 0;
    assert!(accounts.can_compute(Ok(end)));
    accounts.pool.data.total_staked = AMOUNT - 1;
    assert!(!accounts.is_counted());
    accounts.pool.data.total_staked = AMOUNT;
    assert!(accounts.is_counted());
    accounts.pool.data.staker_count = 0;
    assert!(!accounts.is_counted());
}

#[test]
fn an_emergency_unstake_returns_the_stake_alone() {
    let mut accounts = unstake_accounts();
    accounts.pool.data.paused = true;
    let pending = emergency_unstake(&accounts).unwrap();
    assert_eq!(
        pending.transfer,
        Transfer {
            from: key(11),
            to: key(10),
            authority: TransferAuthority::Pool(key(20)),
            amount: AMOUNT
        }
    );
    let event = EmergencyUnstakeEvent {
        owner: key(1),
        position_id: 8,
        amount: AMOUNT,
        timestamp: START + 1,
    };
    let closing = Closing { account: key(21), destination: key(1) };
    assert_eq!(
        pending.settle(&mut accounts, Ok(()), Ok(START + 1)),
        Ok((event, closing))
    );
    let expected = StakingPool { paused: true, next_position_id: 9, ..pool().data };
    assert_eq!(accounts.pool.data, expected);
}

#[test]
fn an_emergency_unstake_is_refused_in_order() {
    let mut accounts = unstake_accounts();
    accounts.pool.data.paused = true;
    accounts.stake_vault.data.amount = AMOUNT - 1;
    assert_eq!(emergency_unstake(&accounts), refused(StakingError::InsufficientStakeVault));
    accounts.pool.data.paused = false;
    assert_eq!(emergency_unstake(&accounts), refused(StakingError::PoolNotPaused));
}

#[test]
fn a_failed_emergency_unstake_changes_nothing() {
    let mut accounts = unstake_accounts();
    accounts.pool.data.paused = true;
    let before = accounts;
    let pending = emergency_unstake(&accounts).unwrap();
    assert_eq!(pending.settle(&mut accounts, Err(9), Err(4)), Err(Failure::Runtime(9)));
    assert_eq!(pending.settle(&mut accounts, Ok(()), Err(4)), Err(Failure::Runtime(4)));
    assert_eq!(accounts, before);
}

#[test]
fn a_claim_pays_what_was_earned_and_books_it() {
    let mut accounts = claim_accounts();
    accounts.staker.data.reward_debt = 11;
    let now = START + 86_400;
    assert!(accounts.can_compute(Ok(now)));
    let pending = claim_rewards(&accounts, Ok(now)).unwrap().unwrap();
    assert_eq!(
        pending.transfer,
        Transfer {
            from: key(12),
            to: key(10),
            authority: TransferAuthority::Pool(key(20)),
            amount: 547_945
        }
    );
    let before = accounts;
    assert!(pending.can_settle(&accounts));
    assert_eq!(
        pending.settle(&mut accounts, Ok(())),
        Ok(ClaimEvent { owner: key(1), position_id: 8, rewards: 547_945, timestamp: now })
    );
    let expected =
        StakerInfo { last_claim_time: now, reward_debt: 547_956, ..before.staker.data };
    assert_eq!(accounts.staker.data, expected);
    assert_eq!(accounts.pool, before.pool);
}

#[test]
fn rewards_are_paid_once() {
    let mut accounts = claim_accounts();
    let now = START + BASIC_LOCK;
    let pending = claim_rewards(&accounts, Ok(now)).unwrap().unwrap();
    pending.settle(&mut accounts, Ok(())).unwrap();
    assert_eq!(claim_rewards(&accounts, Ok(now)), Ok(None));
    let mut closing = unstake_accounts();
    closing.staker = accounts.staker;
    let step = unstake(&closing, Ok(now)).unwrap();
    assert!(matches!(step, UnstakeStep::ReturnStake { rewards: 0, .. }));
}

#[test]
fn nothing_earned_is_nothing_to_wait_for() {
    let mut accounts = claim_accounts();
    accounts.reward_vault.data.amount = 0;
    assert_eq!(claim_rewards(&accounts, Ok(START)), Ok(None));
}

#[test]
fn a_claim_is_refused_in_order() {
    let mut accounts = claim_accounts();
    let late = START + YEAR + 1;
    assert_eq!(
        claim_rewards(&accounts, Ok(late)),
        refused(StakingError::AnnualRewardLimitExceeded)
    );
    accounts.reward_vault.data.amount = 1;
    assert_eq!(
        claim_rewards(&accounts, Ok(late)),
        refused(StakingError::InsufficientRewardPool)
    );
    assert_eq!(claim_rewards(&accounts, Err(4)), Err(Failure::Runtime(4)));
    accounts.pool.data.paused = true;
    assert_eq!(claim_rewards(&accounts, Err(4)), refused(StakingError::PoolPaused));
}

#[test]
fn a_yearly_claim_meets_no_limit() {
    let accounts = claim_accounts();
    let pending = claim_rewards(&accounts, Ok(START + YEAR)).unwrap().unwrap();
    assert_eq!(pending.transfer.amount, AMOUNT / 25);
}

#[test]
fn a_claim_whose_tokens_do_not_move_changes_nothing() {
    let mut accounts = claim_accounts();
    let pending = claim_rewards(&accounts, Ok(START + 86_400)).unwrap().unwrap();
    assert_eq!(pending.settle(&mut accounts, Err(9)), Err(Failure::Runtime(9)));
    assert_eq!(accounts, claim_accounts());
}

#[test]
fn claims_that_cannot_be_carried_out_are_told() {
    let mut accounts = claim_accounts();
    assert!(!accounts.can_compute(Ok(START - 1)));
    assert!(accounts.can_compute(Err(1)));
    let pending = claim_rewards(&accounts, Ok(START + 86_400)).unwrap().unwrap();
    accounts.staker.data.reward_debt = u64::MAX;
    assert!(!pending.can_settle(&accounts));
    accounts.pool.data.paused = true;
    assert!(accounts.can_compute(Ok(START - 1)));
}

#[test]
fn pausing_stops_stakes_and_claims_and_allows_emergencies() {
    let mut update = UpdatePool { authority: key(3), pool: pool() };
    update_pool(&mut update, Ok(START)).unwrap();
    let mut opening = stake_accounts();
    opening.pool = update.pool;
    assert_eq!(stake(&opening, AMOUNT, Ok(START)), refused(StakingError::PoolPaused));
    let mut claiming = claim_accounts();
    claiming.pool = update.pool;
    assert_eq!(claim_rewards(&claiming, Ok(START)), refused(StakingError::PoolPaused));
    let mut closing = unstake_accounts();
    assert_eq!(emergency_unstake(&closing), refused(StakingError::PoolNotPaused));
    closing.pool.data.paused = true;
    assert!(emergency_unstake(&closing).is_ok());
}

#[test]
fn totals_follow_the_open_positions() {
    let mut opening = InitializePool {
        authority: key(3),
        pool: Account { key: key(20), data: StakingPool::default() },
        zara_mint: key(2),
    };
    initialize_pool(&mut opening, 0, Ok(START)).unwrap();
    let mut accounts = stake_accounts();
    accounts.pool = opening.pool;
    let mut positions: Vec<Account<StakerInfo>> = Vec::new();
    for amount in [AMOUNT, 2 * AMOUNT, 60 * AMOUNT] {
        let pending = stake(&accounts, amount, Ok(START)).unwrap();
        pending.settle(&mut accounts, Ok(())).unwrap();
        positions.push(accounts.staker);
    }
    let numbers: Vec<u64> = positions.iter().map(|p| p.data.position_id).collect();
    assert_eq!(numbers, vec![1, 2, 3]);
    assert_eq!(accounts.pool.data.total_staked, 63 * AMOUNT);
    assert_eq!(accounts.pool.data.staker_count, 3);

    let mut closing = unstake_accounts();
    closing.pool = accounts.pool;
    closing.pool.data.paused = true;
    closing.staker = positions[1];
    closing.stake_vault.data.amount = 63 * AMOUNT;
    let pending = emergency_unstake(&closing).unwrap();
    pending.settle(&mut closing, Ok(()), Ok(START)).unwrap();
    assert_eq!(closing.pool.data.total_staked, 61 * AMOUNT);
    assert_eq!(closing.pool.data.staker_count, 2);
    assert_eq!(closing.pool.data.next_position_id, 4);
}

#[test]
fn lifetime_rewards_are_at_most_the_interest() {
    let mut accounts = claim_accounts();
    let times: [i64; 4] = [START + 1_001, START + 77_777, START + 200_003, START + BASIC_LOCK];
    for now in times {
        if let Some(pending) = claim_rewards(&accounts, Ok(now)).unwrap() {
            pending.settle(&mut accounts, Ok(())).unwrap();
        }
    }
    let mut closing = unstake_accounts();
    closing.staker = accounts.staker;
    let end = START + BASIC_LOCK + 5;
    let rewards = match unstake(&closing, Ok(end)).unwrap() {
        UnstakeStep::ReturnStake { rewards, .. } => rewards,
        _ => panic!("an unstake begins with the stake"),
    };
    let whole = calculate_rewards(AMOUNT, START, end, 400).unwrap();
    assert!(accounts.staker.data.reward_debt + rewards <= whole);
    assert!(whole <= accounts.staker.data.reward_debt + rewards + 4);
}

#[test]
fn a_covered_vault_returns_every_stake() {
    let mut closing = unstake_accounts();
    closing.pool.data.paused = true;
    closing.stake_vault.data.amount = closing.pool.data.total_staked;
    let pending = emergency_unstake(&closing).unwrap();
    pending.settle(&mut closing, Ok(()), Ok(START)).unwrap();
    let left = closing.stake_vault.data.amount - pending.transfer.amount;
    assert!(closing.pool.data.total_staked <= left);
}

#[test]
fn a_claim_pays_at_most_the_maximum_for_a_year() {
    // A stake that earns exactly the maximum in a year at 4%.
    let mut accounts = claim_accounts();
    accounts.staker.data.staked_amount = 25 * MAX_ANNUAL_REWARDS;
    accounts.reward_vault.data.amount = u64::MAX;
    let pending = claim_rewards(&accounts, Ok(START + YEAR)).unwrap().unwrap();
    assert_eq!(pending.transfer.amount, MAX_ANNUAL_REWARDS);
    // One unit of rewards more, though it is the position's own annual reward.
    accounts.staker.data.staked_amount += 25;
    assert_eq!(
        claim_rewards(&accounts, Ok(START + YEAR)),
        refused(StakingError::AnnualRewardLimitExceeded)
    );
    // A vault that cannot pay is told first.
    accounts.reward_vault.data.amount = MAX_ANNUAL_REWARDS;
    assert_eq!(
        claim_rewards(&accounts, Ok(START + YEAR)),
        refused(StakingError::InsufficientRewardPool)
    );
}

#[test]
fn the_maximum_for_a_year_does_not_bind_an_unstake() {
    let mut accounts = unstake_accounts();
    accounts.staker.data.staked_amount = 50 * MAX_ANNUAL_REWARDS;
    accounts.stake_vault.data.amount = u64::MAX;
    accounts.reward_vault.data.amount = u64::MAX;
    let step = unstake(&accounts, Ok(START + YEAR)).unwrap();
    assert!(matches!(step, UnstakeStep::ReturnStake { rewards: 2_000_000_000_000, .. }));
}

#[test]
fn numbers_are_not_given_twice() {
    let mut closing = unstake_accounts();
    closing.pool.data.paused = true;
    let number = closing.staker.data.position_id;
    let pending = emergency_unstake(&closing).unwrap();
    pending.settle(&mut closing, Ok(()), Ok(START)).unwrap();
    let mut accounts = stake_accounts();
    accounts.pool = closing.pool;
    accounts.pool.data.paused = false;
    let pending = stake(&accounts, AMOUNT, Ok(START)).unwrap();
    pending.settle(&mut accounts, Ok(())).unwrap();
    assert!(accounts.staker.data.position_id > number);
}

#[test]
fn positions_are_numbered_in_the_order_of_the_stakes() {
    let mut opening = InitializePool { authority: key(3), pool: pool(), zara_mint: key(2) };
    initialize_pool(&mut opening, 0, Ok(START)).unwrap();
    let mut pool = opening.pool;
    for number in 1..=4 {
        let mut accounts = stake_accounts();
        accounts.pool = pool;
        let pending = stake(&accounts, AMOUNT, Ok(START)).unwrap();
        pending.settle(&mut accounts, Ok(())).unwrap();
        assert_eq!(accounts.staker.data.position_id, number);
        // Closing the position in between does not give its number back.
        let mut closing = unstake_accounts();
        closing.staker = accounts.staker;
        closing.pool = accounts.pool;
        closing.pool.data.paused = true;
        let pending = emergency_unstake(&closing).unwrap();
        pending.settle(&mut closing, Ok(()), Ok(START)).unwrap();
        assert_eq!(closing.staker_state, AccountState::Vacant);
        pool = closing.pool;
        pool.data.paused = false;
    }
}

#[test]
fn all_claims_of_a_position_are_booked() {
    let mut accounts = claim_accounts();
    let mut paid = 0;
    for now in [START + 1_000, START + 1_000, START + 86_400, START + BASIC_LOCK] {
        if let Some(pending) = claim_rewards(&accounts, Ok(now)).unwrap() {
            paid += pending.transfer.amount;
            pending.settle(&mut accounts, Ok(())).unwrap();
        }
    }
    let staker = accounts.staker.data;
    assert_eq!(staker.reward_debt, paid);
    let interest =
        calculate_rewards(staker.staked_amount, START, START + BASIC_LOCK, staker.apr).unwrap();
    assert!(paid <= interest && interest <= paid + 2);
    assert!(paid > 0);
}
