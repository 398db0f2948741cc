//! Tiers, rewards, stored sizes and messages.
use anchor_lang::AnchorSerialize;
use zara_staking::rewards::{REWARD_DIVISOR, SECONDS_PER_YEAR};
use zara_staking::{
    calculate_annual_rewards, calculate_rewards, can_calculate_rewards, PoolBumps, Pubkey,
    StakerInfo, StakingError, StakingPool, StakingTier, BASIC_APR, BASIC_LOCK, BASIC_TIER_AMOUNT,
    ELITE_APR, ELITE_LOCK, ELITE_TIER_AMOUNT, INITIAL_REWARD_POOL, MAX_ANNUAL_REWARDS, PREMIUM_APR,
    PREMIUM_LOCK, PREMIUM_TIER_AMOUNT,
};

const YEAR: i64 = 365 * 24 * 60 * 60;
const ZARA: u64 = 1_000_000;

#[test]
fn constants_are_in_base_units_seconds_and_basis_points() {
    assert_eq!(BASIC_TIER_AMOUNT, 5_000 * ZARA);
    assert_eq!(PREMIUM_TIER_AMOUNT, 50_000 * ZARA);
    assert_eq!(ELITE_TIER_AMOUNT, 250_000 * ZARA);
    assert_eq!((BASIC_APR, PREMIUM_APR, ELITE_APR), (400, 600, 800));
    assert_eq!(BASIC_LOCK, 3 * 86_400);
    assert_eq!(PREMIUM_LOCK, 7 * 86_400);
    assert_eq!(ELITE_LOCK, 14 * 86_400);
    assert_eq!(INITIAL_REWARD_POOL, 5_000_000 * ZARA);
    assert_eq!(MAX_ANNUAL_REWARDS, 1_000_000 * ZARA);
    assert_eq!(SECONDS_PER_YEAR, 365 * 24 * 60 * 60);
    assert_eq!(REWARD_DIVISOR, 365 * 24 * 60 * 60 * 10_000);
}

#[test]
fn amounts_fall_in_the_highest_tier_they_reach() {
    assert_eq!(StakingTier::for_amount(0), None);
    assert_eq!(StakingTier::for_amount(BASIC_TIER_AMOUNT - 1), None);
    assert_eq!(StakingTier::for_amount(BASIC_TIER_AMOUNT), Some(StakingTier::Basic));
    assert_eq!(StakingTier::for_amount(PREMIUM_TIER_AMOUNT - 1), Some(StakingTier::Basic));
    assert_eq!(StakingTier::for_amount(PREMIUM_TIER_AMOUNT), Some(StakingTier::Premium));
    assert_eq!(StakingTier::for_amount(ELITE_TIER_AMOUNT - 1), Some(StakingTier::Premium));
    assert_eq!(StakingTier::for_amount(ELITE_TIER_AMOUNT), Some(StakingTier::Elite));
    assert_eq!(StakingTier::for_amount(u64::MAX), Some(StakingTier::Elite));
}

#[test]
fn tiers_have_their_terms() {
    assert_eq!((StakingTier::Basic.lock_period(), StakingTier::Basic.apr()), (259_200, 400));
    assert_eq!((StakingTier::Premium.lock_period(), StakingTier::Premium.apr()), (604_800, 600));
    assert_eq!((StakingTier::Elite.lock_period(), StakingTier::Elite.apr()), (1_209_600, 800));
}

#[test]
fn more_never_buys_a_lower_tier() {
    let amounts: [u64; 5] =
        [BASIC_TIER_AMOUNT, 6_000 * ZARA, PREMIUM_TIER_AMOUNT, ELITE_TIER_AMOUNT, u64::MAX];
    for pair in amounts.windows(2) {
        let lower = StakingTier::for_amount(pair[0]).unwrap();
        let higher = StakingTier::for_amount(pair[1]).unwrap();
        assert!(lower.apr() <= higher.apr());
        assert!(lower.lock_period() <= higher.lock_period());
    }
}

#[test]
fn rewards_are_simple_interest() {
    // 4% of 5,000 ZARA in a year.
    assert_eq!(calculate_rewards(5_000 * ZARA, 0, YEAR, 400), Ok(200 * ZARA));
    // 8% of 250,000 ZARA in half a year.
    assert_eq!(calculate_rewards(250_000 * ZARA, 100, 100 + YEAR / 2, 800), Ok(10_000 * ZARA));
    // One day, rounded down.
    assert_eq!(calculate_rewards(5_000 * ZARA, 0, 86_400, 400), Ok(547_945));
    // One second.
    assert_eq!(calculate_rewards(5_000 * ZARA, 0, 1, 400), Ok(6));
    assert_eq!(calculate_rewards(788, 0, 1, 400), Ok(0));
}

#[test]
fn no_time_earns_nothing() {
    assert_eq!(calculate_rewards(u64::MAX, 77, 77, u64::MAX), Ok(0));
}

#[test]
fn a_year_earns_the_annual_reward() {
    for (amount, apr) in [(5_000_000_001, 400), (123_456_789_012, 600), (u64::MAX, 800)] {
        assert_eq!(
            calculate_rewards(amount, -5, YEAR - 5, apr),
            calculate_annual_rewards(amount, apr)
        );
    }
}

#[test]
fn annual_rewards_are_percentages() {
    assert_eq!(calculate_annual_rewards(5_000 * ZARA, 400), Ok(200 * ZARA));
    assert_eq!(calculate_annual_rewards(50_000 * ZARA, 600), Ok(3_000 * ZARA));
    assert_eq!(calculate_annual_rewards(250_000 * ZARA, 800), Ok(20_000 * ZARA));
    assert_eq!(calculate_annual_rewards(99, 400), Ok(3));
}

#[test]
fn splitting_a_span_earns_no_more() {
    let amount: u64 = 7_654_321_987;
    let whole = calculate_rewards(amount, 0, 1_000_003, 400).unwrap();
    let before = calculate_rewards(amount, 0, 333_333, 400).unwrap();
    let after = calculate_rewards(amount, 333_333, 1_000_003, 400).unwrap();
    assert!(before + after <= whole);
    assert!(whole <= before + after + 1);
}

#[test]
fn interest_grows_with_time_stake_and_rate() {
    let base = calculate_rewards(5_000 * ZARA, 0, 86_400, 400).unwrap();
    assert!(base <= calculate_rewards(5_000 * ZARA, 0, 90_000, 400).unwrap());
    assert!(base <= calculate_rewards(6_000 * ZARA, 0, 86_400, 400).unwrap());
    assert!(base <= calculate_rewards(5_000 * ZARA, 0, 86_400, 600).unwrap());
    // Only the length of the span counts, not when it begins.
    assert_eq!(base, calculate_rewards(5_000 * ZARA, 1_000_000, 1_086_400, 400).unwrap());
    assert!(base <= calculate_rewards(5_000 * ZARA, -7, 90_000, 400).unwrap());
}

#[test]
fn within_a_year_the_annual_limit_holds() {
    let annual = calculate_annual_rewards(5_000 * ZARA, 400).unwrap();
    assert!(calculate_rewards(5_000 * ZARA, 0, YEAR - 1, 400).unwrap() <= annual);
    assert!(calculate_rewards(5_000 * ZARA, 0, YEAR + 1, 400).unwrap() > annual);
    assert!(annual <= 5_000 * ZARA);
    assert_eq!(calculate_annual_rewards(5_000 * ZARA, 10_000), Ok(5_000 * ZARA));
    assert_eq!(calculate_rewards(5_000 * ZARA, 3, YEAR + 3, 10_000), Ok(5_000 * ZARA));
}

#[test]
fn rewards_are_kept_in_64_bits() {
    let amount: u64 = u64::MAX;
    let apr: u64 = u64::MAX;
    let exact = (amount as u128) * (apr as u128) / 10_000;
    assert!(exact > u64::MAX as u128);
    assert_eq!(calculate_annual_rewards(amount, apr), Ok(exact as u64));
}

#[test]
fn time_running_backwards_counts_as_its_two_complement() {
    assert!(can_calculate_rewards(0, 10, 0, 400));
    assert_eq!(calculate_rewards(0, 10, 0, 400), Ok(0));
    assert!(can_calculate_rewards(1, 10, 0, 1));
    let word = (-10i64) as u128;
    assert_eq!(calculate_rewards(1, 10, 0, 1), Ok((word / 315_360_000_000) as u64));
    assert!(!can_calculate_rewards(2, 10, 0, 1));
    assert!(!can_calculate_rewards(5_000 * ZARA, 10, 9, 400));
}

#[test]
fn rewards_out_of_range_are_told() {
    assert!(!can_calculate_rewards(0, i64::MIN, i64::MAX, 0));
    assert!(!can_calculate_rewards(u64::MAX, 0, i64::MAX, u64::MAX));
    assert!(can_calculate_rewards(u64::MAX, 0, 1, u64::MAX));
    assert!(can_calculate_rewards(0, 0, i64::MAX, u64::MAX));
}

#[test]
fn stored_sizes_are_those_of_the_fields() {
    let key = [0u8; 32];
    let pool = (key, key, 0u64, 0u64, false, 0u64, 0u64);
    assert_eq!(pool.try_to_vec().unwrap().len(), StakingPool::LEN);
    assert_eq!(StakingPool::LEN, 97);
    let first = (key, key, 0u64, 0i64, 0i64, 0i64);
    let second = (0u64, 0u8, 0u64, 0u64);
    assert_eq!(
        first.try_to_vec().unwrap().len() + second.try_to_vec().unwrap().len(),
        StakerInfo::LEN
    );
    assert_eq!(StakerInfo::LEN, 121);
}

#[test]
fn defaults_are_zero() {
    let zero = Pubkey { bytes: [0; 32] };
    assert_eq!(Pubkey::default(), zero);
    assert_eq!(StakingTier::default(), StakingTier::Basic);
    let pool = StakingPool::default();
    assert_eq!((pool.authority, pool.zara_mint), (zero, zero));
    assert_eq!((pool.total_staked, pool.staker_count, pool.paused), (0, 0, false));
    assert_eq!((pool.reward_pool_amount, pool.next_position_id), (0, 0));
    let staker = StakerInfo::default();
    assert_eq!((staker.owner, staker.pool, staker.position_id), (zero, zero, 0));
    assert_eq!((staker.staked_amount, staker.apr, staker.reward_debt), (0, 0, 0));
    assert_eq!(PoolBumps::default(), PoolBumps { pool: 0, stake_vault: 0, reward_vault: 0 });
}

#[test]
fn keys_compare_by_bytes() {
    let one = Pubkey { bytes: [1; 32] };
    let mut bytes = [1; 32];
    assert!(one == Pubkey { bytes });
    bytes[31] = 2;
    assert!(one != Pubkey { bytes });
}

#[test]
fn every_refusal_has_its_message() {
    let messages = [
        (StakingError::MinStakeDurationNotMet, "Minimum staking duration not met"),
        (StakingError::InsufficientStakeAmount, "Insufficient stake amount (min 5,000 ZARA)"),
        (StakingError::Unauthorized, "Unauthorized access"),
        (StakingError::PoolPaused, "Pool is paused"),
        (StakingError::PoolNotPaused, "Pool is not paused"),
        (StakingError::ExcessiveRewardPool, "Excessive reward pool amount"),
        (StakingError::AnnualRewardLimitExceeded, "Annual reward limit exceeded"),
        (StakingError::InvalidMint, "Invalid mint address"),
        (StakingError::InvalidTierAmount, "Invalid amount for selected tier"),
        (StakingError::InsufficientRewardPool, "Insufficient reward pool balance"),
        (StakingError::InsufficientStakeVault, "Insufficient stake vault balance"),
        (StakingError::MaxStakeExceeded, "Maximum stake amount exceeded for tier"),
    ];
    for (error, message) in messages {
        assert_eq!(error.message(), message);
    }
}
