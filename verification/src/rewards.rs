//! What a stake earns.
use crate::error::StakingError;
use crate::tier::StakingTier;
use vstd::arithmetic::div_mod::*;
use vstd::arithmetic::mul::*;
use vstd::prelude::*;

verus! {

/// Seconds in the 365 days that an annual rate is stated for, 365 * 24 * 60 * 60.
pub const SECONDS_PER_YEAR: u128 = 31_536_000;

/// Basis points in the whole.
pub const BASIS_POINTS: u128 = 10_000;

/// What the product of stake, rate and seconds is divided by: a year's seconds times the basis
/// points in the whole, 365 * 24 * 60 * 60 * 10_000.
pub const REWARD_DIVISOR: u128 = 315_360_000_000;

/// The time between the two readings as an unsigned 128-bit word: a negative difference stands for
/// its two's complement.
pub open spec fn elapsed_word(last_claim_time: i64, current_time: i64) -> int {
    (current_time - last_claim_time) % 0x1_0000_0000_0000_0000_0000_0000_0000_0000int
}

/// Stake times rate times time, before the division by year and basis points.
pub open spec fn reward_product(
    staked_amount: u64,
    last_claim_time: i64,
    current_time: i64,
    apr: u64,
) -> int {
    staked_amount * apr * elapsed_word(last_claim_time, current_time)
}

/// The times are close enough, and the product small enough, for the computation to be carried out
/// in 64-bit seconds and 128-bit products.
pub open spec fn rewards_defined(
    staked_amount: u64,
    last_claim_time: i64,
    current_time: i64,
    apr: u64,
) -> bool {
    &&& i64::MIN <= current_time - last_claim_time <= i64::MAX
    &&& reward_product(staked_amount, last_claim_time, current_time, apr) <= u128::MAX
}

/// The simple interest on the stake, rounded down.
pub open spec fn interest(
    staked_amount: u64,
    last_claim_time: i64,
    current_time: i64,
    apr: u64,
) -> int {
    reward_product(staked_amount, last_claim_time, current_time, apr) / (REWARD_DIVISOR as int)
}

/// A year's simple interest on the stake, rounded down.
pub open spec fn annual_interest(staked_amount: u64, apr: u64) -> int {
    staked_amount * apr / (BASIS_POINTS as int)
}

/// The low 64 bits of a number.
pub open spec fn low_word(value: int) -> u64 {
    (value % 0x1_0000_0000_0000_0000) as u64
}

/// The interest in 64 bits.
pub open spec fn reward_amount(
    staked_amount: u64,
    last_claim_time: i64,
    current_time: i64,
    apr: u64,
) -> u64 {
    low_word(interest(staked_amount, last_claim_time, current_time, apr))
}

/// A year's interest in 64 bits.
pub open spec fn annual_reward_amount(staked_amount: u64, apr: u64) -> u64 {
    low_word(annual_interest(staked_amount, apr))
}

/// Whether the interest can be computed: the times are no more than 64 bits of seconds apart and
/// the product of stake, rate and time fits in 128 bits.
pub fn can_calculate_rewards(
    staked_amount: u64,
    last_claim_time: i64,
    current_time: i64,
    apr: u64,
) -> (defined: bool)
    ensures
        defined == rewards_defined(staked_amount, last_claim_time, current_time, apr),
{
    match current_time.checked_sub(last_claim_time) {
        None => false,
        Some(time_staked) => {
            proof {
                lemma_elapsed_word(last_claim_time, current_time, time_staked);
                lemma_yearly_product(staked_amount, apr);
            }
            let yearly: u128 = staked_amount as u128 * apr as u128;
            let elapsed: u128 = time_staked as u128;
            assert(0 <= yearly * elapsed) by (nonlinear_arith);
            match yearly.checked_mul(elapsed) {
                None => false,
                Some(_) => true,
            }
        },
    }
}

/// Interest on `staked_amount` at `apr` basis points a year, from `last_claim_time` to
/// `current_time`.
pub fn calculate_rewards(
    staked_amount: u64,
    last_claim_time: i64,
    current_time: i64,
    apr: u64,
) -> (rewards: Result<u64, StakingError>)
    requires
        rewards_defined(staked_amount, last_claim_time, current_time, apr),
    ensures
        rewards == Ok::<u64, StakingError>(
            reward_amount(staked_amount, last_claim_time, current_time, apr),
        ),
{
    let time_staked: i64 = current_time - last_claim_time;
    let elapsed: u128 = time_staked as u128;
    proof {
        lemma_elapsed_word(last_claim_time, current_time, time_staked);
        lemma_yearly_product(staked_amount, apr);
    }
    let yearly: u128 = staked_amount as u128 * apr as u128;
    assert(0 <= yearly * elapsed) by (nonlinear_arith);
    let quotient: u128 = yearly * elapsed / REWARD_DIVISOR;
    assert(quotient as u64 == quotient % 0x1_0000_0000_0000_0000) by (bit_vector);
    Ok(quotient as u64)
}

/// A year's interest on `staked_amount` at `apr` basis points.
pub fn calculate_annual_rewards(staked_amount: u64, apr: u64) -> (rewards: Result<
    u64,
    StakingError,
>)
    ensures
        rewards == Ok::<u64, StakingError>(annual_reward_amount(staked_amount, apr)),
{
    proof {
        lemma_yearly_product(staked_amount, apr);
    }
    let quotient: u128 = staked_amount as u128 * apr as u128 / BASIS_POINTS;
    assert(quotient as u64 == quotient % 0x1_0000_0000_0000_0000) by (bit_vector);
    Ok(quotient as u64)
}

proof fn lemma_elapsed_word(last_claim_time: i64, current_time: i64, time_staked: i64)
    requires
        time_staked == current_time - last_claim_time,
    ensures
        time_staked as u128 == elapsed_word(last_claim_time, current_time),
{
    if time_staked < 0 {
        assert(time_staked as u128 == time_staked + 0x1_0000_0000_0000_0000_0000_0000_0000_0000)
            by (bit_vector)
            requires
                time_staked < 0,
        ;
    }
}

proof fn lemma_yearly_product(staked_amount: u64, apr: u64)
    ensures
        0 <= staked_amount * apr <= u128::MAX,
{
    assert(0 <= staked_amount * apr <= 0xffff_ffff_ffff_ffff * 0xffff_ffff_ffff_ffff)
        by (nonlinear_arith)
        requires
            0 <= staked_amount <= 0xffff_ffff_ffff_ffff,
            0 <= apr <= 0xffff_ffff_ffff_ffff,
    ;
}

/// Nothing is earned in no time.
pub proof fn law_no_time_earns_nothing(staked_amount: u64, time: i64, apr: u64)
    ensures
        rewards_defined(staked_amount, time, time, apr),
        reward_amount(staked_amount, time, time, apr) == 0,
{
    lemma_mul_by_zero_is_zero(staked_amount * apr);
}

/// Over a span that does not run backwards the interest is never negative, and a longer span,
/// whenever it begins, a larger stake or a higher rate never earns less.
pub proof fn law_interest_grows(
    staked_amount: u64,
    from: i64,
    to: i64,
    apr: u64,
    more_staked: u64,
    longer_from: i64,
    longer_to: i64,
    higher_apr: u64,
)
    requires
        staked_amount <= more_staked,
        0 <= to - from <= longer_to - longer_from,
        apr <= higher_apr,
    ensures
        0 <= interest(staked_amount, from, to, apr),
        interest(staked_amount, from, to, apr) <= interest(
            more_staked,
            longer_from,
            longer_to,
            higher_apr,
        ),
{
    let shorter = to - from;
    let longer = longer_to - longer_from;
    let less = staked_amount * apr;
    let more = more_staked * higher_apr;
    assert(0 <= less <= more) by (nonlinear_arith)
        requires
            0 <= staked_amount <= more_staked,
            0 <= apr <= higher_apr,
            less == staked_amount * apr,
            more == more_staked * higher_apr,
    ;
    assert(0 <= less * shorter <= more * longer) by (nonlinear_arith)
        requires
            0 <= less <= more,
            0 <= shorter <= longer,
    ;
    lemma_div_is_ordered(less * shorter, more * longer, REWARD_DIVISOR as int);
    lemma_div_pos_is_pos(less * shorter, REWARD_DIVISOR as int);
}

/// Claiming on the way never earns more than claiming once at the end, and loses at most one unit
/// to rounding.
pub proof fn law_splitting_a_span_earns_no_more(
    staked_amount: u64,
    first: i64,
    middle: i64,
    last: i64,
    apr: u64,
)
    requires
        first <= middle <= last,
    ensures
        interest(staked_amount, first, middle, apr) + interest(staked_amount, middle, last, apr)
            <= interest(staked_amount, first, last, apr),
        interest(staked_amount, first, last, apr) <= interest(staked_amount, first, middle, apr)
            + interest(staked_amount, middle, last, apr) + 1,
{
    let yearly = staked_amount * apr;
    let before = yearly * (middle - first);
    let after = yearly * (last - middle);
    lemma_mul_is_distributive_add(yearly, middle - first, last - middle);
    assert(yearly * (last - first) == before + after);
}

/// What is paid is never more than the interest.
pub proof fn lemma_rewards_are_at_most_the_interest(
    staked_amount: u64,
    last_claim_time: i64,
    current_time: i64,
    apr: u64,
)
    requires
        last_claim_time <= current_time,
    ensures
        reward_amount(staked_amount, last_claim_time, current_time, apr) <= interest(
            staked_amount,
            last_claim_time,
            current_time,
            apr,
        ),
{
    law_interest_grows(
        staked_amount,
        last_claim_time,
        current_time,
        apr,
        staked_amount,
        last_claim_time,
        current_time,
        apr,
    );
}

/// A full year of 365 days earns exactly the annual reward.
pub proof fn law_a_year_earns_the_annual_reward(
    staked_amount: u64,
    last_claim_time: i64,
    current_time: i64,
    apr: u64,
)
    requires
        current_time - last_claim_time == SECONDS_PER_YEAR,
    ensures
        interest(staked_amount, last_claim_time, current_time, apr) == annual_interest(
            staked_amount,
            apr,
        ),
        reward_amount(staked_amount, last_claim_time, current_time, apr) == annual_reward_amount(
            staked_amount,
            apr,
        ),
{
    let yearly = staked_amount * apr;
    let year = SECONDS_PER_YEAR as int;
    lemma_mul_is_commutative(yearly, year);
    lemma_div_multiples_vanish_quotient(year, yearly, BASIS_POINTS as int);
}

/// At a rate of at most 100 percent, such as that of any tier, a span of at most a year can be
/// computed, pays the exact interest, never more than the annual reward and never more than the
/// stake itself.
pub proof fn law_within_a_year_the_annual_limit_holds(
    staked_amount: u64,
    last_claim_time: i64,
    current_time: i64,
    apr: u64,
)
    requires
        0 <= current_time - last_claim_time <= SECONDS_PER_YEAR,
        apr <= BASIS_POINTS,
    ensures
        rewards_defined(staked_amount, last_claim_time, current_time, apr),
        reward_amount(staked_amount, last_claim_time, current_time, apr) == interest(
            staked_amount,
            last_claim_time,
            current_time,
            apr,
        ),
        reward_amount(staked_amount, last_claim_time, current_time, apr)
            <= annual_reward_amount(staked_amount, apr),
        annual_reward_amount(staked_amount, apr) == annual_interest(staked_amount, apr),
        annual_reward_amount(staked_amount, apr) <= staked_amount,
{
    let yearly = staked_amount * apr;
    let elapsed = current_time - last_claim_time;
    let year = SECONDS_PER_YEAR as int;
    assert(0 <= yearly <= staked_amount * 10_000) by (nonlinear_arith)
        requires
            yearly == staked_amount * apr,
            0 <= apr <= 10_000,
            0 <= staked_amount,
    ;
    assert(0 <= yearly * elapsed <= yearly * year) by (nonlinear_arith)
        requires
            0 <= elapsed <= year,
            0 <= yearly,
    ;
    assert(yearly * year <= u128::MAX) by (nonlinear_arith)
        requires
            0 <= yearly <= 0xffff_ffff_ffff_ffff * 10_000,
            year == 31_536_000,
    ;
    lemma_div_is_ordered(yearly * elapsed, yearly * year, REWARD_DIVISOR as int);
    lemma_div_pos_is_pos(yearly * elapsed, REWARD_DIVISOR as int);
    lemma_mul_is_commutative(yearly, year);
    lemma_div_multiples_vanish_quotient(year, yearly, BASIS_POINTS as int);
}

/// The annual reward is 4, 6 or 8 percent of the stake, by tier, rounded down.
pub proof fn law_the_annual_reward_is_a_percentage(staked_amount: u64)
    ensures
        annual_reward_amount(staked_amount, StakingTier::Basic.apr()) == staked_amount * 4 / 100,
        annual_reward_amount(staked_amount, StakingTier::Premium.apr()) == staked_amount * 6 / 100,
        annual_reward_amount(staked_amount, StakingTier::Elite.apr()) == staked_amount * 8 / 100,
{
    assert(annual_interest(staked_amount, 400) == staked_amount * 4 / 100);
    assert(annual_interest(staked_amount, 600) == staked_amount * 6 / 100);
    assert(annual_interest(staked_amount, 800) == staked_amount * 8 / 100);
}

} // verus!
