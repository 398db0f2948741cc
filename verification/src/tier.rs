//! The staking tiers: how much a stake must hold, how long it is locked and what it earns.
use vstd::prelude::*;

verus! {

// Amounts are in base units: 1 ZARA is 1_000_000 units (6 decimals).
pub const BASIC_TIER_AMOUNT: u64 = 5_000_000_000;  // 5,000 ZARA

pub const PREMIUM_TIER_AMOUNT: u64 = 50_000_000_000;  // 50,000 ZARA

pub const ELITE_TIER_AMOUNT: u64 = 250_000_000_000;  // 250,000 ZARA

// Annual rates, in basis points.
pub const BASIC_APR: u64 = 400;  // 4%

pub const PREMIUM_APR: u64 = 600;  // 6%

pub const ELITE_APR: u64 = 800;  // 8%

// Lock periods, in seconds.
pub const BASIC_LOCK: i64 = 3 * 24 * 60 * 60;  // 3 days

pub const PREMIUM_LOCK: i64 = 7 * 24 * 60 * 60;  // 7 days

pub const ELITE_LOCK: i64 = 14 * 24 * 60 * 60;  // 14 days

/// A tier of the pool.
#[derive(Clone, Copy, Debug, PartialEq, Eq, Structural)]
pub enum StakingTier {
    Basic,
    Premium,
    Elite,
}

impl Default for StakingTier {
    fn default() -> (tier: Self)
        ensures
            tier == StakingTier::Basic,
    {
        StakingTier::Basic
    }
}

/// The tier that a stake of `amount` units falls in: the highest one whose minimum it reaches.
pub open spec fn tier_of(amount: u64) -> Option<StakingTier> {
    if amount >= ELITE_TIER_AMOUNT {
        Some(StakingTier::Elite)
    } else if amount >= PREMIUM_TIER_AMOUNT {
        Some(StakingTier::Premium)
    } else if amount >= BASIC_TIER_AMOUNT {
        Some(StakingTier::Basic)
    } else {
        None
    }
}

impl StakingTier {
    /// The least stake that the tier takes.
    pub open spec fn minimum(self) -> u64 {
        match self {
            StakingTier::Basic => BASIC_TIER_AMOUNT,
            StakingTier::Premium => PREMIUM_TIER_AMOUNT,
            StakingTier::Elite => ELITE_TIER_AMOUNT,
        }
    }

    /// How long a stake of the tier is locked, in seconds.
    pub open spec fn spec_lock_period(self) -> i64 {
        match self {
            StakingTier::Basic => BASIC_LOCK,
            StakingTier::Premium => PREMIUM_LOCK,
            StakingTier::Elite => ELITE_LOCK,
        }
    }

    /// What a stake of the tier earns in a year, in basis points.
    pub open spec fn spec_apr(self) -> u64 {
        match self {
            StakingTier::Basic => BASIC_APR,
            StakingTier::Premium => PREMIUM_APR,
            StakingTier::Elite => ELITE_APR,
        }
    }

    /// The tier of a stake of `amount` units; `None` below the lowest minimum.
    pub fn for_amount(amount: u64) -> (tier: Option<StakingTier>)
        ensures
            tier == tier_of(amount),
    {
        if amount >= ELITE_TIER_AMOUNT {
            Some(StakingTier::Elite)
        } else if amount >= PREMIUM_TIER_AMOUNT {
            Some(StakingTier::Premium)
        } else if amount >= BASIC_TIER_AMOUNT {
            Some(StakingTier::Basic)
        } else {
            None
        }
    }

    /// How long a stake of the tier is locked, in seconds.
    #[verifier::when_used_as_spec(spec_lock_period)]
    pub fn lock_period(self) -> (seconds: i64)
        ensures
            seconds == self.spec_lock_period(),
    {
        match self {
            StakingTier::Basic => BASIC_LOCK,
            StakingTier::Premium => PREMIUM_LOCK,
            StakingTier::Elite => ELITE_LOCK,
        }
    }

    /// What a stake of the tier earns in a year, in basis points.
    #[verifier::when_used_as_spec(spec_apr)]
    pub fn apr(self) -> (basis_points: u64)
        ensures
            basis_points == self.spec_apr(),
    {
        match self {
            StakingTier::Basic => BASIC_APR,
            StakingTier::Premium => PREMIUM_APR,
            StakingTier::Elite => ELITE_APR,
        }
    }
}

/// A stake reaches the minimum of its tier, and every stake of at least the lowest minimum has a
/// tier.
pub proof fn law_a_stake_reaches_its_tier(amount: u64)
    ensures
        tier_of(amount) matches Some(tier) ==> tier.minimum() <= amount,
        tier_of(amount) is None <==> amount < BASIC_TIER_AMOUNT,
{
}

/// Staking more never earns a lower rate, and never locks for less time.
pub proof fn law_more_never_buys_a_lower_tier(amount: u64, more: u64)
    requires
        amount <= more,
        tier_of(amount) is Some,
    ensures
        tier_of(more) is Some,
        tier_of(amount)->0.apr() <= tier_of(more)->0.apr(),
        tier_of(amount)->0.lock_period() <= tier_of(more)->0.lock_period(),
        tier_of(amount)->0.minimum() <= tier_of(more)->0.minimum(),
{
}

} // verus!
