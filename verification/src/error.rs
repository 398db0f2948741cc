//! Why an instruction is refused.
use vstd::prelude::*;

verus! {

/// The refusals of the staking rules themselves.
#[derive(Clone, Copy, Debug, PartialEq, Eq, Structural)]
pub enum StakingError {
    MinStakeDurationNotMet,
    InsufficientStakeAmount,
    Unauthorized,
    PoolPaused,
    PoolNotPaused,
    ExcessiveRewardPool,
    AnnualRewardLimitExceeded,
    InvalidMint,
    InvalidTierAmount,
    InsufficientRewardPool,
    InsufficientStakeVault,
    MaxStakeExceeded,
}

/// A relation between the accounts of an instruction that does not hold.
#[derive(Clone, Copy, Debug, PartialEq, Eq, Structural)]
pub enum Constraint {
    /// An account names another one than the one passed.
    HasOne,
    /// An account is not at the address derived for it.
    Seeds,
    /// An account that is to be closed would receive its own balance.
    Close,
    /// A token account holds another mint.
    TokenMint,
    /// A token account belongs to another owner.
    TokenOwner,
    /// Nothing is stored in an account.
    NotInitialized,
    /// An account is of another program.
    WrongProgram,
}

/// Why an instruction failed.
#[derive(Clone, Copy, Debug, PartialEq, Eq, Structural)]
pub enum Failure {
    /// A staking rule refused it.
    Staking(StakingError),
    /// The accounts do not belong together.
    Constraint(Constraint),
    /// Reading the clock or moving tokens failed, with this code.
    Runtime(u64),
}

impl StakingError {
    /// The text shown for the refusal.
    pub open spec fn spec_message(self) -> Seq<char> {
        match self {
            StakingError::MinStakeDurationNotMet => "Minimum staking duration not met"@,
            StakingError::InsufficientStakeAmount => "Insufficient stake amount (min 5,000 ZARA)"@,
            StakingError::Unauthorized => "Unauthorized access"@,
            StakingError::PoolPaused => "Pool is paused"@,
            StakingError::PoolNotPaused => "Pool is not paused"@,
            StakingError::ExcessiveRewardPool => "Excessive reward pool amount"@,
            StakingError::AnnualRewardLimitExceeded => "Annual reward limit exceeded"@,
            StakingError::InvalidMint => "Invalid mint address"@,
            StakingError::InvalidTierAmount => "Invalid amount for selected tier"@,
            StakingError::InsufficientRewardPool => "Insufficient reward pool balance"@,
            StakingError::InsufficientStakeVault => "Insufficient stake vault balance"@,
            StakingError::MaxStakeExceeded => "Maximum stake amount exceeded for tier"@,
        }
    }

    /// The text shown for the refusal.
    pub fn message(self) -> (text: &'static str)
        ensures
            text@ == self.spec_message(),
    {
        match self {
            StakingError::MinStakeDurationNotMet => "Minimum staking duration not met",
            StakingError::InsufficientStakeAmount => "Insufficient stake amount (min 5,000 ZARA)",
            StakingError::Unauthorized => "Unauthorized access",
            StakingError::PoolPaused => "Pool is paused",
            StakingError::PoolNotPaused => "Pool is not paused",
            StakingError::ExcessiveRewardPool => "Excessive reward pool amount",
            StakingError::AnnualRewardLimitExceeded => "Annual reward limit exceeded",
            StakingError::InvalidMint => "Invalid mint address",
            StakingError::InvalidTierAmount => "Invalid amount for selected tier",
            StakingError::InsufficientRewardPool => "Insufficient reward pool balance",
            StakingError::InsufficientStakeVault => "Insufficient stake vault balance",
            StakingError::MaxStakeExceeded => "Maximum stake amount exceeded for tier",
        }
    }
}

} // verus!
