//! Why a call on the staking ledger was rejected.

use vstd::prelude::*;
use vstd::string::StringExecFns;

verus! {

/// Every rejection leaves the ledger as it was.
#[derive(Clone, Copy, Debug, PartialEq, Eq, Structural)]
pub enum StakingError {
    /// The caller is not the admin.
    Unauthorized,
    /// An address of the configuration is not well-formed.
    InvalidAddress,
    /// The configuration has an epoch length of zero.
    ZeroEpochLength,
    /// The configuration has a yearly interest rate above 100%.
    RewardsPercentageTooHigh,
    /// The configuration has a fee rate above 100%.
    FeePercentageTooHigh,
    /// No coin of the staking denomination came with a stake.
    NoStakeFunds,
    /// A coin of amount zero came with a stake.
    ZeroStake,
    /// No coin of the staking denomination came with a deposit.
    NoDepositFunds,
    /// A coin of amount zero came with a deposit.
    ZeroDeposit,
    /// An unstake of amount zero was asked for.
    ZeroUnstake,
    /// The caller has no record to unstake from.
    StakerNotFound,
    /// The caller asked to unstake more than is staked.
    InsufficientStake,
    /// The caller has no record to claim from.
    ClaimerNotFound,
    /// The caller's claimable balance is zero.
    NoRewards,
    /// No interest is outstanding, so a deposit has nothing to be shared by.
    NothingToDistribute,
    /// A balance or a counter would exceed what it can hold.
    Overflow,
}

impl StakingError {
    /// The text of the rejection.
    pub open spec fn text(self) -> Seq<char> {
        match self {
            StakingError::Unauthorized => "Generic error: Unauthorized"@,
            StakingError::InvalidAddress => "Generic error: Invalid input: address not accepted"@,
            StakingError::ZeroEpochLength => "Generic error: epoch_length cannot be zero"@,
            StakingError::RewardsPercentageTooHigh => "Generic error: rewards_percentage cannot be greater than 100%"@,
            StakingError::FeePercentageTooHigh => "Generic error: staking_fee_percentage cannot be greater than 100%"@,
            StakingError::NoStakeFunds => "Generic error: Must stake WattPeak tokens to the contract"@,
            StakingError::ZeroStake => "Generic error: Stake amount can't be zero"@,
            StakingError::NoDepositFunds => "Generic error: Must deposit WattPeak tokens to the contract"@,
            StakingError::ZeroDeposit => "Generic error: Deposit amount can't be zero"@,
            StakingError::ZeroUnstake => "Generic error: Unstake amount can't be zero"@,
            StakingError::StakerNotFound => "Generic error: Staker does not exist"@,
            StakingError::InsufficientStake => "Generic error: Insufficient staked wattpeak"@,
            StakingError::ClaimerNotFound => "wattpeak_staker::state::Staker not found"@,
            StakingError::NoRewards => "Generic error: No rewards to claim"@,
            StakingError::NothingToDistribute => "Generic error: No interest to distribute rewards by"@,
            StakingError::Overflow => "Generic error: Overflow"@,
        }
    }

    /// The text of the rejection.
    pub fn to_string(&self) -> (s: String)
        ensures
            s@ == self.text(),
    {
        match self {
            StakingError::Unauthorized => String::from_str("Generic error: Unauthorized"),
            StakingError::InvalidAddress => String::from_str("Generic error: Invalid input: address not accepted"),
            StakingError::ZeroEpochLength => String::from_str("Generic error: epoch_length cannot be zero"),
            StakingError::RewardsPercentageTooHigh => String::from_str(
                "Generic error: rewards_percentage cannot be greater than 100%",
            ),
            StakingError::FeePercentageTooHigh => String::from_str(
                "Generic error: staking_fee_percentage cannot be greater than 100%",
            ),
            StakingError::NoStakeFunds => String::from_str(
                "Generic error: Must stake WattPeak tokens to the contract",
            ),
            StakingError::ZeroStake => String::from_str("Generic error: Stake amount can't be zero"),
            StakingError::NoDepositFunds => String::from_str(
                "Generic error: Must deposit WattPeak tokens to the contract",
            ),
            StakingError::ZeroDeposit => String::from_str("Generic error: Deposit amount can't be zero"),
            StakingError::ZeroUnstake => String::from_str("Generic error: Unstake amount can't be zero"),
            StakingError::StakerNotFound => String::from_str("Generic error: Staker does not exist"),
            StakingError::InsufficientStake => String::from_str("Generic error: Insufficient staked wattpeak"),
            StakingError::ClaimerNotFound => String::from_str("wattpeak_staker::state::Staker not found"),
            StakingError::NoRewards => String::from_str("Generic error: No rewards to claim"),
            StakingError::NothingToDistribute => String::from_str(
                "Generic error: No interest to distribute rewards by",
            ),
            StakingError::Overflow => String::from_str("Generic error: Overflow"),
        }
    }
}

} // verus!
