//! The messages that the staking ledger takes and the answers it gives.

use vstd::prelude::*;

use crate::decimal::Decimal;
use crate::staker::state::Config;
use crate::staker::state::Staker;

verus! {

/// Sets the ledger up.
#[derive(Clone, Debug, PartialEq, Eq)]
pub struct InstantiateMsg {
    pub config: Config,
}

/// One operation on the ledger.
#[derive(Clone, Debug, PartialEq, Eq)]
pub enum ExecuteMsg {
    /// Changes the configuration; a field that is `None` stays as it is.
    UpdateConfig { admin: Option<String>, rewards_percentage: Option<Decimal>, epoch_length: Option<u64> },
    /// Stakes the coins attached to the call.
    Stake {},
    /// Releases `amount` of the caller's stake.
    Unstake { amount: u128 },
    /// Pays out the caller's claimable rewards.
    ClaimReward {},
    /// Shares the coins attached to the call among the stakers.
    DepositRewards {},
    /// Ends an epoch.
    NewEpoch {},
}

/// One question to the ledger.
#[derive(Clone, Debug, PartialEq, Eq)]
pub enum QueryMsg {
    Config {},
    Staker { address: String },
    Stakers {},
    TotalWattpeakStaked {},
    TotalInterestWattpeak {},
}

/// The records of all stakers, in ascending order of address.
#[derive(Clone, Debug, PartialEq, Eq)]
pub struct StakersResponse {
    pub stakers: Vec<Staker>,
}

/// The sum of all stakes.
#[derive(Clone, Copy, Debug, PartialEq, Eq, Structural)]
pub struct TotalWattpeakStakedResponse {
    pub total_staked: u128,
}

/// The interest outstanding over all stakers.
#[derive(Clone, Copy, Debug, PartialEq, Eq, Structural)]
pub struct TotalInterestWattpeakResponse {
    pub total_interest: Decimal,
}

/// The answer to a [`QueryMsg`], one kind for each kind of question.
#[derive(Clone, Debug, PartialEq, Eq)]
pub enum QueryResponse {
    Config(Config),
    Staker(Staker),
    Stakers(StakersResponse),
    TotalWattpeakStaked(u128),
    TotalInterestWattpeak(Decimal),
}

} // verus!
