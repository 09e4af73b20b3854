//! The questions that the ledger answers without changing.

use vstd::prelude::*;

use crate::decimal::Decimal;
use crate::staker::model::EntryState;
use crate::staker::model::StakerState;
use crate::staker::msg::QueryMsg;
use crate::staker::msg::QueryResponse;
use crate::staker::msg::StakersResponse;
use crate::staker::state::Config;
use crate::staker::state::entries_view;
use crate::staker::state::Ledger;
use crate::staker::state::Staker;

verus! {

/// The record that stands for an address without an account: all zero.
pub open spec fn no_record() -> StakerState {
    StakerState { staked: 0, interest: 0, start_time: 0, claimable: 0 }
}

/// The records of a listing without their addresses.
pub open spec fn records(stakers: Seq<Staker>) -> Seq<StakerState> {
    stakers.map_values(|s: Staker| s@)
}

/// The configuration in force.
pub fn query_config(ledger: &Ledger) -> (r: Config)
    ensures
        r@ == ledger@.config,
{
    let config = ledger.config();
    Config {
        admin: config.admin.clone(),
        rewards_percentage: config.rewards_percentage,
        epoch_length: config.epoch_length,
        wattpeak_denom: config.wattpeak_denom.clone(),
        staking_fee_percentage: config.staking_fee_percentage,
        staking_fee_address: config.staking_fee_address.clone(),
    }
}

/// The record of `address`, or the all-zero record where it has none.
pub fn query_staker(ledger: &Ledger, address: String) -> (r: Staker)
    requires
        ledger.wf(),
    ensures
        r@ == match ledger@.staker(address@) {
            Some(staker) => staker,
            None => no_record(),
        },
{
    match ledger.staker(address.as_str()) {
        Some(staker) => staker,
        None => Staker::default(),
    }
}

/// The records of all stakers, in ascending order of address.
pub fn query_stakers(ledger: &Ledger) -> (r: StakersResponse)
    ensures
        records(r.stakers@) == ledger@.stakers.map_values(|e: EntryState| e.staker),
{
    let entries = ledger.stakers();
    let ghost listing = ledger@.stakers;
    let ghost target = listing.map_values(|e: EntryState| e.staker);
    let mut stakers: Vec<Staker> = Vec::new();
    let mut i: usize = 0;
    assert(records(stakers@) =~= target.take(0));
    while i < entries.len()
        invariant
            i <= entries.len(),
            listing == entries_view(entries@),
            target == listing.map_values(|e: EntryState| e.staker),
            records(stakers@) == target.take(i as int),
        decreases entries.len() - i,
    {
        let ghost done = records(stakers@);
        let staker: Staker = entries[i].staker;
        stakers.push(staker);
        proof {
            assert(listing[i as int].staker == staker@);
            assert(records(stakers@) =~= done.push(staker@));
            assert(target.take(i + 1) =~= target.take(i as int).push(target[i as int]));
        }
        i += 1;
    }
    assert(target.take(entries.len() as int) =~= target);
    StakersResponse { stakers }
}

/// The sum of all stakes.
pub fn query_total_wattpeak_staked(ledger: &Ledger) -> (r: u128)
    ensures
        r == ledger@.total_wattpeak_staked,
{
    ledger.total_wattpeak_staked()
}

/// The interest outstanding over all stakers.
pub fn query_total_interest_wattpeak(ledger: &Ledger) -> (r: Decimal)
    ensures
        r@ == ledger@.total_interest_wattpeak,
{
    ledger.total_interest_wattpeak()
}

/// Answers `msg` from the ledger.
pub fn query(ledger: &Ledger, msg: QueryMsg) -> (r: QueryResponse)
    requires
        ledger.wf(),
    ensures
        match msg {
            QueryMsg::Config {  } => r matches QueryResponse::Config(config) && config@ == ledger@.config,
            QueryMsg::Staker { address } => r matches QueryResponse::Staker(staker) && staker@ == match ledger@.staker(
                address@,
            ) {
                Some(found) => found,
                None => no_record(),
            },
            QueryMsg::Stakers {  } => r matches QueryResponse::Stakers(all) && records(all.stakers@)
                == ledger@.stakers.map_values(|e: EntryState| e.staker),
            QueryMsg::TotalWattpeakStaked {  } => r matches QueryResponse::TotalWattpeakStaked(total) && total
                == ledger@.total_wattpeak_staked,
            QueryMsg::TotalInterestWattpeak {  } => r matches QueryResponse::TotalInterestWattpeak(total)
                && total@ == ledger@.total_interest_wattpeak,
        },
{
    match msg {
        QueryMsg::Config {  } => QueryResponse::Config(query_config(ledger)),
        QueryMsg::Staker { address } => QueryResponse::Staker(query_staker(ledger, address)),
        QueryMsg::Stakers {  } => QueryResponse::Stakers(query_stakers(ledger)),
        QueryMsg::TotalWattpeakStaked {  } => QueryResponse::TotalWattpeakStaked(
            query_total_wattpeak_staked(ledger),
        ),
        QueryMsg::TotalInterestWattpeak {  } => QueryResponse::TotalInterestWattpeak(
            query_total_interest_wattpeak(ledger),
        ),
    }
}

} // verus!
