//! The staking ledger: accounts that lock WattPeak, interest that accrues
//! epoch by epoch, deposited rewards shared out in proportion to that
//! interest, and claims that pay a staker net of the protocol fee.

pub mod error;
pub mod model;
pub mod state;
pub mod execute;
pub mod helpers;
pub mod msg;
pub mod query;
pub mod theorems;

use vstd::prelude::*;

use crate::decimal::Decimal;
use crate::response::attribute;
use crate::response::PaymentState;
use crate::response::Response;
use crate::response::ResponseState;
use crate::staker::error::StakingError;
use crate::staker::helpers::set_yearly_percentage;
use crate::staker::model::ConfigState;
use crate::staker::model::EntryState;
use crate::staker::model::LedgerState;
use crate::staker::model::year_fraction;
use crate::staker::msg::InstantiateMsg;
use crate::staker::state::Ledger;
use crate::staker::state::StakerEntry;
use crate::staker::state::validate_spec;

verus! {

/// The ledger that a configuration starts with: no staker, nothing staked,
/// no interest outstanding, no epoch ended.
pub open spec fn fresh(config: ConfigState) -> LedgerState {
    LedgerState {
        config,
        percentage_of_year: year_fraction(config.epoch_length),
        stakers: Seq::<EntryState>::empty(),
        total_wattpeak_staked: 0,
        total_interest_wattpeak: 0,
        epoch_count: 0,
    }
}

/// Sets up a ledger with the configuration of `msg`, where that
/// configuration is valid. `addresses_are_valid` is the host's verdict on
/// the addresses in it.
pub fn instantiate(msg: InstantiateMsg, addresses_are_valid: bool) -> (r: Result<(Ledger, Response), StakingError>)
    ensures
        match validate_spec(msg.config@, addresses_are_valid) {
            Err(e) => r == Err::<(Ledger, Response), StakingError>(e),
            Ok(_) => r is Ok && r->Ok_0.0@ == fresh(msg.config@) && r->Ok_0.0.wf() && r->Ok_0.1@ == (
            ResponseState {
                messages: Seq::<PaymentState>::empty(),
                attributes: seq![attribute("method"@, "instantiate"@)],
            }),
        },
{
    match msg.config.validate(addresses_are_valid) {
        Ok(()) => {},
        Err(e) => {
            return Err(e);
        },
    }
    let mut percentage_of_year = Decimal::zero();
    set_yearly_percentage(&mut percentage_of_year, msg.config.epoch_length);
    let stakers: Vec<StakerEntry> = Vec::new();
    let ledger = Ledger {
        config: msg.config,
        percentage_of_year,
        stakers,
        total_wattpeak_staked: 0,
        total_interest_wattpeak: Decimal::zero(),
        epoch_count: 0,
    };
    proof {
        ledger.view_is();
        assert(ledger@.stakers =~= Seq::<EntryState>::empty());
    }
    let response = Response::new().add_attribute("method", "instantiate".to_owned());
    assert(response@.attributes =~= seq![attribute("method"@, "instantiate"@)]);
    Ok((ledger, response))
}

} // verus!
