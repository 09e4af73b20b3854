//! The minting ledger: projects that allow an amount of WattPeak each, and
//! the minting of WattPeak against what a project has left, at a price and
//! a fee.

pub mod error;
pub mod model;
pub mod state;
pub mod helpers;
pub mod msg;
pub mod execute;
pub mod query;

use vstd::prelude::*;
use vstd::string::StringExecFns;

use crate::minter::error::ContractError;
use crate::minter::helpers::create_denom_msg;
use crate::minter::helpers::create_denom_spec;
use crate::minter::helpers::MinterMsg;
use crate::minter::helpers::MinterMsgState;
use crate::minter::helpers::MinterResponse;
use crate::minter::helpers::MinterResponseState;
use crate::minter::helpers::NewDenom;
use crate::minter::model::ConfigState;
use crate::minter::model::MinterState;
use crate::minter::model::ProjectState;
use crate::minter::msg::InstantiateMsg;
use crate::minter::state::DECIMALS;
use crate::minter::state::DESCRIPTION;
use crate::minter::state::Minter;
use crate::minter::state::NAME;
use crate::minter::state::Project;
use crate::minter::state::SUBDENOM;
use crate::minter::state::SYMBOL;
use crate::minter::state::validate_config_spec;
use crate::response::AttributeState;

verus! {

/// The full denomination of the token that the contract at
/// `contract_address` creates: `factory/{contract_address}/{SUBDENOM}`.
pub open spec fn full_denom_of(contract_address: Seq<char>) -> Seq<char> {
    "factory/"@ + contract_address + "/"@ + SUBDENOM@
}

/// The ledger that a configuration starts with: no project, nothing
/// available, nothing minted.
pub open spec fn fresh(config: ConfigState, contract_address: Seq<char>) -> MinterState {
    MinterState {
        config,
        projects: Seq::<ProjectState>::empty(),
        available_wattpeak_count: 0,
        total_wattpeak_minted_count: 0,
        full_denom: full_denom_of(contract_address),
    }
}

/// Sets up a ledger with the configuration of `msg`, where that
/// configuration is valid, and has the WattPeak denomination created for
/// the contract at `contract_address`. `addresses_are_valid` is the host's
/// verdict on the addresses in the configuration.
pub fn instantiate(msg: InstantiateMsg, contract_address: &str, addresses_are_valid: bool) -> (r: Result<
    (Minter, MinterResponse),
    ContractError,
>)
    ensures
        match validate_config_spec(msg.config@, addresses_are_valid) {
            Err(e) => r == Err::<(Minter, MinterResponse), ContractError>(ContractError::Std(e)),
            Ok(_) => r is Ok && r->Ok_0.0@ == fresh(msg.config@, contract_address@) && r->Ok_0.0.wf()
                && r->Ok_0.1@ == (MinterResponseState {
                messages: seq![
                    MinterMsgState::Custom(
                        create_denom_spec(
                            SUBDENOM@,
                            full_denom_of(contract_address@),
                            NAME@,
                            Some(DESCRIPTION@),
                            SYMBOL@,
                            DECIMALS as nat,
                        ),
                    ),
                ],
                attributes: Seq::<AttributeState>::empty(),
            }),
        },
{
    match msg.config.validate(addresses_are_valid) {
        Ok(()) => {},
        Err(e) => {
            return Err(ContractError::Std(e));
        },
    }
    let mut full_denom = String::from_str("factory/");
    full_denom.append(contract_address);
    full_denom.append("/");
    full_denom.append(SUBDENOM);
    let projects: Vec<Project> = Vec::new();
    let ledger = Minter {
        config: msg.config,
        projects,
        available_wattpeak_count: 0,
        total_wattpeak_minted_count: 0,
        full_denom: full_denom.clone(),
    };
    proof {
        ledger.view_is();
        assert(ledger@.projects =~= Seq::<ProjectState>::empty());
    }
    let denom = NewDenom {
        name: String::from_str(NAME),
        description: Some(String::from_str(DESCRIPTION)),
        symbol: String::from_str(SYMBOL),
        decimals: DECIMALS,
        initial_balances: None,
    };
    let create = create_denom_msg(String::from_str(SUBDENOM), full_denom, denom);
    let response = MinterResponse::new().add_message(MinterMsg::Custom(create));
    assert(response@.messages =~= seq![
        MinterMsgState::Custom(
            create_denom_spec(
                SUBDENOM@,
                full_denom_of(contract_address@),
                NAME@,
                Some(DESCRIPTION@),
                SYMBOL@,
                DECIMALS as nat,
            ),
        ),
    ]);
    Ok((ledger, response))
}

} // verus!
