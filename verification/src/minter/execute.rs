//! The operations that change the minting ledger: the upload and the
//! editing of projects, the change of configuration, and minting.

use vstd::prelude::*;

use crate::decimal::Decimal;
use crate::decimal::DECIMAL_FRACTIONAL;
use crate::decimal::product_of_whole;
use crate::given::atomics_of;
use crate::given::number_of;
use crate::given::or_else;
use crate::given::text_of;
use crate::minter::error::ContractError;
use crate::minter::error::StdError;
use crate::minter::helpers::MinterMsg;
use crate::minter::helpers::MinterMsgState;
use crate::minter::helpers::MinterResponse;
use crate::minter::helpers::MinterResponseState;
use crate::minter::helpers::TokenMsg;
use crate::minter::helpers::TokenMsgState;
use crate::minter::model::ConfigState;
use crate::minter::model::LocationState;
use crate::minter::model::MinterState;
use crate::minter::model::ProjectState;
use crate::minter::model::total_allowed_push;
use crate::minter::model::totals_bound;
use crate::minter::model::totals_update;
use crate::minter::msg::ExecuteMsg;
use crate::minter::state::Config;
use crate::minter::state::Location;
use crate::minter::state::Minter;
use crate::minter::state::Project;
use crate::minter::state::projects_view;
use crate::minter::state::validate_config_spec;
use crate::minter::state::validate_project_spec;
use crate::response::attribute;
use crate::response::Coin;
use crate::response::CoinState;
use crate::response::MessageInfo;
use crate::response::MessageInfoState;
use crate::response::Payment;
use crate::response::payment;
use crate::text::uint_text;
use crate::text::uint_to_string;

verus! {

/// The units of WattPeak in one whole WattPeak, which is what the price of
/// minting is the price of.
pub const UNITS_PER_WATTPEAK: u128 = 1_000_000;

/// What an operation comes to on a given ledger: the ledger and the
/// response that it leaves, or the reason for which it is rejected.
pub type Outcome = Result<(MinterState, MinterResponseState), ContractError>;

/// A call came to `expected`: on success the ledger went from `before` to
/// the state named there and the response is the one named there; on
/// rejection the error is the one named there and the ledger is as before.
pub open spec fn outcome_is(
    expected: Outcome,
    before: MinterState,
    after: MinterState,
    r: Result<MinterResponse, ContractError>,
) -> bool {
    match expected {
        Ok((next, response)) => r is Ok && r->Ok_0@ == response && after == next,
        Err(e) => r == Err::<MinterResponse, ContractError>(e) && after == before,
    }
}

// ---------------------------------------------------------------------------
// Upload of a project
// ---------------------------------------------------------------------------

/// What the upload of `project` comes to. It is rejected where the caller
/// is not the admin, where the count of projects would exceed 64 bits,
/// where the project is not valid, and where the WattPeak available would
/// exceed 64 bits. Otherwise the project is listed under the next id and
/// what it allows is available.
pub open spec fn upload_outcome(ledger: MinterState, info: MessageInfoState, project: ProjectState) -> Outcome {
    if ledger.config.admin != info.sender {
        Err(ContractError::Unauthorized {  })
    } else if ledger.projects.len() + 1 > u64::MAX {
        Err(ContractError::Overflow {  })
    } else {
        match validate_project_spec(project) {
            Err(e) => Err(ContractError::Std(e)),
            Ok(_) => if ledger.available_wattpeak_count + project.max_wattpeak > u64::MAX {
                Err(ContractError::Overflow {  })
            } else {
                Ok(
                    (
                        MinterState {
                            projects: ledger.projects.push(project),
                            available_wattpeak_count: ledger.available_wattpeak_count + project.max_wattpeak,
                            ..ledger
                        },
                        MinterResponseState {
                            messages: Seq::<MinterMsgState>::empty(),
                            attributes: seq![
                                attribute("action"@, "upload_project"@),
                                attribute("project_id"@, uint_text(ledger.projects.len() + 1)),
                                attribute("new_wattpeak"@, uint_text(project.max_wattpeak)),
                            ],
                        },
                    ),
                )
            },
        }
    }
}

/// The project that an upload makes of its parts: nothing is minted for it.
pub open spec fn new_project(
    name: Seq<char>,
    description: Seq<char>,
    document_deal_link: Seq<char>,
    max_wattpeak: nat,
    image_link: Seq<char>,
    location: LocationState,
) -> ProjectState {
    ProjectState {
        name,
        description,
        document_deal_link,
        max_wattpeak,
        image_link,
        location,
        minted_wattpeak_count: 0,
    }
}

/// Lists a new project under the next id.
pub fn upload_project(
    ledger: &mut Minter,
    info: &MessageInfo,
    name: String,
    description: String,
    document_deal_link: String,
    max_wattpeak: u64,
    image_link: String,
    location: Location,
) -> (r: Result<MinterResponse, ContractError>)
    requires
        old(ledger).wf(),
    ensures
        final(ledger).wf(),
        outcome_is(
            upload_outcome(
                old(ledger)@,
                info@,
                new_project(name@, description@, document_deal_link@, max_wattpeak as nat, image_link@, location@),
            ),
            old(ledger)@,
            final(ledger)@,
            r,
        ),
{
    let ghost before = ledger@;
    proof {
        ledger.view_is();
    }
    if !(ledger.config.admin == info.sender) {
        return Err(ContractError::Unauthorized {  });
    }
    let id: u64 = match (ledger.projects.len() as u64).checked_add(1) {
        Some(value) => value,
        None => {
            return Err(ContractError::Overflow {  });
        },
    };
    let project = Project {
        name,
        description,
        document_deal_link,
        max_wattpeak,
        image_link,
        location,
        minted_wattpeak_count: 0,
    };
    match project.validate() {
        Ok(()) => {},
        Err(e) => {
            return Err(ContractError::Std(e));
        },
    }
    let available: u64 = match ledger.available_wattpeak_count.checked_add(max_wattpeak) {
        Some(value) => value,
        None => {
            return Err(ContractError::Overflow {  });
        },
    };
    let ghost added = project@;
    proof {
        total_allowed_push(before.projects, added);
        let after = before.projects.push(added);
        assert forall|i: int| 0 <= i < after.len() implies (#[trigger] after[i]).valid() by {
            if i < before.projects.len() {
                assert(after[i] == before.projects[i]);
            }
        }
    }
    ledger.projects.push(project);
    ledger.available_wattpeak_count = available;
    proof {
        ledger.view_is();
        assert(projects_view(ledger.projects@) =~= before.projects.push(added));
    }
    let response = MinterResponse::new().add_attribute("action", "upload_project".to_owned()).add_attribute(
        "project_id",
        uint_to_string(id as u128),
    ).add_attribute("new_wattpeak", uint_to_string(max_wattpeak as u128));
    proof {
        let expected = upload_outcome(before, info@, added);
        assert(response@.attributes =~= expected->Ok_0.1.attributes);
        assert(response@.messages =~= expected->Ok_0.1.messages);
    }
    Ok(response)
}

// ---------------------------------------------------------------------------
// Editing of a project
// ---------------------------------------------------------------------------

/// The project with each given value in place of the one it had.
pub open spec fn edited(
    project: ProjectState,
    name: Option<Seq<char>>,
    description: Option<Seq<char>>,
    document_deal_link: Option<Seq<char>>,
    max_wattpeak: Option<nat>,
    image_link: Option<Seq<char>>,
    location: Option<LocationState>,
) -> ProjectState {
    ProjectState {
        name: or_else(name, project.name),
        description: or_else(description, project.description),
        document_deal_link: or_else(document_deal_link, project.document_deal_link),
        max_wattpeak: or_else(max_wattpeak, project.max_wattpeak),
        image_link: or_else(image_link, project.image_link),
        location: or_else(location, project.location),
        minted_wattpeak_count: project.minted_wattpeak_count,
    }
}

/// What the replacement of the project `id` by `project` comes to. It is
/// rejected where the caller is not the admin, where no project has the
/// id, where `project` is not valid, and where the WattPeak available would
/// exceed 64 bits. Otherwise `project` stands under the id, and what is
/// available has changed by as much as what the project allows.
pub open spec fn edit_outcome(ledger: MinterState, info: MessageInfoState, id: nat, project: ProjectState) -> Outcome {
    if ledger.config.admin != info.sender {
        Err(ContractError::Unauthorized {  })
    } else if !ledger.has_project(id) {
        Err(ContractError::Std(StdError::ProjectNotFound))
    } else {
        let available = ledger.available_wattpeak_count + project.max_wattpeak - ledger.project(id).max_wattpeak;
        match validate_project_spec(project) {
            Err(e) => Err(ContractError::Std(e)),
            Ok(_) => if available > u64::MAX {
                Err(ContractError::Overflow {  })
            } else {
                Ok(
                    (
                        MinterState {
                            projects: ledger.projects.update(id - 1, project),
                            available_wattpeak_count: available as nat,
                            ..ledger
                        },
                        MinterResponseState {
                            messages: Seq::<MinterMsgState>::empty(),
                            attributes: seq![
                                attribute("action"@, "edit_project"@),
                                attribute("project_id"@, uint_text(id)),
                                attribute("new_wattpeak"@, uint_text(project.max_wattpeak)),
                            ],
                        },
                    ),
                )
            },
        }
    }
}

/// The view of a location that may be given.
pub open spec fn location_of(value: Option<Location>) -> Option<LocationState> {
    match value {
        Some(location) => Some(location@),
        None => None,
    }
}

/// The project that an edit of the project `id` asks for, where there is
/// such a project.
pub open spec fn edit_request(
    ledger: MinterState,
    id: nat,
    name: Option<Seq<char>>,
    description: Option<Seq<char>>,
    document_deal_link: Option<Seq<char>>,
    max_wattpeak: Option<nat>,
    image_link: Option<Seq<char>>,
    location: Option<LocationState>,
) -> ProjectState {
    edited(ledger.project(id), name, description, document_deal_link, max_wattpeak, image_link, location)
}

/// Changes the project `id` in each part for which a new value is given.
pub fn edit_project(
    ledger: &mut Minter,
    info: &MessageInfo,
    id: u64,
    name: Option<String>,
    description: Option<String>,
    document_deal_link: Option<String>,
    max_wattpeak: Option<u64>,
    image_link: Option<String>,
    location: Option<Location>,
) -> (r: Result<MinterResponse, ContractError>)
    requires
        old(ledger).wf(),
    ensures
        final(ledger).wf(),
        outcome_is(
            edit_outcome(
                old(ledger)@,
                info@,
                id as nat,
                edit_request(
                    old(ledger)@,
                    id as nat,
                    text_of(name),
                    text_of(description),
                    text_of(document_deal_link),
                    number_of(max_wattpeak),
                    text_of(image_link),
                    location_of(location),
                ),
            ),
            old(ledger)@,
            final(ledger)@,
            r,
        ),
{
    let ghost before = ledger@;
    proof {
        ledger.view_is();
    }
    if !(ledger.config.admin == info.sender) {
        return Err(ContractError::Unauthorized {  });
    }
    if id == 0 || id > ledger.projects.len() as u64 {
        return Err(ContractError::Std(StdError::ProjectNotFound));
    }
    let at: usize = (id - 1) as usize;
    assert(before.projects[at as int] == ledger.projects[at as int]@);
    let old_max_wattpeak: u64 = ledger.projects[at].max_wattpeak;
    let old_minted: u64 = ledger.projects[at].minted_wattpeak_count;
    let project = Project {
        name: match name {
            Some(value) => value,
            None => ledger.projects[at].name.clone(),
        },
        description: match description {
            Some(value) => value,
            None => ledger.projects[at].description.clone(),
        },
        document_deal_link: match document_deal_link {
            Some(value) => value,
            None => ledger.projects[at].document_deal_link.clone(),
        },
        max_wattpeak: match max_wattpeak {
            Some(value) => value,
            None => old_max_wattpeak,
        },
        image_link: match image_link {
            Some(value) => value,
            None => ledger.projects[at].image_link.clone(),
        },
        location: match location {
            Some(value) => value,
            None => Location {
                latitude: ledger.projects[at].location.latitude.clone(),
                longitude: ledger.projects[at].location.longitude.clone(),
            },
        },
        minted_wattpeak_count: old_minted,
    };
    let ghost request = edit_request(
        before,
        id as nat,
        text_of(name),
        text_of(description),
        text_of(document_deal_link),
        number_of(max_wattpeak),
        text_of(image_link),
        location_of(location),
    );
    assert(project@ == request);
    match project.validate() {
        Ok(()) => {},
        Err(e) => {
            return Err(ContractError::Std(e));
        },
    }
    proof {
        totals_bound(before.projects, at as int);
        totals_update(before.projects, at as int, request);
    }
    let new_max_wattpeak: u64 = project.max_wattpeak;
    let available: u64 = if new_max_wattpeak > old_max_wattpeak {
        match ledger.available_wattpeak_count.checked_add(new_max_wattpeak - old_max_wattpeak) {
            Some(value) => value,
            None => {
                return Err(ContractError::Overflow {  });
            },
        }
    } else {
        ledger.available_wattpeak_count - (old_max_wattpeak - new_max_wattpeak)
    };
    proof {
        let after = before.projects.update(at as int, request);
        assert forall|i: int| 0 <= i < after.len() implies (#[trigger] after[i]).valid() by {
            if i != at {
                assert(after[i] == before.projects[i]);
            }
        }
    }
    ledger.projects.set(at, project);
    ledger.available_wattpeak_count = available;
    proof {
        ledger.view_is();
        assert(projects_view(ledger.projects@) =~= before.projects.update(at as int, request));
    }
    let response = MinterResponse::new().add_attribute("action", "edit_project".to_owned()).add_attribute(
        "project_id",
        uint_to_string(id as u128),
    ).add_attribute("new_wattpeak", uint_to_string(new_max_wattpeak as u128));
    proof {
        let expected = edit_outcome(before, info@, id as nat, request);
        assert(response@.attributes =~= expected->Ok_0.1.attributes);
        assert(response@.messages =~= expected->Ok_0.1.messages);
    }
    Ok(response)
}

// ---------------------------------------------------------------------------
// Change of configuration
// ---------------------------------------------------------------------------

/// The view of a coin that may be given.
pub open spec fn coin_of(value: Option<Coin>) -> Option<CoinState> {
    match value {
        Some(coin) => Some(coin@),
        None => None,
    }
}

/// The configuration with each given value in place of the one it had.
pub open spec fn merged(
    config: ConfigState,
    admin: Option<Seq<char>>,
    minting_price: Option<CoinState>,
    minting_payment_address: Option<Seq<char>>,
    minting_fee_percentage: Option<nat>,
    minting_fee_address: Option<Seq<char>>,
) -> ConfigState {
    ConfigState {
        admin: or_else(admin, config.admin),
        minting_price: or_else(minting_price, config.minting_price),
        minting_payment_address: or_else(minting_payment_address, config.minting_payment_address),
        minting_fee_percentage: or_else(minting_fee_percentage, config.minting_fee_percentage),
        minting_fee_address: or_else(minting_fee_address, config.minting_fee_address),
    }
}

/// What the change of the configuration to `config` comes to. It is
/// rejected where the caller is not the admin and where `config` is not
/// valid; `addresses_are_valid` is the host's verdict on the addresses in
/// it. Otherwise `config` is in force.
pub open spec fn update_outcome(
    ledger: MinterState,
    info: MessageInfoState,
    config: ConfigState,
    addresses_are_valid: bool,
) -> Outcome {
    if ledger.config.admin != info.sender {
        Err(ContractError::Unauthorized {  })
    } else {
        match validate_config_spec(config, addresses_are_valid) {
            Err(e) => Err(ContractError::Std(e)),
            Ok(_) => Ok(
                (
                    MinterState { config, ..ledger },
                    MinterResponseState {
                        messages: Seq::<MinterMsgState>::empty(),
                        attributes: seq![attribute("action"@, "update_config"@)],
                    },
                ),
            ),
        }
    }
}

/// Changes the configuration in each part for which a new value is given,
/// and checks the configuration that results.
pub fn update_config(
    ledger: &mut Minter,
    info: &MessageInfo,
    admin: Option<String>,
    minting_price: Option<Coin>,
    minting_payment_address: Option<String>,
    minting_fee_percentage: Option<Decimal>,
    minting_fee_address: Option<String>,
    addresses_are_valid: bool,
) -> (r: Result<MinterResponse, ContractError>)
    requires
        old(ledger).wf(),
    ensures
        final(ledger).wf(),
        outcome_is(
            update_outcome(
                old(ledger)@,
                info@,
                merged(
                    old(ledger)@.config,
                    text_of(admin),
                    coin_of(minting_price),
                    text_of(minting_payment_address),
                    atomics_of(minting_fee_percentage),
                    text_of(minting_fee_address),
                ),
                addresses_are_valid,
            ),
            old(ledger)@,
            final(ledger)@,
            r,
        ),
{
    let ghost before = ledger@;
    proof {
        ledger.view_is();
    }
    if !(ledger.config.admin == info.sender) {
        return Err(ContractError::Unauthorized {  });
    }
    let config = Config {
        admin: match admin {
            Some(value) => value,
            None => ledger.config.admin.clone(),
        },
        minting_price: match minting_price {
            Some(value) => value,
            None => Coin {
                denom: ledger.config.minting_price.denom.clone(),
                amount: ledger.config.minting_price.amount,
            },
        },
        minting_payment_address: match minting_payment_address {
            Some(value) => value,
            None => ledger.config.minting_payment_address.clone(),
        },
        minting_fee_percentage: match minting_fee_percentage {
            Some(value) => value,
            None => ledger.config.minting_fee_percentage,
        },
        minting_fee_address: match minting_fee_address {
            Some(value) => value,
            None => ledger.config.minting_fee_address.clone(),
        },
    };
    let ghost wanted = merged(
        before.config,
        text_of(admin),
        coin_of(minting_price),
        text_of(minting_payment_address),
        atomics_of(minting_fee_percentage),
        text_of(minting_fee_address),
    );
    assert(config@ == wanted);
    match config.validate(addresses_are_valid) {
        Ok(()) => {},
        Err(e) => {
            return Err(ContractError::Std(e));
        },
    }
    ledger.config = config;
    proof {
        ledger.view_is();
    }
    let response = MinterResponse::new().add_attribute("action", "update_config".to_owned());
    proof {
        let expected = update_outcome(before, info@, wanted, addresses_are_valid);
        assert(response@.attributes =~= expected->Ok_0.1.attributes);
        assert(response@.messages =~= expected->Ok_0.1.messages);
    }
    Ok(response)
}

// ---------------------------------------------------------------------------
// The cost of minting
// ---------------------------------------------------------------------------

/// What minting `amount` units costs at `price` for a whole WattPeak and
/// with the fee `fee_percentage`: the price to pay and the fee on it, the
/// fee rounded down. There is no cost where the price to pay is not a
/// whole amount, nor where the amount, the price, the price to pay, the
/// fee before rounding or the sum of price and fee, as fixed-point numbers,
/// exceed 128 bits.
pub open spec fn mint_cost(amount: nat, price: nat, fee_percentage: nat) -> Option<(nat, nat)> {
    let to_pay = amount * price / (UNITS_PER_WATTPEAK as nat);
    let fee = to_pay * fee_percentage / (DECIMAL_FRACTIONAL as nat);
    if amount * 1_000_000_000_000 > u128::MAX || price * DECIMAL_FRACTIONAL > u128::MAX || amount * price
        * 1_000_000_000_000 > u128::MAX || (amount * price) % (UNITS_PER_WATTPEAK as nat) != 0 || to_pay
        * fee_percentage > u128::MAX || (to_pay + fee) * DECIMAL_FRACTIONAL > u128::MAX {
        None
    } else {
        Some((to_pay, fee))
    }
}

/// Computes the cost of minting: see [`mint_cost`].
pub fn minting_cost(amount: u128, price: u128, fee_percentage: Decimal) -> (r: Option<(u128, u128)>)
    ensures
        match mint_cost(amount as nat, price as nat, fee_percentage@) {
            Some((to_pay, fee)) => r == Some((to_pay as u128, fee as u128)) && to_pay + fee <= u128::MAX,
            None => r is None,
        },
{
    let f = DECIMAL_FRACTIONAL;
    let ghost units = amount * price;
    let ghost scale: int = 1_000_000_000_000;
    proof {
        assert(price * f / 1 == price * f);
        assert(f == 1_000_000 * scale);
        assert(amount * f == (amount * scale) * 1_000_000) by (nonlinear_arith)
            requires
                f == 1_000_000 * scale,
        ;
        vstd::arithmetic::div_mod::lemma_div_by_multiple(amount * scale, 1_000_000);
        assert(amount * scale >= 0) by (nonlinear_arith)
            requires
                amount >= 0,
                scale > 0,
        ;
    }
    let formatted_amount: Decimal = match Decimal::checked_from_ratio(amount, UNITS_PER_WATTPEAK) {
        Ok(value) => value,
        Err(_) => {
            return None;
        },
    };
    assert(formatted_amount@ == amount * scale);
    let price_per_wattpeak: Decimal = match Decimal::checked_from_ratio(price, 1) {
        Ok(value) => value,
        Err(_) => {
            return None;
        },
    };
    proof {
        assert((amount * scale) * (price * f) == (amount * scale * price) * f) by (nonlinear_arith);
        assert(amount * scale * price >= 0) by (nonlinear_arith)
            requires
                amount >= 0,
                scale > 0,
                price >= 0,
        ;
        vstd::arithmetic::div_mod::lemma_div_by_multiple(amount * scale * price, f as int);
        assert(amount * scale * price == amount * price * scale) by (nonlinear_arith);
    }
    let minting_price: Decimal = match formatted_amount.checked_mul(price_per_wattpeak) {
        Some(value) => value,
        None => {
            return None;
        },
    };
    assert(minting_price@ == units * scale);
    proof {
        // the price is whole exactly where the units paid for come in millions
        vstd::arithmetic::div_mod::lemma_truncate_middle(units as int, scale, 1_000_000);
        assert(units * scale == scale * units) by (nonlinear_arith);
        assert(scale * 1_000_000 == f);
        assert((units * scale) % (f as int) == scale * (units % 1_000_000));
        assert(scale * (units % 1_000_000) == 0 <==> units % 1_000_000 == 0) by (nonlinear_arith)
            requires
                scale > 0,
        ;
        vstd::arithmetic::div_mod::lemma_div_multiples_vanish_quotient(scale, units as int, 1_000_000);
        assert((units * scale) / (f as int) == units / 1_000_000);
    }
    if minting_price.atomics % f != 0 {
        return None;
    }
    let to_pay: u128 = minting_price.to_uint_floor();
    assert(to_pay == units / 1_000_000);
    proof {
        vstd::arithmetic::div_mod::lemma_fundamental_div_mod((units * scale) as int, f as int);
        assert(f * ((units * scale) / (f as int)) == to_pay * f) by (nonlinear_arith)
            requires
                (units * scale) / (f as int) == to_pay,
        ;
        assert(minting_price@ == to_pay * f);
        product_of_whole(to_pay as nat, fee_percentage@);
    }
    let fee_calculation: Decimal = match minting_price.checked_mul(fee_percentage) {
        Some(value) => value,
        None => {
            return None;
        },
    };
    let fee: u128 = fee_calculation.to_uint_floor();
    assert(fee == (to_pay as nat) * fee_percentage@ / (f as nat));
    proof {
        vstd::arithmetic::div_mod::lemma_fundamental_div_mod(fee_calculation@ as int, f as int);
        vstd::arithmetic::div_mod::lemma_mod_bound(fee_calculation@ as int, f as int);
        assert(fee * f <= fee_calculation@) by (nonlinear_arith)
            requires
                fee_calculation@ == f * (fee_calculation@ as int / (f as int)) + fee_calculation@ as int % (
                f as int),
                fee == fee_calculation@ as int / (f as int),
                0 <= fee_calculation@ as int % (f as int),
        ;
        assert(fee * f / 1 == fee * f);
        assert((to_pay + fee) * f == to_pay * f + fee * f) by (nonlinear_arith);
    }
    let fee_whole: Decimal = match Decimal::checked_from_ratio(fee, 1) {
        Ok(value) => value,
        Err(_) => {
            proof {
                assert(false);
            }
            return None;
        },
    };
    let total_cost: Decimal = match minting_price.checked_add(fee_whole) {
        Some(value) => value,
        None => {
            return None;
        },
    };
    proof {
        assert(to_pay + fee <= (to_pay + fee) * f) by (nonlinear_arith)
            requires
                f >= 1,
                to_pay + fee >= 0,
        ;
    }
    Some((to_pay, fee))
}

// ---------------------------------------------------------------------------
// Minting
// ---------------------------------------------------------------------------

/// Some coin among `funds` has an amount below `total`.
pub open spec fn any_below(funds: Seq<CoinState>, total: nat) -> bool {
    exists|i: int| 0 <= i < funds.len() && (#[trigger] funds[i]).amount < total
}

/// Some coin among `funds` has an amount above `total`.
pub open spec fn any_above(funds: Seq<CoinState>, total: nat) -> bool {
    exists|i: int| 0 <= i < funds.len() && (#[trigger] funds[i]).amount > total
}

/// Whether some attached coin has an amount below `total`.
pub fn some_coin_below(funds: &Vec<Coin>, total: u128) -> (r: bool)
    ensures
        r == any_below(funds@.map_values(|c: Coin| c@), total as nat),
{
    let ghost coins = funds@.map_values(|c: Coin| c@);
    let mut i: usize = 0;
    while i < funds.len()
        invariant
            coins == funds@.map_values(|c: Coin| c@),
            i <= funds.len(),
            forall|j: int| 0 <= j < i ==> (#[trigger] coins[j]).amount >= total,
        decreases funds.len() - i,
    {
        if funds[i].amount < total {
            assert(coins[i as int].amount < total);
            return true;
        }
        i += 1;
    }
    false
}

/// Whether some attached coin has an amount above `total`.
pub fn some_coin_above(funds: &Vec<Coin>, total: u128) -> (r: bool)
    ensures
        r == any_above(funds@.map_values(|c: Coin| c@), total as nat),
{
    let ghost coins = funds@.map_values(|c: Coin| c@);
    let mut i: usize = 0;
    while i < funds.len()
        invariant
            coins == funds@.map_values(|c: Coin| c@),
            i <= funds.len(),
            forall|j: int| 0 <= j < i ==> (#[trigger] coins[j]).amount <= total,
        decreases funds.len() - i,
    {
        if funds[i].amount > total {
            assert(coins[i as int].amount > total);
            return true;
        }
        i += 1;
    }
    false
}

/// What the minting of `amount` units for the project `project_id` to
/// `address` comes to. It is rejected where no project has the id, where
/// the project has less than the amount left to mint, where the cost
/// cannot be computed, where a coin sent along is below the cost of price
/// and fee together, and where one is above it. Otherwise the payment of
/// the price, the payment of the fee and the minting are handed to the
/// host, and the amount passes from what is available to what is minted,
/// for the project and in all.
pub open spec fn mint_outcome(
    ledger: MinterState,
    info: MessageInfoState,
    address: Seq<char>,
    amount: nat,
    project_id: nat,
) -> Outcome {
    if !ledger.has_project(project_id) {
        Err(ContractError::ProjectNotFound {  })
    } else {
        let project = ledger.project(project_id);
        if amount > project.room() {
            Err(ContractError::InsufficientWattpeak {  })
        } else {
            match mint_cost(amount, ledger.config.minting_price.amount, ledger.config.minting_fee_percentage) {
                None => Err(ContractError::MathError {  }),
                Some((to_pay, fee)) => if any_below(info.funds, to_pay + fee) {
                    Err(ContractError::InsufficientFunds {  })
                } else if any_above(info.funds, to_pay + fee) {
                    Err(ContractError::TooMuchFunds {  })
                } else if ledger.total_wattpeak_minted_count + amount > u64::MAX {
                    Err(ContractError::Overflow {  })
                } else {
                    Ok(
                        (
                            MinterState {
                                projects: ledger.projects.update(
                                    project_id - 1,
                                    ProjectState {
                                        minted_wattpeak_count: project.minted_wattpeak_count + amount,
                                        ..project
                                    },
                                ),
                                available_wattpeak_count: (ledger.available_wattpeak_count - amount) as nat,
                                total_wattpeak_minted_count: ledger.total_wattpeak_minted_count + amount,
                                ..ledger
                            },
                            MinterResponseState {
                                messages: seq![
                                    MinterMsgState::Bank(
                                        payment(
                                            ledger.config.minting_payment_address,
                                            ledger.config.minting_price.denom,
                                            to_pay,
                                        ),
                                    ),
                                    MinterMsgState::Bank(
                                        payment(
                                            ledger.config.minting_fee_address,
                                            ledger.config.minting_price.denom,
                                            fee,
                                        ),
                                    ),
                                    MinterMsgState::Custom(
                                        TokenMsgState::MintTokens {
                                            denom: ledger.full_denom,
                                            amount,
                                            mint_to_address: address,
                                        },
                                    ),
                                ],
                                attributes: seq![attribute("action"@, "mint_tokens"@)],
                            },
                        ),
                    )
                },
            }
        }
    }
}

/// Mints `amount` units of WattPeak for the project `project_id` to
/// `address`, against the payment that comes with the call.
pub fn mint_tokens_msg(ledger: &mut Minter, info: &MessageInfo, address: String, amount: u128, project_id: u64) -> (r:
    Result<MinterResponse, ContractError>)
    requires
        old(ledger).wf(),
    ensures
        final(ledger).wf(),
        outcome_is(
            mint_outcome(old(ledger)@, info@, address@, amount as nat, project_id as nat),
            old(ledger)@,
            final(ledger)@,
            r,
        ),
{
    let ghost before = ledger@;
    proof {
        ledger.view_is();
    }
    if project_id == 0 || project_id > ledger.projects.len() as u64 {
        return Err(ContractError::ProjectNotFound {  });
    }
    let at: usize = (project_id - 1) as usize;
    assert(before.projects[at as int] == ledger.projects[at as int]@);
    proof {
        totals_bound(before.projects, at as int);
    }
    let mut project = ledger.projects[at].duplicate();
    if amount > (project.max_wattpeak - project.minted_wattpeak_count) as u128 {
        return Err(ContractError::InsufficientWattpeak {  });
    }
    let (to_pay, fee) = match minting_cost(
        amount,
        ledger.config.minting_price.amount,
        ledger.config.minting_fee_percentage,
    ) {
        Some(cost) => cost,
        None => {
            return Err(ContractError::MathError {  });
        },
    };
    let total_cost: u128 = to_pay + fee;
    if some_coin_below(&info.funds, total_cost) {
        return Err(ContractError::InsufficientFunds {  });
    }
    if some_coin_above(&info.funds, total_cost) {
        return Err(ContractError::TooMuchFunds {  });
    }
    let units: u64 = amount as u64;
    let minted: u64 = match ledger.total_wattpeak_minted_count.checked_add(units) {
        Some(value) => value,
        None => {
            return Err(ContractError::Overflow {  });
        },
    };
    let payment_msg = MinterMsg::Bank(
        Payment {
            to_address: ledger.config.minting_payment_address.clone(),
            denom: ledger.config.minting_price.denom.clone(),
            amount: to_pay,
        },
    );
    let fee_msg = MinterMsg::Bank(
        Payment {
            to_address: ledger.config.minting_fee_address.clone(),
            denom: ledger.config.minting_price.denom.clone(),
            amount: fee,
        },
    );
    let mint_msg = MinterMsg::Custom(
        TokenMsg::MintTokens { denom: ledger.full_denom.clone(), amount, mint_to_address: address },
    );
    project.minted_wattpeak_count = project.minted_wattpeak_count + units;
    let ghost changed = project@;
    proof {
        totals_update(before.projects, at as int, changed);
        let after = before.projects.update(at as int, changed);
        assert forall|i: int| 0 <= i < after.len() implies (#[trigger] after[i]).valid() by {
            if i != at {
                assert(after[i] == before.projects[i]);
            }
        }
    }
    ledger.projects.set(at, project);
    ledger.available_wattpeak_count = ledger.available_wattpeak_count - units;
    ledger.total_wattpeak_minted_count = minted;
    proof {
        ledger.view_is();
        assert(projects_view(ledger.projects@) =~= before.projects.update(at as int, changed));
    }
    let response = MinterResponse::new().add_message(payment_msg).add_message(fee_msg).add_message(
        mint_msg,
    ).add_attribute("action", "mint_tokens".to_owned());
    proof {
        let expected = mint_outcome(before, info@, address@, amount as nat, project_id as nat);
        assert(response@.attributes =~= expected->Ok_0.1.attributes);
        assert(response@.messages =~= expected->Ok_0.1.messages);
    }
    Ok(response)
}

// ---------------------------------------------------------------------------
// The entry point
// ---------------------------------------------------------------------------

/// What a message comes to: what the operation that it names comes to.
pub open spec fn execute_outcome(
    ledger: MinterState,
    info: MessageInfoState,
    msg: ExecuteMsg,
    addresses_are_valid: bool,
) -> Outcome {
    match msg {
        ExecuteMsg::UploadProject {
            name,
            description,
            document_deal_link,
            max_wattpeak,
            image_link,
            location,
        } => upload_outcome(
            ledger,
            info,
            new_project(name@, description@, document_deal_link@, max_wattpeak as nat, image_link@, location@),
        ),
        ExecuteMsg::EditProject {
            id,
            name,
            description,
            document_deal_link,
            max_wattpeak,
            image_link,
            location,
        } => edit_outcome(
            ledger,
            info,
            id as nat,
            edit_request(
                ledger,
                id as nat,
                text_of(name),
                text_of(description),
                text_of(document_deal_link),
                number_of(max_wattpeak),
                text_of(image_link),
                location_of(location),
            ),
        ),
        ExecuteMsg::UpdateConfig {
            admin,
            minting_price,
            minting_payment_address,
            minting_fee_percentage,
            minting_fee_address,
        } => update_outcome(
            ledger,
            info,
            merged(
                ledger.config,
                text_of(admin),
                coin_of(minting_price),
                text_of(minting_payment_address),
                atomics_of(minting_fee_percentage),
                text_of(minting_fee_address),
            ),
            addresses_are_valid,
        ),
        ExecuteMsg::MintTokens { address, amount, project_id } => mint_outcome(
            ledger,
            info,
            address@,
            amount as nat,
            project_id as nat,
        ),
    }
}

/// Carries out the operation that `msg` names, for the caller and with the
/// coins of `info`. `addresses_are_valid` is the host's verdict on the
/// addresses that a change of configuration would leave; no other
/// operation looks at it.
pub fn execute(ledger: &mut Minter, info: &MessageInfo, msg: ExecuteMsg, addresses_are_valid: bool) -> (r: Result<
    MinterResponse,
    ContractError,
>)
    requires
        old(ledger).wf(),
    ensures
        final(ledger).wf(),
        outcome_is(execute_outcome(old(ledger)@, info@, msg, addresses_are_valid), old(ledger)@, final(ledger)@, r),
{
    match msg {
        ExecuteMsg::UploadProject {
            name,
            description,
            document_deal_link,
            max_wattpeak,
            image_link,
            location,
        } => upload_project(ledger, info, name, description, document_deal_link, max_wattpeak, image_link, location),
        ExecuteMsg::EditProject {
            id,
            name,
            description,
            document_deal_link,
            max_wattpeak,
            image_link,
            location,
        } => edit_project(ledger, info, id, name, description, document_deal_link, max_wattpeak, image_link, location),
        ExecuteMsg::UpdateConfig {
            admin,
            minting_price,
            minting_payment_address,
            minting_fee_percentage,
            minting_fee_address,
        } => update_config(
            ledger,
            info,
            admin,
            minting_price,
            minting_payment_address,
            minting_fee_percentage,
            minting_fee_address,
            addresses_are_valid,
        ),
        ExecuteMsg::MintTokens { address, amount, project_id } => mint_tokens_msg(
            ledger,
            info,
            address,
            amount,
            project_id,
        ),
    }
}

} // verus!
