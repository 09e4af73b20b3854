//! The operations that change the ledger: stake, unstake, deposit rewards,
//! claim, and the change of configuration.

use vstd::prelude::*;

use crate::decimal::Decimal;
use crate::decimal::DECIMAL_FRACTIONAL;
use crate::decimal::product_at_most;
use crate::decimal::product_atomics;
use crate::given::atomics_of;
use crate::given::number_of;
use crate::given::or_else;
use crate::given::text_of;
use crate::response::attribute;
use crate::response::Coin;
use crate::response::CoinState;
use crate::response::Env;
use crate::response::MessageInfo;
use crate::response::MessageInfoState;
use crate::response::Payment;
use crate::response::payment;
use crate::response::PaymentState;
use crate::response::Response;
use crate::response::ResponseState;
use crate::staker::error::StakingError;
use crate::staker::helpers::calculate_interest_after_epoch;
use crate::staker::helpers::calculate_staker_share_of_reward;
use crate::staker::helpers::deposit_reaches_all;
use crate::staker::helpers::distribution_outcome;
use crate::staker::helpers::epoch_outcome;
use crate::staker::helpers::set_yearly_percentage;
use crate::staker::model::Balance;
use crate::staker::model::ConfigState;
use crate::staker::model::EntryState;
use crate::staker::model::holds;
use crate::staker::model::index_of;
use crate::staker::model::index_of_found;
use crate::staker::model::insert_keeps_sorted;
use crate::staker::model::LedgerState;
use crate::staker::model::none_drained;
use crate::staker::model::Outcome;
use crate::staker::model::outcome_is;
use crate::staker::model::settled;
use crate::staker::model::settled_keeps_sorted;
use crate::staker::model::settled_none_drained;
use crate::staker::model::slot;
use crate::staker::model::slot_found;
use crate::staker::model::StakerState;
use crate::staker::model::total_of_bounds;
use crate::staker::model::total_of_insert;
use crate::staker::model::total_of_settled;
use crate::staker::model::total_of_update;
use crate::staker::model::update_keeps_sorted;
use crate::staker::model::year_fraction;
use crate::staker::msg::ExecuteMsg;
use crate::staker::state::Config;
use crate::staker::state::entries_view;
use crate::staker::state::Ledger;
use crate::staker::state::locate;
use crate::staker::state::settle;
use crate::staker::state::Staker;
use crate::staker::state::StakerEntry;
use crate::staker::state::validate_spec;
use crate::text::decimal_text;
use crate::text::decimal_to_string;
use crate::text::uint_text;
use crate::text::uint_to_string;

verus! {

// ---------------------------------------------------------------------------
// The coins that come with a call
// ---------------------------------------------------------------------------

/// Some coin among `funds` is of denomination `denom`.
pub open spec fn has_denom(funds: Seq<CoinState>, denom: Seq<char>) -> bool {
    exists|i: int| 0 <= i < funds.len() && (#[trigger] funds[i]).denom == denom
}

/// The amount of the first coin of denomination `denom` among `funds`, or
/// zero where there is none.
pub open spec fn first_amount(funds: Seq<CoinState>, denom: Seq<char>) -> nat
    decreases funds.len(),
{
    if funds.len() == 0 {
        0
    } else if funds[0].denom == denom {
        funds[0].amount
    } else {
        first_amount(funds.drop_first(), denom)
    }
}

/// Every coin among `funds` has an amount above zero.
pub open spec fn all_positive(funds: Seq<CoinState>) -> bool {
    forall|i: int| 0 <= i < funds.len() ==> (#[trigger] funds[i]).amount > 0
}

/// Whether a coin of `denom` is attached, and the amount of the first such coin.
pub fn attached_amount(funds: &Vec<Coin>, denom: &String) -> (r: (bool, u128))
    ensures
        r.0 == has_denom(funds@.map_values(|c: Coin| c@), denom@),
        r.1 == first_amount(funds@.map_values(|c: Coin| c@), denom@),
{
    let ghost coins = funds@.map_values(|c: Coin| c@);
    let mut i: usize = 0;
    assert(coins.skip(0) =~= coins);
    while i < funds.len()
        invariant
            coins == funds@.map_values(|c: Coin| c@),
            i <= funds.len(),
            forall|j: int| 0 <= j < i ==> (#[trigger] coins[j]).denom != denom@,
            first_amount(coins, denom@) == first_amount(coins.skip(i as int), denom@),
        decreases funds.len() - i,
    {
        if funds[i].denom == *denom {
            proof {
                assert(coins.skip(i as int)[0] == coins[i as int]);
                assert(coins[i as int].denom == denom@);
            }
            return (true, funds[i].amount);
        }
        proof {
            assert(coins.skip(i as int)[0] == coins[i as int]);
            assert(coins.skip(i as int).drop_first() =~= coins.skip(i + 1));
        }
        i += 1;
    }
    (false, 0)
}

/// Whether every attached coin has an amount above zero.
pub fn all_amounts_positive(funds: &Vec<Coin>) -> (r: bool)
    ensures
        r == all_positive(funds@.map_values(|c: Coin| c@)),
{
    let ghost coins = funds@.map_values(|c: Coin| c@);
    let mut i: usize = 0;
    while i < funds.len()
        invariant
            coins == funds@.map_values(|c: Coin| c@),
            i <= funds.len(),
            forall|j: int| 0 <= j < i ==> (#[trigger] coins[j]).amount > 0,
        decreases funds.len() - i,
    {
        if funds[i].amount == 0 {
            assert(coins[i as int].amount == 0);
            return false;
        }
        i += 1;
    }
    true
}

// ---------------------------------------------------------------------------
// Stake
// ---------------------------------------------------------------------------

/// The listing after `amount` was staked for `address` at time `now`: the
/// account of `address` holds `amount` more, or, where it had none, a fresh
/// account with that stake is listed in its place of the order.
pub open spec fn credited(stakers: Seq<EntryState>, address: Seq<char>, amount: nat, now: nat) -> Seq<EntryState> {
    if holds(stakers, address) {
        let i = index_of(stakers, address);
        let staker = stakers[i].staker;
        stakers.update(
            i,
            EntryState { address, staker: StakerState { staked: staker.staked + amount, ..staker } },
        )
    } else {
        stakers.insert(
            slot(stakers, address),
            EntryState { address, staker: StakerState { staked: amount, interest: 0, start_time: now, claimable: 0 } },
        )
    }
}

/// What a stake comes to. It is rejected where no coin of the staking
/// denomination is attached, where an attached coin is of amount zero, and
/// where the total staked would exceed 128 bits. Otherwise the amount of the
/// first coin of the staking denomination is credited to the caller.
pub open spec fn stake_outcome(ledger: LedgerState, info: MessageInfoState, now: nat) -> Outcome {
    let amount = first_amount(info.funds, ledger.config.wattpeak_denom);
    if !has_denom(info.funds, ledger.config.wattpeak_denom) {
        Err(StakingError::NoStakeFunds)
    } else if !all_positive(info.funds) {
        Err(StakingError::ZeroStake)
    } else if ledger.total_wattpeak_staked + amount > u128::MAX {
        Err(StakingError::Overflow)
    } else {
        Ok(
            (
                LedgerState {
                    stakers: credited(ledger.stakers, info.sender, amount, now),
                    total_wattpeak_staked: ledger.total_wattpeak_staked + amount,
                    ..ledger
                },
                ResponseState {
                    messages: Seq::<PaymentState>::empty(),
                    attributes: seq![
                        attribute("action"@, "stake_wattpeak"@),
                        attribute("from"@, info.sender),
                        attribute("amount"@, uint_text(amount)),
                    ],
                },
            ),
        )
    }
}

/// Stakes the attached WattPeak for the caller.
pub fn stake_wattpeak(ledger: &mut Ledger, env: &Env, info: &MessageInfo) -> (r: Result<Response, StakingError>)
    requires
        old(ledger).wf(),
    ensures
        final(ledger).wf(),
        outcome_is(
            stake_outcome(old(ledger)@, info@, env.block_time as nat),
            old(ledger)@,
            final(ledger)@,
            r,
        ),
        none_drained(old(ledger)@.stakers) ==> none_drained(final(ledger)@.stakers),
        first_amount(info@.funds, old(ledger)@.config.wattpeak_denom) == 0 ==> r is Err && final(ledger)@ == old(
            ledger,
        )@,
{
    let ghost before = ledger@;
    proof {
        ledger.view_is();
        if has_denom(info@.funds, before.config.wattpeak_denom) && all_positive(info@.funds) {
            first_amount_positive(info@.funds, before.config.wattpeak_denom);
        }
    }
    let (present, amount) = attached_amount(&info.funds, &ledger.config.wattpeak_denom);
    if !present {
        return Err(StakingError::NoStakeFunds);
    }
    if !all_amounts_positive(&info.funds) {
        return Err(StakingError::ZeroStake);
    }
    let new_total: u128 = match ledger.total_wattpeak_staked.checked_add(amount) {
        Some(total) => total,
        None => {
            return Err(StakingError::Overflow);
        },
    };
    let (found, i) = locate(&ledger.stakers, info.sender.as_str());
    if found {
        let mut staker: Staker = ledger.stakers[i].staker;
        proof {
            index_of_found(before.stakers, info.sender@, i as int);
            total_of_bounds(before.stakers, i as int, Balance::Staked);
        }
        staker.wattpeak_staked = staker.wattpeak_staked + amount;
        let entry = StakerEntry { address: info.sender.clone(), staker };
        proof {
            update_keeps_sorted(before.stakers, i as int, entry@);
            total_of_update(before.stakers, i as int, entry@, Balance::Staked);
            total_of_update(before.stakers, i as int, entry@, Balance::Interest);
        }
        ledger.stakers.set(i, entry);
        proof {
            assert(entries_view(ledger.stakers@) =~= before.stakers.update(i as int, entry@));
        }
    } else {
        let entry = StakerEntry {
            address: info.sender.clone(),
            staker: Staker {
                wattpeak_staked: amount,
                interest_wattpeak: Decimal::zero(),
                stake_start_time: env.block_time,
                claimable_rewards: Decimal::zero(),
            },
        };
        proof {
            slot_found(before.stakers, info.sender@, i as int);
            insert_keeps_sorted(before.stakers, i as int, entry@);
            total_of_insert(before.stakers, i as int, entry@, Balance::Staked);
            total_of_insert(before.stakers, i as int, entry@, Balance::Interest);
        }
        ledger.stakers.insert(i, entry);
        proof {
            assert(entries_view(ledger.stakers@) =~= before.stakers.insert(i as int, entry@));
        }
    }
    ledger.total_wattpeak_staked = new_total;
    proof {
        ledger.view_is();
    }
    let response = Response::new().add_attribute("action", "stake_wattpeak".to_owned()).add_attribute(
        "from",
        info.sender.clone(),
    ).add_attribute("amount", uint_to_string(amount));
    proof {
        let expected = stake_outcome(before, info@, env.block_time as nat);
        assert(response@.attributes =~= expected->Ok_0.1.attributes);
        assert(response@.messages =~= expected->Ok_0.1.messages);
    }
    Ok(response)
}

// ---------------------------------------------------------------------------
// Unstake
// ---------------------------------------------------------------------------

/// What an unstake of `amount` comes to. It is rejected where the amount is
/// zero, where the caller has no account, and where the caller has staked
/// less than the amount. Otherwise the amount leaves the caller's stake and
/// the total, the caller is paid the amount, and the caller's account is
/// struck where nothing is left in it.
pub open spec fn unstake_outcome(ledger: LedgerState, info: MessageInfoState, amount: nat) -> Outcome {
    if amount == 0 {
        Err(StakingError::ZeroUnstake)
    } else if !holds(ledger.stakers, info.sender) {
        Err(StakingError::StakerNotFound)
    } else {
        let i = index_of(ledger.stakers, info.sender);
        let staker = ledger.stakers[i].staker;
        if staker.staked < amount {
            Err(StakingError::InsufficientStake)
        } else {
            Ok(
                (
                    LedgerState {
                        stakers: settled(
                            ledger.stakers,
                            i,
                            StakerState { staked: (staker.staked - amount) as nat, ..staker },
                        ),
                        total_wattpeak_staked: (ledger.total_wattpeak_staked - amount) as nat,
                        ..ledger
                    },
                    ResponseState {
                        messages: seq![payment(info.sender, ledger.config.wattpeak_denom, amount)],
                        attributes: seq![
                            attribute("action"@, "unstake"@),
                            attribute("from"@, info.sender),
                            attribute("amount"@, uint_text(amount)),
                        ],
                    },
                ),
            )
        }
    }
}

/// Releases `amount` of the caller's stake and has it paid back.
pub fn unstake_wattpeak(ledger: &mut Ledger, info: &MessageInfo, amount: u128) -> (r: Result<
    Response,
    StakingError,
>)
    requires
        old(ledger).wf(),
    ensures
        final(ledger).wf(),
        outcome_is(unstake_outcome(old(ledger)@, info@, amount as nat), old(ledger)@, final(ledger)@, r),
        none_drained(old(ledger)@.stakers) ==> none_drained(final(ledger)@.stakers),
        old(ledger)@.staker(info@.sender) matches Some(staker) && amount > staker.staked ==> r == Err::<
            Response,
            StakingError,
        >(StakingError::InsufficientStake) && final(ledger)@ == old(ledger)@,
{
    let ghost before = ledger@;
    proof {
        ledger.view_is();
    }
    if amount == 0 {
        return Err(StakingError::ZeroUnstake);
    }
    let (found, i) = locate(&ledger.stakers, info.sender.as_str());
    if !found {
        proof {
            slot_found(before.stakers, info.sender@, i as int);
        }
        return Err(StakingError::StakerNotFound);
    }
    proof {
        index_of_found(before.stakers, info.sender@, i as int);
        total_of_bounds(before.stakers, i as int, Balance::Staked);
    }
    let mut staker: Staker = ledger.stakers[i].staker;
    if staker.wattpeak_staked < amount {
        return Err(StakingError::InsufficientStake);
    }
    staker.wattpeak_staked = staker.wattpeak_staked - amount;
    proof {
        settled_keeps_sorted(before.stakers, i as int, staker@);
        total_of_settled(before.stakers, i as int, staker@, Balance::Staked);
        total_of_settled(before.stakers, i as int, staker@, Balance::Interest);
        if none_drained(before.stakers) {
            settled_none_drained(before.stakers, i as int, staker@);
        }
    }
    settle(&mut ledger.stakers, i, staker);
    ledger.total_wattpeak_staked = ledger.total_wattpeak_staked - amount;
    proof {
        ledger.view_is();
    }
    let refund = Payment {
        to_address: info.sender.clone(),
        denom: ledger.config.wattpeak_denom.clone(),
        amount,
    };
    let response = Response::new().add_message(refund).add_attribute("action", "unstake".to_owned()).add_attribute(
        "from",
        info.sender.clone(),
    ).add_attribute("amount", uint_to_string(amount));
    proof {
        let expected = unstake_outcome(before, info@, amount as nat);
        assert(response@.attributes =~= expected->Ok_0.1.attributes);
        assert(response@.messages =~= expected->Ok_0.1.messages);
    }
    Ok(response)
}

// ---------------------------------------------------------------------------
// Claim
// ---------------------------------------------------------------------------

/// The protocol's part of a claim of `rewards`, in atomic units.
pub open spec fn claim_fee(rewards: nat, fee_percentage: nat) -> nat {
    product_atomics(rewards, fee_percentage)
}

/// What a claim comes to. It is rejected where the caller has no account and
/// where the caller's claimable balance is zero. Otherwise the balance is
/// split into the protocol's fee and the rest, each is rounded down to whole
/// units and paid, the rest to the caller and the fee to the fee address, the
/// claimable balance becomes zero, and the caller's account is struck where
/// nothing is left in it.
pub open spec fn claim_outcome(ledger: LedgerState, info: MessageInfoState) -> Outcome {
    if !holds(ledger.stakers, info.sender) {
        Err(StakingError::ClaimerNotFound)
    } else {
        let i = index_of(ledger.stakers, info.sender);
        let staker = ledger.stakers[i].staker;
        let rewards = staker.claimable;
        let fee = claim_fee(rewards, ledger.config.staking_fee_percentage);
        if rewards == 0 {
            Err(StakingError::NoRewards)
        } else {
            Ok(
                (
                    LedgerState {
                        stakers: settled(ledger.stakers, i, StakerState { claimable: 0, ..staker }),
                        ..ledger
                    },
                    ResponseState {
                        messages: seq![
                            payment(
                                info.sender,
                                ledger.config.wattpeak_denom,
                                ((rewards - fee) / (DECIMAL_FRACTIONAL as int)) as nat,
                            ),
                            payment(
                                ledger.config.staking_fee_address,
                                ledger.config.wattpeak_denom,
                                fee / (DECIMAL_FRACTIONAL as nat),
                            ),
                        ],
                        attributes: seq![
                            attribute("action"@, "claim_rewards"@),
                            attribute("from"@, info.sender),
                            attribute("amount"@, decimal_text(rewards)),
                        ],
                    },
                ),
            )
        }
    }
}

/// Pays out the caller's claimable rewards, net of the protocol fee.
pub fn claim_rewards(ledger: &mut Ledger, info: &MessageInfo) -> (r: Result<Response, StakingError>)
    requires
        old(ledger).wf(),
    ensures
        final(ledger).wf(),
        outcome_is(claim_outcome(old(ledger)@, info@), old(ledger)@, final(ledger)@, r),
        none_drained(old(ledger)@.stakers) ==> none_drained(final(ledger)@.stakers),
        old(ledger)@.staker(info@.sender) matches Some(staker) && staker.claimable == 0 ==> r == Err::<
            Response,
            StakingError,
        >(StakingError::NoRewards) && final(ledger)@ == old(ledger)@,
{
    let ghost before = ledger@;
    proof {
        ledger.view_is();
    }
    let (found, i) = locate(&ledger.stakers, info.sender.as_str());
    if !found {
        proof {
            slot_found(before.stakers, info.sender@, i as int);
        }
        return Err(StakingError::ClaimerNotFound);
    }
    proof {
        index_of_found(before.stakers, info.sender@, i as int);
    }
    let mut staker: Staker = ledger.stakers[i].staker;
    if staker.claimable_rewards.is_zero() {
        return Err(StakingError::NoRewards);
    }
    let rewards: Decimal = staker.claimable_rewards;
    proof {
        product_at_most(rewards@, before.config.staking_fee_percentage);
    }
    let fee: Decimal = match rewards.checked_mul(ledger.config.staking_fee_percentage) {
        Some(fee) => fee,
        None => {
            proof {
                assert(false);
            }
            return Err(StakingError::Overflow);
        },
    };
    let payout: Decimal = Decimal::raw(rewards.atomics - fee.atomics);
    let to_staker = Payment {
        to_address: info.sender.clone(),
        denom: ledger.config.wattpeak_denom.clone(),
        amount: payout.to_uint_floor(),
    };
    let to_protocol = Payment {
        to_address: ledger.config.staking_fee_address.clone(),
        denom: ledger.config.wattpeak_denom.clone(),
        amount: fee.to_uint_floor(),
    };
    staker.claimable_rewards = Decimal::zero();
    proof {
        settled_keeps_sorted(before.stakers, i as int, staker@);
        total_of_settled(before.stakers, i as int, staker@, Balance::Staked);
        total_of_settled(before.stakers, i as int, staker@, Balance::Interest);
        if none_drained(before.stakers) {
            settled_none_drained(before.stakers, i as int, staker@);
        }
    }
    settle(&mut ledger.stakers, i, staker);
    proof {
        ledger.view_is();
    }
    let response = Response::new().add_message(to_staker).add_message(to_protocol).add_attribute(
        "action",
        "claim_rewards".to_owned(),
    ).add_attribute("from", info.sender.clone()).add_attribute("amount", decimal_to_string(rewards));
    proof {
        let expected = claim_outcome(before, info@);
        assert(response@.attributes =~= expected->Ok_0.1.attributes);
        assert(response@.messages =~= expected->Ok_0.1.messages);
    }
    Ok(response)
}

// ---------------------------------------------------------------------------
// Deposit of rewards
// ---------------------------------------------------------------------------

/// What a deposit of rewards comes to. It is rejected where the caller is
/// not the admin, where no coin of the staking denomination is attached,
/// where an attached coin is of amount zero, and where the distribution of
/// the amount is rejected. Otherwise the amount of the first coin of the
/// staking denomination is shared out among the stakers.
pub open spec fn deposit_outcome(ledger: LedgerState, info: MessageInfoState) -> Outcome {
    let amount = first_amount(info.funds, ledger.config.wattpeak_denom);
    if info.sender != ledger.config.admin {
        Err(StakingError::Unauthorized)
    } else if !has_denom(info.funds, ledger.config.wattpeak_denom) {
        Err(StakingError::NoDepositFunds)
    } else if !all_positive(info.funds) {
        Err(StakingError::ZeroDeposit)
    } else {
        match distribution_outcome(ledger, amount) {
            Err(e) => Err(e),
            Ok(next) => Ok(
                (
                    next,
                    ResponseState {
                        messages: Seq::<PaymentState>::empty(),
                        attributes: seq![
                            attribute("method"@, "deposit_rewards"@),
                            attribute("from"@, info.sender),
                            attribute("amount"@, uint_text(amount)),
                        ],
                    },
                ),
            ),
        }
    }
}

/// Takes the attached coins as a reward and shares it among the stakers.
pub fn deposit_rewards(ledger: &mut Ledger, info: &MessageInfo) -> (r: Result<Response, StakingError>)
    requires
        old(ledger).wf(),
    ensures
        final(ledger).wf(),
        outcome_is(deposit_outcome(old(ledger)@, info@), old(ledger)@, final(ledger)@, r),
        old(ledger)@.total_interest_wattpeak == 0 ==> r is Err && final(ledger)@ == old(ledger)@,
        none_drained(old(ledger)@.stakers) && deposit_reaches_all(
            old(ledger)@,
            first_amount(info@.funds, old(ledger)@.config.wattpeak_denom),
        ) ==> none_drained(final(ledger)@.stakers),
{
    let ghost before = ledger@;
    proof {
        ledger.view_is();
    }
    let (present, amount) = attached_amount(&info.funds, &ledger.config.wattpeak_denom);
    if !(info.sender == ledger.config.admin) {
        return Err(StakingError::Unauthorized);
    }
    if !present {
        return Err(StakingError::NoDepositFunds);
    }
    if !all_amounts_positive(&info.funds) {
        return Err(StakingError::ZeroDeposit);
    }
    match calculate_staker_share_of_reward(ledger, amount) {
        Ok(()) => {},
        Err(e) => {
            return Err(e);
        },
    }
    let response = Response::new().add_attribute("method", "deposit_rewards".to_owned()).add_attribute(
        "from",
        info.sender.clone(),
    ).add_attribute("amount", uint_to_string(amount));
    proof {
        let expected = deposit_outcome(before, info@);
        assert(response@.attributes =~= expected->Ok_0.1.attributes);
        assert(response@.messages =~= expected->Ok_0.1.messages);
    }
    Ok(response)
}

// ---------------------------------------------------------------------------
// Change of configuration
// ---------------------------------------------------------------------------

/// The configuration with each given value in place of the one it had.
pub open spec fn merged(
    config: ConfigState,
    admin: Option<Seq<char>>,
    epoch_length: Option<nat>,
    rewards_percentage: Option<nat>,
) -> ConfigState {
    ConfigState {
        admin: or_else(admin, config.admin),
        epoch_length: or_else(epoch_length, config.epoch_length),
        rewards_percentage: or_else(rewards_percentage, config.rewards_percentage),
        ..config
    }
}

/// What a change of configuration comes to. It is rejected where the caller
/// is not the admin and where the configuration with the given values in
/// place is not valid; `addresses_are_valid` is the host's verdict on the
/// addresses that it would hold. Otherwise that configuration is in force,
/// and the part of a year is that of its epoch length.
pub open spec fn update_outcome(
    ledger: LedgerState,
    info: MessageInfoState,
    admin: Option<Seq<char>>,
    epoch_length: Option<nat>,
    rewards_percentage: Option<nat>,
    addresses_are_valid: bool,
) -> Outcome {
    let config = merged(ledger.config, admin, epoch_length, rewards_percentage);
    if info.sender != ledger.config.admin {
        Err(StakingError::Unauthorized)
    } else {
        match validate_spec(config, addresses_are_valid) {
            Err(e) => Err(e),
            Ok(_) => Ok(
                (
                    LedgerState { config, percentage_of_year: year_fraction(config.epoch_length), ..ledger },
                    ResponseState {
                        messages: Seq::<PaymentState>::empty(),
                        attributes: seq![attribute("action"@, "update_config"@)],
                    },
                ),
            ),
        }
    }
}

/// Changes the admin, the epoch length and the yearly rate, each where a
/// new value is given, and checks the configuration that results.
pub fn update_config(
    ledger: &mut Ledger,
    info: &MessageInfo,
    admin: Option<String>,
    epoch_length: Option<u64>,
    rewards_percentage: Option<Decimal>,
    addresses_are_valid: bool,
) -> (r: Result<Response, StakingError>)
    requires
        old(ledger).wf(),
    ensures
        final(ledger).wf(),
        outcome_is(
            update_outcome(
                old(ledger)@,
                info@,
                text_of(admin),
                number_of(epoch_length),
                atomics_of(rewards_percentage),
                addresses_are_valid,
            ),
            old(ledger)@,
            final(ledger)@,
            r,
        ),
        final(ledger)@.stakers == old(ledger)@.stakers,
{
    let ghost before = ledger@;
    proof {
        ledger.view_is();
    }
    if !(info.sender == ledger.config.admin) {
        return Err(StakingError::Unauthorized);
    }
    let config = Config {
        admin: match admin {
            Some(value) => value,
            None => ledger.config.admin.clone(),
        },
        rewards_percentage: match rewards_percentage {
            Some(value) => value,
            None => ledger.config.rewards_percentage,
        },
        epoch_length: match epoch_length {
            Some(value) => value,
            None => ledger.config.epoch_length,
        },
        wattpeak_denom: ledger.config.wattpeak_denom.clone(),
        staking_fee_percentage: ledger.config.staking_fee_percentage,
        staking_fee_address: ledger.config.staking_fee_address.clone(),
    };
    assert(config@ == merged(
        before.config,
        text_of(admin),
        number_of(epoch_length),
        atomics_of(rewards_percentage),
    ));
    match config.validate(addresses_are_valid) {
        Ok(()) => {},
        Err(e) => {
            return Err(e);
        },
    }
    let mut percentage_of_year: Decimal = ledger.percentage_of_year;
    set_yearly_percentage(&mut percentage_of_year, config.epoch_length);
    ledger.config = config;
    ledger.percentage_of_year = percentage_of_year;
    proof {
        ledger.view_is();
    }
    let response = Response::new().add_attribute("action", "update_config".to_owned());
    proof {
        let expected = update_outcome(
            before,
            info@,
            text_of(admin),
            number_of(epoch_length),
            atomics_of(rewards_percentage),
            addresses_are_valid,
        );
        assert(response@.attributes =~= expected->Ok_0.1.attributes);
        assert(response@.messages =~= expected->Ok_0.1.messages);
    }
    Ok(response)
}

// ---------------------------------------------------------------------------
// The entry point
// ---------------------------------------------------------------------------

/// What a message comes to: what the operation that it names comes to.
pub open spec fn execute_outcome(
    ledger: LedgerState,
    env: Env,
    info: MessageInfoState,
    msg: ExecuteMsg,
    addresses_are_valid: bool,
) -> Outcome {
    match msg {
        ExecuteMsg::UpdateConfig { admin, rewards_percentage, epoch_length } => update_outcome(
            ledger,
            info,
            text_of(admin),
            number_of(epoch_length),
            atomics_of(rewards_percentage),
            addresses_are_valid,
        ),
        ExecuteMsg::Stake {  } => stake_outcome(ledger, info, env.block_time as nat),
        ExecuteMsg::Unstake { amount } => unstake_outcome(ledger, info, amount as nat),
        ExecuteMsg::DepositRewards {  } => deposit_outcome(ledger, info),
        ExecuteMsg::ClaimReward {  } => claim_outcome(ledger, info),
        ExecuteMsg::NewEpoch {  } => epoch_outcome(ledger, info),
    }
}

/// Carries out the operation that `msg` names, for the caller and with the
/// coins of `info`, at the time of `env`. `addresses_are_valid` is the
/// host's verdict on the addresses that a change of configuration would
/// leave; no other operation looks at it.
pub fn execute(ledger: &mut Ledger, env: &Env, info: &MessageInfo, msg: ExecuteMsg, addresses_are_valid: bool) -> (r:
    Result<Response, StakingError>)
    requires
        old(ledger).wf(),
    ensures
        final(ledger).wf(),
        outcome_is(
            execute_outcome(old(ledger)@, *env, info@, msg, addresses_are_valid),
            old(ledger)@,
            final(ledger)@,
            r,
        ),
        none_drained(old(ledger)@.stakers) && (msg is DepositRewards ==> deposit_reaches_all(
            old(ledger)@,
            first_amount(info@.funds, old(ledger)@.config.wattpeak_denom),
        )) ==> none_drained(final(ledger)@.stakers),
{
    match msg {
        ExecuteMsg::UpdateConfig { admin, rewards_percentage, epoch_length } => update_config(
            ledger,
            info,
            admin,
            epoch_length,
            rewards_percentage,
            addresses_are_valid,
        ),
        ExecuteMsg::Stake {  } => stake_wattpeak(ledger, env, info),
        ExecuteMsg::Unstake { amount } => unstake_wattpeak(ledger, info, amount),
        ExecuteMsg::DepositRewards {  } => deposit_rewards(ledger, info),
        ExecuteMsg::ClaimReward {  } => claim_rewards(ledger, info),
        ExecuteMsg::NewEpoch {  } => calculate_interest_after_epoch(ledger, info),
    }
}

/// Where a coin of `denom` is attached and every coin is above zero, the
/// amount found is above zero.
pub proof fn first_amount_positive(funds: Seq<CoinState>, denom: Seq<char>)
    requires
        has_denom(funds, denom),
        all_positive(funds),
    ensures
        first_amount(funds, denom) > 0,
    decreases funds.len(),
{
    let i = choose|i: int| 0 <= i < funds.len() && (#[trigger] funds[i]).denom == denom;
    if funds[0].denom != denom {
        let rest = funds.drop_first();
        assert(rest[i - 1] == funds[i]);
        assert forall|j: int| 0 <= j < rest.len() implies (#[trigger] rest[j]).amount > 0 by {
            assert(rest[j] == funds[j + 1]);
        }
        first_amount_positive(rest, denom);
    }
}

} // verus!
