//! What holds of the ledger across its operations.

use vstd::prelude::*;

use crate::decimal::DECIMAL_FRACTIONAL;
use crate::decimal::product_at_most;
use crate::decimal::ratio_atomics;
use crate::response::Env;
use crate::response::MessageInfoState;
use crate::staker::execute::claim_fee;
use crate::staker::execute::execute_outcome;
use crate::staker::execute::first_amount;
use crate::staker::execute::first_amount_positive;
use crate::staker::execute::stake_outcome;
use crate::staker::execute::unstake_outcome;
use crate::staker::helpers::accrued_keeps_invariant;
use crate::staker::helpers::deposit_reaches_all;
use crate::staker::helpers::distributed;
use crate::staker::helpers::distributed_keeps_invariant;
use crate::staker::helpers::distributed_none_drained;
use crate::staker::helpers::distribution_outcome;
use crate::staker::helpers::earnings;
use crate::staker::helpers::epoch_outcome;
use crate::staker::helpers::interest_earned;
use crate::staker::helpers::reward_share;
use crate::staker::helpers::total_earned;
use crate::staker::model::Balance;
use crate::staker::model::EntryState;
use crate::staker::model::holds;
use crate::staker::model::index_of;
use crate::staker::model::index_of_found;
use crate::staker::model::insert_keeps_sorted;
use crate::staker::model::none_drained;
use crate::staker::model::LedgerState;
use crate::staker::model::slot;
use crate::staker::model::slot_exists;
use crate::staker::model::StakerState;
use crate::staker::msg::ExecuteMsg;
use crate::staker::model::settled_keeps_sorted;
use crate::staker::model::settled_none_drained;
use crate::staker::model::total_of;
use crate::staker::model::total_of_insert;
use crate::staker::model::total_of_settled;
use crate::staker::model::total_of_update;
use crate::staker::model::total_of_same;
use crate::staker::model::total_of_sum;
use crate::staker::model::update_keeps_sorted;
use crate::staker::state::Ledger;

verus! {

/// No balance of any account is ever below zero: the balances of a ledger
/// are natural numbers, and an unstake or a claim that would take more
/// than an account holds is rejected.
pub proof fn balances_never_negative(ledger: &Ledger, i: int)
    requires
        0 <= i < ledger@.stakers.len(),
    ensures
        ledger@.stakers[i].staker.staked >= 0,
        ledger@.stakers[i].staker.interest >= 0,
        ledger@.stakers[i].staker.claimable >= 0,
{
}

/// Every operation takes a well-formed ledger to a well-formed ledger: the
/// total staked stays the sum of the stakes, the interest outstanding stays
/// the sum of the accounts' interest, and the listing stays in order.
pub proof fn operations_keep_the_ledger_well_formed(
    ledger: LedgerState,
    env: Env,
    info: MessageInfoState,
    msg: ExecuteMsg,
    addresses_are_valid: bool,
)
    requires
        ledger.wf(),
        execute_outcome(ledger, env, info, msg, addresses_are_valid) is Ok,
    ensures
        execute_outcome(ledger, env, info, msg, addresses_are_valid)->Ok_0.0.wf(),
{
    let next = execute_outcome(ledger, env, info, msg, addresses_are_valid)->Ok_0.0;
    let stakers = ledger.stakers;
    let address = info.sender;
    match msg {
        ExecuteMsg::UpdateConfig { admin, rewards_percentage, epoch_length } => {},
        ExecuteMsg::Stake {  } => {
            let amount = first_amount(info.funds, ledger.config.wattpeak_denom);
            if holds(stakers, address) {
                let i = index_of(stakers, address);
                let entry = next.stakers[i];
                update_keeps_sorted(stakers, i, entry);
                total_of_update(stakers, i, entry, Balance::Staked);
                total_of_update(stakers, i, entry, Balance::Interest);
            } else {
                slot_exists(stakers, address);
                let p = slot(stakers, address);
                let entry = EntryState {
                    address,
                    staker: StakerState { staked: amount, interest: 0, start_time: env.block_time as nat, claimable: 0 },
                };
                insert_keeps_sorted(stakers, p, entry);
                total_of_insert(stakers, p, entry, Balance::Staked);
                total_of_insert(stakers, p, entry, Balance::Interest);
            }
        },
        ExecuteMsg::Unstake { amount } => {
            let i = index_of(stakers, address);
            let staker = stakers[i].staker;
            let left = StakerState { staked: (staker.staked - amount) as nat, ..staker };
            settled_keeps_sorted(stakers, i, left);
            total_of_settled(stakers, i, left, Balance::Staked);
            total_of_settled(stakers, i, left, Balance::Interest);
        },
        ExecuteMsg::ClaimReward {  } => {
            let i = index_of(stakers, address);
            let left = StakerState { claimable: 0, ..stakers[i].staker };
            settled_keeps_sorted(stakers, i, left);
            total_of_settled(stakers, i, left, Balance::Staked);
            total_of_settled(stakers, i, left, Balance::Interest);
        },
        ExecuteMsg::DepositRewards {  } => {
            let amount = first_amount(info.funds, ledger.config.wattpeak_denom);
            distributed_keeps_invariant(stakers, amount, ledger.total_interest_wattpeak);
        },
        ExecuteMsg::NewEpoch {  } => {
            accrued_keeps_invariant(stakers, ledger.config.rewards_percentage, ledger.percentage_of_year);
        },
    }
}

/// No operation leaves an account with all three balances at zero where
/// there was none. Of a deposit of rewards this holds as long as every
/// account without stake and without claimable rewards receives a part of
/// the deposit that is not zero: an account whose part rounds down to zero
/// stays listed, drained of its interest.
pub proof fn operations_leave_no_drained_account(
    ledger: LedgerState,
    env: Env,
    info: MessageInfoState,
    msg: ExecuteMsg,
    addresses_are_valid: bool,
)
    requires
        ledger.wf(),
        none_drained(ledger.stakers),
        execute_outcome(ledger, env, info, msg, addresses_are_valid) is Ok,
        msg is DepositRewards ==> deposit_reaches_all(
            ledger,
            first_amount(info.funds, ledger.config.wattpeak_denom),
        ),
    ensures
        none_drained(execute_outcome(ledger, env, info, msg, addresses_are_valid)->Ok_0.0.stakers),
{
    let next = execute_outcome(ledger, env, info, msg, addresses_are_valid)->Ok_0.0;
    let stakers = ledger.stakers;
    let address = info.sender;
    match msg {
        ExecuteMsg::UpdateConfig { admin, rewards_percentage, epoch_length } => {},
        ExecuteMsg::Stake {  } => {
            first_amount_positive(info.funds, ledger.config.wattpeak_denom);
            let at = if holds(stakers, address) {
                index_of(stakers, address)
            } else {
                slot_exists(stakers, address);
                slot(stakers, address)
            };
            assert forall|j: int| 0 <= j < next.stakers.len() implies !(#[trigger] next.stakers[j]).staker.drained() by {
                if j < at {
                    assert(next.stakers[j] == stakers[j]);
                } else if j > at && holds(stakers, address) {
                    assert(next.stakers[j] == stakers[j]);
                } else if j > at {
                    assert(next.stakers[j] == stakers[j - 1]);
                }
            }
        },
        ExecuteMsg::Unstake { amount } => {
            let i = index_of(stakers, address);
            let staker = stakers[i].staker;
            settled_none_drained(stakers, i, StakerState { staked: (staker.staked - amount) as nat, ..staker });
        },
        ExecuteMsg::ClaimReward {  } => {
            let i = index_of(stakers, address);
            settled_none_drained(stakers, i, StakerState { claimable: 0, ..stakers[i].staker });
        },
        ExecuteMsg::DepositRewards {  } => {
            distributed_none_drained(ledger, first_amount(info.funds, ledger.config.wattpeak_denom));
        },
        ExecuteMsg::NewEpoch {  } => {
            accrued_keeps_invariant(stakers, ledger.config.rewards_percentage, ledger.percentage_of_year);
        },
    }
}

/// The listing without the account of `address` where that account is
/// drained, and the listing itself where it is not or there is none.
pub open spec fn without_drained(stakers: Seq<EntryState>, address: Seq<char>) -> Seq<EntryState> {
    if holds(stakers, address) && stakers[index_of(stakers, address)].staker.drained() {
        stakers.remove(index_of(stakers, address))
    } else {
        stakers
    }
}

/// A stake followed at once by an unstake of the same amount leaves the
/// ledger as it was, but for a drained account of the caller, which is
/// struck.
pub proof fn stake_then_unstake_restores(ledger: LedgerState, info: MessageInfoState, now: nat)
    requires
        ledger.wf(),
        stake_outcome(ledger, info, now) is Ok,
    ensures
        ({
            let staked = stake_outcome(ledger, info, now)->Ok_0.0;
            let amount = first_amount(info.funds, ledger.config.wattpeak_denom);
            &&& unstake_outcome(staked, info, amount) is Ok
            &&& unstake_outcome(staked, info, amount)->Ok_0.0 == (LedgerState {
                stakers: without_drained(ledger.stakers, info.sender),
                ..ledger
            })
        }),
{
    let staked = stake_outcome(ledger, info, now)->Ok_0.0;
    let amount = first_amount(info.funds, ledger.config.wattpeak_denom);
    let address = info.sender;
    first_amount_positive(info.funds, ledger.config.wattpeak_denom);
    if holds(ledger.stakers, address) {
        let i = index_of(ledger.stakers, address);
        let staker = ledger.stakers[i].staker;
        let entry = EntryState { address, staker: StakerState { staked: staker.staked + amount, ..staker } };
        update_keeps_sorted(ledger.stakers, i, entry);
        index_of_found(staked.stakers, address, i);
        let back = unstake_outcome(staked, info, amount)->Ok_0.0;
        if staker.drained() {
            assert(back.stakers =~= ledger.stakers.remove(i));
        } else {
            assert(back.stakers =~= ledger.stakers);
        }
    } else {
        slot_exists(ledger.stakers, address);
        let p = slot(ledger.stakers, address);
        let entry = EntryState {
            address,
            staker: StakerState { staked: amount, interest: 0, start_time: now, claimable: 0 },
        };
        insert_keeps_sorted(ledger.stakers, p, entry);
        index_of_found(staked.stakers, address, p);
        let back = unstake_outcome(staked, info, amount)->Ok_0.0;
        assert(back.stakers =~= ledger.stakers);
    }
}

/// Two epochs that end one after the other, with no stake changed between
/// them, give every account twice the interest of one epoch, and the total
/// twice what all earn in one.
pub proof fn two_epochs_accrue_twice(ledger: LedgerState, info: MessageInfoState)
    requires
        epoch_outcome(ledger, info) is Ok,
        epoch_outcome(epoch_outcome(ledger, info)->Ok_0.0, info) is Ok,
    ensures
        ({
            let rate = ledger.config.rewards_percentage;
            let part = ledger.percentage_of_year;
            let second = epoch_outcome(epoch_outcome(ledger, info)->Ok_0.0, info)->Ok_0.0;
            &&& second.stakers.len() == ledger.stakers.len()
            &&& forall|i: int|
                0 <= i < ledger.stakers.len() ==> (#[trigger] second.stakers[i]).staker.interest
                    == ledger.stakers[i].staker.interest + 2 * interest_earned(
                    ledger.stakers[i].staker.staked,
                    rate,
                    part,
                )
            &&& second.total_interest_wattpeak == ledger.total_interest_wattpeak + 2 * total_earned(
                ledger.stakers,
                rate,
                part,
            )
            &&& second.epoch_count == ledger.epoch_count + 2
        }),
{
    let rate = ledger.config.rewards_percentage;
    let part = ledger.percentage_of_year;
    let first = epoch_outcome(ledger, info)->Ok_0.0;
    total_of_same(earnings(first.stakers, rate, part), earnings(ledger.stakers, rate, part), Balance::Interest);
}

/// An account that holds all of the outstanding interest receives all of a
/// deposit, with nothing lost to rounding.
pub proof fn sole_earner_takes_all(amount: nat, total_interest: nat)
    requires
        total_interest > 0,
    ensures
        reward_share(amount, total_interest, total_interest) == amount * DECIMAL_FRACTIONAL,
{
    vstd::arithmetic::div_mod::lemma_div_by_multiple(DECIMAL_FRACTIONAL as int, total_interest as int);
    assert(total_interest * DECIMAL_FRACTIONAL == DECIMAL_FRACTIONAL * total_interest) by (nonlinear_arith);
}

/// No account receives more of a deposit than its share of the outstanding
/// interest entitles it to.
pub proof fn reward_within_entitlement(amount: nat, interest: nat, total_interest: nat)
    requires
        total_interest > 0,
    ensures
        reward_share(amount, interest, total_interest) * total_interest <= amount * DECIMAL_FRACTIONAL * interest,
{
    let f = DECIMAL_FRACTIONAL as int;
    let share = ratio_atomics(interest, total_interest) as int;
    let t = total_interest as int;
    vstd::arithmetic::div_mod::lemma_fundamental_div_mod(interest * f, t);
    vstd::arithmetic::div_mod::lemma_mod_bound(interest * f, t);
    assert(share * t <= interest * f) by (nonlinear_arith)
        requires
            interest * f == t * share + (interest * f) % t,
            0 <= (interest * f) % t,
    ;
    assert((amount * share) * t <= amount * f * interest) by (nonlinear_arith)
        requires
            share * t <= interest * f,
            amount >= 0,
    ;
}

/// The shares that the accounts have in the outstanding interest: the
/// listing with each account's share in place of its claimable balance.
pub open spec fn shares(stakers: Seq<EntryState>, total_interest: nat) -> Seq<EntryState> {
    Seq::new(
        stakers.len(),
        |i: int|
            EntryState {
                address: stakers[i].address,
                staker: StakerState {
                    claimable: ratio_atomics(stakers[i].staker.interest, total_interest),
                    ..stakers[i].staker
                },
            },
    )
}

/// The parts of a deposit that the accounts receive: the listing with each
/// account's part in place of its claimable balance.
pub open spec fn rewards(stakers: Seq<EntryState>, amount: nat, total_interest: nat) -> Seq<EntryState> {
    Seq::new(
        stakers.len(),
        |i: int|
            EntryState {
                address: stakers[i].address,
                staker: StakerState {
                    claimable: reward_share(amount, stakers[i].staker.interest, total_interest),
                    ..stakers[i].staker
                },
            },
    )
}

/// The shares, each rounded down, come to no more than the interest they
/// are shares of.
proof fn shares_within_interest(stakers: Seq<EntryState>, total_interest: nat)
    requires
        total_interest > 0,
    ensures
        total_of(shares(stakers, total_interest), Balance::Claimable) * total_interest <= total_of(
            stakers,
            Balance::Interest,
        ) * DECIMAL_FRACTIONAL,
    decreases stakers.len(),
{
    if stakers.len() > 0 {
        let front = stakers.drop_last();
        let last = stakers.last();
        shares_within_interest(front, total_interest);
        assert(shares(stakers, total_interest).drop_last() =~= shares(front, total_interest));
        reward_within_entitlement(1, last.staker.interest, total_interest);
        let a = total_of(shares(front, total_interest), Balance::Claimable) as int;
        let b = ratio_atomics(last.staker.interest, total_interest) as int;
        let x = total_of(front, Balance::Interest) as int;
        let y = last.staker.interest as int;
        let t = total_interest as int;
        let f = DECIMAL_FRACTIONAL as int;
        assert(reward_share(1, last.staker.interest, total_interest) == b) by {
            assert(1 * b == b);
        }
        assert(1 * f * y == y * f) by (nonlinear_arith);
        assert(b * t <= y * f);
        assert(a * t <= x * f);
        assert(total_of(shares(stakers, total_interest), Balance::Claimable) == a + b);
        assert(total_of(stakers, Balance::Interest) == x + y);
        assert((a + b) * t <= (x + y) * f) by (nonlinear_arith)
            requires
                a * t <= x * f,
                b * t <= y * f,
        ;
    } else {
        assert(total_of(shares(stakers, total_interest), Balance::Claimable) == 0);
        assert(total_of(stakers, Balance::Interest) == 0);
        assert(0 * (total_interest as int) <= 0 * (DECIMAL_FRACTIONAL as int)) by (nonlinear_arith);
    }
}

/// The parts of a deposit come to the amount times the sum of the shares.
proof fn rewards_are_shares(stakers: Seq<EntryState>, amount: nat, total_interest: nat)
    ensures
        total_of(rewards(stakers, amount, total_interest), Balance::Claimable) == amount * total_of(
            shares(stakers, total_interest),
            Balance::Claimable,
        ),
    decreases stakers.len(),
{
    if stakers.len() > 0 {
        let front = stakers.drop_last();
        rewards_are_shares(front, amount, total_interest);
        assert(shares(stakers, total_interest).drop_last() =~= shares(front, total_interest));
        assert(rewards(stakers, amount, total_interest).drop_last() =~= rewards(front, amount, total_interest));
        let a = total_of(shares(front, total_interest), Balance::Claimable) as int;
        let b = ratio_atomics(stakers.last().staker.interest, total_interest) as int;
        assert(amount * (a + b) == amount * a + amount * b) by (nonlinear_arith);
    } else {
        assert(amount * 0 == 0);
    }
}

/// A distribution adds to the claimable balances, all together, no more
/// than the deposit: what rounding takes is lost to the stakers, never
/// gained.
pub proof fn rewards_within_deposit(ledger: LedgerState, amount: nat)
    requires
        ledger.wf(),
        distribution_outcome(ledger, amount) is Ok,
    ensures
        total_of(distribution_outcome(ledger, amount)->Ok_0.stakers, Balance::Claimable) <= total_of(
            ledger.stakers,
            Balance::Claimable,
        ) + amount * DECIMAL_FRACTIONAL,
{
    let total = ledger.total_interest_wattpeak;
    let after = distributed(ledger.stakers, amount, total);
    let parts = rewards(ledger.stakers, amount, total);
    total_of_sum(ledger.stakers, parts, after, Balance::Claimable);
    rewards_are_shares(ledger.stakers, amount, total);
    shares_within_interest(ledger.stakers, total);
    let s = total_of(shares(ledger.stakers, total), Balance::Claimable) as int;
    let t = total as int;
    let f = DECIMAL_FRACTIONAL as int;
    assert(s <= f) by (nonlinear_arith)
        requires
            s * t <= t * f,
            t > 0,
    ;
    assert(amount * s <= amount * f) by (nonlinear_arith)
        requires
            s <= f,
            amount >= 0,
    ;
}

/// A claim pays out, to the staker and to the protocol together, no more
/// than the whole units of the claimable balance.
pub proof fn claim_pays_at_most(rewards: nat, fee_percentage: nat)
    requires
        fee_percentage <= DECIMAL_FRACTIONAL,
    ensures
        claim_fee(rewards, fee_percentage) <= rewards,
        (rewards - claim_fee(rewards, fee_percentage)) / (DECIMAL_FRACTIONAL as int) + claim_fee(
            rewards,
            fee_percentage,
        ) / (DECIMAL_FRACTIONAL as nat) <= rewards / (DECIMAL_FRACTIONAL as nat),
{
    product_at_most(rewards, fee_percentage);
    let fee = claim_fee(rewards, fee_percentage) as int;
    let all = rewards as int;
    let rest = all - fee;
    let f = DECIMAL_FRACTIONAL as int;
    vstd::arithmetic::div_mod::lemma_fundamental_div_mod(fee, f);
    vstd::arithmetic::div_mod::lemma_fundamental_div_mod(rest, f);
    vstd::arithmetic::div_mod::lemma_fundamental_div_mod(all, f);
    vstd::arithmetic::div_mod::lemma_mod_bound(fee, f);
    vstd::arithmetic::div_mod::lemma_mod_bound(rest, f);
    vstd::arithmetic::div_mod::lemma_mod_bound(all, f);
    assert(rest / f + fee / f <= all / f) by (nonlinear_arith)
        requires
            f > 0,
            rest + fee == all,
            fee == f * (fee / f) + fee % f,
            rest == f * (rest / f) + rest % f,
            all == f * (all / f) + all % f,
            0 <= fee % f < f,
            0 <= rest % f < f,
            0 <= all % f < f,
    ;
}

} // verus!
