//! The two engines of the ledger: the accrual of interest at the end of an
//! epoch, and the distribution of a deposited reward in proportion to the
//! interest outstanding.

use vstd::prelude::*;

use crate::decimal::Decimal;
use crate::decimal::DECIMAL_FRACTIONAL;
use crate::decimal::product_of_whole;
use crate::decimal::ratio_at_most_one;
use crate::decimal::ratio_atomics;
use crate::decimal::ratio_of_wholes;
use crate::response::AttributeState;
use crate::response::MessageInfo;
use crate::response::MessageInfoState;
use crate::response::PaymentState;
use crate::response::Response;
use crate::response::ResponseState;
use crate::staker::error::StakingError;
use crate::staker::model::Balance;
use crate::staker::model::EntryState;
use crate::staker::model::LedgerState;
use crate::staker::model::none_drained;
use crate::staker::model::Outcome;
use crate::staker::model::outcome_is;
use crate::staker::model::same_addresses_sorted;
use crate::staker::model::SECONDS_PER_YEAR;
use crate::staker::model::sorted;
use crate::staker::model::StakerState;
use crate::staker::model::total_of;
use crate::staker::model::total_of_bounds;
use crate::staker::model::total_of_prefix;
use crate::staker::model::total_of_push;
use crate::staker::model::total_of_same;
use crate::staker::model::total_of_sum;
use crate::staker::model::total_of_zero;
use crate::staker::model::year_fraction;
use crate::staker::state::entries_view;
use crate::staker::state::Ledger;
use crate::staker::state::Staker;
use crate::staker::state::StakerEntry;

verus! {

// ---------------------------------------------------------------------------
// The part of a year that an epoch covers
// ---------------------------------------------------------------------------

/// Sets `percentage_of_year` to the part of a year that an epoch of
/// `epoch_length` seconds covers.
pub fn set_yearly_percentage(percentage_of_year: &mut Decimal, epoch_length: u64)
    ensures
        final(percentage_of_year)@ == year_fraction(epoch_length as nat),
{
    let f = DECIMAL_FRACTIONAL;
    assert(epoch_length * f <= u64::MAX * f) by (nonlinear_arith)
        requires
            epoch_length <= u64::MAX,
            f == 1_000_000_000_000_000_000u128,
    ;
    assert(epoch_length * f * 1 == epoch_length * f) by (nonlinear_arith);
    assert(SECONDS_PER_YEAR * f * 1 == SECONDS_PER_YEAR * f) by (nonlinear_arith);
    let time_staked = Decimal::checked_from_ratio(epoch_length as u128, 1);
    let one_year = Decimal::checked_from_ratio(SECONDS_PER_YEAR as u128, 1);
    assert(time_staked is Ok && time_staked->Ok_0@ == epoch_length * f);
    assert(one_year is Ok && one_year->Ok_0@ == SECONDS_PER_YEAR * f);
    proof {
        ratio_of_wholes(epoch_length as nat, SECONDS_PER_YEAR as nat);
        assert(epoch_length * f / (SECONDS_PER_YEAR as int) <= epoch_length * f) by (nonlinear_arith)
            requires
                SECONDS_PER_YEAR == 31_556_926u64,
                0 <= epoch_length * f,
        ;
    }
    let fraction = time_staked.unwrap().checked_div(one_year.unwrap());
    *percentage_of_year = fraction.unwrap();
}

// ---------------------------------------------------------------------------
// Accrual of interest
// ---------------------------------------------------------------------------

/// The interest that a stake earns in one epoch, in atomic units: the stake
/// times the yearly rate times the part of a year, rounded down.
pub open spec fn interest_earned(staked: nat, rate: nat, percentage_of_year: nat) -> nat {
    staked * rate * percentage_of_year / (DECIMAL_FRACTIONAL as nat)
}

/// The interest of one epoch on a stake can be computed in 128 bits: the
/// stake as a fixed-point number, the interest of a full year, and the
/// interest of the epoch all fit.
pub open spec fn accrual_fits(staked: nat, rate: nat, percentage_of_year: nat) -> bool {
    &&& staked * DECIMAL_FRACTIONAL <= u128::MAX
    &&& staked * rate <= u128::MAX
    &&& interest_earned(staked, rate, percentage_of_year) <= u128::MAX
}

/// The record of each account's interest for one epoch: the listing with
/// that interest in place of the interest balance.
pub open spec fn earnings(stakers: Seq<EntryState>, rate: nat, percentage_of_year: nat) -> Seq<EntryState> {
    Seq::new(
        stakers.len(),
        |i: int|
            EntryState {
                address: stakers[i].address,
                staker: StakerState {
                    interest: interest_earned(stakers[i].staker.staked, rate, percentage_of_year),
                    ..stakers[i].staker
                },
            },
    )
}

/// The interest that all accounts together earn in one epoch.
pub open spec fn total_earned(stakers: Seq<EntryState>, rate: nat, percentage_of_year: nat) -> nat {
    total_of(earnings(stakers, rate, percentage_of_year), Balance::Interest)
}

/// The listing after one epoch: every account's interest balance has grown
/// by the interest its stake earned.
pub open spec fn accrued(stakers: Seq<EntryState>, rate: nat, percentage_of_year: nat) -> Seq<EntryState> {
    Seq::new(
        stakers.len(),
        |i: int|
            EntryState {
                address: stakers[i].address,
                staker: StakerState {
                    interest: stakers[i].staker.interest + interest_earned(
                        stakers[i].staker.staked,
                        rate,
                        percentage_of_year,
                    ),
                    ..stakers[i].staker
                },
            },
    )
}

/// The interest of one epoch can be computed for every account.
pub open spec fn all_accruals_fit(stakers: Seq<EntryState>, rate: nat, percentage_of_year: nat) -> bool {
    forall|i: int|
        0 <= i < stakers.len() ==> accrual_fits((#[trigger] stakers[i]).staker.staked, rate, percentage_of_year)
}

/// What the end of an epoch comes to. It is rejected where the caller is
/// not the admin, and where the interest of some account, the total of
/// outstanding interest or the epoch counter would exceed what it can hold.
/// Otherwise every account earns its interest, the total grows by what all
/// earned, and the epoch counter goes up by one.
pub open spec fn epoch_outcome(ledger: LedgerState, info: MessageInfoState) -> Outcome {
    let rate = ledger.config.rewards_percentage;
    let part = ledger.percentage_of_year;
    if info.sender != ledger.config.admin {
        Err(StakingError::Unauthorized)
    } else if !all_accruals_fit(ledger.stakers, rate, part) || ledger.total_interest_wattpeak + total_earned(
        ledger.stakers,
        rate,
        part,
    ) > u128::MAX || ledger.epoch_count + 1 > u64::MAX {
        Err(StakingError::Overflow)
    } else {
        Ok(
            (
                LedgerState {
                    stakers: accrued(ledger.stakers, rate, part),
                    total_interest_wattpeak: ledger.total_interest_wattpeak + total_earned(
                        ledger.stakers,
                        rate,
                        part,
                    ),
                    epoch_count: ledger.epoch_count + 1,
                    ..ledger
                },
                ResponseState {
                    messages: Seq::<PaymentState>::empty(),
                    attributes: Seq::<AttributeState>::empty(),
                },
            ),
        )
    }
}

/// The interest of one epoch on `staked`, or `None` where it cannot be
/// computed in 128 bits.
pub fn epoch_interest(staked: u128, rate: Decimal, percentage_of_year: Decimal) -> (r: Option<Decimal>)
    ensures
        r is Some <==> accrual_fits(staked as nat, rate@, percentage_of_year@),
        r is Some ==> r->Some_0@ == interest_earned(staked as nat, rate@, percentage_of_year@),
{
    proof {
        assert(staked * DECIMAL_FRACTIONAL / 1 == staked * DECIMAL_FRACTIONAL);
        product_of_whole(staked as nat, rate@);
    }
    let wattpeak_staked = match Decimal::checked_from_ratio(staked, 1) {
        Ok(value) => value,
        Err(_) => {
            return None;
        },
    };
    let interest_per_year = match wattpeak_staked.checked_mul(rate) {
        Some(value) => value,
        None => {
            return None;
        },
    };
    interest_per_year.checked_mul(percentage_of_year)
}

/// Ends an epoch: every staker earns the interest of one epoch on its stake.
///
/// The engine does not look at the clock. Each call stands for one epoch,
/// and it is for the admin to call it once per epoch.
pub fn calculate_interest_after_epoch(ledger: &mut Ledger, info: &MessageInfo) -> (r: Result<
    Response,
    StakingError,
>)
    requires
        old(ledger).wf(),
    ensures
        final(ledger).wf(),
        outcome_is(epoch_outcome(old(ledger)@, info@), old(ledger)@, final(ledger)@, r),
        info@.sender != old(ledger)@.config.admin ==> r == Err::<Response, StakingError>(
            StakingError::Unauthorized,
        ) && final(ledger)@ == old(ledger)@,
        none_drained(old(ledger)@.stakers) ==> none_drained(
            final(ledger)@.stakers,
        ),
{
    let ghost before = ledger@;
    proof {
        ledger.view_is();
    }
    if !(info.sender == ledger.config.admin) {
        return Err(StakingError::Unauthorized);
    }
    let rate: Decimal = ledger.config.rewards_percentage;
    let part: Decimal = ledger.percentage_of_year;
    let ghost listing = before.stakers;
    let ghost earned = earnings(listing, rate@, part@);
    let ghost target = accrued(listing, rate@, part@);
    let mut updated: Vec<StakerEntry> = Vec::new();
    let mut period_total: Decimal = Decimal::zero();
    let n: usize = ledger.stakers.len();
    let mut i: usize = 0;
    proof {
        assert(entries_view(updated@) =~= target.take(0));
        assert(earned.take(0) =~= Seq::<EntryState>::empty());
    }
    while i < n
        invariant
            n == ledger.stakers.len(),
            i <= n,
            listing == entries_view(ledger.stakers@),
            listing.len() == n,
            earned == earnings(listing, rate@, part@),
            target == accrued(listing, rate@, part@),
            entries_view(updated@) == target.take(i as int),
            period_total@ == total_of(earned.take(i as int), Balance::Interest),
            forall|j: int| 0 <= j < i ==> accrual_fits((#[trigger] listing[j]).staker.staked, rate@, part@),
            before == ledger@,
            before.wf(),
            before.stakers == listing,
            before.config.rewards_percentage == rate@,
            before.percentage_of_year == part@,
            before.config.admin == info@.sender,
            before.total_interest_wattpeak == total_of(listing, Balance::Interest),
        decreases n - i,
    {
        let staker: Staker = ledger.stakers[i].staker;
        assert(listing[i as int].staker == staker@);
        let interest: Decimal = match epoch_interest(staker.wattpeak_staked, rate, part) {
            Some(value) => value,
            None => {
                return Err(StakingError::Overflow);
            },
        };
        proof {
            assert(earned.take(i + 1) =~= earned.take(i as int).push(earned[i as int]));
            total_of_push(earned.take(i as int), earned[i as int], Balance::Interest);
            total_of_prefix(earned, i + 1, Balance::Interest);
            total_of_bounds(earned, i as int, Balance::Interest);
            total_of_bounds(listing, i as int, Balance::Interest);
        }
        period_total = match period_total.checked_add(interest) {
            Some(value) => value,
            None => {
                return Err(StakingError::Overflow);
            },
        };
        let mut next: Staker = staker;
        next.interest_wattpeak = match staker.interest_wattpeak.checked_add(interest) {
            Some(value) => value,
            None => {
                return Err(StakingError::Overflow);
            },
        };
        let entry = StakerEntry { address: ledger.stakers[i].address.clone(), staker: next };
        let ghost done = entries_view(updated@);
        let ghost added = entry@;
        updated.push(entry);
        proof {
            assert(added == target[i as int]);
            assert(entries_view(updated@) =~= done.push(added));
            assert(target.take(i + 1) =~= target.take(i as int).push(target[i as int]));
        }
        i += 1;
    }
    proof {
        assert(earned.take(n as int) =~= earned);
        assert(target.take(n as int) =~= target);
    }
    let new_total: Decimal = match ledger.total_interest_wattpeak.checked_add(period_total) {
        Some(value) => value,
        None => {
            return Err(StakingError::Overflow);
        },
    };
    let new_count: u64 = match ledger.epoch_count.checked_add(1) {
        Some(value) => value,
        None => {
            return Err(StakingError::Overflow);
        },
    };
    proof {
        accrued_keeps_invariant(listing, rate@, part@);
    }
    ledger.stakers = updated;
    ledger.total_interest_wattpeak = new_total;
    ledger.epoch_count = new_count;
    proof {
        ledger.view_is();
    }
    let response = Response::new();
    Ok(response)
}

/// An epoch keeps the order of the listing and every stake, adds what all
/// earned to the sum of interest, and drains no account.
pub proof fn accrued_keeps_invariant(stakers: Seq<EntryState>, rate: nat, percentage_of_year: nat)
    ensures
        sorted(stakers) ==> sorted(
            accrued(stakers, rate, percentage_of_year),
        ),
        total_of(accrued(stakers, rate, percentage_of_year), Balance::Staked) == total_of(
            stakers,
            Balance::Staked,
        ),
        total_of(accrued(stakers, rate, percentage_of_year), Balance::Claimable) == total_of(
            stakers,
            Balance::Claimable,
        ),
        total_of(accrued(stakers, rate, percentage_of_year), Balance::Interest) == total_of(
            stakers,
            Balance::Interest,
        ) + total_earned(stakers, rate, percentage_of_year),
        none_drained(stakers) ==> none_drained(
            accrued(stakers, rate, percentage_of_year),
        ),
{
    let after = accrued(stakers, rate, percentage_of_year);
    let earned = earnings(stakers, rate, percentage_of_year);
    if sorted(stakers) {
        same_addresses_sorted(stakers, after);
    }
    total_of_same(after, stakers, Balance::Staked);
    total_of_same(after, stakers, Balance::Claimable);
    total_of_sum(stakers, earned, after, Balance::Interest);
    if none_drained(stakers) {
        assert forall|i: int| 0 <= i < after.len() implies !(#[trigger] after[i]).staker.drained() by {
            assert(!stakers[i].staker.drained());
        }
    }
}

// ---------------------------------------------------------------------------
// Distribution of a deposited reward
// ---------------------------------------------------------------------------

/// An account's part of a deposit of `amount`, in atomic units: the amount
/// times the account's share of the outstanding interest, the share rounded
/// down to eighteen digits.
pub open spec fn reward_share(amount: nat, interest: nat, total_interest: nat) -> nat
    recommends
        total_interest > 0,
{
    amount * ratio_atomics(interest, total_interest)
}

/// The listing after a deposit of `amount` was shared out: every account's
/// claimable balance has grown by its part, and its interest is zero.
pub open spec fn distributed(stakers: Seq<EntryState>, amount: nat, total_interest: nat) -> Seq<EntryState> {
    Seq::new(
        stakers.len(),
        |i: int|
            EntryState {
                address: stakers[i].address,
                staker: StakerState {
                    interest: 0,
                    claimable: stakers[i].staker.claimable + reward_share(
                        amount,
                        stakers[i].staker.interest,
                        total_interest,
                    ),
                    ..stakers[i].staker
                },
            },
    )
}

/// Every account's claimable balance can take its part of the deposit.
pub open spec fn all_rewards_fit(stakers: Seq<EntryState>, amount: nat, total_interest: nat) -> bool {
    forall|i: int|
        0 <= i < stakers.len() ==> (#[trigger] stakers[i]).staker.claimable + reward_share(
            amount,
            stakers[i].staker.interest,
            total_interest,
        ) <= u128::MAX
}

/// Every account without stake and without claimable rewards receives a
/// part of a deposit of `amount` that is not zero.
pub open spec fn deposit_reaches_all(ledger: LedgerState, amount: nat) -> bool {
    forall|i: int|
        0 <= i < ledger.stakers.len() ==> (#[trigger] ledger.stakers[i]).staker.staked > 0
            || ledger.stakers[i].staker.claimable > 0 || reward_share(
            amount,
            ledger.stakers[i].staker.interest,
            ledger.total_interest_wattpeak,
        ) > 0
}

/// What the distribution of `amount` comes to. It is rejected where no
/// interest is outstanding, where the amount as a fixed-point number exceeds
/// 128 bits, and where some account's claimable balance would. Otherwise the
/// amount is shared out and the outstanding interest is zero.
pub open spec fn distribution_outcome(ledger: LedgerState, amount: nat) -> Result<LedgerState, StakingError> {
    let total = ledger.total_interest_wattpeak;
    if total == 0 {
        Err(StakingError::NothingToDistribute)
    } else if amount * DECIMAL_FRACTIONAL > u128::MAX || !all_rewards_fit(ledger.stakers, amount, total) {
        Err(StakingError::Overflow)
    } else {
        Ok(
            LedgerState {
                stakers: distributed(ledger.stakers, amount, total),
                total_interest_wattpeak: 0,
                ..ledger
            },
        )
    }
}

/// Shares a deposit of `amount` among the stakers in proportion to the
/// interest that each has outstanding, and resets that interest.
pub fn calculate_staker_share_of_reward(ledger: &mut Ledger, amount: u128) -> (r: Result<(), StakingError>)
    requires
        old(ledger).wf(),
    ensures
        final(ledger).wf(),
        match distribution_outcome(old(ledger)@, amount as nat) {
            Ok(next) => r is Ok && final(ledger)@ == next,
            Err(e) => r == Err::<(), StakingError>(e) && final(ledger)@ == old(ledger)@,
        },
        old(ledger)@.total_interest_wattpeak == 0 ==> r == Err::<(), StakingError>(
            StakingError::NothingToDistribute,
        ) && final(ledger)@ == old(ledger)@,
        none_drained(old(ledger)@.stakers) && deposit_reaches_all(old(ledger)@, amount as nat) ==> none_drained(
            final(ledger)@.stakers,
        ),
{
    let ghost before = ledger@;
    proof {
        ledger.view_is();
    }
    let total: Decimal = ledger.total_interest_wattpeak;
    if total.is_zero() {
        return Err(StakingError::NothingToDistribute);
    }
    proof {
        assert(amount * DECIMAL_FRACTIONAL / 1 == amount * DECIMAL_FRACTIONAL);
    }
    let decimal_amount: Decimal = match Decimal::checked_from_ratio(amount, 1) {
        Ok(value) => value,
        Err(_) => {
            return Err(StakingError::Overflow);
        },
    };
    let ghost listing = before.stakers;
    let ghost target = distributed(listing, amount as nat, total@);
    let mut updated: Vec<StakerEntry> = Vec::new();
    let n: usize = ledger.stakers.len();
    let mut i: usize = 0;
    proof {
        assert(entries_view(updated@) =~= target.take(0));
    }
    while i < n
        invariant
            n == ledger.stakers.len(),
            i <= n,
            listing == entries_view(ledger.stakers@),
            listing.len() == n,
            target == distributed(listing, amount as nat, total@),
            entries_view(updated@) == target.take(i as int),
            forall|j: int|
                0 <= j < i ==> (#[trigger] listing[j]).staker.claimable + reward_share(
                    amount as nat,
                    listing[j].staker.interest,
                    total@,
                ) <= u128::MAX,
            before == ledger@,
            before.wf(),
            before.stakers == listing,
            before.total_interest_wattpeak == total@,
            total@ > 0,
            decimal_amount@ == amount * DECIMAL_FRACTIONAL,
        decreases n - i,
    {
        let staker: Staker = ledger.stakers[i].staker;
        assert(listing[i as int].staker == staker@);
        proof {
            total_of_bounds(listing, i as int, Balance::Interest);
            ratio_at_most_one(staker@.interest, total@);
            let share = ratio_atomics(staker@.interest, total@);
            product_of_whole(amount as nat, share);
            assert(amount * share <= amount * DECIMAL_FRACTIONAL) by (nonlinear_arith)
                requires
                    share <= DECIMAL_FRACTIONAL,
            ;
        }
        let share: Decimal = match staker.interest_wattpeak.checked_div(total) {
            Ok(value) => value,
            Err(_) => {
                proof {
                    assert(false);
                }
                return Err(StakingError::Overflow);
            },
        };
        let reward: Decimal = match decimal_amount.checked_mul(share) {
            Some(value) => value,
            None => {
                proof {
                    assert(false);
                }
                return Err(StakingError::Overflow);
            },
        };
        assert(reward@ == reward_share(amount as nat, staker@.interest, total@));
        let mut next: Staker = staker;
        next.claimable_rewards = match staker.claimable_rewards.checked_add(reward) {
            Some(value) => value,
            None => {
                return Err(StakingError::Overflow);
            },
        };
        next.interest_wattpeak = Decimal::zero();
        let entry = StakerEntry { address: ledger.stakers[i].address.clone(), staker: next };
        let ghost done = entries_view(updated@);
        let ghost added = entry@;
        updated.push(entry);
        proof {
            assert(added == target[i as int]);
            assert(entries_view(updated@) =~= done.push(added));
            assert(target.take(i + 1) =~= target.take(i as int).push(target[i as int]));
        }
        i += 1;
    }
    proof {
        assert(target.take(n as int) =~= target);
        distributed_keeps_invariant(listing, amount as nat, total@);
        if none_drained(listing) && deposit_reaches_all(before, amount as nat) {
            distributed_none_drained(before, amount as nat);
        }
    }
    ledger.stakers = updated;
    ledger.total_interest_wattpeak = Decimal::zero();
    proof {
        ledger.view_is();
    }
    Ok(())
}

/// A distribution leaves no drained account where there was none, as long
/// as every account without stake and without claimable rewards receives a
/// part of the deposit that is not zero.
pub proof fn distributed_none_drained(ledger: LedgerState, amount: nat)
    requires
        none_drained(ledger.stakers),
        deposit_reaches_all(ledger, amount),
    ensures
        none_drained(distributed(ledger.stakers, amount, ledger.total_interest_wattpeak)),
{
    let after = distributed(ledger.stakers, amount, ledger.total_interest_wattpeak);
    assert forall|i: int| 0 <= i < after.len() implies !(#[trigger] after[i]).staker.drained() by {
        assert(!ledger.stakers[i].staker.drained());
        assert(ledger.stakers[i].staker.staked > 0 || ledger.stakers[i].staker.claimable > 0 || reward_share(
            amount,
            ledger.stakers[i].staker.interest,
            ledger.total_interest_wattpeak,
        ) > 0);
    }
}

/// A distribution keeps the order of the listing and every stake, and
/// leaves no interest outstanding.
pub proof fn distributed_keeps_invariant(stakers: Seq<EntryState>, amount: nat, total_interest: nat)
    ensures
        sorted(stakers) ==> sorted(
            distributed(stakers, amount, total_interest),
        ),
        total_of(distributed(stakers, amount, total_interest), Balance::Staked) == total_of(
            stakers,
            Balance::Staked,
        ),
        total_of(distributed(stakers, amount, total_interest), Balance::Interest) == 0,
{
    let after = distributed(stakers, amount, total_interest);
    if sorted(stakers) {
        same_addresses_sorted(stakers, after);
    }
    total_of_same(after, stakers, Balance::Staked);
    total_of_zero(after, Balance::Interest);
}

} // verus!
