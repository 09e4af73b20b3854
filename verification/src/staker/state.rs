//! The data that the staking ledger keeps: its configuration, one record per
//! staker, and the ledger that holds them together with the running totals.

use vstd::prelude::*;

use crate::address::addr_lt;
use crate::address::addr_lt_transitive;
use crate::address::place;
use crate::address::Placement;
use crate::decimal::Decimal;
use crate::decimal::DECIMAL_FRACTIONAL;
use crate::response::Env;
use crate::staker::error::StakingError;
use crate::staker::helpers::set_yearly_percentage;
use crate::staker::model::Balance;
use crate::staker::model::ConfigState;
use crate::staker::model::EntryState;
use crate::staker::model::found_at;
use crate::staker::model::index_of_found;
use crate::staker::model::LedgerState;
use crate::staker::model::opens_at;
use crate::staker::model::settled;
use crate::staker::model::slot_found;
use crate::staker::model::sorted;
use crate::staker::model::StakerState;
use crate::staker::model::total_of;
use crate::staker::model::total_of_prefix;
use crate::staker::model::total_of_push;
use crate::staker::model::year_fraction;

verus! {

/// The protocol parameters, changed by the admin alone.
#[derive(Clone, Debug, PartialEq, Eq)]
pub struct Config {
    /// Who may change the configuration, advance the epoch and deposit rewards.
    pub admin: String,
    /// The part of a stake that accrues as interest over a full year.
    pub rewards_percentage: Decimal,
    /// Epoch length in seconds.
    pub epoch_length: u64,
    /// The denomination accepted for stakes and rewards.
    pub wattpeak_denom: String,
    /// The part of a claim that goes to the protocol.
    pub staking_fee_percentage: Decimal,
    /// Where the protocol's part of a claim is paid.
    pub staking_fee_address: String,
}

impl View for Config {
    type V = ConfigState;

    open spec fn view(&self) -> ConfigState {
        ConfigState {
            admin: self.admin@,
            rewards_percentage: self.rewards_percentage@,
            epoch_length: self.epoch_length as nat,
            wattpeak_denom: self.wattpeak_denom@,
            staking_fee_percentage: self.staking_fee_percentage@,
            staking_fee_address: self.staking_fee_address@,
        }
    }
}

/// What [`Config::validate`] answers: the first of the four checks that the
/// configuration fails, in this order, or `Ok`.
pub open spec fn validate_spec(config: ConfigState, addresses_are_valid: bool) -> Result<(), StakingError> {
    if !addresses_are_valid {
        Err(StakingError::InvalidAddress)
    } else if config.epoch_length == 0 {
        Err(StakingError::ZeroEpochLength)
    } else if config.rewards_percentage > DECIMAL_FRACTIONAL {
        Err(StakingError::RewardsPercentageTooHigh)
    } else if config.staking_fee_percentage > DECIMAL_FRACTIONAL {
        Err(StakingError::FeePercentageTooHigh)
    } else {
        Ok(())
    }
}

impl Config {
    /// Checks the configuration. `addresses_are_valid` is the host's verdict
    /// on the addresses in it, which only the host can give.
    pub fn validate(&self, addresses_are_valid: bool) -> (r: Result<(), StakingError>)
        ensures
            r == validate_spec(self@, addresses_are_valid),
            r is Ok <==> addresses_are_valid && self@.valid(),
    {
        if !addresses_are_valid {
            return Err(StakingError::InvalidAddress);
        }
        if self.epoch_length == 0 {
            return Err(StakingError::ZeroEpochLength);
        }
        if self.rewards_percentage.atomics > DECIMAL_FRACTIONAL {
            return Err(StakingError::RewardsPercentageTooHigh);
        }
        if self.staking_fee_percentage.atomics > DECIMAL_FRACTIONAL {
            return Err(StakingError::FeePercentageTooHigh);
        }
        Ok(())
    }
}

/// A clock of epochs: which epoch runs, since when, and for how long.
#[derive(Clone, Copy, Debug, PartialEq, Eq, Structural)]
pub struct EpochState {
    /// Epoch length in seconds.
    pub epoch_length: u64,
    pub current_epoch: u32,
    /// When the current epoch began, in seconds.
    pub epoch_start_time: u64,
}

impl EpochState {
    /// The current epoch has run its length at the time `now`.
    pub open spec fn is_over(self, now: nat) -> bool {
        now >= self.epoch_start_time + self.epoch_length
    }

    /// Begins the next epoch at the time of `env` where the current one has
    /// run its length by then, and changes nothing where it has not.
    pub fn check_update_epoch(&mut self, env: &Env)
        requires
            old(self).is_over(env.block_time as nat) ==> old(self).current_epoch < u32::MAX,
        ensures
            old(self).is_over(env.block_time as nat) ==> *final(self) == (EpochState {
                current_epoch: (old(self).current_epoch + 1) as u32,
                epoch_start_time: env.block_time,
                ..*old(self)
            }),
            !old(self).is_over(env.block_time as nat) ==> *final(self) == *old(self),
    {
        let due = match self.epoch_start_time.checked_add(self.epoch_length) {
            Some(end) => env.block_time >= end,
            None => false,
        };
        if due {
            self.current_epoch = self.current_epoch + 1;
            self.epoch_start_time = env.block_time;
        }
    }
}

/// One staker's record.
#[derive(Clone, Copy, Debug, PartialEq, Eq, Structural)]
pub struct Staker {
    /// The amount of WattPeak locked.
    pub wattpeak_staked: u128,
    /// Interest accrued since the last distribution of rewards.
    pub interest_wattpeak: Decimal,
    /// When the staker first staked, in seconds.
    pub stake_start_time: u64,
    /// Rewards that the staker may withdraw.
    pub claimable_rewards: Decimal,
}

impl View for Staker {
    type V = StakerState;

    open spec fn view(&self) -> StakerState {
        StakerState {
            staked: self.wattpeak_staked as nat,
            interest: self.interest_wattpeak@,
            start_time: self.stake_start_time as nat,
            claimable: self.claimable_rewards@,
        }
    }
}

impl Default for Staker {
    /// The record of an address that never staked: all zero.
    fn default() -> (r: Staker)
        ensures
            r@ == (StakerState { staked: 0, interest: 0, start_time: 0, claimable: 0 }),
    {
        Staker {
            wattpeak_staked: 0,
            interest_wattpeak: Decimal::zero(),
            stake_start_time: 0,
            claimable_rewards: Decimal::zero(),
        }
    }
}

impl Staker {
    /// Whether all three balances are zero.
    pub fn is_drained(&self) -> (r: bool)
        ensures
            r == self@.drained(),
    {
        self.wattpeak_staked == 0 && self.claimable_rewards.is_zero() && self.interest_wattpeak.is_zero()
    }
}

/// A staker's record under its address.
#[derive(Clone, Debug, PartialEq, Eq)]
pub struct StakerEntry {
    pub address: String,
    pub staker: Staker,
}

impl View for StakerEntry {
    type V = EntryState;

    open spec fn view(&self) -> EntryState {
        EntryState { address: self.address@, staker: self.staker@ }
    }
}

/// The listing that a vector of records stands for.
pub open spec fn entries_view(entries: Seq<StakerEntry>) -> Seq<EntryState> {
    entries.map_values(|e: StakerEntry| e@)
}

/// The staking ledger. Its records are listed in ascending order of address.
#[derive(Clone, Debug, PartialEq, Eq)]
pub struct Ledger {
    pub(crate) config: Config,
    pub(crate) percentage_of_year: Decimal,
    pub(crate) stakers: Vec<StakerEntry>,
    pub(crate) total_wattpeak_staked: u128,
    pub(crate) total_interest_wattpeak: Decimal,
    pub(crate) epoch_count: u64,
}

impl View for Ledger {
    type V = LedgerState;

    closed spec fn view(&self) -> LedgerState {
        LedgerState {
            config: self.config@,
            percentage_of_year: self.percentage_of_year@,
            stakers: entries_view(self.stakers@),
            total_wattpeak_staked: self.total_wattpeak_staked as nat,
            total_interest_wattpeak: self.total_interest_wattpeak@,
            epoch_count: self.epoch_count as nat,
        }
    }
}

impl Ledger {
    /// The ledger is well-formed: see [`LedgerState::wf`].
    pub open spec fn wf(&self) -> bool {
        self@.wf()
    }

    /// How the ledger's state is read off its fields.
    pub(crate) proof fn view_is(&self)
        ensures
            self@ == (LedgerState {
                config: self.config@,
                percentage_of_year: self.percentage_of_year@,
                stakers: entries_view(self.stakers@),
                total_wattpeak_staked: self.total_wattpeak_staked as nat,
                total_interest_wattpeak: self.total_interest_wattpeak@,
                epoch_count: self.epoch_count as nat,
            }),
            self@.total_wattpeak_staked <= u128::MAX,
            self@.total_interest_wattpeak <= u128::MAX,
            self@.epoch_count <= u64::MAX,
    {
    }
}

/// Each account comes before the next in the listing order.
pub open spec fn ascending(stakers: Seq<EntryState>) -> bool {
    forall|i: int| 0 <= i < stakers.len() - 1 ==> addr_lt(#[trigger] stakers[i].address, stakers[i + 1].address)
}

/// A listing in which each account comes before the next is sorted.
pub proof fn ascending_is_sorted(stakers: Seq<EntryState>)
    requires
        ascending(stakers),
    ensures
        sorted(stakers),
    decreases stakers.len(),
{
    if stakers.len() > 1 {
        let front = stakers.drop_last();
        assert forall|i: int| 0 <= i < front.len() - 1 implies addr_lt(
            #[trigger] front[i].address,
            front[i + 1].address,
        ) by {
            assert(addr_lt(stakers[i].address, stakers[i + 1].address));
        }
        ascending_is_sorted(front);
        let last = stakers.len() - 1;
        assert forall|i: int, j: int| 0 <= i < j < stakers.len() implies addr_lt(
            stakers[i].address,
            stakers[j].address,
        ) by {
            if j < last {
                assert(addr_lt(front[i].address, front[j].address));
            } else if i < last - 1 {
                assert(addr_lt(front[i].address, front[last - 1].address));
                assert(addr_lt(stakers[last - 1].address, stakers[last - 1 + 1].address));
                addr_lt_transitive(stakers[i].address, stakers[last - 1].address, stakers[last].address);
            } else {
                assert(addr_lt(stakers[last - 1].address, stakers[last - 1 + 1].address));
            }
        }
    }
}

/// Whether a vector of records is in strictly ascending order of address.
pub fn is_sorted(stakers: &Vec<StakerEntry>) -> (r: bool)
    ensures
        r == sorted(entries_view(stakers@)),
{
    let ghost listing = entries_view(stakers@);
    let n: usize = stakers.len();
    if n < 2 {
        return true;
    }
    let mut i: usize = 0;
    while i < n - 1
        invariant
            n == stakers.len(),
            n >= 2,
            i <= n - 1,
            listing == entries_view(stakers@),
            forall|j: int| 0 <= j < i ==> addr_lt(#[trigger] listing[j].address, listing[j + 1].address),
        decreases n - i,
    {
        let placement = place(stakers[i].address.as_str(), stakers[i + 1].address.as_str());
        assert(listing[i as int].address == stakers[i as int].address@);
        assert(listing[i + 1].address == stakers[i + 1].address@);
        if placement != Placement::Before {
            return false;
        }
        i += 1;
    }
    proof {
        ascending_is_sorted(listing);
    }
    true
}

/// The sum of one balance over a vector of records, or `None` where it
/// exceeds 128 bits.
pub fn sum_balance(stakers: &Vec<StakerEntry>, which: Balance) -> (r: Option<u128>)
    ensures
        r is Some <==> total_of(entries_view(stakers@), which) <= u128::MAX,
        r is Some ==> r->Some_0 == total_of(entries_view(stakers@), which),
{
    let ghost listing = entries_view(stakers@);
    let mut sum: u128 = 0;
    let mut i: usize = 0;
    assert(listing.take(0) =~= Seq::<EntryState>::empty());
    while i < stakers.len()
        invariant
            i <= stakers.len(),
            listing == entries_view(stakers@),
            sum == total_of(listing.take(i as int), which),
        decreases stakers.len() - i,
    {
        let staker: Staker = stakers[i].staker;
        assert(listing[i as int].staker == staker@);
        let balance: u128 = match which {
            Balance::Staked => staker.wattpeak_staked,
            Balance::Interest => staker.interest_wattpeak.atomics,
            Balance::Claimable => staker.claimable_rewards.atomics,
        };
        proof {
            assert(listing.take(i + 1) =~= listing.take(i as int).push(listing[i as int]));
            total_of_push(listing.take(i as int), listing[i as int], which);
            total_of_prefix(listing, i + 1, which);
        }
        sum = match sum.checked_add(balance) {
            Some(value) => value,
            None => {
                return None;
            },
        };
        i += 1;
    }
    assert(listing.take(stakers.len() as int) =~= listing);
    Some(sum)
}

impl Ledger {
    /// The ledger that holds the given configuration, records and counters,
    /// or `None` where these do not make a well-formed ledger.
    pub fn restore(
        config: Config,
        stakers: Vec<StakerEntry>,
        total_wattpeak_staked: u128,
        total_interest_wattpeak: Decimal,
        epoch_count: u64,
    ) -> (r: Option<Ledger>)
        ensures
            r is Some <==> restored(
                config@,
                entries_view(stakers@),
                total_wattpeak_staked as nat,
                total_interest_wattpeak@,
                epoch_count as nat,
            ).wf(),
            r is Some ==> r->Some_0@ == restored(
                config@,
                entries_view(stakers@),
                total_wattpeak_staked as nat,
                total_interest_wattpeak@,
                epoch_count as nat,
            ),
    {
        if config.validate(true).is_err() {
            return None;
        }
        if !is_sorted(&stakers) {
            return None;
        }
        match sum_balance(&stakers, Balance::Staked) {
            Some(sum) => {
                if sum != total_wattpeak_staked {
                    return None;
                }
            },
            None => {
                return None;
            },
        }
        match sum_balance(&stakers, Balance::Interest) {
            Some(sum) => {
                if sum != total_interest_wattpeak.atomics {
                    return None;
                }
            },
            None => {
                return None;
            },
        }
        let mut percentage_of_year = Decimal::zero();
        set_yearly_percentage(&mut percentage_of_year, config.epoch_length);
        let ledger = Ledger {
            config,
            percentage_of_year,
            stakers,
            total_wattpeak_staked,
            total_interest_wattpeak,
            epoch_count,
        };
        Some(ledger)
    }

    /// The configuration.
    pub fn config(&self) -> (r: &Config)
        ensures
            r@ == self@.config,
    {
        &self.config
    }

    /// The part of a year that one epoch covers.
    pub fn percentage_of_year(&self) -> (r: Decimal)
        ensures
            r@ == self@.percentage_of_year,
    {
        self.percentage_of_year
    }

    /// The records, in ascending order of address.
    pub fn stakers(&self) -> (r: &Vec<StakerEntry>)
        ensures
            entries_view(r@) == self@.stakers,
    {
        &self.stakers
    }

    /// The sum of all stakes.
    pub fn total_wattpeak_staked(&self) -> (r: u128)
        ensures
            r == self@.total_wattpeak_staked,
    {
        self.total_wattpeak_staked
    }

    /// The interest outstanding over all stakers.
    pub fn total_interest_wattpeak(&self) -> (r: Decimal)
        ensures
            r@ == self@.total_interest_wattpeak,
    {
        self.total_interest_wattpeak
    }

    /// How many epochs have ended.
    pub fn epoch_count(&self) -> (r: u64)
        ensures
            r == self@.epoch_count,
    {
        self.epoch_count
    }

    /// The record of `address`, if it has one.
    pub fn staker(&self, address: &str) -> (r: Option<Staker>)
        requires
            self.wf(),
        ensures
            match r {
                Some(staker) => self@.staker(address@) == Some(staker@),
                None => self@.staker(address@) is None,
            },
    {
        let (found, i) = locate(&self.stakers, address);
        if found {
            proof {
                index_of_found(self@.stakers, address@, i as int);
            }
            Some(self.stakers[i].staker)
        } else {
            proof {
                slot_found(self@.stakers, address@, i as int);
            }
            None
        }
    }
}

/// The ledger made of the given parts, with the part of a year that the
/// configured epoch length covers.
pub open spec fn restored(
    config: ConfigState,
    stakers: Seq<EntryState>,
    total_wattpeak_staked: nat,
    total_interest_wattpeak: nat,
    epoch_count: nat,
) -> LedgerState {
    LedgerState {
        config,
        percentage_of_year: year_fraction(config.epoch_length),
        stakers,
        total_wattpeak_staked,
        total_interest_wattpeak,
        epoch_count,
    }
}

/// Finds where `address` stands in a sorted listing, or where the listing
/// opens for it.
pub(crate) fn locate(stakers: &Vec<StakerEntry>, address: &str) -> (r: (bool, usize))
    requires
        sorted(entries_view(stakers@)),
    ensures
        r.0 ==> found_at(entries_view(stakers@), address@, r.1 as int),
        !r.0 ==> opens_at(entries_view(stakers@), address@, r.1 as int),
{
    let ghost listing = entries_view(stakers@);
    let mut i: usize = 0;
    while i < stakers.len()
        invariant
            listing == entries_view(stakers@),
            sorted(listing),
            i <= stakers.len(),
            forall|j: int| 0 <= j < i ==> addr_lt(#[trigger] listing[j].address, address@),
        decreases stakers.len() - i,
    {
        let placement = place(address, stakers[i].address.as_str());
        assert(listing[i as int].address == stakers[i as int].address@);
        match placement {
            Placement::Same => {
                return (true, i);
            },
            Placement::Before => {
                proof {
                    assert forall|j: int| i <= j < listing.len() implies addr_lt(
                        address@,
                        #[trigger] listing[j].address,
                    ) by {
                        if j > i {
                            addr_lt_transitive(address@, listing[i as int].address, listing[j].address);
                        }
                    }
                }
                return (false, i);
            },
            Placement::After => {
                i += 1;
            },
        }
    }
    (false, i)
}

/// Gives the record at position `i` the balances `staker`, or strikes it
/// where they are all zero.
pub(crate) fn settle(stakers: &mut Vec<StakerEntry>, i: usize, staker: Staker)
    requires
        i < old(stakers).len(),
    ensures
        entries_view(final(stakers)@) == settled(entries_view(old(stakers)@), i as int, staker@),
{
    let ghost before = entries_view(stakers@);
    if staker.is_drained() {
        let _ = stakers.remove(i);
        assert(entries_view(stakers@) =~= before.remove(i as int));
    } else {
        let address = stakers[i].address.clone();
        stakers.set(i, StakerEntry { address, staker });
        assert(entries_view(stakers@) =~= before.update(
            i as int,
            EntryState { address: before[i as int].address, staker: staker@ },
        ));
    }
}

} // verus!
