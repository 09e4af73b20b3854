//! The ledger as a mathematical object: the accounts in listing order, the
//! totals, and the sequences and sums that the contracts of the operations
//! are stated over.

use vstd::prelude::*;

use crate::address::addr_lt;
use crate::address::addr_lt_asymmetric;
use crate::address::addr_lt_irreflexive;
use crate::address::addr_lt_total;
use crate::address::addr_lt_transitive;
use crate::decimal::DECIMAL_FRACTIONAL;
use crate::response::Response;
use crate::response::ResponseState;
use crate::staker::error::StakingError;

verus! {

/// Seconds in a year, the time over which the yearly rate accrues once.
pub const SECONDS_PER_YEAR: u64 = 31_556_926;

/// One account's balances. `interest` and `claimable` are in atomic units of
/// the fixed-point representation.
pub struct StakerState {
    pub staked: nat,
    pub interest: nat,
    pub start_time: nat,
    pub claimable: nat,
}

/// One of the three balances of an account.
#[derive(Clone, Copy, Debug, PartialEq, Eq, Structural)]
pub enum Balance {
    Staked,
    Interest,
    Claimable,
}

impl StakerState {
    pub open spec fn balance(self, which: Balance) -> nat {
        match which {
            Balance::Staked => self.staked,
            Balance::Interest => self.interest,
            Balance::Claimable => self.claimable,
        }
    }

    /// All three balances are zero.
    pub open spec fn drained(self) -> bool {
        self.staked == 0 && self.interest == 0 && self.claimable == 0
    }
}

/// An account in the ledger.
pub struct EntryState {
    pub address: Seq<char>,
    pub staker: StakerState,
}

/// The protocol parameters. The two rates are in atomic units of the
/// fixed-point representation.
pub struct ConfigState {
    pub admin: Seq<char>,
    pub rewards_percentage: nat,
    pub epoch_length: nat,
    pub wattpeak_denom: Seq<char>,
    pub staking_fee_percentage: nat,
    pub staking_fee_address: Seq<char>,
}

impl ConfigState {
    /// The epoch has a length, and neither rate exceeds 100%.
    pub open spec fn valid(self) -> bool {
        &&& self.epoch_length > 0
        &&& self.rewards_percentage <= DECIMAL_FRACTIONAL
        &&& self.staking_fee_percentage <= DECIMAL_FRACTIONAL
    }
}

/// The part of a year that one epoch covers, as a fixed-point number rounded
/// down.
pub open spec fn year_fraction(epoch_length: nat) -> nat {
    epoch_length * (DECIMAL_FRACTIONAL as nat) / (SECONDS_PER_YEAR as nat)
}

/// The accounts are listed in strictly ascending order of address, so no
/// address occurs twice.
pub open spec fn sorted(stakers: Seq<EntryState>) -> bool {
    forall|i: int, j: int| 0 <= i < j < stakers.len() ==> addr_lt(stakers[i].address, stakers[j].address)
}

/// The sum of one balance over all accounts.
pub open spec fn total_of(stakers: Seq<EntryState>, which: Balance) -> nat
    decreases stakers.len(),
{
    if stakers.len() == 0 {
        0
    } else {
        total_of(stakers.drop_last(), which) + stakers.last().staker.balance(which)
    }
}

/// The account at position `i` has the address `address`.
pub open spec fn found_at(stakers: Seq<EntryState>, address: Seq<char>, i: int) -> bool {
    0 <= i < stakers.len() && stakers[i].address == address
}

/// Some account has the address `address`.
pub open spec fn holds(stakers: Seq<EntryState>, address: Seq<char>) -> bool {
    exists|i: int| found_at(stakers, address, i)
}

/// Where the account of `address` stands, if there is one.
pub open spec fn index_of(stakers: Seq<EntryState>, address: Seq<char>) -> int {
    choose|i: int| found_at(stakers, address, i)
}

/// Every account before position `p` comes before `address` in the listing
/// order, and every account from `p` on comes after it.
pub open spec fn opens_at(stakers: Seq<EntryState>, address: Seq<char>, p: int) -> bool {
    &&& 0 <= p <= stakers.len()
    &&& forall|j: int| 0 <= j < p ==> addr_lt(#[trigger] stakers[j].address, address)
    &&& forall|j: int| p <= j < stakers.len() ==> addr_lt(address, #[trigger] stakers[j].address)
}

/// Where a new account of `address` is to be listed.
pub open spec fn slot(stakers: Seq<EntryState>, address: Seq<char>) -> int {
    choose|p: int| opens_at(stakers, address, p)
}

/// The balances of `address`, if it has an account.
pub open spec fn lookup(stakers: Seq<EntryState>, address: Seq<char>) -> Option<StakerState> {
    if holds(stakers, address) {
        Some(stakers[index_of(stakers, address)].staker)
    } else {
        None
    }
}

/// The listing after the account at position `i` was given the balances
/// `staker`: the account holds them, or, where they are all zero, it is
/// struck from the listing.
pub open spec fn settled(stakers: Seq<EntryState>, i: int, staker: StakerState) -> Seq<EntryState> {
    if staker.drained() {
        stakers.remove(i)
    } else {
        stakers.update(i, EntryState { address: stakers[i].address, staker })
    }
}

/// No account has all three balances at zero.
pub open spec fn none_drained(stakers: Seq<EntryState>) -> bool {
    forall|i: int| 0 <= i < stakers.len() ==> !(#[trigger] stakers[i]).staker.drained()
}

/// The whole state of the staking ledger.
pub struct LedgerState {
    pub config: ConfigState,
    pub percentage_of_year: nat,
    pub stakers: Seq<EntryState>,
    pub total_wattpeak_staked: nat,
    pub total_interest_wattpeak: nat,
    pub epoch_count: nat,
}

impl LedgerState {
    /// What holds of every ledger: the listing is in order, each total is
    /// the sum of the accounts' balances, the configuration is valid, and
    /// the cached part of a year is that of the configured epoch length.
    pub open spec fn wf(self) -> bool {
        &&& sorted(self.stakers)
        &&& self.total_wattpeak_staked == total_of(self.stakers, Balance::Staked)
        &&& self.total_interest_wattpeak == total_of(self.stakers, Balance::Interest)
        &&& self.config.valid()
        &&& self.percentage_of_year == year_fraction(self.config.epoch_length)
    }

    /// The balances of `address`, if it has an account.
    pub open spec fn staker(self, address: Seq<char>) -> Option<StakerState> {
        lookup(self.stakers, address)
    }
}

/// What an operation comes to on a given ledger: the ledger and the
/// response that it leaves, or the reason for which it is rejected.
pub type Outcome = Result<(LedgerState, ResponseState), StakingError>;

/// A call came to `expected`: on success the ledger went from `before` to
/// the state named there and the response is the one named there; on
/// rejection the error is the one named there and the ledger is as before.
pub open spec fn outcome_is(
    expected: Outcome,
    before: LedgerState,
    after: LedgerState,
    r: Result<Response, StakingError>,
) -> bool {
    match expected {
        Ok((next, response)) => r is Ok && r->Ok_0@ == response && after == next,
        Err(e) => r == Err::<Response, StakingError>(e) && after == before,
    }
}

// ---------------------------------------------------------------------------
// Positions in a sorted listing
// ---------------------------------------------------------------------------

/// In a sorted listing an address stands at one position at most.
pub proof fn found_at_unique(stakers: Seq<EntryState>, address: Seq<char>, i: int, j: int)
    requires
        sorted(stakers),
        found_at(stakers, address, i),
        found_at(stakers, address, j),
    ensures
        i == j,
{
    addr_lt_irreflexive(address);
}

/// The position at which an address was found is the one `index_of` names.
pub proof fn index_of_found(stakers: Seq<EntryState>, address: Seq<char>, i: int)
    requires
        sorted(stakers),
        found_at(stakers, address, i),
    ensures
        holds(stakers, address),
        index_of(stakers, address) == i,
{
    found_at_unique(stakers, address, i, index_of(stakers, address));
}

/// A listing has one opening at most for an address.
pub proof fn opens_at_unique(stakers: Seq<EntryState>, address: Seq<char>, p: int, q: int)
    requires
        opens_at(stakers, address, p),
        opens_at(stakers, address, q),
    ensures
        p == q,
{
    if p < q {
        addr_lt_asymmetric(stakers[p].address, address);
    } else if q < p {
        addr_lt_asymmetric(stakers[q].address, address);
    }
}

/// Where a listing opens for an address, the address has no account, and
/// `slot` names that opening.
pub proof fn slot_found(stakers: Seq<EntryState>, address: Seq<char>, p: int)
    requires
        opens_at(stakers, address, p),
    ensures
        !holds(stakers, address),
        slot(stakers, address) == p,
{
    opens_at_unique(stakers, address, p, slot(stakers, address));
    if holds(stakers, address) {
        addr_lt_irreflexive(address);
    }
}

/// A sorted listing opens somewhere for every address that has no account.
pub proof fn slot_exists(stakers: Seq<EntryState>, address: Seq<char>)
    requires
        sorted(stakers),
        !holds(stakers, address),
    ensures
        opens_at(stakers, address, slot(stakers, address)),
    decreases stakers.len(),
{
    if stakers.len() == 0 {
        assert(opens_at(stakers, address, 0));
    } else {
        let front = stakers.drop_last();
        let last = stakers.last();
        assert(sorted(front));
        assert(!holds(front, address)) by {
            if holds(front, address) {
                let i = index_of(front, address);
                assert(found_at(stakers, address, i));
            }
        }
        slot_exists(front, address);
        let p = slot(front, address);
        assert(!found_at(stakers, address, stakers.len() - 1));
        addr_lt_total(last.address, address);
        if addr_lt(last.address, address) {
            assert forall|j: int| 0 <= j < stakers.len() implies addr_lt(
                #[trigger] stakers[j].address,
                address,
            ) by {
                if j < stakers.len() - 1 {
                    addr_lt_transitive(stakers[j].address, last.address, address);
                }
            }
            assert(opens_at(stakers, address, stakers.len() as int));
        } else {
            if p < front.len() {
                assert(front[p] == stakers[p]);
                assert(opens_at(stakers, address, p)) by {
                    assert forall|j: int| p <= j < stakers.len() implies addr_lt(
                        address,
                        #[trigger] stakers[j].address,
                    ) by {
                        if j < front.len() {
                            assert(front[j] == stakers[j]);
                        }
                    }
                    assert forall|j: int| 0 <= j < p implies addr_lt(#[trigger] stakers[j].address, address) by {
                        assert(front[j] == stakers[j]);
                    }
                }
            } else {
                assert(opens_at(stakers, address, p)) by {
                    assert forall|j: int| 0 <= j < p implies addr_lt(#[trigger] stakers[j].address, address) by {
                        assert(front[j] == stakers[j]);
                    }
                }
            }
        }
    }
}

/// Listing a new account at its opening keeps the order.
pub proof fn insert_keeps_sorted(stakers: Seq<EntryState>, p: int, entry: EntryState)
    requires
        sorted(stakers),
        opens_at(stakers, entry.address, p),
    ensures
        sorted(stakers.insert(p, entry)),
        found_at(stakers.insert(p, entry), entry.address, p),
{
    let after = stakers.insert(p, entry);
    assert forall|i: int, j: int| 0 <= i < j < after.len() implies addr_lt(after[i].address, after[j].address) by {
        if i < p {
            assert(after[i] == stakers[i]);
        } else if i > p {
            assert(after[i] == stakers[i - 1]);
        }
        if j < p {
            assert(after[j] == stakers[j]);
        } else if j > p {
            assert(after[j] == stakers[j - 1]);
        }
    }
}

/// Replacing an account's balances keeps the order.
pub proof fn update_keeps_sorted(stakers: Seq<EntryState>, i: int, entry: EntryState)
    requires
        sorted(stakers),
        found_at(stakers, entry.address, i),
    ensures
        sorted(stakers.update(i, entry)),
        found_at(stakers.update(i, entry), entry.address, i),
{
    let after = stakers.update(i, entry);
    assert forall|a: int, b: int| 0 <= a < b < after.len() implies addr_lt(after[a].address, after[b].address) by {
        assert(after[a].address == stakers[a].address);
        assert(after[b].address == stakers[b].address);
    }
}

/// Striking an account keeps the order, and opens the listing for its
/// address where it stood.
pub proof fn remove_keeps_sorted(stakers: Seq<EntryState>, i: int)
    requires
        sorted(stakers),
        0 <= i < stakers.len(),
    ensures
        sorted(stakers.remove(i)),
        opens_at(stakers.remove(i), stakers[i].address, i),
{
    let after = stakers.remove(i);
    assert forall|a: int, b: int| 0 <= a < b < after.len() implies addr_lt(after[a].address, after[b].address) by {
        if a < i {
            assert(after[a] == stakers[a]);
        } else {
            assert(after[a] == stakers[a + 1]);
        }
        if b < i {
            assert(after[b] == stakers[b]);
        } else {
            assert(after[b] == stakers[b + 1]);
        }
    }
    assert forall|j: int| 0 <= j < i implies addr_lt(#[trigger] after[j].address, stakers[i].address) by {
        assert(after[j] == stakers[j]);
    }
    assert forall|j: int| i <= j < after.len() implies addr_lt(stakers[i].address, #[trigger] after[j].address) by {
        assert(after[j] == stakers[j + 1]);
    }
}

/// Settling an account keeps the order.
pub proof fn settled_keeps_sorted(stakers: Seq<EntryState>, i: int, staker: StakerState)
    requires
        sorted(stakers),
        0 <= i < stakers.len(),
    ensures
        sorted(settled(stakers, i, staker)),
{
    if staker.drained() {
        remove_keeps_sorted(stakers, i);
    } else {
        update_keeps_sorted(stakers, i, EntryState { address: stakers[i].address, staker });
    }
}

/// Settling an account leaves no drained account where there was none.
pub proof fn settled_none_drained(stakers: Seq<EntryState>, i: int, staker: StakerState)
    requires
        none_drained(stakers),
        0 <= i < stakers.len(),
    ensures
        none_drained(settled(stakers, i, staker)),
{
    let after = settled(stakers, i, staker);
    assert forall|j: int| 0 <= j < after.len() implies !(#[trigger] after[j]).staker.drained() by {
        if staker.drained() {
            if j < i {
                assert(after[j] == stakers[j]);
            } else {
                assert(after[j] == stakers[j + 1]);
            }
        } else {
            if j != i {
                assert(after[j] == stakers[j]);
            }
        }
    }
}

// ---------------------------------------------------------------------------
// Sums
// ---------------------------------------------------------------------------

/// A sum over a listing that ends in `entry`.
pub proof fn total_of_push(stakers: Seq<EntryState>, entry: EntryState, which: Balance)
    ensures
        total_of(stakers.push(entry), which) == total_of(stakers, which) + entry.staker.balance(which),
{
    assert(stakers.push(entry).drop_last() =~= stakers);
}

/// A sum over two listings, one after the other.
pub proof fn total_of_concat(a: Seq<EntryState>, b: Seq<EntryState>, which: Balance)
    ensures
        total_of(a + b, which) == total_of(a, which) + total_of(b, which),
    decreases b.len(),
{
    if b.len() == 0 {
        assert(a + b =~= a);
    } else {
        total_of_concat(a, b.drop_last(), which);
        assert((a + b).drop_last() =~= a + b.drop_last());
    }
}

/// A sum is the sum up to a position, the balance there, and the sum after it.
pub proof fn total_of_split(stakers: Seq<EntryState>, i: int, which: Balance)
    requires
        0 <= i < stakers.len(),
    ensures
        total_of(stakers, which) == total_of(stakers.take(i), which) + stakers[i].staker.balance(which)
            + total_of(stakers.skip(i + 1), which),
{
    let head = stakers.take(i);
    let tail = stakers.skip(i + 1);
    assert(stakers =~= head.push(stakers[i]) + tail);
    total_of_concat(head.push(stakers[i]), tail, which);
    total_of_push(head, stakers[i], which);
}

/// No single balance exceeds the sum.
pub proof fn total_of_bounds(stakers: Seq<EntryState>, i: int, which: Balance)
    requires
        0 <= i < stakers.len(),
    ensures
        stakers[i].staker.balance(which) <= total_of(stakers, which),
{
    total_of_split(stakers, i, which);
}

/// What replacing an account's balances does to a sum.
pub proof fn total_of_update(stakers: Seq<EntryState>, i: int, entry: EntryState, which: Balance)
    requires
        0 <= i < stakers.len(),
    ensures
        total_of(stakers.update(i, entry), which) + stakers[i].staker.balance(which) == total_of(stakers, which)
            + entry.staker.balance(which),
{
    let after = stakers.update(i, entry);
    total_of_split(stakers, i, which);
    total_of_split(after, i, which);
    assert(after.take(i) =~= stakers.take(i));
    assert(after.skip(i + 1) =~= stakers.skip(i + 1));
}

/// What listing a new account does to a sum.
pub proof fn total_of_insert(stakers: Seq<EntryState>, p: int, entry: EntryState, which: Balance)
    requires
        0 <= p <= stakers.len(),
    ensures
        total_of(stakers.insert(p, entry), which) == total_of(stakers, which) + entry.staker.balance(which),
{
    let after = stakers.insert(p, entry);
    total_of_split(after, p, which);
    assert(after.take(p) =~= stakers.take(p));
    assert(after.skip(p + 1) =~= stakers.skip(p));
    assert(stakers =~= stakers.take(p) + stakers.skip(p));
    total_of_concat(stakers.take(p), stakers.skip(p), which);
}

/// What striking an account does to a sum.
pub proof fn total_of_remove(stakers: Seq<EntryState>, i: int, which: Balance)
    requires
        0 <= i < stakers.len(),
    ensures
        total_of(stakers.remove(i), which) + stakers[i].staker.balance(which) == total_of(stakers, which),
{
    let after = stakers.remove(i);
    total_of_split(stakers, i, which);
    assert(after =~= stakers.take(i) + stakers.skip(i + 1));
    total_of_concat(stakers.take(i), stakers.skip(i + 1), which);
}

/// Two listings that agree on a balance account by account agree on its sum.
pub proof fn total_of_same(a: Seq<EntryState>, b: Seq<EntryState>, which: Balance)
    requires
        a.len() == b.len(),
        forall|i: int| 0 <= i < a.len() ==> a[i].staker.balance(which) == b[i].staker.balance(which),
    ensures
        total_of(a, which) == total_of(b, which),
    decreases a.len(),
{
    if a.len() > 0 {
        total_of_same(a.drop_last(), b.drop_last(), which);
    }
}

/// Where a balance is zero in every account, its sum is zero.
pub proof fn total_of_zero(a: Seq<EntryState>, which: Balance)
    requires
        forall|i: int| 0 <= i < a.len() ==> a[i].staker.balance(which) == 0,
    ensures
        total_of(a, which) == 0,
    decreases a.len(),
{
    if a.len() > 0 {
        total_of_zero(a.drop_last(), which);
    }
}

/// Where a balance of `c` is, account by account, the sum of those of `a`
/// and `b`, so is its sum.
pub proof fn total_of_sum(a: Seq<EntryState>, b: Seq<EntryState>, c: Seq<EntryState>, which: Balance)
    requires
        a.len() == b.len(),
        a.len() == c.len(),
        forall|i: int|
            0 <= i < a.len() ==> c[i].staker.balance(which) == a[i].staker.balance(which) + b[i].staker.balance(
                which,
            ),
    ensures
        total_of(c, which) == total_of(a, which) + total_of(b, which),
    decreases a.len(),
{
    if a.len() > 0 {
        total_of_sum(a.drop_last(), b.drop_last(), c.drop_last(), which);
    }
}

/// The sum over the first accounts is at most the sum over all.
pub proof fn total_of_prefix(stakers: Seq<EntryState>, n: int, which: Balance)
    requires
        0 <= n <= stakers.len(),
    ensures
        total_of(stakers.take(n), which) <= total_of(stakers, which),
{
    assert(stakers =~= stakers.take(n) + stakers.skip(n));
    total_of_concat(stakers.take(n), stakers.skip(n), which);
}

/// A listing with the addresses of a sorted listing, place by place, is sorted.
pub proof fn same_addresses_sorted(a: Seq<EntryState>, b: Seq<EntryState>)
    requires
        sorted(a),
        a.len() == b.len(),
        forall|i: int| 0 <= i < a.len() ==> a[i].address == b[i].address,
    ensures
        sorted(b),
{
    assert forall|i: int, j: int| 0 <= i < j < b.len() implies addr_lt(b[i].address, b[j].address) by {
        assert(addr_lt(a[i].address, a[j].address));
    }
}

/// What settling an account does to a sum.
pub proof fn total_of_settled(stakers: Seq<EntryState>, i: int, staker: StakerState, which: Balance)
    requires
        0 <= i < stakers.len(),
    ensures
        total_of(settled(stakers, i, staker), which) + stakers[i].staker.balance(which) == total_of(stakers, which)
            + staker.balance(which),
{
    if staker.drained() {
        total_of_remove(stakers, i, which);
    } else {
        total_of_update(stakers, i, EntryState { address: stakers[i].address, staker }, which);
    }
}

} // verus!
