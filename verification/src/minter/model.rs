//! The minting ledger as a mathematical object: the projects in the order
//! of their ids, the counters, and the sums that tie them together.

use vstd::prelude::*;

use crate::decimal::DECIMAL_FRACTIONAL;
use crate::response::CoinState;

verus! {

/// Where a project stands, as two numbers in text.
pub struct LocationState {
    pub latitude: Seq<char>,
    pub longitude: Seq<char>,
}

/// A project that WattPeak can be minted for.
pub struct ProjectState {
    pub name: Seq<char>,
    pub description: Seq<char>,
    pub document_deal_link: Seq<char>,
    pub max_wattpeak: nat,
    pub image_link: Seq<char>,
    pub location: LocationState,
    pub minted_wattpeak_count: nat,
}

impl ProjectState {
    /// The project allows some WattPeak, has a name and a description, and
    /// no more was minted for it than it allows.
    pub open spec fn valid(self) -> bool {
        &&& self.max_wattpeak > 0
        &&& self.name.len() > 0
        &&& self.description.len() > 0
        &&& self.minted_wattpeak_count <= self.max_wattpeak
    }

    /// How much WattPeak can still be minted for the project.
    pub open spec fn room(self) -> nat {
        (self.max_wattpeak - self.minted_wattpeak_count) as nat
    }
}

/// The parameters of minting. The fee is in atomic units of the fixed-point
/// representation.
pub struct ConfigState {
    pub admin: Seq<char>,
    pub minting_price: CoinState,
    pub minting_payment_address: Seq<char>,
    pub minting_fee_percentage: nat,
    pub minting_fee_address: Seq<char>,
}

impl ConfigState {
    /// The price is above zero and names a denomination, and the fee does
    /// not exceed 100%.
    pub open spec fn valid(self) -> bool {
        &&& self.minting_price.amount > 0
        &&& self.minting_price.denom.len() > 0
        &&& self.minting_fee_percentage <= DECIMAL_FRACTIONAL
    }
}

/// Every project of the listing is valid.
pub open spec fn all_valid(projects: Seq<ProjectState>) -> bool {
    forall|i: int| 0 <= i < projects.len() ==> (#[trigger] projects[i]).valid()
}

/// The WattPeak that the projects allow, all together.
pub open spec fn total_allowed(projects: Seq<ProjectState>) -> nat
    decreases projects.len(),
{
    if projects.len() == 0 {
        0
    } else {
        total_allowed(projects.drop_last()) + projects.last().max_wattpeak
    }
}

/// The WattPeak minted for the projects, all together.
pub open spec fn total_minted(projects: Seq<ProjectState>) -> nat
    decreases projects.len(),
{
    if projects.len() == 0 {
        0
    } else {
        total_minted(projects.drop_last()) + projects.last().minted_wattpeak_count
    }
}

/// The whole state of the minting ledger. The project with the id `n`
/// stands at position `n - 1`.
pub struct MinterState {
    pub config: ConfigState,
    pub projects: Seq<ProjectState>,
    pub available_wattpeak_count: nat,
    pub total_wattpeak_minted_count: nat,
    pub full_denom: Seq<char>,
}

impl MinterState {
    /// What holds of every ledger: the configuration and every project are
    /// valid, what is available and what was minted make up what the
    /// projects allow, and the count of minted WattPeak is the sum over the
    /// projects.
    pub open spec fn wf(self) -> bool {
        &&& self.config.valid()
        &&& all_valid(self.projects)
        &&& self.available_wattpeak_count + self.total_wattpeak_minted_count == total_allowed(self.projects)
        &&& self.total_wattpeak_minted_count == total_minted(self.projects)
    }

    /// How many projects were uploaded; the id of the last of them.
    pub open spec fn project_deals_count(self) -> nat {
        self.projects.len()
    }

    /// Some project has the id `id`.
    pub open spec fn has_project(self, id: nat) -> bool {
        1 <= id <= self.projects.len()
    }

    /// The project with the id `id`.
    pub open spec fn project(self, id: nat) -> ProjectState
        recommends
            self.has_project(id),
    {
        self.projects[id - 1]
    }
}

/// What a listing that ends in `project` allows.
pub proof fn total_allowed_push(projects: Seq<ProjectState>, project: ProjectState)
    ensures
        total_allowed(projects.push(project)) == total_allowed(projects) + project.max_wattpeak,
        total_minted(projects.push(project)) == total_minted(projects) + project.minted_wattpeak_count,
{
    assert(projects.push(project).drop_last() =~= projects);
}

/// What replacing a project does to the two sums.
pub proof fn totals_update(projects: Seq<ProjectState>, i: int, project: ProjectState)
    requires
        0 <= i < projects.len(),
    ensures
        total_allowed(projects.update(i, project)) + projects[i].max_wattpeak == total_allowed(projects)
            + project.max_wattpeak,
        total_minted(projects.update(i, project)) + projects[i].minted_wattpeak_count == total_minted(projects)
            + project.minted_wattpeak_count,
    decreases projects.len(),
{
    let after = projects.update(i, project);
    if i == projects.len() - 1 {
        assert(after.drop_last() =~= projects.drop_last());
    } else {
        totals_update(projects.drop_last(), i, project);
        assert(after.drop_last() =~= projects.drop_last().update(i, project));
    }
}

/// No project has more minted, or more room, than all projects together.
pub proof fn totals_bound(projects: Seq<ProjectState>, i: int)
    requires
        0 <= i < projects.len(),
        all_valid(projects),
    ensures
        projects[i].minted_wattpeak_count <= total_minted(projects),
        projects[i].max_wattpeak <= total_allowed(projects),
        total_minted(projects) <= total_allowed(projects),
        projects[i].room() <= total_allowed(projects) - total_minted(projects),
    decreases projects.len(),
{
    let front = projects.drop_last();
    assert forall|j: int| 0 <= j < front.len() implies (#[trigger] front[j]).valid() by {
        assert(front[j] == projects[j]);
    }
    assert(projects.last().valid());
    totals_order(front);
    if i < projects.len() - 1 {
        totals_bound(front, i);
    }
}

/// The projects have no more minted than they allow.
pub proof fn totals_order(projects: Seq<ProjectState>)
    requires
        all_valid(projects),
    ensures
        total_minted(projects) <= total_allowed(projects),
    decreases projects.len(),
{
    if projects.len() > 0 {
        let front = projects.drop_last();
        assert forall|j: int| 0 <= j < front.len() implies (#[trigger] front[j]).valid() by {
            assert(front[j] == projects[j]);
        }
        assert(projects.last().valid());
        totals_order(front);
    }
}

} // verus!
