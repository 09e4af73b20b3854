//! The questions that the minting ledger answers without changing.

use vstd::prelude::*;

use crate::minter::error::StdError;
use crate::minter::model::ProjectState;
use crate::minter::msg::ProjectsResponse;
use crate::minter::msg::QueryMsg;
use crate::minter::msg::QueryResponse;
use crate::minter::state::Config;
use crate::minter::state::Minter;
use crate::minter::state::Project;
use crate::minter::state::projects_view;
use crate::response::Coin;

verus! {

/// How many projects a listing of projects holds where no limit is given.
pub const DEFAULT_LIMIT: u64 = 30;

/// The smaller of two numbers.
pub open spec fn at_most(a: int, b: int) -> int {
    if a <= b {
        a
    } else {
        b
    }
}

/// The projects with an id above `start_after`, in the order of their ids,
/// `limit` of them at most.
pub open spec fn page(projects: Seq<ProjectState>, start_after: nat, limit: nat) -> Seq<ProjectState> {
    let first = at_most(start_after as int, projects.len() as int);
    let end = at_most(first + limit, projects.len() as int);
    projects.subrange(first, end)
}

/// The given number, or `fallback` where none is given.
pub open spec fn number_or(value: Option<u64>, fallback: nat) -> nat {
    match value {
        Some(number) => number as nat,
        None => fallback,
    }
}

/// The projects after the id `start_after`, `limit` of them at most, and
/// thirty at most where no limit is given.
pub fn projects(ledger: &Minter, start_after: Option<u64>, limit: Option<u64>) -> (r: ProjectsResponse)
    ensures
        projects_view(r.projects@) == page(
            ledger@.projects,
            number_or(start_after, 0),
            number_or(limit, DEFAULT_LIMIT as nat),
        ),
{
    let limit: u64 = match limit {
        Some(value) => value,
        None => DEFAULT_LIMIT,
    };
    let start: u64 = match start_after {
        Some(value) => value,
        None => 0,
    };
    let all = ledger.projects();
    let n: usize = all.len();
    let first: usize = if start <= n as u64 {
        start as usize
    } else {
        n
    };
    let end: usize = if limit <= (n - first) as u64 {
        first + limit as usize
    } else {
        n
    };
    let ghost listing = ledger@.projects;
    let ghost target = listing.subrange(first as int, end as int);
    let mut found: Vec<Project> = Vec::new();
    let mut i: usize = first;
    assert(projects_view(found@) =~= target.take(0));
    while i < end
        invariant
            first <= i <= end,
            end <= all.len(),
            listing == projects_view(all@),
            target == listing.subrange(first as int, end as int),
            projects_view(found@) == target.take(i - first),
        decreases end - i,
    {
        let ghost done = projects_view(found@);
        let project = all[i].duplicate();
        let ghost added = project@;
        found.push(project);
        proof {
            assert(listing[i as int] == all[i as int]@);
            assert(projects_view(found@) =~= done.push(added));
            assert(target.take(i + 1 - first) =~= target.take(i - first).push(target[i - first]));
        }
        i += 1;
    }
    assert(target.take(end - first) =~= target);
    ProjectsResponse { projects: found }
}

/// The project `id`, or the rejection that there is none.
pub fn project(ledger: &Minter, id: u64) -> (r: Result<Project, StdError>)
    ensures
        match r {
            Ok(found) => ledger@.has_project(id as nat) && found@ == ledger@.project(id as nat),
            Err(e) => !ledger@.has_project(id as nat) && e == StdError::ProjectNotFound,
        },
{
    let all = ledger.projects();
    if id == 0 || id > all.len() as u64 {
        return Err(StdError::ProjectNotFound);
    }
    let at: usize = (id - 1) as usize;
    assert(ledger@.projects[at as int] == all[at as int]@);
    Ok(all[at].duplicate())
}

/// The configuration in force.
pub fn config(ledger: &Minter) -> (r: Config)
    ensures
        r@ == ledger@.config,
{
    let config = ledger.config();
    Config {
        admin: config.admin.clone(),
        minting_price: Coin { denom: config.minting_price.denom.clone(), amount: config.minting_price.amount },
        minting_payment_address: config.minting_payment_address.clone(),
        minting_fee_percentage: config.minting_fee_percentage,
        minting_fee_address: config.minting_fee_address.clone(),
    }
}

/// Answers `msg` from the ledger.
pub fn query(ledger: &Minter, msg: QueryMsg) -> (r: Result<QueryResponse, StdError>)
    ensures
        match msg {
            QueryMsg::Projects { limit, start_after } => r matches Ok(QueryResponse::Projects(found))
                && projects_view(found.projects@) == page(
                ledger@.projects,
                number_or(start_after, 0),
                number_or(limit, DEFAULT_LIMIT as nat),
            ),
            QueryMsg::Project { id } => if ledger@.has_project(id as nat) {
                r matches Ok(QueryResponse::Project(found)) && found@ == ledger@.project(id as nat)
            } else {
                r == Err::<QueryResponse, StdError>(StdError::ProjectNotFound)
            },
            QueryMsg::Config {  } => r matches Ok(QueryResponse::Config(found)) && found@ == ledger@.config,
        },
{
    match msg {
        QueryMsg::Projects { limit, start_after } => Ok(
            QueryResponse::Projects(projects(ledger, start_after, limit)),
        ),
        QueryMsg::Project { id } => match project(ledger, id) {
            Ok(found) => Ok(QueryResponse::Project(found)),
            Err(e) => Err(e),
        },
        QueryMsg::Config {  } => Ok(QueryResponse::Config(config(ledger))),
    }
}

} // verus!
