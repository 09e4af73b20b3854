//! The messages that the minting ledger takes and the answers it gives.

use vstd::prelude::*;

use crate::decimal::Decimal;
use crate::minter::state::Config;
use crate::minter::state::Location;
use crate::minter::state::Project;
use crate::response::Coin;

verus! {

/// Sets the ledger up.
#[derive(Clone, Debug, PartialEq, Eq)]
pub struct InstantiateMsg {
    pub config: Config,
}

/// One operation on the ledger.
#[derive(Clone, Debug, PartialEq, Eq)]
pub enum ExecuteMsg {
    /// Uploads a new project.
    UploadProject {
        name: String,
        description: String,
        document_deal_link: String,
        max_wattpeak: u64,
        image_link: String,
        location: Location,
    },
    /// Edits the project `id`; a field that is `None` stays as it is.
    EditProject {
        id: u64,
        name: Option<String>,
        description: Option<String>,
        document_deal_link: Option<String>,
        max_wattpeak: Option<u64>,
        image_link: Option<String>,
        location: Option<Location>,
    },
    /// Changes the configuration; a field that is `None` stays as it is.
    UpdateConfig {
        admin: Option<String>,
        minting_price: Option<Coin>,
        minting_payment_address: Option<String>,
        minting_fee_percentage: Option<Decimal>,
        minting_fee_address: Option<String>,
    },
    /// Mints `amount` units of WattPeak for the project `project_id` to
    /// `address`.
    MintTokens { address: String, amount: u128, project_id: u64 },
}

/// One question to the ledger.
#[derive(Clone, Copy, Debug, PartialEq, Eq, Structural)]
pub enum QueryMsg {
    Config {  },
    /// The projects after the id `start_after`, `limit` of them at most,
    /// and thirty where no limit is given.
    Projects { limit: Option<u64>, start_after: Option<u64> },
    Project { id: u64 },
}

/// Projects, in the order of their ids.
#[derive(Clone, Debug, PartialEq, Eq)]
pub struct ProjectsResponse {
    pub projects: Vec<Project>,
}

/// The answer to a [`QueryMsg`], one kind for each kind of question.
#[derive(Clone, Debug, PartialEq, Eq)]
pub enum QueryResponse {
    Config(Config),
    Projects(ProjectsResponse),
    Project(Project),
}

} // verus!
