//! The data that the minting ledger keeps: its configuration, the projects,
//! and the counters of WattPeak available and minted.

use vstd::prelude::*;

use crate::decimal::Decimal;
use crate::decimal::DECIMAL_FRACTIONAL;
use crate::minter::error::StdError;
use crate::minter::model::all_valid;
use crate::minter::model::ConfigState;
use crate::minter::model::LocationState;
use crate::minter::model::MinterState;
use crate::minter::model::ProjectState;
use crate::minter::model::total_allowed;
use crate::minter::model::total_allowed_push;
use crate::minter::model::total_minted;
use crate::response::Coin;

verus! {

/// The sub-denomination of the WattPeak token.
pub const SUBDENOM: &'static str = "uwattpeakt";

/// What the WattPeak token is, in words.
pub const DESCRIPTION: &'static str =
    "wattpeak is a token that represents the amount of wattpeak that a solarpanel represents";

/// The symbol of the WattPeak token.
pub const SYMBOL: &'static str = "WTP";

/// The number of decimal places of the WattPeak token.
pub const DECIMALS: u32 = 6;

/// The name of the WattPeak token.
pub const NAME: &'static str = "WattPeak";

/// The parameters of minting, changed by the admin alone.
#[derive(Clone, Debug, PartialEq, Eq)]
pub struct Config {
    /// Who may upload and edit projects and change the configuration.
    pub admin: String,
    /// The price of one whole WattPeak, which is a million of its units.
    pub minting_price: Coin,
    /// Where the price of minting is paid.
    pub minting_payment_address: String,
    /// The fee on minting, as a part of the price.
    pub minting_fee_percentage: Decimal,
    /// Where the fee on minting is paid.
    pub minting_fee_address: String,
}

impl View for Config {
    type V = ConfigState;

    open spec fn view(&self) -> ConfigState {
        ConfigState {
            admin: self.admin@,
            minting_price: self.minting_price@,
            minting_payment_address: self.minting_payment_address@,
            minting_fee_percentage: self.minting_fee_percentage@,
            minting_fee_address: self.minting_fee_address@,
        }
    }
}

/// What [`Config::validate`] answers: the first of the four checks that the
/// configuration fails, in this order, or `Ok`.
pub open spec fn validate_config_spec(config: ConfigState, addresses_are_valid: bool) -> Result<(), StdError> {
    if !addresses_are_valid {
        Err(StdError::InvalidAddress)
    } else if config.minting_price.amount == 0 {
        Err(StdError::MintingPriceZero)
    } else if config.minting_price.denom.len() == 0 {
        Err(StdError::MintingPriceDenomEmpty)
    } else if config.minting_fee_percentage > DECIMAL_FRACTIONAL {
        Err(StdError::MintingFeeTooHigh)
    } else {
        Ok(())
    }
}

impl Config {
    /// Checks the configuration. `addresses_are_valid` is the host's
    /// verdict on the three addresses in it, which only the host can give.
    pub fn validate(&self, addresses_are_valid: bool) -> (r: Result<(), StdError>)
        ensures
            r == validate_config_spec(self@, addresses_are_valid),
            r is Ok <==> addresses_are_valid && self@.valid(),
    {
        if !addresses_are_valid {
            return Err(StdError::InvalidAddress);
        }
        if self.minting_price.amount == 0 {
            return Err(StdError::MintingPriceZero);
        }
        if self.minting_price.denom.as_str().is_empty() {
            return Err(StdError::MintingPriceDenomEmpty);
        }
        if self.minting_fee_percentage.atomics > DECIMAL_FRACTIONAL {
            return Err(StdError::MintingFeeTooHigh);
        }
        Ok(())
    }
}

/// Where a project stands: latitude and longitude in degrees, as text.
#[derive(Clone, Debug, PartialEq, Eq)]
pub struct Location {
    pub latitude: String,
    pub longitude: String,
}

impl View for Location {
    type V = LocationState;

    open spec fn view(&self) -> LocationState {
        LocationState { latitude: self.latitude@, longitude: self.longitude@ }
    }
}

/// A project that WattPeak can be minted for: a deal to buy into a solar
/// installation.
#[derive(Clone, Debug, PartialEq, Eq)]
pub struct Project {
    pub name: String,
    /// A short description of the project.
    pub description: String,
    /// A link to the document that sets out the deal.
    pub document_deal_link: String,
    /// The most WattPeak that can be minted for the project.
    pub max_wattpeak: u64,
    /// A link to an image of the project.
    pub image_link: String,
    pub location: Location,
    /// The WattPeak minted for the project so far.
    pub minted_wattpeak_count: u64,
}

impl View for Project {
    type V = ProjectState;

    open spec fn view(&self) -> ProjectState {
        ProjectState {
            name: self.name@,
            description: self.description@,
            document_deal_link: self.document_deal_link@,
            max_wattpeak: self.max_wattpeak as nat,
            image_link: self.image_link@,
            location: self.location@,
            minted_wattpeak_count: self.minted_wattpeak_count as nat,
        }
    }
}

/// What [`Project::validate`] answers: the first of the four checks that
/// the project fails, in this order, or `Ok`.
pub open spec fn validate_project_spec(project: ProjectState) -> Result<(), StdError> {
    if project.max_wattpeak == 0 {
        Err(StdError::MaxWattpeakZero)
    } else if project.name.len() == 0 {
        Err(StdError::NameEmpty)
    } else if project.description.len() == 0 {
        Err(StdError::DescriptionEmpty)
    } else if project.minted_wattpeak_count > project.max_wattpeak {
        Err(StdError::MintedAboveMax)
    } else {
        Ok(())
    }
}

impl Project {
    /// Checks the project.
    pub fn validate(&self) -> (r: Result<(), StdError>)
        ensures
            r == validate_project_spec(self@),
            r is Ok <==> self@.valid(),
    {
        if self.max_wattpeak == 0 {
            return Err(StdError::MaxWattpeakZero);
        }
        if self.name.as_str().is_empty() {
            return Err(StdError::NameEmpty);
        }
        if self.description.as_str().is_empty() {
            return Err(StdError::DescriptionEmpty);
        }
        if self.minted_wattpeak_count > self.max_wattpeak {
            return Err(StdError::MintedAboveMax);
        }
        Ok(())
    }

    /// A copy of the project.
    pub fn duplicate(&self) -> (r: Project)
        ensures
            r@ == self@,
    {
        Project {
            name: self.name.clone(),
            description: self.description.clone(),
            document_deal_link: self.document_deal_link.clone(),
            max_wattpeak: self.max_wattpeak,
            image_link: self.image_link.clone(),
            location: Location {
                latitude: self.location.latitude.clone(),
                longitude: self.location.longitude.clone(),
            },
            minted_wattpeak_count: self.minted_wattpeak_count,
        }
    }
}

/// The listing that a vector of projects stands for.
pub open spec fn projects_view(projects: Seq<Project>) -> Seq<ProjectState> {
    projects.map_values(|p: Project| p@)
}

/// The minting ledger. The project with the id `n` stands at position
/// `n - 1` of its projects.
#[derive(Clone, Debug, PartialEq, Eq)]
pub struct Minter {
    pub(crate) config: Config,
    pub(crate) projects: Vec<Project>,
    pub(crate) available_wattpeak_count: u64,
    pub(crate) total_wattpeak_minted_count: u64,
    pub(crate) full_denom: String,
}

impl View for Minter {
    type V = MinterState;

    closed spec fn view(&self) -> MinterState {
        MinterState {
            config: self.config@,
            projects: projects_view(self.projects@),
            available_wattpeak_count: self.available_wattpeak_count as nat,
            total_wattpeak_minted_count: self.total_wattpeak_minted_count as nat,
            full_denom: self.full_denom@,
        }
    }
}

/// The ledger made of the given parts.
pub open spec fn assembled(
    config: ConfigState,
    projects: Seq<ProjectState>,
    available_wattpeak_count: nat,
    total_wattpeak_minted_count: nat,
    full_denom: Seq<char>,
) -> MinterState {
    MinterState { config, projects, available_wattpeak_count, total_wattpeak_minted_count, full_denom }
}

/// The WattPeak that a vector of projects allows and has minted, or `None`
/// where some project is not valid.
pub fn sum_projects(projects: &Vec<Project>) -> (r: Option<(u128, u128)>)
    ensures
        r is Some <==> all_valid(projects_view(projects@)),
        r is Some ==> r->Some_0.0 == total_allowed(projects_view(projects@)) && r->Some_0.1 == total_minted(
            projects_view(projects@),
        ) && r->Some_0.1 <= r->Some_0.0,
{
    let ghost listing = projects_view(projects@);
    let mut allowed: u128 = 0;
    let mut minted: u128 = 0;
    let mut i: usize = 0;
    assert(listing.take(0) =~= Seq::<ProjectState>::empty());
    while i < projects.len()
        invariant
            i <= projects.len(),
            listing == projects_view(projects@),
            all_valid(listing.take(i as int)),
            allowed == total_allowed(listing.take(i as int)),
            minted == total_minted(listing.take(i as int)),
            minted <= allowed,
            allowed <= i * u64::MAX,
        decreases projects.len() - i,
    {
        assert(listing[i as int] == projects[i as int]@);
        proof {
            assert(listing.take(i + 1) =~= listing.take(i as int).push(listing[i as int]));
            total_allowed_push(listing.take(i as int), listing[i as int]);
            assert((i + 1) * u64::MAX == i * u64::MAX + u64::MAX) by (nonlinear_arith);
            assert(i * u64::MAX <= usize::MAX * u64::MAX) by (nonlinear_arith)
                requires
                    i <= usize::MAX,
            ;
        }
        if projects[i].validate().is_err() {
            assert(!listing[i as int].valid());
            return None;
        }
        allowed = allowed + projects[i].max_wattpeak as u128;
        minted = minted + projects[i].minted_wattpeak_count as u128;
        proof {
            let next = listing.take(i + 1);
            assert forall|j: int| 0 <= j < next.len() implies (#[trigger] next[j]).valid() by {
                if j < i {
                    assert(next[j] == listing.take(i as int)[j]);
                }
            }
        }
        i += 1;
    }
    assert(listing.take(projects.len() as int) =~= listing);
    Some((allowed, minted))
}

impl Minter {
    /// The ledger is well-formed: see [`MinterState::wf`].
    pub open spec fn wf(&self) -> bool {
        self@.wf()
    }

    /// How the ledger's state is read off its fields.
    pub(crate) proof fn view_is(&self)
        ensures
            self@ == (MinterState {
                config: self.config@,
                projects: projects_view(self.projects@),
                available_wattpeak_count: self.available_wattpeak_count as nat,
                total_wattpeak_minted_count: self.total_wattpeak_minted_count as nat,
                full_denom: self.full_denom@,
            }),
            self@.available_wattpeak_count <= u64::MAX,
            self@.total_wattpeak_minted_count <= u64::MAX,
    {
    }

    /// The ledger that holds the given configuration, projects and
    /// counters, or `None` where these do not make a well-formed ledger.
    pub fn restore(
        config: Config,
        projects: Vec<Project>,
        available_wattpeak_count: u64,
        total_wattpeak_minted_count: u64,
        full_denom: String,
    ) -> (r: Option<Minter>)
        ensures
            r is Some <==> assembled(
                config@,
                projects_view(projects@),
                available_wattpeak_count as nat,
                total_wattpeak_minted_count as nat,
                full_denom@,
            ).wf(),
            r is Some ==> r->Some_0@ == assembled(
                config@,
                projects_view(projects@),
                available_wattpeak_count as nat,
                total_wattpeak_minted_count as nat,
                full_denom@,
            ),
    {
        if config.validate(true).is_err() {
            return None;
        }
        match sum_projects(&projects) {
            Some((allowed, minted)) => {
                if minted != total_wattpeak_minted_count as u128 {
                    return None;
                }
                if allowed - minted != available_wattpeak_count as u128 {
                    return None;
                }
            },
            None => {
                return None;
            },
        }
        Some(Minter { config, projects, available_wattpeak_count, total_wattpeak_minted_count, full_denom })
    }

    /// The configuration.
    pub fn config(&self) -> (r: &Config)
        ensures
            r@ == self@.config,
    {
        &self.config
    }

    /// The projects, in the order of their ids.
    pub fn projects(&self) -> (r: &Vec<Project>)
        ensures
            projects_view(r@) == self@.projects,
    {
        &self.projects
    }

    /// How many projects were uploaded.
    pub fn project_deals_count(&self) -> (r: u64)
        ensures
            r == self@.project_deals_count(),
    {
        self.projects.len() as u64
    }

    /// The WattPeak still available for minting.
    pub fn available_wattpeak_count(&self) -> (r: u64)
        ensures
            r == self@.available_wattpeak_count,
    {
        self.available_wattpeak_count
    }

    /// The WattPeak minted so far.
    pub fn total_wattpeak_minted_count(&self) -> (r: u64)
        ensures
            r == self@.total_wattpeak_minted_count,
    {
        self.total_wattpeak_minted_count
    }

    /// The full denomination of the WattPeak token.
    pub fn full_denom(&self) -> (r: &String)
        ensures
            r@ == self@.full_denom,
    {
        &self.full_denom
    }
}

} // verus!
