//! Why a call on the minting ledger was rejected.

use vstd::prelude::*;
use vstd::string::StringExecFns;

verus! {

/// A rejection that says in words what was wrong with the input.
#[derive(Clone, Copy, Debug, PartialEq, Eq, Structural)]
pub enum StdError {
    /// An address of the configuration is not well-formed.
    InvalidAddress,
    /// The price of minting is zero.
    MintingPriceZero,
    /// The price of minting names no denomination.
    MintingPriceDenomEmpty,
    /// The fee on minting is above 100%.
    MintingFeeTooHigh,
    /// The project allows no WattPeak at all.
    MaxWattpeakZero,
    /// The project has no name.
    NameEmpty,
    /// The project has no description.
    DescriptionEmpty,
    /// More was minted for the project than it allows.
    MintedAboveMax,
    /// No project has the given id.
    ProjectNotFound,
}

impl StdError {
    /// The text of the rejection.
    pub open spec fn text(self) -> Seq<char> {
        match self {
            StdError::InvalidAddress => "Generic error: Invalid input: address not accepted"@,
            StdError::MintingPriceZero => "Generic error: minting_price cannot be zero"@,
            StdError::MintingPriceDenomEmpty => "Generic error: minting_price denom cannot be empty"@,
            StdError::MintingFeeTooHigh => "Generic error: minting_fee_percentage cannot be greater than 100%"@,
            StdError::MaxWattpeakZero => "Generic error: max_wattpeak cannot be zero"@,
            StdError::NameEmpty => "Generic error: name cannot be empty"@,
            StdError::DescriptionEmpty => "Generic error: description cannot be empty"@,
            StdError::MintedAboveMax => "Generic error: minted_wattpeak_count cannot be greater than max_wattpeak"@,
            StdError::ProjectNotFound => "wattpeak_minter::state::Project not found"@,
        }
    }

    /// The text of the rejection.
    pub fn to_string(&self) -> (s: String)
        ensures
            s@ == self.text(),
    {
        match self {
            StdError::InvalidAddress => String::from_str("Generic error: Invalid input: address not accepted"),
            StdError::MintingPriceZero => String::from_str("Generic error: minting_price cannot be zero"),
            StdError::MintingPriceDenomEmpty => String::from_str(
                "Generic error: minting_price denom cannot be empty",
            ),
            StdError::MintingFeeTooHigh => String::from_str(
                "Generic error: minting_fee_percentage cannot be greater than 100%",
            ),
            StdError::MaxWattpeakZero => String::from_str("Generic error: max_wattpeak cannot be zero"),
            StdError::NameEmpty => String::from_str("Generic error: name cannot be empty"),
            StdError::DescriptionEmpty => String::from_str("Generic error: description cannot be empty"),
            StdError::MintedAboveMax => String::from_str(
                "Generic error: minted_wattpeak_count cannot be greater than max_wattpeak",
            ),
            StdError::ProjectNotFound => String::from_str("wattpeak_minter::state::Project not found"),
        }
    }
}

/// Every rejection leaves the ledger as it was.
#[derive(Clone, Copy, Debug, PartialEq, Eq, Structural)]
pub enum ContractError {
    Std(StdError),
    /// The caller is not the admin.
    Unauthorized {  },
    /// A coin sent along is less than the cost of minting.
    InsufficientFunds {  },
    /// The project does not have that much WattPeak left to mint.
    InsufficientWattpeak {  },
    /// A coin sent along is more than the cost of minting.
    TooMuchFunds {  },
    /// No project has the given id.
    ProjectNotFound {  },
    /// A counter would exceed what it can hold.
    Overflow {  },
    InvalidMintingPrice {  },
    InvalidAmount {  },
    /// The cost of minting is not a whole amount, or exceeds what can be
    /// computed.
    MathError {  },
}

impl ContractError {
    /// The text of the rejection.
    pub open spec fn text(self) -> Seq<char> {
        match self {
            ContractError::Std(e) => e.text(),
            ContractError::Unauthorized {  } => "unauthorized"@,
            ContractError::InsufficientFunds {  } => "insufficient funds to pay for minting"@,
            ContractError::InsufficientWattpeak {  } => "insufficient wattpeak available"@,
            ContractError::TooMuchFunds {  } => "too much funds sent in"@,
            ContractError::ProjectNotFound {  } => "project not found"@,
            ContractError::Overflow {  } => "overflows"@,
            ContractError::InvalidMintingPrice {  } => "invalid minting price"@,
            ContractError::InvalidAmount {  } => "invalid amount"@,
            ContractError::MathError {  } => "math error"@,
        }
    }

    /// The text of the rejection.
    pub fn to_string(&self) -> (s: String)
        ensures
            s@ == self.text(),
    {
        match self {
            ContractError::Std(e) => e.to_string(),
            ContractError::Unauthorized {  } => String::from_str("unauthorized"),
            ContractError::InsufficientFunds {  } => String::from_str("insufficient funds to pay for minting"),
            ContractError::InsufficientWattpeak {  } => String::from_str("insufficient wattpeak available"),
            ContractError::TooMuchFunds {  } => String::from_str("too much funds sent in"),
            ContractError::ProjectNotFound {  } => String::from_str("project not found"),
            ContractError::Overflow {  } => String::from_str("overflows"),
            ContractError::InvalidMintingPrice {  } => String::from_str("invalid minting price"),
            ContractError::InvalidAmount {  } => String::from_str("invalid amount"),
            ContractError::MathError {  } => String::from_str("math error"),
        }
    }
}

} // verus!
