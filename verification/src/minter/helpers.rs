//! The instructions that the minting ledger hands to its host, among them
//! the creation of the WattPeak denomination.

use vstd::prelude::*;

use crate::given::text_of;
use crate::response::Attribute;
use crate::response::attribute;
use crate::response::AttributeState;
use crate::response::Payment;
use crate::response::PaymentState;

verus! {

/// A balance that a new denomination starts with.
#[derive(Clone, Debug, PartialEq, Eq)]
pub struct InitialBalance {
    pub address: String,
    pub amount: u128,
}

/// What a new denomination is to be called and how it is to be shown.
#[derive(Clone, Debug, PartialEq, Eq)]
pub struct NewDenom {
    pub name: String,
    pub description: Option<String>,
    pub symbol: String,
    pub decimals: u32,
    pub initial_balances: Option<Vec<InitialBalance>>,
}

/// A unit of a denomination: one of it is `10^exponent` of the base unit.
#[derive(Clone, Debug, PartialEq, Eq)]
pub struct DenomUnit {
    pub denom: String,
    pub exponent: u32,
    pub aliases: Vec<String>,
}

pub struct DenomUnitState {
    pub denom: Seq<char>,
    pub exponent: nat,
    pub aliases: Seq<Seq<char>>,
}

impl View for DenomUnit {
    type V = DenomUnitState;

    open spec fn view(&self) -> DenomUnitState {
        DenomUnitState {
            denom: self.denom@,
            exponent: self.exponent as nat,
            aliases: self.aliases@.map_values(|a: String| a@),
        }
    }
}

/// The description of a denomination that the bank of the chain keeps.
#[derive(Clone, Debug, PartialEq, Eq)]
pub struct Metadata {
    pub description: Option<String>,
    pub denom_units: Vec<DenomUnit>,
    pub base: Option<String>,
    pub display: Option<String>,
    pub name: Option<String>,
    pub symbol: Option<String>,
}

pub struct MetadataState {
    pub description: Option<Seq<char>>,
    pub denom_units: Seq<DenomUnitState>,
    pub base: Option<Seq<char>>,
    pub display: Option<Seq<char>>,
    pub name: Option<Seq<char>>,
    pub symbol: Option<Seq<char>>,
}

impl View for Metadata {
    type V = MetadataState;

    open spec fn view(&self) -> MetadataState {
        MetadataState {
            description: text_of(self.description),
            denom_units: self.denom_units@.map_values(|u: DenomUnit| u@),
            base: text_of(self.base),
            display: text_of(self.display),
            name: text_of(self.name),
            symbol: text_of(self.symbol),
        }
    }
}

/// An instruction to the token factory of the chain.
#[derive(Clone, Debug, PartialEq, Eq)]
pub enum TokenMsg {
    /// Creates the denomination `factory/{contract address}/{subdenom}`.
    CreateDenom { subdenom: String, metadata: Option<Metadata> },
    /// Mints `amount` of `denom` to `mint_to_address`.
    MintTokens { denom: String, amount: u128, mint_to_address: String },
}

pub enum TokenMsgState {
    CreateDenom { subdenom: Seq<char>, metadata: Option<MetadataState> },
    MintTokens { denom: Seq<char>, amount: nat, mint_to_address: Seq<char> },
}

impl View for TokenMsg {
    type V = TokenMsgState;

    open spec fn view(&self) -> TokenMsgState {
        match self {
            TokenMsg::CreateDenom { subdenom, metadata } => TokenMsgState::CreateDenom {
                subdenom: subdenom@,
                metadata: match metadata {
                    Some(m) => Some(m@),
                    None => None,
                },
            },
            TokenMsg::MintTokens { denom, amount, mint_to_address } => TokenMsgState::MintTokens {
                denom: denom@,
                amount: *amount as nat,
                mint_to_address: mint_to_address@,
            },
        }
    }
}

/// An instruction to the host: a payment, or an instruction to the token
/// factory.
#[derive(Clone, Debug, PartialEq, Eq)]
pub enum MinterMsg {
    Bank(Payment),
    Custom(TokenMsg),
}

pub enum MinterMsgState {
    Bank(PaymentState),
    Custom(TokenMsgState),
}

impl View for MinterMsg {
    type V = MinterMsgState;

    open spec fn view(&self) -> MinterMsgState {
        match self {
            MinterMsg::Bank(p) => MinterMsgState::Bank(p@),
            MinterMsg::Custom(t) => MinterMsgState::Custom(t@),
        }
    }
}

/// The outcome of a successful call: instructions to carry out and
/// attributes to record.
#[derive(Clone, Debug, PartialEq, Eq)]
pub struct MinterResponse {
    pub messages: Vec<MinterMsg>,
    pub attributes: Vec<Attribute>,
}

pub struct MinterResponseState {
    pub messages: Seq<MinterMsgState>,
    pub attributes: Seq<AttributeState>,
}

impl View for MinterResponse {
    type V = MinterResponseState;

    open spec fn view(&self) -> MinterResponseState {
        MinterResponseState {
            messages: self.messages@.map_values(|m: MinterMsg| m@),
            attributes: self.attributes@.map_values(|a: Attribute| a@),
        }
    }
}

impl MinterResponse {
    /// A response without instructions or attributes.
    pub fn new() -> (r: MinterResponse)
        ensures
            r@.messages == Seq::<MinterMsgState>::empty(),
            r@.attributes == Seq::<AttributeState>::empty(),
    {
        let r = MinterResponse { messages: Vec::new(), attributes: Vec::new() };
        assert(r@.messages =~= Seq::<MinterMsgState>::empty());
        assert(r@.attributes =~= Seq::<AttributeState>::empty());
        r
    }

    /// Appends an attribute.
    pub fn add_attribute(self, key: &str, value: String) -> (r: MinterResponse)
        ensures
            r@.messages == self@.messages,
            r@.attributes == self@.attributes.push(attribute(key@, value@)),
    {
        let mut r = self;
        let a = Attribute { key: key.to_owned(), value };
        r.attributes.push(a);
        assert(r@.attributes =~= self@.attributes.push(attribute(key@, value@)));
        r
    }

    /// Appends an instruction.
    pub fn add_message(self, message: MinterMsg) -> (r: MinterResponse)
        ensures
            r@.messages == self@.messages.push(message@),
            r@.attributes == self@.attributes,
    {
        let mut r = self;
        r.messages.push(message);
        assert(r@.messages =~= self@.messages.push(message@));
        r
    }
}

/// What [`create_denom_msg`] makes of its arguments.
pub open spec fn create_denom_spec(
    subdenom: Seq<char>,
    full_denom: Seq<char>,
    name: Seq<char>,
    description: Option<Seq<char>>,
    symbol: Seq<char>,
    decimals: nat,
) -> TokenMsgState {
    TokenMsgState::CreateDenom {
        subdenom,
        metadata: Some(
            MetadataState {
                name: Some(name),
                description,
                denom_units: seq![
                    DenomUnitState { denom: full_denom, exponent: 0, aliases: Seq::<Seq<char>>::empty() },
                    DenomUnitState { denom: symbol, exponent: decimals, aliases: Seq::<Seq<char>>::empty() },
                ],
                base: Some(full_denom),
                display: Some(symbol),
                symbol: Some(symbol),
            },
        ),
    }
}

/// The instruction that creates the denomination `subdenom`: its base unit
/// is `full_denom`, and it is shown in the unit `denom.symbol`, which is
/// `10^denom.decimals` base units.
pub fn create_denom_msg(subdenom: String, full_denom: String, denom: NewDenom) -> (r: TokenMsg)
    ensures
        r@ == create_denom_spec(
            subdenom@,
            full_denom@,
            denom.name@,
            text_of(denom.description),
            denom.symbol@,
            denom.decimals as nat,
        ),
{
    let base_unit = DenomUnit { denom: full_denom.clone(), exponent: 0, aliases: Vec::new() };
    let shown_unit = DenomUnit { denom: denom.symbol.clone(), exponent: denom.decimals, aliases: Vec::new() };
    assert(base_unit@.aliases =~= Seq::<Seq<char>>::empty());
    assert(shown_unit@.aliases =~= Seq::<Seq<char>>::empty());
    let mut denom_units: Vec<DenomUnit> = Vec::new();
    denom_units.push(base_unit);
    denom_units.push(shown_unit);
    let metadata = Metadata {
        name: Some(denom.name),
        description: denom.description,
        denom_units,
        base: Some(full_denom),
        display: Some(denom.symbol.clone()),
        symbol: Some(denom.symbol),
    };
    assert(metadata@.denom_units =~= seq![base_unit@, shown_unit@]);
    TokenMsg::CreateDenom { subdenom, metadata: Some(metadata) }
}

} // verus!
