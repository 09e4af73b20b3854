//! What a call receives from its host and what it hands back: the caller and
//! the coins attached, the block time, and the payments and attributes that
//! the host is to carry out and record.

use vstd::prelude::*;

verus! {

/// An amount of one denomination.
#[derive(Clone, Debug, PartialEq, Eq)]
pub struct Coin {
    pub denom: String,
    pub amount: u128,
}

pub struct CoinState {
    pub denom: Seq<char>,
    pub amount: nat,
}

impl View for Coin {
    type V = CoinState;

    open spec fn view(&self) -> CoinState {
        CoinState { denom: self.denom@, amount: self.amount as nat }
    }
}

/// The authenticated caller of an operation and the coins sent along.
#[derive(Clone, Debug, PartialEq, Eq)]
pub struct MessageInfo {
    pub sender: String,
    pub funds: Vec<Coin>,
}

pub struct MessageInfoState {
    pub sender: Seq<char>,
    pub funds: Seq<CoinState>,
}

impl View for MessageInfo {
    type V = MessageInfoState;

    open spec fn view(&self) -> MessageInfoState {
        MessageInfoState { sender: self.sender@, funds: self.funds@.map_values(|c: Coin| c@) }
    }
}

/// When the call runs: the block time in seconds.
#[derive(Clone, Copy, Debug, PartialEq, Eq, Structural)]
pub struct Env {
    pub block_time: u64,
}

/// An instruction to the host to pay `amount` of `denom` to `to_address`.
#[derive(Clone, Debug, PartialEq, Eq)]
pub struct Payment {
    pub to_address: String,
    pub denom: String,
    pub amount: u128,
}

pub struct PaymentState {
    pub to_address: Seq<char>,
    pub denom: Seq<char>,
    pub amount: nat,
}

impl View for Payment {
    type V = PaymentState;

    open spec fn view(&self) -> PaymentState {
        PaymentState { to_address: self.to_address@, denom: self.denom@, amount: self.amount as nat }
    }
}

/// A key and a value recorded with the call.
#[derive(Clone, Debug, PartialEq, Eq)]
pub struct Attribute {
    pub key: String,
    pub value: String,
}

pub struct AttributeState {
    pub key: Seq<char>,
    pub value: Seq<char>,
}

impl View for Attribute {
    type V = AttributeState;

    open spec fn view(&self) -> AttributeState {
        AttributeState { key: self.key@, value: self.value@ }
    }
}

/// The outcome of a successful call: payments to make and attributes to record.
#[derive(Clone, Debug, PartialEq, Eq)]
pub struct Response {
    pub messages: Vec<Payment>,
    pub attributes: Vec<Attribute>,
}

pub struct ResponseState {
    pub messages: Seq<PaymentState>,
    pub attributes: Seq<AttributeState>,
}

impl View for Response {
    type V = ResponseState;

    open spec fn view(&self) -> ResponseState {
        ResponseState {
            messages: self.messages@.map_values(|m: Payment| m@),
            attributes: self.attributes@.map_values(|a: Attribute| a@),
        }
    }
}

/// The attribute with the given key and value.
pub open spec fn attribute(key: Seq<char>, value: Seq<char>) -> AttributeState {
    AttributeState { key, value }
}

/// The payment of `amount` of `denom` to `to_address`.
pub open spec fn payment(to_address: Seq<char>, denom: Seq<char>, amount: nat) -> PaymentState {
    PaymentState { to_address, denom, amount }
}

impl Response {
    /// A response without payments or attributes.
    pub fn new() -> (r: Response)
        ensures
            r@.messages == Seq::<PaymentState>::empty(),
            r@.attributes == Seq::<AttributeState>::empty(),
    {
        let r = Response { messages: Vec::new(), attributes: Vec::new() };
        assert(r@.messages =~= Seq::<PaymentState>::empty());
        assert(r@.attributes =~= Seq::<AttributeState>::empty());
        r
    }

    /// Appends an attribute.
    pub fn add_attribute(self, key: &str, value: String) -> (r: Response)
        ensures
            r@.messages == self@.messages,
            r@.attributes == self@.attributes.push(attribute(key@, value@)),
    {
        let mut r = self;
        let a = Attribute { key: key.to_owned(), value };
        r.attributes.push(a);
        assert(r@.attributes =~= self@.attributes.push(attribute(key@, value@)));
        r
    }

    /// Appends a payment.
    pub fn add_message(self, message: Payment) -> (r: Response)
        ensures
            r@.messages == self@.messages.push(message@),
            r@.attributes == self@.attributes,
    {
        let mut r = self;
        r.messages.push(message);
        assert(r@.messages =~= self@.messages.push(message@));
        r
    }
}

} // verus!
