//! Settlement instructions and observability attributes: the declarative
//! output of every engine operation.  The host translates each instruction
//! into its own message format and executes the whole list atomically with
//! the state change already made.

use vstd::prelude::*;

use crate::coin::{Coin, CoinView, coins_view};

verus! {

/// One side effect for the settlement host to carry out.
#[derive(Clone, Debug)]
pub enum Instruction {
    /// Bind a human-readable name to an address (restricted names can only be
    /// extended by their owner).
    BindName { name: String, address: String, restricted: bool },
    /// Transfer the given coins from the engine's escrow to an account.
    TransferFunds { to_address: String, amount: Vec<Coin> },
    /// Make `new_owner` the sole owner and value owner of the external asset
    /// at `scope_address`.
    ReassignScopeOwner { scope_address: String, new_owner: String },
    /// Charge a named fee to the calling account; the host splits it between
    /// its fee pool and the recipient.
    ChargeFee { amount: Coin, fee_name: String, from: String, recipient: String },
    /// Attach a named string attribute to an account.
    AddAttribute { address: String, attribute_name: String, value: String },
}

/// The mathematical value of an [`Instruction`].
pub ghost enum InstructionView {
    BindName { name: Seq<char>, address: Seq<char>, restricted: bool },
    TransferFunds { to_address: Seq<char>, amount: Seq<CoinView> },
    ReassignScopeOwner { scope_address: Seq<char>, new_owner: Seq<char> },
    ChargeFee { amount: CoinView, fee_name: Seq<char>, from: Seq<char>, recipient: Seq<char> },
    AddAttribute { address: Seq<char>, attribute_name: Seq<char>, value: Seq<char> },
}

impl View for Instruction {
    type V = InstructionView;

    open spec fn view(&self) -> InstructionView {
        match self {
            Instruction::BindName { name, address, restricted } => InstructionView::BindName {
                name: name@,
                address: address@,
                restricted: *restricted,
            },
            Instruction::TransferFunds { to_address, amount } => InstructionView::TransferFunds {
                to_address: to_address@,
                amount: coins_view(amount@),
            },
            Instruction::ReassignScopeOwner { scope_address, new_owner } =>
                InstructionView::ReassignScopeOwner {
                    scope_address: scope_address@,
                    new_owner: new_owner@,
                },
            Instruction::ChargeFee { amount, fee_name, from, recipient } =>
                InstructionView::ChargeFee {
                    amount: amount@,
                    fee_name: fee_name@,
                    from: from@,
                    recipient: recipient@,
                },
            Instruction::AddAttribute { address, attribute_name, value } =>
                InstructionView::AddAttribute {
                    address: address@,
                    attribute_name: attribute_name@,
                    value: value@,
                },
        }
    }
}

/// A key/value pair emitted for the host's event log; informational only.
#[derive(Clone, Debug)]
pub struct Attribute {
    pub key: String,
    pub value: String,
}

/// The mathematical value of an [`Attribute`].
pub ghost struct AttributeView {
    pub key: Seq<char>,
    pub value: Seq<char>,
}

impl View for Attribute {
    type V = AttributeView;

    open spec fn view(&self) -> AttributeView {
        AttributeView { key: self.key@, value: self.value@ }
    }
}

/// Builds an attribute from string literals or owned strings.
pub fn attr(key: &str, value: &str) -> (r: Attribute)
    ensures
        r@ == (AttributeView { key: key@, value: value@ }),
{
    Attribute { key: key.to_owned(), value: value.to_owned() }
}

/// What one successful engine operation hands back to the host: settlement
/// instructions to execute atomically, and event-log attributes.
#[derive(Clone, Debug)]
pub struct Response {
    pub messages: Vec<Instruction>,
    pub attributes: Vec<Attribute>,
}

/// The mathematical value of a [`Response`].
pub ghost struct ResponseView {
    pub messages: Seq<InstructionView>,
    pub attributes: Seq<AttributeView>,
}

impl View for Response {
    type V = ResponseView;

    open spec fn view(&self) -> ResponseView {
        ResponseView {
            messages: self.messages@.map_values(|m: Instruction| m@),
            attributes: self.attributes@.map_values(|a: Attribute| a@),
        }
    }
}

} // verus!
