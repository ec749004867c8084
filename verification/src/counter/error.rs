//! The errors the counter contract can return.

use vstd::prelude::*;

verus! {

/// Why a counter-contract operation was refused.
#[derive(Clone, Debug)]
pub enum ContractError {
    /// A one-off failure described only by its message.
    GenericError { message: String },
    /// The attached funds do not fit the operation.
    InvalidFunds { explanation: String },
    /// A name that was expected to be free is already bound.
    NameAlreadyExists { name: String, owner_address: String },
    /// A migration to an older (or equal) version was refused.
    InvalidVersion { explanation: String },
    /// A failure surfaced by the settlement host, passed through as a message.
    Std { message: String },
}

/// The mathematical value of a [`ContractError`].
pub ghost enum ContractErrorView {
    GenericError { message: Seq<char> },
    InvalidFunds { explanation: Seq<char> },
    NameAlreadyExists { name: Seq<char>, owner_address: Seq<char> },
    InvalidVersion { explanation: Seq<char> },
    Std { message: Seq<char> },
}

impl View for ContractError {
    type V = ContractErrorView;

    open spec fn view(&self) -> ContractErrorView {
        match self {
            ContractError::GenericError { message } => ContractErrorView::GenericError {
                message: message@,
            },
            ContractError::InvalidFunds { explanation } => ContractErrorView::InvalidFunds {
                explanation: explanation@,
            },
            ContractError::NameAlreadyExists { name, owner_address } =>
                ContractErrorView::NameAlreadyExists {
                    name: name@,
                    owner_address: owner_address@,
                },
            ContractError::InvalidVersion { explanation } => ContractErrorView::InvalidVersion {
                explanation: explanation@,
            },
            ContractError::Std { message } => ContractErrorView::Std { message: message@ },
        }
    }
}

impl ContractError {
    /// A one-off error carrying just a message.
    pub fn generic_err(msg: String) -> (r: ContractError)
        ensures
            r@ == (ContractErrorView::GenericError { message: msg@ }),
    {
        ContractError::GenericError { message: msg }
    }
}

} // verus!
