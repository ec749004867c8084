//! The errors the trade engine can return.  Every failure is terminal for the
//! call: the caller's state is left untouched.

use vstd::prelude::*;

verus! {

/// Why a trade-engine operation was refused.
#[derive(Clone, Debug)]
pub enum ContractError {
    /// The ask and bid cannot be settled against each other (one of them is
    /// missing, or their contents do not agree).
    AskBidMismatch,
    /// Funds were attached to a cancel request, which never takes funds.
    CancelWithFunds,
    /// Funds were attached to a match request, which never takes funds.
    ExecuteWithFunds,
    /// Funds were attached to a fee-update request, which never takes funds.
    UpdateFeesWithFunds,
    /// A funds ask was created without attaching the asset to sell.
    MissingAskBase,
    /// An external-asset ask also attached funds.
    ScopeAskBaseWithFunds,
    /// The referenced external asset is not controlled the way the engine
    /// requires before it can be escrowed.
    InvalidScopeOwner { scope_address: String, explanation: String },
    /// A required field of the request was empty.
    MissingField { field: String },
    /// An order with this id already exists in the namespace the create
    /// targeted; ids are unique and orders immutable, so the request is
    /// refused before storage.
    DuplicateId { id_type: String, id: String },
    /// A bid was created without escrowing any payment.
    MissingBidQuote,
    /// A configured creation fee was present but zero.
    InvalidFee { fee_type: String },
    /// A failure surfaced by the settlement host, passed through unchanged.
    Std { message: String },
    /// The caller may not perform this operation (also used, deliberately,
    /// when the order to cancel does not exist or its id was empty).
    Unauthorized,
}

/// The mathematical value of a [`ContractError`].
pub ghost enum ContractErrorView {
    AskBidMismatch,
    CancelWithFunds,
    ExecuteWithFunds,
    UpdateFeesWithFunds,
    MissingAskBase,
    ScopeAskBaseWithFunds,
    InvalidScopeOwner { scope_address: Seq<char>, explanation: Seq<char> },
    MissingField { field: Seq<char> },
    DuplicateId { id_type: Seq<char>, id: Seq<char> },
    MissingBidQuote,
    InvalidFee { fee_type: Seq<char> },
    Std { message: Seq<char> },
    Unauthorized,
}

impl View for ContractError {
    type V = ContractErrorView;

    open spec fn view(&self) -> ContractErrorView {
        match self {
            ContractError::AskBidMismatch => ContractErrorView::AskBidMismatch,
            ContractError::CancelWithFunds => ContractErrorView::CancelWithFunds,
            ContractError::ExecuteWithFunds => ContractErrorView::ExecuteWithFunds,
            ContractError::UpdateFeesWithFunds => ContractErrorView::UpdateFeesWithFunds,
            ContractError::MissingAskBase => ContractErrorView::MissingAskBase,
            ContractError::ScopeAskBaseWithFunds => ContractErrorView::ScopeAskBaseWithFunds,
            ContractError::InvalidScopeOwner { scope_address, explanation } =>
                ContractErrorView::InvalidScopeOwner {
                    scope_address: scope_address@,
                    explanation: explanation@,
                },
            ContractError::MissingField { field } => ContractErrorView::MissingField {
                field: field@,
            },
            ContractError::DuplicateId { id_type, id } => ContractErrorView::DuplicateId {
                id_type: id_type@,
                id: id@,
            },
            ContractError::MissingBidQuote => ContractErrorView::MissingBidQuote,
            ContractError::InvalidFee { fee_type } => ContractErrorView::InvalidFee {
                fee_type: fee_type@,
            },
            ContractError::Std { message } => ContractErrorView::Std { message: message@ },
            ContractError::Unauthorized => ContractErrorView::Unauthorized,
        }
    }
}

} // verus!
