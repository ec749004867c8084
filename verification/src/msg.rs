//! The typed requests the trade engine answers.

use vstd::prelude::*;

use crate::coin::Coin;
use crate::orders::BaseType;

verus! {

/// Sets up a new instance of the engine.
#[derive(Clone, Debug)]
pub struct InstantiateMsg {
    /// The name to bind to the contract's address via the host's name module.
    pub bind_name: String,
    /// A free-form, display-only name for the contract.
    pub contract_name: String,
    /// The fee charged to the sender when an ask is created; absent means no
    /// fee, and zero is rejected.
    pub ask_fee: Option<u128>,
    /// The fee charged to the sender when a bid is created; absent means no
    /// fee, and zero is rejected.
    pub bid_fee: Option<u128>,
}

/// The five state-changing operations, plus the admin's fee update.
#[derive(Clone, Debug)]
pub enum ExecuteMsg {
    /// Removes an ask and refunds its escrowed base to its owner.
    CancelAsk { id: String },
    /// Removes a bid and refunds its escrowed payment to its owner.
    CancelBid { id: String },
    /// Creates a new ask holding the attached funds (or the referenced
    /// external asset) until cancellation or a match.  If an ask already
    /// exists with the given id, an error is returned.
    CreateAsk { id: String, quote: Vec<Coin>, scope_address: Option<String> },
    /// Creates a new bid escrowing the attached funds as payment.  If a bid
    /// already exists with the given id, an error is returned.
    CreateBid { id: String, base: BaseType, effective_time: Option<u64> },
    /// Replaces the configured creation fees (admin only).
    UpdateFees { ask_fee: Option<u128>, bid_fee: Option<u128> },
    /// Settles an ask against a bid (admin only).
    ExecuteMatch { ask_id: String, bid_id: String },
}

/// Read-only lookups; none of them changes state.
#[derive(Clone, Debug)]
pub enum QueryMsg {
    /// Fetches an existing ask by id.
    GetAsk { id: String },
    /// Fetches an existing bid by id.
    GetBid { id: String },
    /// Fetches the contract configuration.
    GetContractInfo {},
}

/// Migrates the contract to a new version of its code.
#[derive(Clone, Debug)]
pub enum MigrateMsg {
    /// Records the new code version; stored orders are never modified.
    NewVersion {},
}

} // verus!
