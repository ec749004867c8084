//! The counter contract's request types.

use vstd::prelude::*;

use crate::counter::types::FeeCollectionDetail;

verus! {

/// Initializes the counter contract.
#[derive(Clone, Debug)]
pub struct InitMsg {
    /// The name to bind to the contract; attributes are written under
    /// sub-names of it.
    pub contract_base_name: String,
    /// The counter's starting value; absent means zero.
    pub starting_counter: Option<u128>,
    /// The fee charged to increment the counter; absent means free.
    pub increment_counter_fee: Option<FeeCollectionDetail>,
}

/// The contract's state-changing operations.
#[derive(Clone, Debug)]
pub enum ExecuteMsg {
    /// Adds to the counter (by one when no amount is given), charging the
    /// configured fee if one is set.
    IncrementCounter { increment_amount: Option<u128> },
    /// Binds a sub-name of the contract's base name and attaches the given
    /// text to it as an attribute.
    AddAttribute { attribute_prefix: String, attribute_text: String },
    /// Forwards the attached funds to the given recipient.
    SendFunds { recipient_address: String },
}

/// Read-only lookups.
#[derive(Clone, Debug)]
pub enum QueryMsg {
    /// The attribute stored under the given prefix of the base name.
    QueryAttribute { attribute_prefix: String },
    /// The contract state.
    QueryState {},
    /// The stored code-version record.
    QueryVersion {},
}

/// Migrates the contract, optionally resetting the counter or the fee.
#[derive(Clone, Debug)]
pub struct MigrateMsg {
    pub new_counter_value: Option<u128>,
    pub increment_counter_fee: Option<FeeCollectionDetail>,
}

} // verus!
