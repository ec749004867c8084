//! The name service's request and response types.

use vstd::prelude::*;

use crate::nameservice::state::{NameMeta, NameMetaView, metas_view};

verus! {

/// Initializes the name service's configuration.
#[derive(Clone, Debug)]
pub struct InitMsg {
    pub name: String,
    pub fee_amount: String,
    pub fee_collection_address: String,
}

/// Registers a name for the calling account.
#[derive(Clone, Debug)]
pub enum ExecuteMsg {
    Register { name: String },
}

/// Read-only lookups over the registry.
#[derive(Clone, Debug)]
pub enum QueryMsg {
    /// The configuration record.
    QueryRequest {},
    /// The record registered under a name.
    QueryAddressByName { name: String },
    /// All names registered to an address.
    QueryNamesByAddress { address: String },
    /// All records whose name contains the search string.
    SearchForNames { search: String },
    /// The stored code-version record.
    Version {},
}

/// Migrates the contract, optionally changing the fee configuration.
#[derive(Clone, Debug)]
pub struct MigrateMsg {
    pub new_fee_amount: Option<String>,
    pub new_fee_collection_address: Option<String>,
}

impl MigrateMsg {
    /// Whether the migration carries any fee-configuration change.
    pub fn has_fee_changes(&self) -> (r: bool)
        ensures
            r == (self.new_fee_amount is Some || self.new_fee_collection_address is Some),
    {
        self.new_fee_amount.is_some() || self.new_fee_collection_address.is_some()
    }

    /// A migration that changes nothing but the stored version.
    pub fn empty() -> (r: MigrateMsg)
        ensures
            r.new_fee_amount is None,
            r.new_fee_collection_address is None,
    {
        MigrateMsg { new_fee_amount: None, new_fee_collection_address: None }
    }
}

/// The names registered to one address.
#[derive(Clone, Debug)]
pub struct NameResponse {
    pub address: String,
    pub names: Vec<String>,
}

impl NameResponse {
    /// Packs an address and its names into a response.
    pub fn new(address: String, names: Vec<String>) -> (r: NameResponse)
        ensures
            r.address@ == address@,
            r.names@.map_values(|n: String| n@) == names@.map_values(|n: String| n@),
    {
        NameResponse { address, names }
    }
}

/// The records found by a name search.
#[derive(Clone, Debug)]
pub struct NameSearchResponse {
    pub search: String,
    pub names: Vec<NameMeta>,
}

impl NameSearchResponse {
    /// Packs a search string and its results into a response.
    pub fn new(search: String, names: Vec<NameMeta>) -> (r: NameSearchResponse)
        ensures
            r.search@ == search@,
            metas_view(r.names@) == metas_view(names@),
    {
        NameSearchResponse { search, names }
    }
}

} // verus!
