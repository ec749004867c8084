//! The counter contract's persistent state.

use vstd::prelude::*;

use crate::counter::error::{ContractError, ContractErrorView};
use crate::counter::types::{FeeCollectionDetail, FeeCollectionDetailView};
use crate::counter::version_info::{VersionInfo, VersionInfoView, counter_contract_name_spec,
    counter_contract_version_spec};

verus! {

/// The values the contract keeps across calls: its base name, the counter,
/// and the optional increment fee.
#[derive(Clone, Debug)]
pub struct State {
    pub contract_base_name: String,
    pub contract_counter: u128,
    pub increment_counter_fee: Option<FeeCollectionDetail>,
}

/// The mathematical value of a [`State`].
pub ghost struct StateView {
    pub contract_base_name: Seq<char>,
    pub contract_counter: u128,
    pub increment_counter_fee: Option<FeeCollectionDetailView>,
}

impl View for State {
    type V = StateView;

    open spec fn view(&self) -> StateView {
        StateView {
            contract_base_name: self.contract_base_name@,
            contract_counter: self.contract_counter,
            increment_counter_fee: match self.increment_counter_fee {
                Some(f) => Some(f@),
                None => None,
            },
        }
    }
}

impl State {
    /// An exact copy of the state.
    pub fn clone_state(&self) -> (r: State)
        ensures
            r@ == self@,
    {
        State {
            contract_base_name: self.contract_base_name.clone(),
            contract_counter: self.contract_counter,
            increment_counter_fee: match &self.increment_counter_fee {
                Some(f) => Some(f.clone_detail()),
                None => None,
            },
        }
    }
}

/// Everything the counter contract persists: the state singleton and the
/// version record, each absent until first written.
pub struct ContractStorage {
    pub state: Option<State>,
    pub version_info: Option<VersionInfo>,
}

/// The mathematical value of a [`ContractStorage`].
pub ghost struct ContractStorageView {
    pub state: Option<StateView>,
    pub version_info: Option<VersionInfoView>,
}

impl View for ContractStorage {
    type V = ContractStorageView;

    open spec fn view(&self) -> ContractStorageView {
        ContractStorageView {
            state: match self.state {
                Some(s) => Some(s@),
                None => None,
            },
            version_info: match self.version_info {
                Some(v) => Some(v@),
                None => None,
            },
        }
    }
}

impl ContractStorage {
    /// Fresh storage: nothing written yet.
    pub fn new() -> (r: ContractStorage)
        ensures
            r@.state is None,
            r@.version_info is None,
    {
        ContractStorage { state: None, version_info: None }
    }
}

/// Fetches the stored state, as the host's storage would.
pub fn load_state(storage: &ContractStorage) -> (r: Result<State, ContractError>)
    ensures
        match r {
            Ok(s) => storage@.state == Some(s@),
            Err(e) => storage@.state is None && e@ == (ContractErrorView::Std {
                message: "contract state not found"@,
            }),
        },
{
    match &storage.state {
        Some(s) => Ok(s.clone_state()),
        None => Err(ContractError::Std { message: String::from_str("contract state not found") }),
    }
}

/// Fetches the stored version record.
pub fn get_version_info(storage: &ContractStorage) -> (r: Result<VersionInfo, ContractError>)
    ensures
        match r {
            Ok(v) => storage@.version_info == Some(v@),
            Err(e) => storage@.version_info is None && e@ == (ContractErrorView::Std {
                message: "version info not found"@,
            }),
        },
{
    match &storage.version_info {
        Some(v) => Ok(v.clone_info()),
        None => Err(ContractError::Std { message: String::from_str("version info not found") }),
    }
}

/// Overwrites the stored version record.
pub fn set_version_info(storage: &mut ContractStorage, version_info: VersionInfo) -> (r: Result<
    (),
    ContractError,
>)
    ensures
        r is Ok,
        final(storage)@.version_info == Some(version_info@),
        final(storage)@.state == old(storage)@.state,
{
    storage.version_info = Some(version_info);
    Ok(())
}

/// Stamps the running code's name and version into storage and returns the
/// stored record.
pub fn migrate_version_info(storage: &mut ContractStorage) -> (r: Result<
    VersionInfo,
    ContractError,
>)
    ensures
        r matches Ok(v) && v@ == (VersionInfoView {
            contract: counter_contract_name_spec(),
            version: counter_contract_version_spec(),
        }),
        final(storage)@.version_info == Some(VersionInfoView {
            contract: counter_contract_name_spec(),
            version: counter_contract_version_spec(),
        }),
        final(storage)@.state == old(storage)@.state,
{
    let version_info = VersionInfo::current_version();
    let stored = version_info.clone_info();
    storage.version_info = Some(stored);
    Ok(version_info)
}

} // verus!
