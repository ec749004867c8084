//! The counter contract's code-version record, used to refuse migrations
//! that do not move the version forward.

use vstd::prelude::*;

use crate::counter::error::{ContractError, ContractErrorView};
use crate::semver_util::{SemVer, parsed_sem_ver};

verus! {

/// The contract name recorded in every version record.
pub open spec fn counter_contract_name_spec() -> Seq<char> {
    "counter_contract"@
}

/// The code version recorded on instantiation and migration.
pub open spec fn counter_contract_version_spec() -> Seq<char> {
    "0.1.0"@
}

/// The contract's name and currently migrated version.
#[derive(Clone, Debug)]
pub struct VersionInfo {
    pub contract: String,
    pub version: String,
}

/// The mathematical value of a [`VersionInfo`].
pub ghost struct VersionInfoView {
    pub contract: Seq<char>,
    pub version: Seq<char>,
}

impl View for VersionInfo {
    type V = VersionInfoView;

    open spec fn view(&self) -> VersionInfoView {
        VersionInfoView { contract: self.contract@, version: self.version@ }
    }
}

impl VersionInfo {
    /// An exact copy of the record.
    pub fn clone_info(&self) -> (r: VersionInfo)
        ensures
            r@ == self@,
    {
        VersionInfo { contract: self.contract.clone(), version: self.version.clone() }
    }

    /// The record the running code would store: its own name and version.
    pub fn current_version() -> (r: VersionInfo)
        ensures
            r@ == (VersionInfoView {
                contract: counter_contract_name_spec(),
                version: counter_contract_version_spec(),
            }),
    {
        VersionInfo {
            contract: String::from_str("counter_contract"),
            version: String::from_str("0.1.0"),
        }
    }

    /// Parses the record's version as a semantic version.
    pub fn parse_sem_ver(&self) -> (r: Result<SemVer, ContractError>)
        ensures
            match r {
                Ok(v) => parsed_sem_ver(self.version@) == Some((v.major, v.minor, v.patch)),
                Err(e) => parsed_sem_ver(self.version@) is None && e@ matches
                    ContractErrorView::GenericError { .. },
            },
    {
        match SemVer::parse(self.version.as_str()) {
            Some(v) => Ok(v),
            None => Err(ContractError::generic_err(
                String::from_str("invalid semantic version"),
            )),
        }
    }
}

} // verus!
