//! The code-version record the migration checks consult: the contract's name
//! and its currently migrated version, kept so that a migration can never
//! overwrite a different contract or downgrade this one.

use vstd::prelude::*;

use crate::nameservice::error::{ContractError, ContractErrorView};
use crate::nameservice::state::NameRegistry;
use crate::semver_util::{SemVer, parsed_sem_ver};

verus! {

/// The contract name recorded in every version record.
pub open spec fn contract_name_spec() -> Seq<char> {
    "name_service"@
}

/// The code version recorded on instantiation and migration.
pub open spec fn contract_version_spec() -> Seq<char> {
    "0.1.0"@
}

/// Returns the contract name this code carries.
pub fn current_contract_name() -> (r: String)
    ensures
        r@ == contract_name_spec(),
{
    String::from_str("name_service")
}

/// Returns the code version this code carries.
pub fn current_contract_version() -> (r: String)
    ensures
        r@ == contract_version_spec(),
{
    String::from_str("0.1.0")
}

/// The contract's name and currently migrated version.
#[derive(Clone, Debug)]
pub struct VersionInfoV1 {
    pub contract: String,
    pub version: String,
}

/// The mathematical value of a [`VersionInfoV1`].
pub ghost struct VersionInfoV1View {
    pub contract: Seq<char>,
    pub version: Seq<char>,
}

impl View for VersionInfoV1 {
    type V = VersionInfoV1View;

    open spec fn view(&self) -> VersionInfoV1View {
        VersionInfoV1View { contract: self.contract@, version: self.version@ }
    }
}

impl VersionInfoV1 {
    /// An exact copy of the record.
    pub fn clone_info(&self) -> (r: VersionInfoV1)
        ensures
            r@ == self@,
    {
        VersionInfoV1 { contract: self.contract.clone(), version: self.version.clone() }
    }

    /// Parses the record's version as a semantic version.
    pub fn parse_sem_ver(&self) -> (r: Result<SemVer, ContractError>)
        ensures
            match r {
                Ok(v) => parsed_sem_ver(self.version@) == Some((v.major, v.minor, v.patch)),
                Err(e) => parsed_sem_ver(self.version@) is None && e@ matches
                    ContractErrorView::SemVer { .. },
            },
    {
        match SemVer::parse(self.version.as_str()) {
            Some(v) => Ok(v),
            None => Err(ContractError::SemVer {
                message: String::from_str("invalid semantic version"),
            }),
        }
    }
}

/// Overwrites the stored version record.
pub fn set_version_info(reg: &mut NameRegistry, version_info: VersionInfoV1) -> (r: Result<
    (),
    ContractError,
>)
    ensures
        r is Ok,
        final(reg)@.version_info == Some(version_info@),
        final(reg)@.config == old(reg)@.config,
        final(reg)@.metas == old(reg)@.metas,
{
    reg.version_info = Some(version_info);
    Ok(())
}

/// Fetches the stored version record, if the contract was instantiated.
pub fn get_version_info(reg: &NameRegistry) -> (r: Result<VersionInfoV1, ContractError>)
    ensures
        match r {
            Ok(v) => reg@.version_info == Some(v@),
            Err(e) => reg@.version_info is None && e@ == (ContractErrorView::Std {
                message: "version info not found"@,
            }),
        },
{
    match &reg.version_info {
        Some(v) => Ok(v.clone_info()),
        None => Err(ContractError::Std { message: String::from_str("version info not found") }),
    }
}

/// Stamps the running code's name and version into the registry and returns
/// the stored record.
pub fn migrate_version_info(reg: &mut NameRegistry) -> (r: Result<VersionInfoV1, ContractError>)
    ensures
        r matches Ok(v) && v@ == (VersionInfoV1View {
            contract: contract_name_spec(),
            version: contract_version_spec(),
        }),
        final(reg)@.version_info == Some(VersionInfoV1View {
            contract: contract_name_spec(),
            version: contract_version_spec(),
        }),
        final(reg)@.config == old(reg)@.config,
        final(reg)@.metas == old(reg)@.metas,
{
    let version_info = VersionInfoV1 {
        contract: current_contract_name(),
        version: current_contract_version(),
    };
    let stored = version_info.clone_info();
    reg.version_info = Some(stored);
    Ok(version_info)
}

} // verus!
