//! The errors the name service can return.

use vstd::prelude::*;

verus! {

/// Why a name-service operation was refused.
#[derive(Clone, Debug)]
pub enum ContractError {
    /// A failure surfaced by the settlement host (or an internal lookup that
    /// behaves like one), passed through as a message.
    Std { message: String },
    /// The caller may not perform this operation.
    Unauthorized,
    /// The name is already registered.
    NameRegistered { name: String },
    /// The name could not be serialized for the host's attribute module.
    NameSerializationFailure { cause: String },
    /// No record exists for the requested name.
    NameNotFound,
    /// Fees are due but no fee-denomination funds were attached.
    NoFundsProvidedForRegistration,
    /// A migration was attempted from a contract with a different name.
    InvalidContractName { current_contract: String, migration_contract: String },
    /// A migration was attempted to an older version.
    InvalidContractVersion { current_version: String, migration_version: String },
    /// Funds of a denomination other than the fee denomination were attached.
    InvalidFundsProvided { types: Vec<String> },
    /// The name is not all-lowercase alphanumeric.
    InvalidNameFormat { name: String },
    /// The attached fee funds do not cover the configured fee.
    InsufficientFundsProvided { amount_provided: u128, amount_required: u128 },
    /// A request carried invalid fields.
    InvalidFields { fields: Vec<String> },
    /// A version string could not be parsed as a semantic version.
    SemVer { message: String },
    /// A query could not be answered.
    QueryError { message: String },
}

/// The mathematical value of a [`ContractError`].
pub ghost enum ContractErrorView {
    Std { message: Seq<char> },
    Unauthorized,
    NameRegistered { name: Seq<char> },
    NameSerializationFailure { cause: Seq<char> },
    NameNotFound,
    NoFundsProvidedForRegistration,
    InvalidContractName { current_contract: Seq<char>, migration_contract: Seq<char> },
    InvalidContractVersion { current_version: Seq<char>, migration_version: Seq<char> },
    InvalidFundsProvided { types: Seq<Seq<char>> },
    InvalidNameFormat { name: Seq<char> },
    InsufficientFundsProvided { amount_provided: u128, amount_required: u128 },
    InvalidFields { fields: Seq<Seq<char>> },
    SemVer { message: Seq<char> },
    QueryError { message: Seq<char> },
}

impl View for ContractError {
    type V = ContractErrorView;

    open spec fn view(&self) -> ContractErrorView {
        match self {
            ContractError::Std { message } => ContractErrorView::Std { message: message@ },
            ContractError::Unauthorized => ContractErrorView::Unauthorized,
            ContractError::NameRegistered { name } => ContractErrorView::NameRegistered {
                name: name@,
            },
            ContractError::NameSerializationFailure { cause } =>
                ContractErrorView::NameSerializationFailure { cause: cause@ },
            ContractError::NameNotFound => ContractErrorView::NameNotFound,
            ContractError::NoFundsProvidedForRegistration =>
                ContractErrorView::NoFundsProvidedForRegistration,
            ContractError::InvalidContractName { current_contract, migration_contract } =>
                ContractErrorView::InvalidContractName {
                    current_contract: current_contract@,
                    migration_contract: migration_contract@,
                },
            ContractError::InvalidContractVersion { current_version, migration_version } =>
                ContractErrorView::InvalidContractVersion {
                    current_version: current_version@,
                    migration_version: migration_version@,
                },
            ContractError::InvalidFundsProvided { types } =>
                ContractErrorView::InvalidFundsProvided {
                    types: types@.map_values(|t: String| t@),
                },
            ContractError::InvalidNameFormat { name } => ContractErrorView::InvalidNameFormat {
                name: name@,
            },
            ContractError::InsufficientFundsProvided { amount_provided, amount_required } =>
                ContractErrorView::InsufficientFundsProvided {
                    amount_provided: *amount_provided,
                    amount_required: *amount_required,
                },
            ContractError::InvalidFields { fields } => ContractErrorView::InvalidFields {
                fields: fields@.map_values(|t: String| t@),
            },
            ContractError::SemVer { message } => ContractErrorView::SemVer { message: message@ },
            ContractError::QueryError { message } => ContractErrorView::QueryError {
                message: message@,
            },
        }
    }
}

impl ContractError {
    /// Wraps this error as a failed result, for fluent early returns.
    pub fn to_result<T>(self) -> (r: Result<T, ContractError>)
        ensures
            r matches Err(e) && e@ == self@,
    {
        Err(self)
    }

    /// A host-style error carrying just a message.
    pub fn std_err<T>(msg: String) -> (r: Result<T, ContractError>)
        ensures
            r matches Err(e) && e@ == (ContractErrorView::Std { message: msg@ }),
    {
        Err(ContractError::Std { message: msg })
    }
}

} // verus!
