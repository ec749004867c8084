//! The per-instance configuration record: the admin account, the bound name,
//! and the optional ask/bid creation fees.

use vstd::prelude::*;

use crate::numeric::{dec_str_of, u128_to_dec_string};

verus! {

/// The type tag recorded in every configuration record.
pub open spec fn contract_type_spec() -> Seq<char> {
    "bilateral_trade"@
}

/// The engine version recorded in every configuration record.
pub open spec fn contract_version_spec() -> Seq<char> {
    "0.1.0"@
}

/// Returns the engine's type tag.
pub fn contract_type() -> (r: String)
    ensures
        r@ == contract_type_spec(),
{
    String::from_str("bilateral_trade")
}

/// Returns the engine's version.
pub fn contract_version() -> (r: String)
    ensures
        r@ == contract_version_spec(),
{
    String::from_str("0.1.0")
}

/// The rendering of an optional fee inside a configuration description.
pub open spec fn config_fee_text(fee: Option<u128>) -> Seq<char> {
    match fee {
        Some(f) => dec_str_of(f as nat),
        None => "none"@,
    }
}

/// The one-line description of a configuration record, as the instantiation
/// event reports it.
pub open spec fn contract_info_text(info: ContractInfoView) -> Seq<char> {
    "admin: "@ + info.admin + ", bind_name: "@ + info.bind_name + ", contract_name: "@
        + info.contract_name + ", contract_type: "@ + info.contract_type
        + ", contract_version: "@ + info.contract_version + ", ask_fee: "@ + config_fee_text(
        info.ask_fee,
    ) + ", bid_fee: "@ + config_fee_text(info.bid_fee)
}

/// The contract-wide configuration, set at instantiation.  A configured fee,
/// when present, is strictly positive: zero is rejected before storage.
#[derive(Clone, Debug)]
pub struct ContractInfo {
    pub admin: String,
    pub bind_name: String,
    pub contract_name: String,
    pub contract_type: String,
    pub contract_version: String,
    pub ask_fee: Option<u128>,
    pub bid_fee: Option<u128>,
}

/// The mathematical value of a [`ContractInfo`].
pub ghost struct ContractInfoView {
    pub admin: Seq<char>,
    pub bind_name: Seq<char>,
    pub contract_name: Seq<char>,
    pub contract_type: Seq<char>,
    pub contract_version: Seq<char>,
    pub ask_fee: Option<u128>,
    pub bid_fee: Option<u128>,
}

impl View for ContractInfo {
    type V = ContractInfoView;

    open spec fn view(&self) -> ContractInfoView {
        ContractInfoView {
            admin: self.admin@,
            bind_name: self.bind_name@,
            contract_name: self.contract_name@,
            contract_type: self.contract_type@,
            contract_version: self.contract_version@,
            ask_fee: self.ask_fee,
            bid_fee: self.bid_fee,
        }
    }
}

impl ContractInfo {
    /// A fresh configuration record carrying the engine's own type and
    /// version tags.
    pub fn new(
        admin: String,
        bind_name: String,
        contract_name: String,
        ask_fee: Option<u128>,
        bid_fee: Option<u128>,
    ) -> (r: ContractInfo)
        ensures
            r@ == (ContractInfoView {
                admin: admin@,
                bind_name: bind_name@,
                contract_name: contract_name@,
                contract_type: contract_type_spec(),
                contract_version: contract_version_spec(),
                ask_fee,
                bid_fee,
            }),
    {
        ContractInfo {
            admin,
            bind_name,
            contract_name,
            contract_type: contract_type(),
            contract_version: contract_version(),
            ask_fee,
            bid_fee,
        }
    }

    /// Renders the record as one line, for event attributes.
    pub fn describe(&self) -> (r: String)
        ensures
            r@ == contract_info_text(self@),
    {
        let mut s = String::from_str("admin: ");
        s.append(self.admin.as_str());
        s.append(", bind_name: ");
        s.append(self.bind_name.as_str());
        s.append(", contract_name: ");
        s.append(self.contract_name.as_str());
        s.append(", contract_type: ");
        s.append(self.contract_type.as_str());
        s.append(", contract_version: ");
        s.append(self.contract_version.as_str());
        s.append(", ask_fee: ");
        match self.ask_fee {
            Some(f) => s.append(u128_to_dec_string(f).as_str()),
            None => s.append("none"),
        }
        s.append(", bid_fee: ");
        match self.bid_fee {
            Some(f) => s.append(u128_to_dec_string(f).as_str()),
            None => s.append("none"),
        }
        proof {
            assert(s@ =~= contract_info_text(self@));
        }
        s
    }

    /// An exact copy of the record.
    pub fn clone_info(&self) -> (r: ContractInfo)
        ensures
            r@ == self@,
    {
        ContractInfo {
            admin: self.admin.clone(),
            bind_name: self.bind_name.clone(),
            contract_name: self.contract_name.clone(),
            contract_type: self.contract_type.clone(),
            contract_version: self.contract_version.clone(),
            ask_fee: self.ask_fee,
            bid_fee: self.bid_fee,
        }
    }
}

} // verus!
