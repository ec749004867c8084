//! Version-gated migration: refuses to overwrite a different contract or to
//! downgrade, optionally replaces the fee configuration, and stamps the new
//! code version.

use vstd::prelude::*;

use crate::instructions::{Attribute, AttributeView, InstructionView, Response, ResponseView};
use crate::nameservice::error::{ContractError, ContractErrorView};
use crate::nameservice::helpers::{fee_amount_from_string, fee_amount_parses, fee_parse_err_msg};
use crate::nameservice::msg::MigrateMsg;
use crate::nameservice::register::res_view_ns;
use crate::nameservice::state::{NameRegistryView, NameRegistry, State, StateView};
use crate::nameservice::version_info::{VersionInfoV1View, contract_name_spec,
    contract_version_spec, current_contract_name, current_contract_version, get_version_info,
    migrate_version_info};
use crate::semver_util::{SemVer, parsed_sem_ver, sem_ver_gt};

verus! {

/// The attributes a migration reports: one for each configuration value that
/// was replaced.
pub open spec fn migrate_attrs(
    new_fee_amount: Option<Seq<char>>,
    new_fee_collection_address: Option<Seq<char>>,
) -> Seq<AttributeView> {
    let amount_attrs = match new_fee_amount {
        Some(a) => seq![AttributeView { key: "fee_amount_updated"@, value: a }],
        None => Seq::<AttributeView>::empty(),
    };
    match new_fee_collection_address {
        Some(addr) => amount_attrs.push(
            AttributeView { key: "fee_collection_address_updated"@, value: addr },
        ),
        None => amount_attrs,
    }
}

/// The configuration after a migration: each given value replaces the stored
/// one.
pub open spec fn migrated_config(
    config: StateView,
    new_fee_amount: Option<Seq<char>>,
    new_fee_collection_address: Option<Seq<char>>,
) -> StateView {
    StateView {
        name: config.name,
        fee_amount: match new_fee_amount {
            Some(a) => a,
            None => config.fee_amount,
        },
        fee_collection_address: match new_fee_collection_address {
            Some(a) => a,
            None => config.fee_collection_address,
        },
    }
}

/// What migration does, for every input: it requires a stored version record
/// naming this contract, parseable versions, and no downgrade; it applies the
/// requested fee changes (a fee amount must be numeric, a collection address
/// non-empty) and stamps the running code's version.  On any error nothing
/// changes.
pub open spec fn migrate_contract_post(
    pre: NameRegistryView,
    post: NameRegistryView,
    new_fee_amount: Option<Seq<char>>,
    new_fee_collection_address: Option<Seq<char>>,
    res: Result<ResponseView, ContractErrorView>,
) -> bool {
    if pre.version_info is None {
        res == Err::<ResponseView, ContractErrorView>(ContractErrorView::Std {
            message: "version info not found"@,
        }) && post == pre
    } else if pre.version_info.unwrap().contract != contract_name_spec() {
        res == Err::<ResponseView, ContractErrorView>(ContractErrorView::InvalidContractName {
            current_contract: pre.version_info.unwrap().contract,
            migration_contract: contract_name_spec(),
        }) && post == pre
    } else if parsed_sem_ver(contract_version_spec()) is None || parsed_sem_ver(
        pre.version_info.unwrap().version,
    ) is None {
        (res matches Err(e) && e matches ContractErrorView::SemVer { .. }) && post == pre
    } else if {
        let (sma, smi, spa) = parsed_sem_ver(pre.version_info.unwrap().version).unwrap();
        let (cma, cmi, cpa) = parsed_sem_ver(contract_version_spec()).unwrap();
        sem_ver_gt(
            SemVer { major: sma, minor: smi, patch: spa },
            SemVer { major: cma, minor: cmi, patch: cpa },
        )
    } {
        res == Err::<ResponseView, ContractErrorView>(ContractErrorView::InvalidContractVersion {
            current_version: pre.version_info.unwrap().version,
            migration_version: contract_version_spec(),
        }) && post == pre
    } else if (new_fee_amount is Some || new_fee_collection_address is Some) && pre.config
        is None {
        res == Err::<ResponseView, ContractErrorView>(ContractErrorView::Std {
            message: "contract state not found"@,
        }) && post == pre
    } else if new_fee_amount is Some && !fee_amount_parses(new_fee_amount.unwrap()) {
        res == Err::<ResponseView, ContractErrorView>(ContractErrorView::Std {
            message: fee_parse_err_msg(new_fee_amount.unwrap()),
        }) && post == pre
    } else if new_fee_collection_address is Some && new_fee_collection_address.unwrap().len()
        == 0 {
        res == Err::<ResponseView, ContractErrorView>(ContractErrorView::Std {
            message: "invalid fee collection address"@,
        }) && post == pre
    } else {
        &&& post.metas == pre.metas
        &&& post.config == if new_fee_amount is Some || new_fee_collection_address is Some {
            Some(
                migrated_config(
                    pre.config.unwrap(),
                    new_fee_amount,
                    new_fee_collection_address,
                ),
            )
        } else {
            pre.config
        }
        &&& post.version_info == Some(VersionInfoV1View {
            contract: contract_name_spec(),
            version: contract_version_spec(),
        })
        &&& res matches Ok(resp) && resp == (ResponseView {
            messages: Seq::<InstructionView>::empty(),
            attributes: migrate_attrs(new_fee_amount, new_fee_collection_address),
        })
    }
}

/// The view of an optional owned string.
pub open spec fn opt_str_view(o: Option<String>) -> Option<Seq<char>> {
    match o {
        Some(s) => Some(s@),
        None => None,
    }
}

/// Migrates the contract: verifies the stored version record names this
/// contract and is not newer than the running code, applies any requested fee
/// changes, and stamps the running code's version.
pub fn migrate_contract(reg: &mut NameRegistry, msg: MigrateMsg) -> (r: Result<
    Response,
    ContractError,
>)
    ensures
        migrate_contract_post(
            old(reg)@,
            final(reg)@,
            opt_str_view(msg.new_fee_amount),
            opt_str_view(msg.new_fee_collection_address),
            res_view_ns(r),
        ),
{
    let stored_version_info = match get_version_info(reg) {
        Ok(v) => v,
        Err(e) => {
            return Err(e);
        },
    };
    let current_name = current_contract_name();
    if !String::eq(&current_name, &stored_version_info.contract) {
        return ContractError::InvalidContractName {
            current_contract: stored_version_info.contract,
            migration_contract: current_name,
        }.to_result();
    }
    let current_version_text = current_contract_version();
    let contract_version = match SemVer::parse(current_version_text.as_str()) {
        Some(v) => v,
        None => {
            return Err(ContractError::SemVer {
                message: String::from_str("invalid semantic version"),
            });
        },
    };
    let stored_version = match stored_version_info.parse_sem_ver() {
        Ok(v) => v,
        Err(e) => {
            return Err(e);
        },
    };
    if stored_version.newer_than(&contract_version) {
        return ContractError::InvalidContractVersion {
            current_version: stored_version_info.version,
            migration_version: current_version_text,
        }.to_result();
    }
    let mut attributes: Vec<Attribute> = Vec::new();
    if msg.new_fee_amount.is_some() || msg.new_fee_collection_address.is_some() {
        let config = match &reg.config {
            Some(c) => c.clone_state(),
            None => {
                return ContractError::std_err(String::from_str("contract state not found"));
            },
        };
        let fee_amount = match msg.new_fee_amount {
            Some(amount) => {
                match fee_amount_from_string(amount.as_str()) {
                    Ok(_) => {},
                    Err(e) => {
                        return Err(e);
                    },
                }
                attributes.push(Attribute {
                    key: String::from_str("fee_amount_updated"),
                    value: amount.clone(),
                });
                amount
            },
            None => config.fee_amount,
        };
        let fee_collection_address = match msg.new_fee_collection_address {
            Some(addr) => {
                if addr.as_str().is_empty() {
                    return ContractError::std_err(
                        String::from_str("invalid fee collection address"),
                    );
                }
                attributes.push(Attribute {
                    key: String::from_str("fee_collection_address_updated"),
                    value: addr.clone(),
                });
                addr
            },
            None => config.fee_collection_address,
        };
        reg.config = Some(State { name: config.name, fee_amount, fee_collection_address });
    }
    match migrate_version_info(reg) {
        Ok(_) => {},
        Err(e) => {
            return Err(e);
        },
    }
    let response = Response { messages: Vec::new(), attributes };
    proof {
        assert(response@.messages =~= Seq::<InstructionView>::empty());
        assert(response@.attributes =~= migrate_attrs(
            opt_str_view(msg.new_fee_amount),
            opt_str_view(msg.new_fee_collection_address),
        ));
    }
    Ok(response)
}

} // verus!
