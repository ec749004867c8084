//! Instantiation of the name service: stores the configuration, asks the host
//! to bind the contract's root name, and records the code version.

use vstd::prelude::*;

use crate::contract::{Env, MessageInfo};
use crate::instructions::{AttributeView, Instruction, InstructionView, Response, ResponseView,
    attr};
use crate::nameservice::error::{ContractError, ContractErrorView};
use crate::nameservice::helpers::{fee_amount_from_string, fee_amount_parses, fee_parse_err_msg};
use crate::nameservice::msg::InitMsg;
use crate::nameservice::register::res_view_ns;
use crate::nameservice::state::{NameRegistry, NameRegistryView, State, StateView};
use crate::nameservice::version_info::{VersionInfoV1View, contract_name_spec,
    contract_version_spec, migrate_version_info};

verus! {

/// What instantiation does: rejects attached funds and a non-numeric fee
/// amount; otherwise stores the configuration, records the code version, and
/// asks the host to bind the root name to the contract.
pub open spec fn instantiate_post(
    pre: NameRegistryView,
    post: NameRegistryView,
    contract_address: Seq<char>,
    funds_attached: bool,
    name: Seq<char>,
    fee_amount: Seq<char>,
    fee_collection_address: Seq<char>,
    res: Result<ResponseView, ContractErrorView>,
) -> bool {
    if funds_attached {
        res == Err::<ResponseView, ContractErrorView>(ContractErrorView::Std {
            message: "purchase funds are not allowed to be sent during init"@,
        }) && post == pre
    } else if !fee_amount_parses(fee_amount) {
        res == Err::<ResponseView, ContractErrorView>(ContractErrorView::Std {
            message: fee_parse_err_msg(fee_amount),
        }) && post == pre
    } else {
        &&& post.metas == pre.metas
        &&& post.config == Some(StateView { name, fee_amount, fee_collection_address })
        &&& post.version_info == Some(VersionInfoV1View {
            contract: contract_name_spec(),
            version: contract_version_spec(),
        })
        &&& res matches Ok(resp) && resp == (ResponseView {
            messages: seq![
                InstructionView::BindName { name, address: contract_address, restricted: true },
            ],
            attributes: seq![AttributeView { key: "action"@, value: "init"@ }],
        })
    }
}

/// Sets up the name service: stores the configuration, records the running
/// code's version, and asks the host to bind the root name (restricted, so
/// only this contract can attach names under it).
pub fn instantiate_contract(
    reg: &mut NameRegistry,
    env: &Env,
    info: &MessageInfo,
    msg: InitMsg,
) -> (r: Result<Response, ContractError>)
    ensures
        instantiate_post(
            old(reg)@,
            final(reg)@,
            env.contract_address@,
            info.funds@.len() > 0,
            msg.name@,
            msg.fee_amount@,
            msg.fee_collection_address@,
            res_view_ns(r),
        ),
{
    if info.funds.len() > 0 {
        return ContractError::std_err(
            String::from_str("purchase funds are not allowed to be sent during init"),
        );
    }
    match fee_amount_from_string(msg.fee_amount.as_str()) {
        Ok(_) => {},
        Err(e) => {
            return Err(e);
        },
    }
    let bind_name_msg = Instruction::BindName {
        name: msg.name.clone(),
        address: env.contract_address.clone(),
        restricted: true,
    };
    reg.config = Some(State {
        name: msg.name,
        fee_amount: msg.fee_amount,
        fee_collection_address: msg.fee_collection_address,
    });
    match migrate_version_info(reg) {
        Ok(_) => {},
        Err(e) => {
            return Err(e);
        },
    }
    let response = Response {
        messages: vec![bind_name_msg],
        attributes: vec![attr("action", "init")],
    };
    proof {
        assert(response@.messages =~= seq![
            InstructionView::BindName {
                name: msg.name@,
                address: env.contract_address@,
                restricted: true,
            },
        ]);
        assert(response@.attributes =~= seq![
            AttributeView { key: "action"@, value: "init"@ },
        ]);
    }
    Ok(response)
}

} // verus!
