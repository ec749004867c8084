//! The counter contract's operations, each specified as an exact relation
//! between the storage before the call, the storage after it, and the
//! returned instructions or error.

use vstd::prelude::*;

use crate::coin::{Coin, CoinView, coins_view, clone_coins, clone_coin};
use crate::contract::{Env, MessageInfo};
use crate::counter::error::{ContractError, ContractErrorView};
use crate::counter::msg::{ExecuteMsg, InitMsg, MigrateMsg, QueryMsg};
use crate::counter::state::{ContractStorage, ContractStorageView, State, StateView, load_state,
    get_version_info, migrate_version_info};
use crate::counter::types::{FeeCollectionDetail, FeeCollectionDetailView, fee_amount_msg,
    fee_detail_valid};
use crate::counter::version_info::{VersionInfo, VersionInfoView, counter_contract_name_spec,
    counter_contract_version_spec};
use crate::instructions::{Attribute, AttributeView, Instruction, InstructionView, Response,
    ResponseView, attr};
use crate::numeric::{dec_str_of, u128_to_dec_string};
use crate::semver_util::{SemVer, parsed_sem_ver, sem_ver_gt};

verus! {

/// The view of an operation's result.
pub open spec fn res_view_counter(r: Result<Response, ContractError>) -> Result<
    ResponseView,
    ContractErrorView,
> {
    match r {
        Ok(resp) => Ok(resp@),
        Err(e) => Err(e@),
    }
}

/// A sub-name of the contract's base name: the prefix, a dot, the base name.
pub open spec fn attribute_name_spec(prefix: Seq<char>, base_name: Seq<char>) -> Seq<char> {
    prefix + "."@ + base_name
}

/// Formats a sub-name of the base contract name, so that every route that
/// works with attributes produces the same name for the same input.
pub fn format_attribute_name(prefix: &str, base_name: &str) -> (r: String)
    ensures
        r@ == attribute_name_spec(prefix@, base_name@),
{
    let mut s = prefix.to_owned();
    s.append(".");
    s.append(base_name);
    s
}

/// The message of the error raised when funds arrive at a route that takes
/// none.
pub open spec fn funds_err_msg(explanation: Seq<char>) -> Seq<char> {
    explanation + ". found funds"@
}

/// Rejects a call that attached funds, naming the route's reason.
pub fn check_funds_are_empty(funds: &Vec<Coin>, explanation: &str) -> (r: Result<
    (),
    ContractError,
>)
    ensures
        r is Ok <==> funds@.len() == 0,
        r matches Err(e) ==> e@ == (ContractErrorView::InvalidFunds {
            explanation: funds_err_msg(explanation@),
        }),
{
    if funds.len() > 0 {
        let mut text = explanation.to_owned();
        text.append(". found funds");
        Err(ContractError::InvalidFunds { explanation: text })
    } else {
        Ok(())
    }
}

/// What instantiation does: rejects attached funds and an ill-formed fee
/// detail; otherwise stores the state, records the code version, and asks the
/// host to bind the base name.
pub open spec fn counter_instantiate_post(
    pre: ContractStorageView,
    post: ContractStorageView,
    contract_address: Seq<char>,
    funds: Seq<CoinView>,
    base_name: Seq<char>,
    starting_counter: Option<u128>,
    fee: Option<FeeCollectionDetailView>,
    res: Result<ResponseView, ContractErrorView>,
) -> bool {
    if funds.len() > 0 {
        res == Err::<ResponseView, ContractErrorView>(ContractErrorView::InvalidFunds {
            explanation: funds_err_msg(
                "funds should not be provided when instantiating the contract"@,
            ),
        }) && post == pre
    } else if fee is Some && !fee_detail_valid(fee.unwrap()) {
        (res matches Err(e) && e matches ContractErrorView::GenericError { .. }) && post == pre
    } else {
        &&& post.state == Some(StateView {
            contract_base_name: base_name,
            contract_counter: match starting_counter {
                Some(c) => c,
                None => 0,
            },
            increment_counter_fee: fee,
        })
        &&& post.version_info == Some(VersionInfoView {
            contract: counter_contract_name_spec(),
            version: counter_contract_version_spec(),
        })
        &&& res matches Ok(resp) && resp == (ResponseView {
            messages: seq![
                InstructionView::BindName {
                    name: base_name,
                    address: contract_address,
                    restricted: true,
                },
            ],
            attributes: seq![
                AttributeView { key: "action"@, value: "instantiate"@ },
                AttributeView { key: "contract_base_name"@, value: base_name },
            ],
        })
    }
}

/// The view of an optional fee detail.
pub open spec fn opt_fee_view(o: Option<FeeCollectionDetail>) -> Option<FeeCollectionDetailView> {
    match o {
        Some(f) => Some(f@),
        None => None,
    }
}

/// Sets up the counter contract: stores the state with the given starting
/// counter and fee, records the code version, and asks the host to bind the
/// base name.
pub fn instantiate(
    storage: &mut ContractStorage,
    env: &Env,
    info: &MessageInfo,
    msg: InitMsg,
) -> (r: Result<Response, ContractError>)
    ensures
        counter_instantiate_post(
            old(storage)@,
            final(storage)@,
            env.contract_address@,
            coins_view(info.funds@),
            msg.contract_base_name@,
            msg.starting_counter,
            opt_fee_view(msg.increment_counter_fee),
            res_view_counter(r),
        ),
{
    proof {
        assert(coins_view(info.funds@).len() == info.funds@.len());
    }
    match check_funds_are_empty(
        &info.funds,
        "funds should not be provided when instantiating the contract",
    ) {
        Ok(_) => {},
        Err(e) => {
            return Err(e);
        },
    }
    if let Some(fee_detail) = &msg.increment_counter_fee {
        match fee_detail.self_validate() {
            Ok(_) => {},
            Err(e) => {
                return Err(e);
            },
        }
    }
    let ghost base_name_view = msg.contract_base_name@;
    let starting_counter = match msg.starting_counter {
        Some(c) => c,
        None => 0,
    };
    let bind_name_msg = Instruction::BindName {
        name: msg.contract_base_name.clone(),
        address: env.contract_address.clone(),
        restricted: true,
    };
    let base_name_attr = Attribute {
        key: String::from_str("contract_base_name"),
        value: msg.contract_base_name.clone(),
    };
    storage.state = Some(State {
        contract_base_name: msg.contract_base_name,
        contract_counter: starting_counter,
        increment_counter_fee: msg.increment_counter_fee,
    });
    match migrate_version_info(storage) {
        Ok(_) => {},
        Err(e) => {
            return Err(e);
        },
    }
    let response = Response {
        messages: vec![bind_name_msg],
        attributes: vec![attr("action", "instantiate"), base_name_attr],
    };
    proof {
        assert(response@.messages =~= seq![
            InstructionView::BindName {
                name: base_name_view,
                address: env.contract_address@,
                restricted: true,
            },
        ]);
        assert(response@.attributes =~= seq![
            AttributeView { key: "action"@, value: "instantiate"@ },
            AttributeView { key: "contract_base_name"@, value: base_name_view },
        ]);
    }
    Ok(response)
}

/// The message of the error raised when the increment fee is not paid
/// exactly.
pub open spec fn increment_fee_err_msg(fee: CoinView) -> Seq<char> {
    "the charge to increment the counter is ["@ + fee_amount_msg(fee) + "]"@
}

/// The increment applied when none is named.
pub open spec fn increment_of(amount: Option<u128>) -> u128 {
    match amount {
        Some(a) => a,
        None => 1u128,
    }
}

/// What incrementing does: when a fee is configured, exactly that one coin
/// must be attached (it goes to the collector); when none is, no funds may be
/// attached.  The counter then grows by the given amount, one by default.
pub open spec fn increment_counter_post(
    pre: ContractStorageView,
    post: ContractStorageView,
    funds: Seq<CoinView>,
    increment_amount: Option<u128>,
    res: Result<ResponseView, ContractErrorView>,
) -> bool {
    if pre.state is None {
        res == Err::<ResponseView, ContractErrorView>(ContractErrorView::Std {
            message: "contract state not found"@,
        }) && post == pre
    } else {
        let state = pre.state.unwrap();
        let fee_ok = match state.increment_counter_fee {
            Some(fee) => funds.len() == 1 && funds[0] == fee.fee_collection_amount,
            None => funds.len() == 0,
        };
        if !fee_ok {
            (match state.increment_counter_fee {
                Some(fee) => res == Err::<ResponseView, ContractErrorView>(
                    ContractErrorView::InvalidFunds {
                        explanation: increment_fee_err_msg(fee.fee_collection_amount),
                    },
                ),
                None => res == Err::<ResponseView, ContractErrorView>(
                    ContractErrorView::InvalidFunds {
                        explanation: funds_err_msg(
                            "funds should not be provided when incrementing the counter"@,
                        ),
                    },
                ),
            }) && post == pre
        } else {
            let new_counter = (state.contract_counter + increment_of(increment_amount)) as u128;
            &&& post.version_info == pre.version_info
            &&& post.state == Some(StateView {
                contract_base_name: state.contract_base_name,
                contract_counter: new_counter,
                increment_counter_fee: state.increment_counter_fee,
            })
            &&& res matches Ok(resp) && resp == (ResponseView {
                messages: match state.increment_counter_fee {
                    Some(fee) => seq![
                        InstructionView::TransferFunds {
                            to_address: fee.fee_collector_address,
                            amount: seq![fee.fee_collection_amount],
                        },
                    ],
                    None => Seq::<InstructionView>::empty(),
                },
                attributes: seq![
                    AttributeView { key: "action"@, value: "execute_increment_counter"@ },
                    AttributeView {
                        key: "new_counter_value"@,
                        value: dec_str_of(new_counter as nat),
                    },
                ],
            })
        }
    }
}

/// Adds to the counter, charging the configured fee: the caller must attach
/// exactly the fee coin (or nothing when no fee is set).
pub fn increment_counter(
    storage: &mut ContractStorage,
    info: &MessageInfo,
    increment_amount: Option<u128>,
) -> (r: Result<Response, ContractError>)
    requires
        (match old(storage)@.state {
            Some(s) => s.contract_counter + increment_of(increment_amount) <= u128::MAX,
            None => true,
        }),
    ensures
        increment_counter_post(
            old(storage)@,
            final(storage)@,
            coins_view(info.funds@),
            increment_amount,
            res_view_counter(r),
        ),
{
    let contract_state = match load_state(storage) {
        Ok(s) => s,
        Err(e) => {
            return Err(e);
        },
    };
    let mut messages: Vec<Instruction> = Vec::new();
    if let Some(fee_detail) = &contract_state.increment_counter_fee {
        let funds_match = info.funds.len() == 1 && String::eq(
            &info.funds[0].denom,
            &fee_detail.fee_collection_amount.denom,
        ) && info.funds[0].amount == fee_detail.fee_collection_amount.amount;
        proof {
            if info.funds@.len() == 1 {
                assert(coins_view(info.funds@)[0] == info.funds@[0]@);
            }
        }
        if !funds_match {
            let mut explanation = String::from_str("the charge to increment the counter is [");
            explanation.append(fee_detail.get_fee_amount_msg().as_str());
            explanation.append("]");
            return Err(ContractError::InvalidFunds { explanation });
        }
        messages.push(Instruction::TransferFunds {
            to_address: fee_detail.fee_collector_address.clone(),
            amount: vec![clone_coin(&fee_detail.fee_collection_amount)],
        });
    } else {
        proof {
            assert(coins_view(info.funds@).len() == info.funds@.len());
        }
        match check_funds_are_empty(
            &info.funds,
            "funds should not be provided when incrementing the counter",
        ) {
            Ok(_) => {},
            Err(e) => {
                return Err(e);
            },
        }
    }
    let amount_to_increment = match increment_amount {
        Some(a) => a,
        None => 1,
    };
    let new_counter = contract_state.contract_counter + amount_to_increment;
    storage.state = Some(State {
        contract_base_name: contract_state.contract_base_name,
        contract_counter: new_counter,
        increment_counter_fee: contract_state.increment_counter_fee,
    });
    let mut counter_text = u128_to_dec_string(new_counter);
    let response = Response {
        messages,
        attributes: vec![
            attr("action", "execute_increment_counter"),
            Attribute { key: String::from_str("new_counter_value"), value: counter_text },
        ],
    };
    proof {
        let state = old(storage)@.state.unwrap();
        match state.increment_counter_fee {
            Some(fee) => {
                assert(response@.messages =~= seq![
                    InstructionView::TransferFunds {
                        to_address: fee.fee_collector_address,
                        amount: seq![fee.fee_collection_amount],
                    },
                ]) by {
                    assert(coins_view(response.messages@[0]->TransferFunds_amount@)
                        =~= seq![fee.fee_collection_amount]);
                }
            },
            None => {
                assert(response@.messages =~= Seq::<InstructionView>::empty());
            },
        }
        assert(response@.attributes =~= seq![
            AttributeView { key: "action"@, value: "execute_increment_counter"@ },
            AttributeView {
                key: "new_counter_value"@,
                value: dec_str_of(new_counter as nat),
            },
        ]);
    }
    Ok(response)
}

/// What adding an attribute does: no funds may be attached, the sub-name must
/// not already resolve, and the host is asked to bind the sub-name and attach
/// the text under it; the stored state never changes.
pub open spec fn add_attribute_post(
    pre: ContractStorageView,
    post: ContractStorageView,
    contract_address: Seq<char>,
    funds: Seq<CoinView>,
    attribute_prefix: Seq<char>,
    attribute_text: Seq<char>,
    existing_name_owner: Option<Seq<char>>,
    res: Result<ResponseView, ContractErrorView>,
) -> bool {
    post == pre && if funds.len() > 0 {
        res == Err::<ResponseView, ContractErrorView>(ContractErrorView::InvalidFunds {
            explanation: funds_err_msg("funds should not be provided when adding an attribute"@),
        })
    } else if pre.state is None {
        res == Err::<ResponseView, ContractErrorView>(ContractErrorView::Std {
            message: "contract state not found"@,
        })
    } else {
        let name = attribute_name_spec(
            attribute_prefix,
            pre.state.unwrap().contract_base_name,
        );
        match existing_name_owner {
            Some(owner) => res == Err::<ResponseView, ContractErrorView>(
                ContractErrorView::NameAlreadyExists { name, owner_address: owner },
            ),
            None => res matches Ok(resp) && resp == (ResponseView {
                messages: seq![
                    InstructionView::BindName {
                        name,
                        address: contract_address,
                        restricted: true,
                    },
                    InstructionView::AddAttribute {
                        address: contract_address,
                        attribute_name: name,
                        value: attribute_text,
                    },
                ],
                attributes: seq![
                    AttributeView { key: "action"@, value: "execute_add_attribute"@ },
                    AttributeView { key: "new_attribute_name"@, value: name },
                ],
            }),
        }
    }
}

/// Binds a sub-name of the base name and attaches the given text under it.
/// `existing_name_owner` is the address the host currently resolves the
/// formatted sub-name to, `None` when it is unbound; the caller resolves it
/// with [`format_attribute_name`] before invoking.
pub fn add_attribute_to_contract(
    storage: &mut ContractStorage,
    info: &MessageInfo,
    env: &Env,
    attribute_prefix: String,
    attribute_text: String,
    existing_name_owner: Option<String>,
) -> (r: Result<Response, ContractError>)
    ensures
        add_attribute_post(
            old(storage)@,
            final(storage)@,
            env.contract_address@,
            coins_view(info.funds@),
            attribute_prefix@,
            attribute_text@,
            crate::contract::opt_string_view(existing_name_owner),
            res_view_counter(r),
        ),
{
    proof {
        assert(coins_view(info.funds@).len() == info.funds@.len());
    }
    match check_funds_are_empty(
        &info.funds,
        "funds should not be provided when adding an attribute",
    ) {
        Ok(_) => {},
        Err(e) => {
            return Err(e);
        },
    }
    let contract_state = match load_state(storage) {
        Ok(s) => s,
        Err(e) => {
            return Err(e);
        },
    };
    let new_attribute_name = format_attribute_name(
        attribute_prefix.as_str(),
        contract_state.contract_base_name.as_str(),
    );
    if let Some(owner_address) = existing_name_owner {
        return Err(ContractError::NameAlreadyExists {
            name: new_attribute_name,
            owner_address,
        });
    }
    let bind_name_msg = Instruction::BindName {
        name: new_attribute_name.clone(),
        address: env.contract_address.clone(),
        restricted: true,
    };
    let add_attribute_msg = Instruction::AddAttribute {
        address: env.contract_address.clone(),
        attribute_name: new_attribute_name.clone(),
        value: attribute_text,
    };
    let response = Response {
        messages: vec![bind_name_msg, add_attribute_msg],
        attributes: vec![
            attr("action", "execute_add_attribute"),
            Attribute {
                key: String::from_str("new_attribute_name"),
                value: new_attribute_name,
            },
        ],
    };
    proof {
        let name = attribute_name_spec(
            attribute_prefix@,
            old(storage)@.state.unwrap().contract_base_name,
        );
        assert(response@.messages =~= seq![
            InstructionView::BindName {
                name,
                address: env.contract_address@,
                restricted: true,
            },
            InstructionView::AddAttribute {
                address: env.contract_address@,
                attribute_name: name,
                value: attribute_text@,
            },
        ]);
        assert(response@.attributes =~= seq![
            AttributeView { key: "action"@, value: "execute_add_attribute"@ },
            AttributeView { key: "new_attribute_name"@, value: name },
        ]);
    }
    Ok(response)
}

/// Whether any attached coin is of a positive amount.
pub open spec fn has_positive_coin(funds: Seq<CoinView>) -> bool {
    exists|i: int| 0 <= i < funds.len() && #[trigger] funds[i].amount > 0
}

/// What forwarding funds does: some positive coin must be attached and the
/// recipient named; everything attached is forwarded, and nothing stored
/// changes.
pub open spec fn send_funds_post(
    pre: ContractStorageView,
    post: ContractStorageView,
    funds: Seq<CoinView>,
    recipient_address: Seq<char>,
    res: Result<ResponseView, ContractErrorView>,
) -> bool {
    post == pre && if !has_positive_coin(funds) {
        res == Err::<ResponseView, ContractErrorView>(ContractErrorView::InvalidFunds {
            explanation:
                "sender provided no non-zero coins, but the send_funds route requires some funds to be sent"@,
        })
    } else if recipient_address.len() == 0 {
        res == Err::<ResponseView, ContractErrorView>(ContractErrorView::Std {
            message: "invalid recipient address"@,
        })
    } else {
        res matches Ok(resp) && resp == (ResponseView {
            messages: seq![
                InstructionView::TransferFunds { to_address: recipient_address, amount: funds },
            ],
            attributes: seq![
                AttributeView { key: "action"@, value: "execute_send_funds"@ },
                AttributeView { key: "recipient_address"@, value: recipient_address },
            ],
        })
    }
}

/// Forwards everything the caller attached to the named recipient.  (Whether
/// the recipient address exists on the chain is the host's check; the engine
/// only refuses an empty one.)
pub fn send_funds(
    storage: &mut ContractStorage,
    info: &MessageInfo,
    recipient_address: String,
) -> (r: Result<Response, ContractError>)
    ensures
        send_funds_post(
            old(storage)@,
            final(storage)@,
            coins_view(info.funds@),
            recipient_address@,
            res_view_counter(r),
        ),
{
    let mut found_positive = false;
    let mut i: usize = 0;
    while i < info.funds.len()
        invariant
            i <= info.funds@.len(),
            found_positive == exists|j: int|
                0 <= j < i && #[trigger] coins_view(info.funds@)[j].amount > 0,
        decreases info.funds@.len() - i,
    {
        if info.funds[i].amount > 0 {
            proof {
                assert(coins_view(info.funds@)[i as int].amount > 0);
            }
            found_positive = true;
        }
        i = i + 1;
    }
    if !found_positive {
        return Err(ContractError::InvalidFunds {
            explanation: String::from_str(
                "sender provided no non-zero coins, but the send_funds route requires some funds to be sent",
            ),
        });
    }
    if recipient_address.as_str().is_empty() {
        return Err(ContractError::Std { message: String::from_str("invalid recipient address") });
    }
    let response = Response {
        messages: vec![
            Instruction::TransferFunds {
                to_address: recipient_address.clone(),
                amount: clone_coins(&info.funds),
            },
        ],
        attributes: vec![
            attr("action", "execute_send_funds"),
            Attribute {
                key: String::from_str("recipient_address"),
                value: recipient_address,
            },
        ],
    };
    proof {
        assert(response@.messages =~= seq![
            InstructionView::TransferFunds {
                to_address: response.attributes@[1].value@,
                amount: coins_view(info.funds@),
            },
        ]);
        assert(response@.attributes =~= seq![
            AttributeView { key: "action"@, value: "execute_send_funds"@ },
            AttributeView {
                key: "recipient_address"@,
                value: response.attributes@[1].value@,
            },
        ]);
    }
    Ok(response)
}

/// Routes an execute request to the operation it names.  For `AddAttribute`,
/// `existing_name_owner` is the host's resolution of the formatted sub-name,
/// ignored by the other requests.
pub fn execute(
    storage: &mut ContractStorage,
    env: &Env,
    info: &MessageInfo,
    msg: ExecuteMsg,
    existing_name_owner: Option<String>,
) -> (r: Result<Response, ContractError>)
    requires
        (match msg {
            ExecuteMsg::IncrementCounter { increment_amount } => match old(storage)@.state {
                Some(s) => s.contract_counter + increment_of(increment_amount) <= u128::MAX,
                None => true,
            },
            _ => true,
        }),
    ensures
        match msg {
            ExecuteMsg::IncrementCounter { increment_amount } => increment_counter_post(
                old(storage)@,
                final(storage)@,
                coins_view(info.funds@),
                increment_amount,
                res_view_counter(r),
            ),
            ExecuteMsg::AddAttribute { attribute_prefix, attribute_text } => add_attribute_post(
                old(storage)@,
                final(storage)@,
                env.contract_address@,
                coins_view(info.funds@),
                attribute_prefix@,
                attribute_text@,
                crate::contract::opt_string_view(existing_name_owner),
                res_view_counter(r),
            ),
            ExecuteMsg::SendFunds { recipient_address } => send_funds_post(
                old(storage)@,
                final(storage)@,
                coins_view(info.funds@),
                recipient_address@,
                res_view_counter(r),
            ),
        },
{
    match msg {
        ExecuteMsg::IncrementCounter { increment_amount } => increment_counter(
            storage,
            info,
            increment_amount,
        ),
        ExecuteMsg::AddAttribute { attribute_prefix, attribute_text } => add_attribute_to_contract(
            storage,
            info,
            env,
            attribute_prefix,
            attribute_text,
            existing_name_owner,
        ),
        ExecuteMsg::SendFunds { recipient_address } => send_funds(
            storage,
            info,
            recipient_address,
        ),
    }
}

/// The answer to a read-only query: either the value itself, or — for an
/// attribute lookup — the attribute name the host should fetch.
#[derive(Clone, Debug)]
pub enum QueryAnswer {
    /// Fetch this attribute from the host's attribute module and answer with
    /// its single value.
    AttributeLookup { attribute_name: String },
    /// The stored contract state.
    CurrentState(State),
    /// The stored code-version record.
    Version(VersionInfo),
}

/// Answers a read-only query.  An attribute lookup is answered with the name
/// to fetch; the host reads the attribute and [`pick_single_attribute`]
/// checks what came back.
pub fn query(storage: &ContractStorage, msg: QueryMsg) -> (r: Result<QueryAnswer, ContractError>)
    ensures
        match msg {
            QueryMsg::QueryAttribute { attribute_prefix } => match r {
                Ok(q) => storage@.state matches Some(s) && q matches
                    QueryAnswer::AttributeLookup { attribute_name } && attribute_name@
                    == attribute_name_spec(attribute_prefix@, s.contract_base_name),
                Err(e) => storage@.state is None && e@ == (ContractErrorView::Std {
                    message: "contract state not found"@,
                }),
            },
            QueryMsg::QueryState {  } => match r {
                Ok(q) => q matches QueryAnswer::CurrentState(s) && storage@.state == Some(s@),
                Err(e) => storage@.state is None && e@ == (ContractErrorView::Std {
                    message: "contract state not found"@,
                }),
            },
            QueryMsg::QueryVersion {  } => match r {
                Ok(q) => q matches QueryAnswer::Version(v) && storage@.version_info == Some(v@),
                Err(e) => storage@.version_info is None && e@ == (ContractErrorView::Std {
                    message: "version info not found"@,
                }),
            },
        },
{
    match msg {
        QueryMsg::QueryAttribute { attribute_prefix } => {
            let contract_state = match load_state(storage) {
                Ok(s) => s,
                Err(e) => {
                    return Err(e);
                },
            };
            Ok(QueryAnswer::AttributeLookup {
                attribute_name: format_attribute_name(
                    attribute_prefix.as_str(),
                    contract_state.contract_base_name.as_str(),
                ),
            })
        },
        QueryMsg::QueryState {  } => match load_state(storage) {
            Ok(s) => Ok(QueryAnswer::CurrentState(s)),
            Err(e) => Err(e),
        },
        QueryMsg::QueryVersion {  } => match get_version_info(storage) {
            Ok(v) => Ok(QueryAnswer::Version(v)),
            Err(e) => Err(e),
        },
    }
}

/// Checks that an attribute lookup found exactly one value and hands that
/// value back, whatever the host returned.
pub fn pick_single_attribute(values: Vec<String>) -> (r: Result<String, ContractError>)
    ensures
        match r {
            Ok(v) => values@.len() == 1 && v@ == values@[0]@,
            Err(e) => values@.len() != 1 && e@ matches ContractErrorView::GenericError { .. },
        },
{
    if values.len() != 1 {
        return Err(ContractError::generic_err(
            String::from_str("expected only one attribute to exist at the specified name"),
        ));
    }
    Ok(values[0].clone())
}

/// The message of the error refusing a migration that is not an upgrade.
pub open spec fn stale_version_err_msg(stored: Seq<char>, current: Seq<char>) -> Seq<char> {
    "stored contract version ["@ + stored
        + "] is greater than or equal to the attempted migration version ["@ + current
        + "]. no migration necessary"@
}

/// What migration does: when a version record exists, both versions must
/// parse and the stored one must be strictly older than the running code's;
/// an ill-formed replacement fee is refused; the requested state changes are
/// applied and the new version stamped.  On any error nothing changes.
pub open spec fn counter_migrate_post(
    pre: ContractStorageView,
    post: ContractStorageView,
    new_counter_value: Option<u128>,
    fee: Option<FeeCollectionDetailView>,
    res: Result<ResponseView, ContractErrorView>,
) -> bool {
    let version_blocked = pre.version_info is Some && {
        ||| parsed_sem_ver(pre.version_info.unwrap().version) is None
        ||| parsed_sem_ver(counter_contract_version_spec()) is None
        ||| {
            let (sma, smi, spa) = parsed_sem_ver(pre.version_info.unwrap().version).unwrap();
            let (cma, cmi, cpa) = parsed_sem_ver(counter_contract_version_spec()).unwrap();
            !sem_ver_gt(
                SemVer { major: cma, minor: cmi, patch: cpa },
                SemVer { major: sma, minor: smi, patch: spa },
            )
        }
    };
    if pre.version_info is Some && parsed_sem_ver(pre.version_info.unwrap().version) is None {
        (res matches Err(e) && e matches ContractErrorView::GenericError { .. }) && post == pre
    } else if pre.version_info is Some && parsed_sem_ver(counter_contract_version_spec())
        is None {
        (res matches Err(e) && e matches ContractErrorView::GenericError { .. }) && post == pre
    } else if version_blocked {
        res == Err::<ResponseView, ContractErrorView>(ContractErrorView::InvalidVersion {
            explanation: stale_version_err_msg(
                pre.version_info.unwrap().version,
                counter_contract_version_spec(),
            ),
        }) && post == pre
    } else if fee is Some && !fee_detail_valid(fee.unwrap()) {
        (res matches Err(e) && e matches ContractErrorView::GenericError { .. }) && post == pre
    } else if (new_counter_value is Some || fee is Some) && pre.state is None {
        res == Err::<ResponseView, ContractErrorView>(ContractErrorView::Std {
            message: "contract state not found"@,
        }) && post == pre
    } else {
        &&& post.version_info == Some(VersionInfoView {
            contract: counter_contract_name_spec(),
            version: counter_contract_version_spec(),
        })
        &&& post.state == if new_counter_value is Some || fee is Some {
            let s = pre.state.unwrap();
            Some(StateView {
                contract_base_name: s.contract_base_name,
                contract_counter: match new_counter_value {
                    Some(v) => v,
                    None => s.contract_counter,
                },
                increment_counter_fee: match fee {
                    Some(f) => Some(f),
                    None => s.increment_counter_fee,
                },
            })
        } else {
            pre.state
        }
        &&& res matches Ok(resp) && resp == (ResponseView {
            messages: Seq::<InstructionView>::empty(),
            attributes: seq![
                AttributeView { key: "action"@, value: "migrate"@ },
                AttributeView { key: "new_version"@, value: counter_contract_version_spec() },
            ] + counter_migrate_attrs(new_counter_value, fee),
        })
    }
}

/// The attributes naming the state values a migration replaced.
pub open spec fn counter_migrate_attrs(
    new_counter_value: Option<u128>,
    fee: Option<FeeCollectionDetailView>,
) -> Seq<AttributeView> {
    let counter_attrs = match new_counter_value {
        Some(v) => seq![
            AttributeView { key: "modified_counter_value"@, value: dec_str_of(v as nat) },
        ],
        None => Seq::<AttributeView>::empty(),
    };
    match fee {
        Some(f) => counter_attrs + seq![
            AttributeView {
                key: "modified_increment_counter_fee_address"@,
                value: f.fee_collector_address,
            },
            AttributeView {
                key: "modified_increment_counter_fee_amount"@,
                value: fee_amount_msg(f.fee_collection_amount),
            },
        ],
        None => counter_attrs,
    }
}

/// Migrates the contract: refuses anything but a strict version upgrade when
/// a version record exists, applies the requested state changes, and stamps
/// the running code's version.
pub fn migrate(storage: &mut ContractStorage, msg: MigrateMsg) -> (r: Result<
    Response,
    ContractError,
>)
    ensures
        counter_migrate_post(
            old(storage)@,
            final(storage)@,
            msg.new_counter_value,
            opt_fee_view(msg.increment_counter_fee),
            res_view_counter(r),
        ),
{
    if storage.version_info.is_some() {
        let version_info = match get_version_info(storage) {
            Ok(v) => v,
            Err(e) => {
                return Err(e);
            },
        };
        let stored_version = match version_info.parse_sem_ver() {
            Ok(v) => v,
            Err(e) => {
                return Err(e);
            },
        };
        let current_record = VersionInfo::current_version();
        let current_version = match current_record.parse_sem_ver() {
            Ok(v) => v,
            Err(e) => {
                return Err(e);
            },
        };
        if !current_version.newer_than(&stored_version) {
            let mut explanation = String::from_str("stored contract version [");
            explanation.append(version_info.version.as_str());
            explanation.append(
                "] is greater than or equal to the attempted migration version [",
            );
            explanation.append(current_record.version.as_str());
            explanation.append("]. no migration necessary");
            return Err(ContractError::InvalidVersion { explanation });
        }
    }
    if let Some(fee_detail) = &msg.increment_counter_fee {
        match fee_detail.self_validate() {
            Ok(_) => {},
            Err(e) => {
                return Err(e);
            },
        }
    }
    let mut attributes: Vec<Attribute> = Vec::new();
    attributes.push(attr("action", "migrate"));
    attributes.push(Attribute {
        key: String::from_str("new_version"),
        value: VersionInfo::current_version().version,
    });
    if msg.new_counter_value.is_some() || msg.increment_counter_fee.is_some() {
        let contract_state = match load_state(storage) {
            Ok(s) => s,
            Err(e) => {
                return Err(e);
            },
        };
        let contract_counter = match msg.new_counter_value {
            Some(v) => {
                attributes.push(Attribute {
                    key: String::from_str("modified_counter_value"),
                    value: u128_to_dec_string(v),
                });
                v
            },
            None => contract_state.contract_counter,
        };
        let increment_counter_fee = match msg.increment_counter_fee {
            Some(f) => {
                attributes.push(Attribute {
                    key: String::from_str("modified_increment_counter_fee_address"),
                    value: f.fee_collector_address.clone(),
                });
                attributes.push(Attribute {
                    key: String::from_str("modified_increment_counter_fee_amount"),
                    value: f.get_fee_amount_msg(),
                });
                Some(f)
            },
            None => contract_state.increment_counter_fee,
        };
        storage.state = Some(State {
            contract_base_name: contract_state.contract_base_name,
            contract_counter,
            increment_counter_fee,
        });
    }
    match migrate_version_info(storage) {
        Ok(_) => {},
        Err(e) => {
            return Err(e);
        },
    }
    let response = Response { messages: Vec::new(), attributes };
    proof {
        assert(response@.messages =~= Seq::<InstructionView>::empty());
        assert(response@.attributes =~= seq![
            AttributeView { key: "action"@, value: "migrate"@ },
            AttributeView { key: "new_version"@, value: counter_contract_version_spec() },
        ] + counter_migrate_attrs(
            msg.new_counter_value,
            opt_fee_view(msg.increment_counter_fee),
        ));
    }
    Ok(response)
}

} // verus!
