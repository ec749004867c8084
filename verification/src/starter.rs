//! The starter edition of the counter contract: a bound base name and a
//! counter, with the attribute route left unfinished and no migration.  Its
//! finished successor lives in [`crate::counter`].

use vstd::prelude::*;

use crate::coin::{CoinView, coins_view};
use crate::contract::{Env, MessageInfo};
use crate::counter::contract::{attribute_name_spec, format_attribute_name};
use crate::instructions::{Attribute, AttributeView, Instruction, InstructionView, Response,
    ResponseView, attr};
use crate::numeric::{dec_str_of, u128_to_dec_string};

verus! {

/// Initializes the starter contract.
#[derive(Clone, Debug)]
pub struct InitMsg {
    /// The name to bind to the contract via the host's name module.
    pub contract_base_name: String,
    /// The counter's initial value; absent means zero.
    pub starting_counter: Option<u128>,
}

/// The contract's state-changing operations.
#[derive(Clone, Debug)]
pub enum ExecuteMsg {
    /// Adds to the counter (by one when no amount is given).
    IncrementCounter { increment_amount: Option<u128> },
    /// Attaches text under a sub-name of the base name (not finished in this
    /// edition: the route is always refused).
    AddAttribute { attribute_prefix: String, attribute_text: String },
}

/// Read-only lookups.
#[derive(Clone, Debug)]
pub enum QueryMsg {
    /// The attribute stored under the given prefix of the base name.
    QueryAttribute { attribute_prefix: String },
    /// The contract state.
    QueryState {},
}

/// Why a starter-contract operation was refused.
#[derive(Clone, Debug)]
pub enum ContractError {
    /// A failure surfaced by the settlement host.
    Std { message: String },
    /// A one-off failure described only by its message.
    GenericError { message: String },
    /// A name that was expected to be free is already bound.
    NameAlreadyExists { name: String, owner_address: String },
    /// The attached funds do not fit the operation.
    InvalidFunds { explanation: String },
}

/// The mathematical value of a [`ContractError`].
pub ghost enum ContractErrorView {
    Std { message: Seq<char> },
    GenericError { message: Seq<char> },
    NameAlreadyExists { name: Seq<char>, owner_address: Seq<char> },
    InvalidFunds { explanation: Seq<char> },
}

impl View for ContractError {
    type V = ContractErrorView;

    open spec fn view(&self) -> ContractErrorView {
        match self {
            ContractError::Std { message } => ContractErrorView::Std { message: message@ },
            ContractError::GenericError { message } => ContractErrorView::GenericError {
                message: message@,
            },
            ContractError::NameAlreadyExists { name, owner_address } =>
                ContractErrorView::NameAlreadyExists {
                    name: name@,
                    owner_address: owner_address@,
                },
            ContractError::InvalidFunds { explanation } => ContractErrorView::InvalidFunds {
                explanation: explanation@,
            },
        }
    }
}

/// The contract's persistent values: the bound base name and the counter.
#[derive(Clone, Debug)]
pub struct State {
    pub contract_base_name: String,
    pub contract_counter: u128,
}

/// The mathematical value of a [`State`].
pub ghost struct StateView {
    pub contract_base_name: Seq<char>,
    pub contract_counter: u128,
}

impl View for State {
    type V = StateView;

    open spec fn view(&self) -> StateView {
        StateView {
            contract_base_name: self.contract_base_name@,
            contract_counter: self.contract_counter,
        }
    }
}

impl State {
    /// An exact copy of the state.
    pub fn clone_state(&self) -> (r: State)
        ensures
            r@ == self@,
    {
        State {
            contract_base_name: self.contract_base_name.clone(),
            contract_counter: self.contract_counter,
        }
    }
}

/// The view of an optional stored state.
pub open spec fn opt_state_view(o: Option<State>) -> Option<StateView> {
    match o {
        Some(s) => Some(s@),
        None => None,
    }
}

/// The view of an operation's result.
pub open spec fn res_view_starter(r: Result<Response, ContractError>) -> Result<
    ResponseView,
    ContractErrorView,
> {
    match r {
        Ok(resp) => Ok(resp@),
        Err(e) => Err(e@),
    }
}

/// Sets up the starter contract: rejects attached funds, stores the state
/// with the given starting counter, and asks the host to bind the base name.
pub fn instantiate(
    storage: &mut Option<State>,
    env: &Env,
    info: &MessageInfo,
    msg: InitMsg,
) -> (r: Result<Response, ContractError>)
    ensures
        coins_view(info.funds@).len() > 0 ==> (*final(storage) == *old(storage) && (r matches Err(e)
            && e@ matches ContractErrorView::InvalidFunds { .. })),
        coins_view(info.funds@).len() == 0 ==> {
            &&& opt_state_view(*final(storage)) == Some(StateView {
                contract_base_name: msg.contract_base_name@,
                contract_counter: match msg.starting_counter {
                    Some(c) => c,
                    None => 0u128,
                },
            })
            &&& r matches Ok(resp) && resp@ == (ResponseView {
                messages: seq![
                    InstructionView::BindName {
                        name: msg.contract_base_name@,
                        address: env.contract_address@,
                        restricted: true,
                    },
                ],
                attributes: seq![
                    AttributeView { key: "action"@, value: "instantiate"@ },
                    AttributeView {
                        key: "contract_base_name"@,
                        value: msg.contract_base_name@,
                    },
                ],
            })
        },
{
    if info.funds.len() > 0 {
        proof {
            assert(coins_view(info.funds@).len() > 0);
        }
        return Err(ContractError::InvalidFunds {
            explanation: String::from_str(
                "funds should not be included in the transaction when instantiating the contract",
            ),
        });
    }
    proof {
        assert(coins_view(info.funds@).len() == 0);
    }
    let ghost base_name_view = msg.contract_base_name@;
    let bind_name_msg = Instruction::BindName {
        name: msg.contract_base_name.clone(),
        address: env.contract_address.clone(),
        restricted: true,
    };
    let base_name_attr = Attribute {
        key: String::from_str("contract_base_name"),
        value: msg.contract_base_name.clone(),
    };
    *storage = Some(State {
        contract_base_name: msg.contract_base_name,
        contract_counter: match msg.starting_counter {
            Some(c) => c,
            None => 0,
        },
    });
    let response = Response {
        messages: vec![bind_name_msg],
        attributes: vec![attr("action", "instantiate"), base_name_attr],
    };
    proof {
        assert(response@.messages =~= seq![
            InstructionView::BindName {
                name: base_name_view,
                address: env.contract_address@,
                restricted: true,
            },
        ]);
        assert(response@.attributes =~= seq![
            AttributeView { key: "action"@, value: "instantiate"@ },
            AttributeView { key: "contract_base_name"@, value: base_name_view },
        ]);
    }
    Ok(response)
}

/// The increment applied when none is named.
pub open spec fn starter_increment_of(amount: Option<u128>) -> u128 {
    match amount {
        Some(a) => a,
        None => 1u128,
    }
}

/// Routes an execute request.  The counter grows by the given amount (one by
/// default); the attribute route is not finished in this edition and is
/// always refused.
pub fn execute(
    storage: &mut Option<State>,
    info: &MessageInfo,
    msg: ExecuteMsg,
) -> (r: Result<Response, ContractError>)
    requires
        (match msg {
            ExecuteMsg::IncrementCounter { increment_amount } => match opt_state_view(
                *old(storage),
            ) {
                Some(s) => s.contract_counter + starter_increment_of(increment_amount)
                    <= u128::MAX,
                None => true,
            },
            _ => true,
        }),
    ensures
        match msg {
            ExecuteMsg::IncrementCounter { increment_amount } => match opt_state_view(
                *old(storage),
            ) {
                Some(s) => {
                    let new_counter = (s.contract_counter + starter_increment_of(
                        increment_amount,
                    )) as u128;
                    &&& opt_state_view(*final(storage)) == Some(StateView {
                        contract_base_name: s.contract_base_name,
                        contract_counter: new_counter,
                    })
                    &&& r matches Ok(resp) && resp@ == (ResponseView {
                        messages: Seq::<InstructionView>::empty(),
                        attributes: seq![
                            AttributeView { key: "action"@, value: "execute"@ },
                            AttributeView {
                                key: "new_counter_value"@,
                                value: dec_str_of(new_counter as nat),
                            },
                        ],
                    })
                },
                None => *final(storage) == *old(storage) && (r matches Err(e) && e@ == (
                ContractErrorView::Std { message: "contract state not found"@ })),
            },
            ExecuteMsg::AddAttribute { .. } => *final(storage) == *old(storage) && (r matches Err(e)
                && e@ == (ContractErrorView::GenericError { message: "Not complete yet"@ })),
        },
{
    match msg {
        ExecuteMsg::IncrementCounter { increment_amount } => {
            let contract_state = match storage {
                Some(s) => s.clone_state(),
                None => {
                    return Err(ContractError::Std {
                        message: String::from_str("contract state not found"),
                    });
                },
            };
            let amount_to_increment = match increment_amount {
                Some(a) => a,
                None => 1,
            };
            let new_counter = contract_state.contract_counter + amount_to_increment;
            *storage = Some(State {
                contract_base_name: contract_state.contract_base_name,
                contract_counter: new_counter,
            });
            let response = Response {
                messages: Vec::new(),
                attributes: vec![
                    attr("action", "execute"),
                    Attribute {
                        key: String::from_str("new_counter_value"),
                        value: u128_to_dec_string(new_counter),
                    },
                ],
            };
            proof {
                assert(response@.messages =~= Seq::<InstructionView>::empty());
                assert(response@.attributes =~= seq![
                    AttributeView { key: "action"@, value: "execute"@ },
                    AttributeView {
                        key: "new_counter_value"@,
                        value: dec_str_of(new_counter as nat),
                    },
                ]);
            }
            Ok(response)
        },
        ExecuteMsg::AddAttribute { .. } => Err(ContractError::GenericError {
            message: String::from_str("Not complete yet"),
        }),
    }
}

/// The answer to a read-only query: the value itself, or the attribute name
/// the host should fetch.
#[derive(Clone, Debug)]
pub enum QueryAnswer {
    /// Fetch this attribute from the host's attribute module.
    AttributeLookup { attribute_name: String },
    /// The stored contract state.
    CurrentState(State),
}

/// Answers a read-only query.
pub fn query(storage: &Option<State>, msg: QueryMsg) -> (r: Result<QueryAnswer, ContractError>)
    ensures
        match msg {
            QueryMsg::QueryAttribute { attribute_prefix } => match r {
                Ok(q) => opt_state_view(*storage) matches Some(s) && q matches
                    QueryAnswer::AttributeLookup { attribute_name } && attribute_name@
                    == attribute_name_spec(attribute_prefix@, s.contract_base_name),
                Err(e) => opt_state_view(*storage) is None && e@ == (ContractErrorView::Std {
                    message: "contract state not found"@,
                }),
            },
            QueryMsg::QueryState {  } => match r {
                Ok(q) => q matches QueryAnswer::CurrentState(s) && opt_state_view(*storage)
                    == Some(s@),
                Err(e) => opt_state_view(*storage) is None && e@ == (ContractErrorView::Std {
                    message: "contract state not found"@,
                }),
            },
        },
{
    let contract_state = match storage {
        Some(s) => s.clone_state(),
        None => {
            return Err(ContractError::Std {
                message: String::from_str("contract state not found"),
            });
        },
    };
    match msg {
        QueryMsg::QueryAttribute { attribute_prefix } => Ok(QueryAnswer::AttributeLookup {
            attribute_name: format_attribute_name(
                attribute_prefix.as_str(),
                contract_state.contract_base_name.as_str(),
            ),
        }),
        QueryMsg::QueryState {  } => Ok(QueryAnswer::CurrentState(contract_state)),
    }
}

/// Migration is not offered by this edition: every request is refused.
pub fn migrate(_storage: &mut Option<State>) -> (r: Result<Response, ContractError>)
    ensures
        *final(_storage) == *old(_storage),
        r matches Err(e) && e@ == (ContractErrorView::GenericError {
            message: "No migrate exists"@,
        }),
{
    Err(ContractError::GenericError { message: String::from_str("No migrate exists") })
}

} // verus!
