//! The orchestrator: the five order-book operations (create ask, create bid,
//! cancel ask, cancel bid, execute match) plus instantiation, fee updates,
//! queries and migration, each specified as an exact relation between the
//! state before the call, the state after it, and the returned instructions
//! or error.

use vstd::prelude::*;
use vstd::hash_map::StringHashMap;

use crate::coin::{Coin, CoinView, coins_view, clone_coins};
use crate::contract_info::{ContractInfo, ContractInfoView, contract_info_text,
    contract_version, contract_version_spec};
use crate::error::{ContractError, ContractErrorView};
use crate::instructions::{Attribute, AttributeView, Instruction, InstructionView, Response,
    ResponseView, attr};
use crate::match_engine::{executable, is_executable};
use crate::msg::{ExecuteMsg, InstantiateMsg, MigrateMsg, QueryMsg};
use crate::numeric::{dec_str_of, u128_to_dec_string};
use crate::orders::{AskOrderV2, AskOrderV2View, BaseType, BaseTypeView, BidOrderV2,
    BidOrderV2View};
use crate::scope::{Scope, ScopeView, check_scope_owners, scope_owners_check, scope_owners_valid};

verus! {

/// The identity of the running contract, as the host reports it.
pub struct Env {
    pub contract_address: String,
}

/// The caller's identity and the funds attached to the call, as the host
/// authenticated them.
pub struct MessageInfo {
    pub sender: String,
    pub funds: Vec<Coin>,
}

/// Everything one engine instance persists: the configuration (absent until
/// instantiation) and the two independent order namespaces.
pub struct ContractState {
    pub contract_info: Option<ContractInfo>,
    pub asks: StringHashMap<AskOrderV2>,
    pub bids: StringHashMap<BidOrderV2>,
}

/// The mathematical value of a [`ContractState`].
pub ghost struct StateView {
    pub contract_info: Option<ContractInfoView>,
    pub asks: Map<Seq<char>, AskOrderV2View>,
    pub bids: Map<Seq<char>, BidOrderV2View>,
}

impl View for ContractState {
    type V = StateView;

    open spec fn view(&self) -> StateView {
        StateView {
            contract_info: match self.contract_info {
                Some(i) => Some(i@),
                None => None,
            },
            asks: self.asks@.map_values(|o: AskOrderV2| o@),
            bids: self.bids@.map_values(|o: BidOrderV2| o@),
        }
    }
}

/// Inserting into a map and then abstracting its values is the same as
/// abstracting first and inserting the abstracted value.
proof fn lemma_map_values_insert<V, W>(m: Map<Seq<char>, V>, f: spec_fn(V) -> W, k: Seq<char>, v: V)
    ensures
        m.insert(k, v).map_values(f) == m.map_values(f).insert(k, f(v)),
{
    assert(m.insert(k, v).map_values(f) =~= m.map_values(f).insert(k, f(v)));
}

/// Removing from a map commutes with abstracting its values.
proof fn lemma_map_values_remove<V, W>(m: Map<Seq<char>, V>, f: spec_fn(V) -> W, k: Seq<char>)
    ensures
        m.remove(k).map_values(f) == m.map_values(f).remove(k),
{
    assert(m.remove(k).map_values(f) =~= m.map_values(f).remove(k));
}

impl ContractState {
    /// A fresh instance: no configuration, no orders.
    pub fn new() -> (r: ContractState)
        ensures
            r@.contract_info is None,
            r@.asks == Map::<Seq<char>, AskOrderV2View>::empty(),
            r@.bids == Map::<Seq<char>, BidOrderV2View>::empty(),
    {
        let state = ContractState {
            contract_info: None,
            asks: StringHashMap::new(),
            bids: StringHashMap::new(),
        };
        proof {
            assert(state@.asks =~= Map::<Seq<char>, AskOrderV2View>::empty());
            assert(state@.bids =~= Map::<Seq<char>, BidOrderV2View>::empty());
        }
        state
    }
}

/// The view of an optional string argument.
pub open spec fn opt_string_view(o: Option<String>) -> Option<Seq<char>> {
    match o {
        Some(s) => Some(s@),
        None => None,
    }
}

/// The view of an optional scope record.
pub open spec fn opt_scope_view(o: Option<Scope>) -> Option<ScopeView> {
    match o {
        Some(s) => Some(s@),
        None => None,
    }
}

/// The view of an operation's result.
pub open spec fn res_view(r: Result<Response, ContractError>) -> Result<
    ResponseView,
    ContractErrorView,
> {
    match r {
        Ok(resp) => Ok(resp@),
        Err(e) => Err(e@),
    }
}

/// Fetches an existing ask order by id.
pub fn get_ask(state: &ContractState, id: &String) -> (r: Option<AskOrderV2>)
    ensures
        match r {
            Some(o) => state@.asks.contains_key(id@) && o@ == state@.asks[id@],
            None => !state@.asks.contains_key(id@),
        },
{
    match state.asks.get(id.as_str()) {
        Some(o) => Some(o.clone_order()),
        None => None,
    }
}

/// Fetches an existing bid order by id.
pub fn get_bid(state: &ContractState, id: &String) -> (r: Option<BidOrderV2>)
    ensures
        match r {
            Some(o) => state@.bids.contains_key(id@) && o@ == state@.bids[id@],
            None => !state@.bids.contains_key(id@),
        },
{
    match state.bids.get(id.as_str()) {
        Some(o) => Some(o.clone_order()),
        None => None,
    }
}

/// Fetches the contract configuration, if the contract was instantiated.
pub fn get_contract_info(state: &ContractState) -> (r: Option<ContractInfo>)
    ensures
        match r {
            Some(i) => state@.contract_info == Some(i@),
            None => state@.contract_info is None,
        },
{
    match &state.contract_info {
        Some(i) => Some(i.clone_info()),
        None => None,
    }
}

/// The attribute list of a creation response: the action tag, and the charged
/// fee when one is configured.
pub open spec fn creation_attrs(action: Seq<char>, fee: Option<u128>) -> Seq<AttributeView> {
    let action_attr = AttributeView { key: "action"@, value: action };
    match fee {
        Some(f) => seq![
            action_attr,
            AttributeView { key: "fee_charged"@, value: dec_str_of(f as nat) + "nhash"@ },
        ],
        None => seq![action_attr],
    }
}

/// The instruction list of a creation response: one fee charge when a fee is
/// configured, nothing otherwise.
pub open spec fn creation_msgs(
    fee: Option<u128>,
    fee_name: Seq<char>,
    contract_address: Seq<char>,
    admin: Seq<char>,
) -> Seq<InstructionView> {
    match fee {
        Some(f) => seq![
            InstructionView::ChargeFee {
                amount: CoinView { denom: "nhash"@, amount: f },
                fee_name: fee_name,
                from: contract_address,
                recipient: admin,
            },
        ],
        None => Seq::<InstructionView>::empty(),
    }
}

/// Builds the instruction charging a creation fee: the configured amount in
/// the host's fee denomination, charged through the contract to the caller,
/// with the admin as the recipient of the retained share.
pub fn generate_creation_fee(
    fee_amount: u128,
    fee_type: &str,
    contract_address: String,
    admin_address: String,
) -> (r: Result<Instruction, ContractError>)
    ensures
        r matches Ok(i) && i@ == (InstructionView::ChargeFee {
            amount: CoinView { denom: "nhash"@, amount: fee_amount },
            fee_name: fee_type@ + " creation fee"@,
            from: contract_address@,
            recipient: admin_address@,
        }),
{
    let mut fee_name = fee_type.to_owned();
    fee_name.append(" creation fee");
    Ok(Instruction::ChargeFee {
        amount: Coin { denom: String::from_str("nhash"), amount: fee_amount },
        fee_name,
        from: contract_address,
        recipient: admin_address,
    })
}

/// The fee amount rendered for an attribute value: the decimal amount with
/// the fee denomination appended.
pub fn fee_attr_value(fee: u128) -> (r: String)
    ensures
        r@ == dec_str_of(fee as nat) + "nhash"@,
{
    let mut s = u128_to_dec_string(fee);
    s.append("nhash");
    s
}

/// What instantiation does: rejects an empty bind name or contract name and
/// a present-but-zero fee; otherwise records the configuration with the
/// caller as admin, asks the host to bind the name, and reports the stored
/// configuration's rendering alongside the action.
pub open spec fn instantiate_post(
    pre: StateView,
    post: StateView,
    contract_address: Seq<char>,
    sender: Seq<char>,
    bind_name: Seq<char>,
    contract_name: Seq<char>,
    ask_fee: Option<u128>,
    bid_fee: Option<u128>,
    res: Result<ResponseView, ContractErrorView>,
) -> bool {
    if bind_name.len() == 0 {
        res == Err::<ResponseView, ContractErrorView>(ContractErrorView::MissingField {
            field: "bind_name"@,
        }) && post == pre
    } else if contract_name.len() == 0 {
        res == Err::<ResponseView, ContractErrorView>(ContractErrorView::MissingField {
            field: "contract_name"@,
        }) && post == pre
    } else if ask_fee == Some(0u128) {
        res == Err::<ResponseView, ContractErrorView>(ContractErrorView::InvalidFee {
            fee_type: "ask"@,
        }) && post == pre
    } else if bid_fee == Some(0u128) {
        res == Err::<ResponseView, ContractErrorView>(ContractErrorView::InvalidFee {
            fee_type: "bid"@,
        }) && post == pre
    } else {
        let stored = ContractInfoView {
            admin: sender,
            bind_name: bind_name,
            contract_name: contract_name,
            contract_type: crate::contract_info::contract_type_spec(),
            contract_version: contract_version_spec(),
            ask_fee,
            bid_fee,
        };
        &&& post.asks == pre.asks
        &&& post.bids == pre.bids
        &&& post.contract_info == Some(stored)
        &&& res matches Ok(resp) && resp == (ResponseView {
            messages: seq![
                InstructionView::BindName {
                    name: bind_name,
                    address: contract_address,
                    restricted: true,
                },
            ],
            attributes: seq![
                AttributeView { key: "contract_info"@, value: contract_info_text(stored) },
                AttributeView { key: "action"@, value: "init"@ },
            ],
        })
    }
}

/// Sets up the contract: validates the instantiation message, stores the
/// configuration with the caller as admin, and asks the host to bind the
/// contract's name.
pub fn instantiate(
    state: &mut ContractState,
    env: &Env,
    info: &MessageInfo,
    msg: InstantiateMsg,
) -> (r: Result<Response, ContractError>)
    ensures
        instantiate_post(
            old(state)@,
            final(state)@,
            env.contract_address@,
            info.sender@,
            msg.bind_name@,
            msg.contract_name@,
            msg.ask_fee,
            msg.bid_fee,
            res_view(r),
        ),
{
    if msg.bind_name.as_str().is_empty() {
        return Err(ContractError::MissingField { field: String::from_str("bind_name") });
    }
    if msg.contract_name.as_str().is_empty() {
        return Err(ContractError::MissingField { field: String::from_str("contract_name") });
    }
    if matches!(msg.ask_fee, Some(0u128)) {
        return Err(ContractError::InvalidFee { fee_type: String::from_str("ask") });
    }
    if matches!(msg.bid_fee, Some(0u128)) {
        return Err(ContractError::InvalidFee { fee_type: String::from_str("bid") });
    }
    let bind_name_msg = Instruction::BindName {
        name: msg.bind_name.clone(),
        address: env.contract_address.clone(),
        restricted: true,
    };
    let contract_info = ContractInfo::new(
        info.sender.clone(),
        msg.bind_name,
        msg.contract_name,
        msg.ask_fee,
        msg.bid_fee,
    );
    let info_attr = Attribute {
        key: String::from_str("contract_info"),
        value: contract_info.describe(),
    };
    let ghost stored_view = contract_info@;
    state.contract_info = Some(contract_info);
    let response = Response {
        messages: vec![bind_name_msg],
        attributes: vec![info_attr, attr("action", "init")],
    };
    proof {
        assert(response@.messages =~= seq![
            InstructionView::BindName {
                name: msg.bind_name@,
                address: env.contract_address@,
                restricted: true,
            },
        ]);
        assert(response@.attributes =~= seq![
            AttributeView { key: "contract_info"@, value: contract_info_text(stored_view) },
            AttributeView { key: "action"@, value: "init"@ },
        ]);
    }
    Ok(response)
}

/// The state change and response of a successful creation: the order is
/// inserted under its (previously unused) id, nothing else changes, and the
/// response carries the action attribute plus the configured creation fee, if
/// any.
pub open spec fn ask_created(
    pre: StateView,
    post: StateView,
    contract_address: Seq<char>,
    sender: Seq<char>,
    id: Seq<char>,
    quote: Seq<CoinView>,
    base: BaseTypeView,
    res: Result<ResponseView, ContractErrorView>,
) -> bool {
    let info = pre.contract_info.unwrap();
    &&& pre.contract_info is Some
    &&& post.contract_info == pre.contract_info
    &&& post.bids == pre.bids
    &&& post.asks == pre.asks.insert(
        id,
        AskOrderV2View { base, id, owner: sender, quote },
    )
    &&& res matches Ok(resp) && resp == (ResponseView {
        messages: creation_msgs(info.ask_fee, "Ask creation fee"@, contract_address, info.admin),
        attributes: creation_attrs("create_ask"@, info.ask_fee),
    })
}

/// What creating an ask does, for every input: which validation error is
/// returned on which input (leaving the state untouched), and the stored
/// order and emitted instructions on success.
pub open spec fn create_ask_post(
    pre: StateView,
    post: StateView,
    contract_address: Seq<char>,
    sender: Seq<char>,
    funds: Seq<CoinView>,
    id: Seq<char>,
    quote: Seq<CoinView>,
    scope_address: Option<Seq<char>>,
    scope: Option<ScopeView>,
    res: Result<ResponseView, ContractErrorView>,
) -> bool {
    if id.len() == 0 {
        res == Err::<ResponseView, ContractErrorView>(ContractErrorView::MissingField {
            field: "id"@,
        }) && post == pre
    } else if quote.len() == 0 {
        res == Err::<ResponseView, ContractErrorView>(ContractErrorView::MissingField {
            field: "quote"@,
        }) && post == pre
    } else if pre.asks.contains_key(id) {
        res == Err::<ResponseView, ContractErrorView>(ContractErrorView::DuplicateId {
            id_type: "ask"@,
            id,
        }) && post == pre
    } else {
        match scope_address {
            Some(addr) => if funds.len() > 0 {
                res == Err::<ResponseView, ContractErrorView>(
                    ContractErrorView::ScopeAskBaseWithFunds,
                ) && post == pre
            } else if scope is None {
                res == Err::<ResponseView, ContractErrorView>(ContractErrorView::Std {
                    message: "scope not found"@,
                }) && post == pre
            } else if !scope_owners_valid(
                scope.unwrap(),
                Some(contract_address),
                Some(contract_address),
            ) {
                post == pre && res == Err::<ResponseView, ContractErrorView>(
                    scope_owners_check(
                        scope.unwrap(),
                        Some(contract_address),
                        Some(contract_address),
                    ).unwrap(),
                )
            } else if pre.contract_info is None {
                res == Err::<ResponseView, ContractErrorView>(ContractErrorView::Std {
                    message: "contract info not found"@,
                }) && post == pre
            } else {
                ask_created(
                    pre,
                    post,
                    contract_address,
                    sender,
                    id,
                    quote,
                    BaseTypeView::Scope { scope_address: addr },
                    res,
                )
            },
            None => if funds.len() == 0 {
                res == Err::<ResponseView, ContractErrorView>(ContractErrorView::MissingAskBase)
                    && post == pre
            } else if pre.contract_info is None {
                res == Err::<ResponseView, ContractErrorView>(ContractErrorView::Std {
                    message: "contract info not found"@,
                }) && post == pre
            } else {
                ask_created(
                    pre,
                    post,
                    contract_address,
                    sender,
                    id,
                    quote,
                    BaseTypeView::Coin { coins: funds },
                    res,
                )
            },
        }
    }
}

/// Creates an ask: the caller offers the attached funds (or, for an
/// external-asset ask, the already-escrowed asset at `scope_address`) for
/// sale at the given quote.  The id must not be in use: orders are immutable
/// once created, so a taken id is refused, never overwritten.  For an
/// external-asset ask the caller supplies the host's record for that address
/// in `scope`; the engine requires the contract itself to already be its sole
/// owner and value owner.
pub fn create_ask(
    state: &mut ContractState,
    env: &Env,
    info: &MessageInfo,
    id: String,
    quote: Vec<Coin>,
    scope_address: Option<String>,
    scope: Option<Scope>,
) -> (r: Result<Response, ContractError>)
    ensures
        create_ask_post(
            old(state)@,
            final(state)@,
            env.contract_address@,
            info.sender@,
            coins_view(info.funds@),
            id@,
            coins_view(quote@),
            opt_string_view(scope_address),
            opt_scope_view(scope),
            res_view(r),
        ),
{
    if id.as_str().is_empty() {
        return Err(ContractError::MissingField { field: String::from_str("id") });
    }
    if quote.len() == 0 {
        proof {
            assert(coins_view(quote@).len() == 0);
        }
        return Err(ContractError::MissingField { field: String::from_str("quote") });
    }
    proof {
        assert(coins_view(quote@).len() > 0);
    }
    if state.asks.contains_key(id.as_str()) {
        return Err(ContractError::DuplicateId { id_type: String::from_str("ask"), id });
    }
    let base = match scope_address {
        Some(address) => {
            if info.funds.len() > 0 {
                proof {
                    assert(coins_view(info.funds@).len() > 0);
                }
                return Err(ContractError::ScopeAskBaseWithFunds);
            }
            proof {
                assert(coins_view(info.funds@).len() == 0);
            }
            let scope_record = match scope {
                Some(s) => s,
                None => {
                    return Err(ContractError::Std {
                        message: String::from_str("scope not found"),
                    });
                },
            };
            match check_scope_owners(
                &scope_record,
                Some(&env.contract_address),
                Some(&env.contract_address),
            ) {
                Ok(_) => {},
                Err(e) => {
                    return Err(e);
                },
            }
            BaseType::Scope { scope_address: address }
        },
        None => {
            if info.funds.len() == 0 {
                proof {
                    assert(coins_view(info.funds@).len() == 0);
                }
                return Err(ContractError::MissingAskBase);
            }
            proof {
                assert(coins_view(info.funds@).len() > 0);
            }
            BaseType::Coin { coins: clone_coins(&info.funds) }
        },
    };
    let contract_info = match get_contract_info(state) {
        Some(i) => i,
        None => {
            return Err(ContractError::Std {
                message: String::from_str("contract info not found"),
            });
        },
    };
    let ask_order = AskOrderV2 {
        base,
        id: id.clone(),
        owner: info.sender.clone(),
        quote,
    };
    proof {
        lemma_map_values_insert(state.asks@, |o: AskOrderV2| o@, id@, ask_order);
    }
    state.asks.insert(id, ask_order);
    let mut response = Response {
        messages: Vec::new(),
        attributes: vec![attr("action", "create_ask")],
    };
    if let Some(ask_fee) = contract_info.ask_fee {
        response.attributes.push(
            Attribute { key: String::from_str("fee_charged"), value: fee_attr_value(ask_fee) },
        );
        let fee_msg = match generate_creation_fee(
            ask_fee,
            "Ask",
            env.contract_address.clone(),
            contract_info.admin,
        ) {
            Ok(m) => m,
            Err(e) => {
                return Err(e);
            },
        };
        response.messages.push(fee_msg);
        proof {
            reveal_strlit("Ask");
            reveal_strlit(" creation fee");
            reveal_strlit("Ask creation fee");
            assert("Ask"@ + " creation fee"@ =~= "Ask creation fee"@);
            assert(response@.attributes =~= creation_attrs("create_ask"@, Some(ask_fee)));
            assert(response@.messages =~= creation_msgs(
                Some(ask_fee),
                "Ask creation fee"@,
                env.contract_address@,
                old(state)@.contract_info.unwrap().admin,
            ));
        }
    } else {
        proof {
            assert(response@.attributes =~= creation_attrs("create_ask"@, None));
            assert(response@.messages =~= creation_msgs(
                None,
                "Ask creation fee"@,
                env.contract_address@,
                old(state)@.contract_info.unwrap().admin,
            ));
        }
    }
    Ok(response)
}

/// The state change and response of a successful bid creation: the order is
/// inserted under its (previously unused) id.
pub open spec fn bid_created(
    pre: StateView,
    post: StateView,
    contract_address: Seq<char>,
    sender: Seq<char>,
    funds: Seq<CoinView>,
    id: Seq<char>,
    base: BaseTypeView,
    effective_time: Option<u64>,
    res: Result<ResponseView, ContractErrorView>,
) -> bool {
    let info = pre.contract_info.unwrap();
    &&& pre.contract_info is Some
    &&& post.contract_info == pre.contract_info
    &&& post.asks == pre.asks
    &&& post.bids == pre.bids.insert(
        id,
        BidOrderV2View { base, effective_time, id, owner: sender, quote: funds },
    )
    &&& res matches Ok(resp) && resp == (ResponseView {
        messages: creation_msgs(info.bid_fee, "Bid creation fee"@, contract_address, info.admin),
        attributes: creation_attrs("create_bid"@, info.bid_fee),
    })
}

/// What creating a bid does, for every input.  A funds-typed wanted asset
/// must be non-empty; an external-asset want is exempt (the referenced asset
/// need not exist yet).  The attached funds become the escrowed payment.
pub open spec fn create_bid_post(
    pre: StateView,
    post: StateView,
    contract_address: Seq<char>,
    sender: Seq<char>,
    funds: Seq<CoinView>,
    id: Seq<char>,
    base: BaseTypeView,
    effective_time: Option<u64>,
    res: Result<ResponseView, ContractErrorView>,
) -> bool {
    if (base matches BaseTypeView::Coin { coins } && coins.len() == 0) {
        res == Err::<ResponseView, ContractErrorView>(ContractErrorView::MissingField {
            field: "base"@,
        }) && post == pre
    } else if id.len() == 0 {
        res == Err::<ResponseView, ContractErrorView>(ContractErrorView::MissingField {
            field: "id"@,
        }) && post == pre
    } else if pre.bids.contains_key(id) {
        res == Err::<ResponseView, ContractErrorView>(ContractErrorView::DuplicateId {
            id_type: "bid"@,
            id,
        }) && post == pre
    } else if funds.len() == 0 {
        res == Err::<ResponseView, ContractErrorView>(ContractErrorView::MissingBidQuote) && post
            == pre
    } else if pre.contract_info is None {
        res == Err::<ResponseView, ContractErrorView>(ContractErrorView::Std {
            message: "contract info not found"@,
        }) && post == pre
    } else {
        bid_created(pre, post, contract_address, sender, funds, id, base, effective_time, res)
    }
}

/// Creates a bid: the caller escrows the attached funds as payment for the
/// wanted asset described by `base`.  The id must not be in use: orders are
/// immutable once created, so a taken id is refused, never overwritten.
pub fn create_bid(
    state: &mut ContractState,
    env: &Env,
    info: &MessageInfo,
    id: String,
    base: BaseType,
    effective_time: Option<u64>,
) -> (r: Result<Response, ContractError>)
    ensures
        create_bid_post(
            old(state)@,
            final(state)@,
            env.contract_address@,
            info.sender@,
            coins_view(info.funds@),
            id@,
            base@,
            effective_time,
            res_view(r),
        ),
{
    if let BaseType::Coin { coins } = &base {
        if coins.len() == 0 {
            proof {
                assert(base@ matches BaseTypeView::Coin { coins: c } && c.len() == 0);
            }
            return Err(ContractError::MissingField { field: String::from_str("base") });
        }
    }
    if id.as_str().is_empty() {
        return Err(ContractError::MissingField { field: String::from_str("id") });
    }
    if state.bids.contains_key(id.as_str()) {
        return Err(ContractError::DuplicateId { id_type: String::from_str("bid"), id });
    }
    if info.funds.len() == 0 {
        proof {
            assert(coins_view(info.funds@).len() == 0);
        }
        return Err(ContractError::MissingBidQuote);
    }
    proof {
        assert(coins_view(info.funds@).len() > 0);
    }
    let contract_info = match get_contract_info(state) {
        Some(i) => i,
        None => {
            return Err(ContractError::Std {
                message: String::from_str("contract info not found"),
            });
        },
    };
    let bid_order = BidOrderV2 {
        base,
        effective_time,
        id: id.clone(),
        owner: info.sender.clone(),
        quote: clone_coins(&info.funds),
    };
    proof {
        lemma_map_values_insert(state.bids@, |o: BidOrderV2| o@, id@, bid_order);
    }
    state.bids.insert(id, bid_order);
    let mut response = Response {
        messages: Vec::new(),
        attributes: vec![attr("action", "create_bid")],
    };
    if let Some(bid_fee) = contract_info.bid_fee {
        response.attributes.push(
            Attribute { key: String::from_str("fee_charged"), value: fee_attr_value(bid_fee) },
        );
        let fee_msg = match generate_creation_fee(
            bid_fee,
            "Bid",
            env.contract_address.clone(),
            contract_info.admin,
        ) {
            Ok(m) => m,
            Err(e) => {
                return Err(e);
            },
        };
        response.messages.push(fee_msg);
        proof {
            reveal_strlit("Bid");
            reveal_strlit(" creation fee");
            reveal_strlit("Bid creation fee");
            assert("Bid"@ + " creation fee"@ =~= "Bid creation fee"@);
            assert(response@.attributes =~= creation_attrs("create_bid"@, Some(bid_fee)));
            assert(response@.messages =~= creation_msgs(
                Some(bid_fee),
                "Bid creation fee"@,
                env.contract_address@,
                old(state)@.contract_info.unwrap().admin,
            ));
        }
    } else {
        proof {
            assert(response@.attributes =~= creation_attrs("create_bid"@, None));
            assert(response@.messages =~= creation_msgs(
                None,
                "Bid creation fee"@,
                env.contract_address@,
                old(state)@.contract_info.unwrap().admin,
            ));
        }
    }
    Ok(response)
}

/// The instruction that hands an order's escrowed base back: a funds transfer
/// for coins, an ownership reassignment for an external asset.
pub open spec fn base_release_instruction(base: BaseTypeView, owner: Seq<char>) -> InstructionView {
    match base {
        BaseTypeView::Coin { coins } => InstructionView::TransferFunds {
            to_address: owner,
            amount: coins,
        },
        BaseTypeView::Scope { scope_address } => InstructionView::ReassignScopeOwner {
            scope_address,
            new_owner: owner,
        },
    }
}

/// What cancelling an ask does, for every input.  An empty id, a missing
/// order and a caller who is not the owner all fail alike with
/// `Unauthorized`, deliberately not revealing whether the id exists.
pub open spec fn cancel_ask_post(
    pre: StateView,
    post: StateView,
    sender: Seq<char>,
    funds: Seq<CoinView>,
    id: Seq<char>,
    res: Result<ResponseView, ContractErrorView>,
) -> bool {
    if id.len() == 0 {
        res == Err::<ResponseView, ContractErrorView>(ContractErrorView::Unauthorized) && post
            == pre
    } else if funds.len() > 0 {
        res == Err::<ResponseView, ContractErrorView>(ContractErrorView::CancelWithFunds) && post
            == pre
    } else if !pre.asks.contains_key(id) || pre.asks[id].owner != sender {
        res == Err::<ResponseView, ContractErrorView>(ContractErrorView::Unauthorized) && post
            == pre
    } else {
        let order = pre.asks[id];
        &&& post.contract_info == pre.contract_info
        &&& post.bids == pre.bids
        &&& post.asks == pre.asks.remove(id)
        &&& res matches Ok(resp) && resp == (ResponseView {
            messages: seq![base_release_instruction(order.base, order.owner)],
            attributes: seq![AttributeView { key: "action"@, value: "cancel_ask"@ }],
        })
    }
}

/// Cancels an ask: only its owner may do so, no funds may be attached, and
/// the escrowed base goes back to the owner.
pub fn cancel_ask(
    state: &mut ContractState,
    env: &Env,
    info: &MessageInfo,
    id: String,
) -> (r: Result<Response, ContractError>)
    ensures
        cancel_ask_post(
            old(state)@,
            final(state)@,
            info.sender@,
            coins_view(info.funds@),
            id@,
            res_view(r),
        ),
{
    if id.as_str().is_empty() {
        return Err(ContractError::Unauthorized);
    }
    if info.funds.len() > 0 {
        proof {
            assert(coins_view(info.funds@).len() > 0);
        }
        return Err(ContractError::CancelWithFunds);
    }
    proof {
        assert(coins_view(info.funds@).len() == 0);
    }
    let stored_ask_order = match state.asks.get(id.as_str()) {
        Some(o) => o.clone_order(),
        None => {
            return Err(ContractError::Unauthorized);
        },
    };
    if !String::eq(&info.sender, &stored_ask_order.owner) {
        return Err(ContractError::Unauthorized);
    }
    proof {
        lemma_map_values_remove(state.asks@, |o: AskOrderV2| o@, id@);
    }
    state.asks.remove(id.as_str());
    let owner = stored_ask_order.owner;
    let release = match stored_ask_order.base {
        BaseType::Coin { coins } => Instruction::TransferFunds { to_address: owner, amount: coins },
        BaseType::Scope { scope_address } => Instruction::ReassignScopeOwner {
            scope_address,
            new_owner: owner,
        },
    };
    let response = Response {
        messages: vec![release],
        attributes: vec![attr("action", "cancel_ask")],
    };
    proof {
        assert(response@.messages =~= seq![
            base_release_instruction(old(state)@.asks[id@].base, old(state)@.asks[id@].owner),
        ]);
        assert(response@.attributes =~= seq![
            AttributeView { key: "action"@, value: "cancel_ask"@ },
        ]);
    }
    Ok(response)
}

/// What cancelling a bid does, for every input; the escrowed payment goes
/// back to the owner.
pub open spec fn cancel_bid_post(
    pre: StateView,
    post: StateView,
    sender: Seq<char>,
    funds: Seq<CoinView>,
    id: Seq<char>,
    res: Result<ResponseView, ContractErrorView>,
) -> bool {
    if id.len() == 0 {
        res == Err::<ResponseView, ContractErrorView>(ContractErrorView::Unauthorized) && post
            == pre
    } else if funds.len() > 0 {
        res == Err::<ResponseView, ContractErrorView>(ContractErrorView::CancelWithFunds) && post
            == pre
    } else if !pre.bids.contains_key(id) || pre.bids[id].owner != sender {
        res == Err::<ResponseView, ContractErrorView>(ContractErrorView::Unauthorized) && post
            == pre
    } else {
        let order = pre.bids[id];
        &&& post.contract_info == pre.contract_info
        &&& post.asks == pre.asks
        &&& post.bids == pre.bids.remove(id)
        &&& res matches Ok(resp) && resp == (ResponseView {
            messages: seq![
                InstructionView::TransferFunds { to_address: order.owner, amount: order.quote },
            ],
            attributes: seq![AttributeView { key: "action"@, value: "cancel_bid"@ }],
        })
    }
}

/// Cancels a bid: only its owner may do so, no funds may be attached, and
/// the escrowed payment goes back to the owner.
pub fn cancel_bid(
    state: &mut ContractState,
    _env: &Env,
    info: &MessageInfo,
    id: String,
) -> (r: Result<Response, ContractError>)
    ensures
        cancel_bid_post(
            old(state)@,
            final(state)@,
            info.sender@,
            coins_view(info.funds@),
            id@,
            res_view(r),
        ),
{
    if id.as_str().is_empty() {
        return Err(ContractError::Unauthorized);
    }
    if info.funds.len() > 0 {
        proof {
            assert(coins_view(info.funds@).len() > 0);
        }
        return Err(ContractError::CancelWithFunds);
    }
    proof {
        assert(coins_view(info.funds@).len() == 0);
    }
    let stored_bid_order = match state.bids.get(id.as_str()) {
        Some(o) => o.clone_order(),
        None => {
            return Err(ContractError::Unauthorized);
        },
    };
    if !String::eq(&info.sender, &stored_bid_order.owner) {
        return Err(ContractError::Unauthorized);
    }
    proof {
        lemma_map_values_remove(state.bids@, |o: BidOrderV2| o@, id@);
    }
    state.bids.remove(id.as_str());
    let response = Response {
        messages: vec![
            Instruction::TransferFunds {
                to_address: stored_bid_order.owner,
                amount: stored_bid_order.quote,
            },
        ],
        attributes: vec![attr("action", "cancel_bid")],
    };
    proof {
        assert(response@.messages =~= seq![
            InstructionView::TransferFunds {
                to_address: old(state)@.bids[id@].owner,
                amount: old(state)@.bids[id@].quote,
            },
        ]);
        assert(response@.attributes =~= seq![
            AttributeView { key: "action"@, value: "cancel_bid"@ },
        ]);
    }
    Ok(response)
}

/// A fee rendered for the fee-update attributes: the amount with the fee
/// denomination, or "cleared" when the fee was removed.
pub open spec fn fee_update_text(fee: Option<u128>) -> Seq<char> {
    match fee {
        Some(f) => dec_str_of(f as nat) + "nhash"@,
        None => "cleared"@,
    }
}

/// What a fee update does, for every input: only the admin, with no funds
/// attached, may replace the configured fees, and a present-but-zero fee is
/// rejected.
pub open spec fn update_fees_post(
    pre: StateView,
    post: StateView,
    sender: Seq<char>,
    funds: Seq<CoinView>,
    ask_fee: Option<u128>,
    bid_fee: Option<u128>,
    res: Result<ResponseView, ContractErrorView>,
) -> bool {
    if pre.contract_info is None {
        res == Err::<ResponseView, ContractErrorView>(ContractErrorView::Std {
            message: "contract info not found"@,
        }) && post == pre
    } else if pre.contract_info.unwrap().admin != sender {
        res == Err::<ResponseView, ContractErrorView>(ContractErrorView::Unauthorized) && post
            == pre
    } else if funds.len() > 0 {
        res == Err::<ResponseView, ContractErrorView>(ContractErrorView::UpdateFeesWithFunds)
            && post == pre
    } else if ask_fee == Some(0u128) {
        res == Err::<ResponseView, ContractErrorView>(ContractErrorView::InvalidFee {
            fee_type: "ask"@,
        }) && post == pre
    } else if bid_fee == Some(0u128) {
        res == Err::<ResponseView, ContractErrorView>(ContractErrorView::InvalidFee {
            fee_type: "bid"@,
        }) && post == pre
    } else {
        let info = pre.contract_info.unwrap();
        &&& post.asks == pre.asks
        &&& post.bids == pre.bids
        &&& post.contract_info == Some(ContractInfoView {
            admin: info.admin,
            bind_name: info.bind_name,
            contract_name: info.contract_name,
            contract_type: info.contract_type,
            contract_version: info.contract_version,
            ask_fee,
            bid_fee,
        })
        &&& res matches Ok(resp) && resp == (ResponseView {
            messages: Seq::<InstructionView>::empty(),
            attributes: seq![
                AttributeView { key: "action"@, value: "update_fees"@ },
                AttributeView { key: "new_ask_fee"@, value: fee_update_text(ask_fee) },
                AttributeView { key: "new_bid_fee"@, value: fee_update_text(bid_fee) },
            ],
        })
    }
}

/// Replaces the configured creation fees.  Only the admin may do so; a
/// cleared fee means no fee is charged from then on.
pub fn update_fees(
    state: &mut ContractState,
    info: &MessageInfo,
    ask_fee: Option<u128>,
    bid_fee: Option<u128>,
) -> (r: Result<Response, ContractError>)
    ensures
        update_fees_post(
            old(state)@,
            final(state)@,
            info.sender@,
            coins_view(info.funds@),
            ask_fee,
            bid_fee,
            res_view(r),
        ),
{
    let contract_info = match get_contract_info(state) {
        Some(i) => i,
        None => {
            return Err(ContractError::Std {
                message: String::from_str("contract info not found"),
            });
        },
    };
    if !String::eq(&info.sender, &contract_info.admin) {
        return Err(ContractError::Unauthorized);
    }
    if info.funds.len() > 0 {
        proof {
            assert(coins_view(info.funds@).len() > 0);
        }
        return Err(ContractError::UpdateFeesWithFunds);
    }
    proof {
        assert(coins_view(info.funds@).len() == 0);
    }
    if matches!(ask_fee, Some(0u128)) {
        return Err(ContractError::InvalidFee { fee_type: String::from_str("ask") });
    }
    if matches!(bid_fee, Some(0u128)) {
        return Err(ContractError::InvalidFee { fee_type: String::from_str("bid") });
    }
    let ask_fee_text = match ask_fee {
        Some(f) => fee_attr_value(f),
        None => String::from_str("cleared"),
    };
    let bid_fee_text = match bid_fee {
        Some(f) => fee_attr_value(f),
        None => String::from_str("cleared"),
    };
    state.contract_info = Some(ContractInfo {
        admin: contract_info.admin,
        bind_name: contract_info.bind_name,
        contract_name: contract_info.contract_name,
        contract_type: contract_info.contract_type,
        contract_version: contract_info.contract_version,
        ask_fee,
        bid_fee,
    });
    let response = Response {
        messages: Vec::new(),
        attributes: vec![
            attr("action", "update_fees"),
            Attribute { key: String::from_str("new_ask_fee"), value: ask_fee_text },
            Attribute { key: String::from_str("new_bid_fee"), value: bid_fee_text },
        ],
    };
    proof {
        assert(response@.messages =~= Seq::<InstructionView>::empty());
        assert(response@.attributes =~= seq![
            AttributeView { key: "action"@, value: "update_fees"@ },
            AttributeView { key: "new_ask_fee"@, value: fee_update_text(ask_fee) },
            AttributeView { key: "new_bid_fee"@, value: fee_update_text(bid_fee) },
        ]);
    }
    Ok(response)
}

/// What executing a match does, for every input: only the admin, with no
/// funds attached, may match an existing ask against an existing bid, and
/// only when the match predicate holds; both orders are then removed and the
/// settlement instructions returned.  A missing order and non-agreeing orders
/// fail alike with `AskBidMismatch`.
pub open spec fn execute_match_post(
    pre: StateView,
    post: StateView,
    sender: Seq<char>,
    funds: Seq<CoinView>,
    ask_id: Seq<char>,
    bid_id: Seq<char>,
    res: Result<ResponseView, ContractErrorView>,
) -> bool {
    if pre.contract_info is None {
        res == Err::<ResponseView, ContractErrorView>(ContractErrorView::Std {
            message: "contract info not found"@,
        }) && post == pre
    } else if pre.contract_info.unwrap().admin != sender {
        res == Err::<ResponseView, ContractErrorView>(ContractErrorView::Unauthorized) && post
            == pre
    } else if ask_id.len() == 0 || bid_id.len() == 0 {
        res == Err::<ResponseView, ContractErrorView>(ContractErrorView::Unauthorized) && post
            == pre
    } else if funds.len() > 0 {
        res == Err::<ResponseView, ContractErrorView>(ContractErrorView::ExecuteWithFunds) && post
            == pre
    } else if !pre.asks.contains_key(ask_id) || !pre.bids.contains_key(bid_id) || !executable(
        pre.asks[ask_id],
        pre.bids[bid_id],
    ) {
        res == Err::<ResponseView, ContractErrorView>(ContractErrorView::AskBidMismatch) && post
            == pre
    } else {
        let ask = pre.asks[ask_id];
        let bid = pre.bids[bid_id];
        &&& post.contract_info == pre.contract_info
        &&& post.asks == pre.asks.remove(ask_id)
        &&& post.bids == pre.bids.remove(bid_id)
        &&& res matches Ok(resp) && resp == (ResponseView {
            messages: seq![
                InstructionView::TransferFunds { to_address: ask.owner, amount: ask.quote },
                base_release_instruction(bid.base, bid.owner),
            ],
            attributes: seq![AttributeView { key: "action"@, value: "execute"@ }],
        })
    }
}

/// Settles an ask against a bid: sends the asked price to the asker and the
/// traded asset to the bidder, atomically with removing both orders.
pub fn execute_match(
    state: &mut ContractState,
    _env: &Env,
    info: &MessageInfo,
    ask_id: String,
    bid_id: String,
) -> (r: Result<Response, ContractError>)
    ensures
        execute_match_post(
            old(state)@,
            final(state)@,
            info.sender@,
            coins_view(info.funds@),
            ask_id@,
            bid_id@,
            res_view(r),
        ),
{
    let contract_info = match get_contract_info(state) {
        Some(i) => i,
        None => {
            return Err(ContractError::Std {
                message: String::from_str("contract info not found"),
            });
        },
    };
    if !String::eq(&info.sender, &contract_info.admin) {
        return Err(ContractError::Unauthorized);
    }
    if ask_id.as_str().is_empty() || bid_id.as_str().is_empty() {
        return Err(ContractError::Unauthorized);
    }
    if info.funds.len() > 0 {
        proof {
            assert(coins_view(info.funds@).len() > 0);
        }
        return Err(ContractError::ExecuteWithFunds);
    }
    proof {
        assert(coins_view(info.funds@).len() == 0);
    }
    let ask_order = match state.asks.get(ask_id.as_str()) {
        Some(o) => o.clone_order(),
        None => {
            return Err(ContractError::AskBidMismatch);
        },
    };
    let bid_order = match state.bids.get(bid_id.as_str()) {
        Some(o) => o.clone_order(),
        None => {
            return Err(ContractError::AskBidMismatch);
        },
    };
    if !is_executable(&ask_order, &bid_order) {
        return Err(ContractError::AskBidMismatch);
    }
    proof {
        lemma_map_values_remove(state.asks@, |o: AskOrderV2| o@, ask_id@);
    }
    state.asks.remove(ask_id.as_str());
    proof {
        lemma_map_values_remove(state.bids@, |o: BidOrderV2| o@, bid_id@);
    }
    state.bids.remove(bid_id.as_str());
    let price_transfer = Instruction::TransferFunds {
        to_address: ask_order.owner,
        amount: ask_order.quote,
    };
    let bid_owner = bid_order.owner;
    let base_release = match bid_order.base {
        BaseType::Coin { coins } => Instruction::TransferFunds {
            to_address: bid_owner,
            amount: coins,
        },
        BaseType::Scope { scope_address } => Instruction::ReassignScopeOwner {
            scope_address,
            new_owner: bid_owner,
        },
    };
    let response = Response {
        messages: vec![price_transfer, base_release],
        attributes: vec![attr("action", "execute")],
    };
    proof {
        let ask = old(state)@.asks[ask_id@];
        let bid = old(state)@.bids[bid_id@];
        assert(response@.messages =~= seq![
            InstructionView::TransferFunds { to_address: ask.owner, amount: ask.quote },
            base_release_instruction(bid.base, bid.owner),
        ]);
        assert(response@.attributes =~= seq![
            AttributeView { key: "action"@, value: "execute"@ },
        ]);
    }
    Ok(response)
}

/// The answer to a read-only query.
#[derive(Clone, Debug)]
pub enum QueryResult {
    Ask(AskOrderV2),
    Bid(BidOrderV2),
    Info(ContractInfo),
}

/// The mathematical value of a [`QueryResult`].
pub ghost enum QueryResultView {
    Ask(AskOrderV2View),
    Bid(BidOrderV2View),
    Info(ContractInfoView),
}

impl View for QueryResult {
    type V = QueryResultView;

    open spec fn view(&self) -> QueryResultView {
        match self {
            QueryResult::Ask(o) => QueryResultView::Ask(o@),
            QueryResult::Bid(o) => QueryResultView::Bid(o@),
            QueryResult::Info(i) => QueryResultView::Info(i@),
        }
    }
}

/// Answers a read-only query; absence surfaces as a host-style error and
/// never changes state.
pub fn query(state: &ContractState, msg: QueryMsg) -> (r: Result<QueryResult, ContractError>)
    ensures
        match msg {
            QueryMsg::GetAsk { id } => match r {
                Ok(q) => state@.asks.contains_key(id@) && q@ == QueryResultView::Ask(
                    state@.asks[id@],
                ),
                Err(e) => !state@.asks.contains_key(id@) && e@ == (ContractErrorView::Std {
                    message: "ask order not found"@,
                }),
            },
            QueryMsg::GetBid { id } => match r {
                Ok(q) => state@.bids.contains_key(id@) && q@ == QueryResultView::Bid(
                    state@.bids[id@],
                ),
                Err(e) => !state@.bids.contains_key(id@) && e@ == (ContractErrorView::Std {
                    message: "bid order not found"@,
                }),
            },
            QueryMsg::GetContractInfo {  } => match r {
                Ok(q) => state@.contract_info matches Some(i) && q@ == QueryResultView::Info(i),
                Err(e) => state@.contract_info is None && e@ == (ContractErrorView::Std {
                    message: "contract info not found"@,
                }),
            },
        },
{
    match msg {
        QueryMsg::GetAsk { id } => match get_ask(state, &id) {
            Some(o) => Ok(QueryResult::Ask(o)),
            None => Err(ContractError::Std { message: String::from_str("ask order not found") }),
        },
        QueryMsg::GetBid { id } => match get_bid(state, &id) {
            Some(o) => Ok(QueryResult::Bid(o)),
            None => Err(ContractError::Std { message: String::from_str("bid order not found") }),
        },
        QueryMsg::GetContractInfo {  } => match get_contract_info(state) {
            Some(i) => Ok(QueryResult::Info(i)),
            None => Err(ContractError::Std {
                message: String::from_str("contract info not found"),
            }),
        },
    }
}

/// What migration does: it only stamps the current code version into the
/// configuration; orders are never touched.
pub open spec fn migrate_post(
    pre: StateView,
    post: StateView,
    res: Result<ResponseView, ContractErrorView>,
) -> bool {
    if pre.contract_info is None {
        res == Err::<ResponseView, ContractErrorView>(ContractErrorView::Std {
            message: "contract info not found"@,
        }) && post == pre
    } else {
        let info = pre.contract_info.unwrap();
        &&& post.asks == pre.asks
        &&& post.bids == pre.bids
        &&& post.contract_info == Some(ContractInfoView {
            admin: info.admin,
            bind_name: info.bind_name,
            contract_name: info.contract_name,
            contract_type: info.contract_type,
            contract_version: contract_version_spec(),
            ask_fee: info.ask_fee,
            bid_fee: info.bid_fee,
        })
        &&& res matches Ok(resp) && resp == (ResponseView {
            messages: Seq::<InstructionView>::empty(),
            attributes: seq![AttributeView { key: "action"@, value: "migrate"@ }],
        })
    }
}

/// Stamps the running code's version into the stored configuration.
pub fn migrate_new_version(state: &mut ContractState) -> (r: Result<Response, ContractError>)
    ensures
        migrate_post(old(state)@, final(state)@, res_view(r)),
{
    let contract_info = match get_contract_info(state) {
        Some(i) => i,
        None => {
            return Err(ContractError::Std {
                message: String::from_str("contract info not found"),
            });
        },
    };
    state.contract_info = Some(ContractInfo {
        admin: contract_info.admin,
        bind_name: contract_info.bind_name,
        contract_name: contract_info.contract_name,
        contract_type: contract_info.contract_type,
        contract_version: contract_version(),
        ask_fee: contract_info.ask_fee,
        bid_fee: contract_info.bid_fee,
    });
    let response = Response {
        messages: Vec::new(),
        attributes: vec![attr("action", "migrate")],
    };
    proof {
        assert(response@.messages =~= Seq::<InstructionView>::empty());
        assert(response@.attributes =~= seq![
            AttributeView { key: "action"@, value: "migrate"@ },
        ]);
    }
    Ok(response)
}

/// Routes a migration request.
pub fn migrate(state: &mut ContractState, msg: MigrateMsg) -> (r: Result<Response, ContractError>)
    ensures
        migrate_post(old(state)@, final(state)@, res_view(r)),
{
    match msg {
        MigrateMsg::NewVersion {  } => migrate_new_version(state),
    }
}

/// Routes an execute request to the operation it names.  For a `CreateAsk`
/// that names an external asset, `scope` is the host's record for that
/// address (`None` when the host has none); it is ignored by every other
/// request.
pub fn execute(
    state: &mut ContractState,
    env: &Env,
    info: &MessageInfo,
    msg: ExecuteMsg,
    scope: Option<Scope>,
) -> (r: Result<Response, ContractError>)
    ensures
        match msg {
            ExecuteMsg::CreateAsk { id, quote, scope_address } => create_ask_post(
                old(state)@,
                final(state)@,
                env.contract_address@,
                info.sender@,
                coins_view(info.funds@),
                id@,
                coins_view(quote@),
                opt_string_view(scope_address),
                opt_scope_view(scope),
                res_view(r),
            ),
            ExecuteMsg::CreateBid { id, base, effective_time } => create_bid_post(
                old(state)@,
                final(state)@,
                env.contract_address@,
                info.sender@,
                coins_view(info.funds@),
                id@,
                base@,
                effective_time,
                res_view(r),
            ),
            ExecuteMsg::CancelAsk { id } => cancel_ask_post(
                old(state)@,
                final(state)@,
                info.sender@,
                coins_view(info.funds@),
                id@,
                res_view(r),
            ),
            ExecuteMsg::CancelBid { id } => cancel_bid_post(
                old(state)@,
                final(state)@,
                info.sender@,
                coins_view(info.funds@),
                id@,
                res_view(r),
            ),
            ExecuteMsg::UpdateFees { ask_fee, bid_fee } => update_fees_post(
                old(state)@,
                final(state)@,
                info.sender@,
                coins_view(info.funds@),
                ask_fee,
                bid_fee,
                res_view(r),
            ),
            ExecuteMsg::ExecuteMatch { ask_id, bid_id } => execute_match_post(
                old(state)@,
                final(state)@,
                info.sender@,
                coins_view(info.funds@),
                ask_id@,
                bid_id@,
                res_view(r),
            ),
        },
{
    match msg {
        ExecuteMsg::CreateAsk { id, quote, scope_address } => create_ask(
            state,
            env,
            info,
            id,
            quote,
            scope_address,
            scope,
        ),
        ExecuteMsg::CreateBid { id, base, effective_time } => create_bid(
            state,
            env,
            info,
            id,
            base,
            effective_time,
        ),
        ExecuteMsg::CancelAsk { id } => cancel_ask(state, env, info, id),
        ExecuteMsg::CancelBid { id } => cancel_bid(state, env, info, id),
        ExecuteMsg::UpdateFees { ask_fee, bid_fee } => update_fees(state, info, ask_fee, bid_fee),
        ExecuteMsg::ExecuteMatch { ask_id, bid_id } => execute_match(
            state,
            env,
            info,
            ask_id,
            bid_id,
        ),
    }
}

} // verus!
