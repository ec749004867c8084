//! Tests of the bilateral trade engine: the match predicate, order
//! lifecycle, fees, and settlement.

use bilateral_trade::coin::Coin;
use bilateral_trade::contract::{
    instantiate, execute, get_ask, get_bid, get_contract_info, query, update_fees, ContractState,
    Env, MessageInfo, QueryResult,
};
use bilateral_trade::contract_info::ContractInfo;
use bilateral_trade::error::ContractError;
use bilateral_trade::instructions::Instruction;
use bilateral_trade::match_engine::is_executable;
use bilateral_trade::msg::{ExecuteMsg, InstantiateMsg, QueryMsg};
use bilateral_trade::orders::{AskOrderV2, BaseType, BidOrderV2};
use bilateral_trade::scope::{Party, PartyType, Scope};

const MOCK_CONTRACT_ADDR: &str = "cosmos2contract";

fn coin(amount: u128, denom: &str) -> Coin {
    Coin { denom: denom.to_string(), amount }
}

fn coins(amount: u128, denom: &str) -> Vec<Coin> {
    vec![coin(amount, denom)]
}

fn mock_env() -> Env {
    Env { contract_address: MOCK_CONTRACT_ADDR.to_string() }
}

fn mock_info(sender: &str, funds: &[Coin]) -> MessageInfo {
    MessageInfo { sender: sender.to_string(), funds: funds.to_vec() }
}

fn instantiated_state(ask_fee: Option<u128>, bid_fee: Option<u128>) -> ContractState {
    let mut state = ContractState::new();
    state.contract_info = Some(ContractInfo::new(
        "contract_admin".to_string(),
        "contract_bind_name".to_string(),
        "contract_name".to_string(),
        ask_fee,
        bid_fee,
    ));
    state
}

#[test]
fn test_is_executable() {
    assert!(is_executable(
        &AskOrderV2 {
            base: BaseType::coin(100, "base_1".to_string()),
            id: "ask_id".to_string(),
            owner: "asker".to_string(),
            quote: coins(100, "quote_1"),
        },
        &BidOrderV2 {
            base: BaseType::coin(100, "base_1".to_string()),
            effective_time: Some(0),
            id: "bid_id".to_string(),
            owner: "bidder".to_string(),
            quote: coins(100, "quote_1"),
        }
    ));
    assert!(is_executable(
        &AskOrderV2 {
            base: BaseType::coins(vec![coin(100, "base_1"), coin(200, "base_2")]),
            id: "ask_id".to_string(),
            owner: "asker".to_string(),
            quote: coins(100, "quote_1"),
        },
        &BidOrderV2 {
            base: BaseType::coins(vec![coin(200, "base_2"), coin(100, "base_1")]),
            effective_time: Some(0),
            id: "bid_id".to_string(),
            owner: "bidder".to_string(),
            quote: coins(100, "quote_1"),
        }
    ));
    assert!(is_executable(
        &AskOrderV2 {
            base: BaseType::scope("scope1234".to_string()),
            id: "ask_id".to_string(),
            owner: "asker".to_string(),
            quote: coins(100, "quote_1"),
        },
        &BidOrderV2 {
            base: BaseType::scope("scope1234".to_string()),
            effective_time: Some(0),
            id: "bid_id".to_string(),
            owner: "bidder".to_string(),
            quote: coins(100, "quote_1"),
        }
    ));
    assert!(!is_executable(
        &AskOrderV2 {
            base: BaseType::coin(100, "base_1".to_string()),
            id: "ask_id".to_string(),
            owner: "asker".to_string(),
            quote: coins(100, "quote_1"),
        },
        &BidOrderV2 {
            base: BaseType::coin(100, "base_2".to_string()),
            effective_time: Some(0),
            id: "bid_id".to_string(),
            owner: "bidder".to_string(),
            quote: coins(100, "quote_1"),
        }
    ));
    assert!(!is_executable(
        &AskOrderV2 {
            base: BaseType::coin(100, "base_1".to_string()),
            id: "ask_id".to_string(),
            owner: "asker".to_string(),
            quote: coins(100, "quote_1"),
        },
        &BidOrderV2 {
            base: BaseType::coin(100, "base_1".to_string()),
            effective_time: Some(0),
            id: "bid_id".to_string(),
            owner: "bidder".to_string(),
            quote: coins(100, "quote_2"),
        }
    ));
    assert!(!is_executable(
        &AskOrderV2 {
            base: BaseType::scope("scope1234".to_string()),
            id: "ask_id".to_string(),
            owner: "asker".to_string(),
            quote: coins(100, "quote_1"),
        },
        &BidOrderV2 {
            base: BaseType::coin(100, "base_1".to_string()),
            effective_time: Some(0),
            id: "bid_id".to_string(),
            owner: "bidder".to_string(),
            quote: coins(100, "quote_1"),
        }
    ));
    assert!(!is_executable(
        &AskOrderV2 {
            base: BaseType::scope("scope1234".to_string()),
            id: "ask_id".to_string(),
            owner: "asker".to_string(),
            quote: coins(100, "quote_1"),
        },
        &BidOrderV2 {
            base: BaseType::scope("scope4321".to_string()),
            effective_time: Some(0),
            id: "bid_id".to_string(),
            owner: "bidder".to_string(),
            quote: coins(100, "quote_1"),
        }
    ));
}

#[test]
fn instantiate_with_valid_data() {
    let mut state = ContractState::new();
    let info = mock_info("contract_admin", &[]);
    let init_msg = InstantiateMsg {
        bind_name: "contract_bind_name".to_string(),
        contract_name: "contract_name".to_string(),
        ask_fee: None,
        bid_fee: None,
    };
    let init_response = instantiate(&mut state, &mock_env(), &info, init_msg).unwrap();
    assert_eq!(init_response.messages.len(), 1);
    match &init_response.messages[0] {
        Instruction::BindName { name, address, restricted } => {
            assert_eq!(name, "contract_bind_name");
            assert_eq!(address, MOCK_CONTRACT_ADDR);
            assert!(restricted);
        }
        msg => panic!("unexpected instruction: {:?}", msg),
    }
    let expected_contract_info = ContractInfo::new(
        "contract_admin".to_string(),
        "contract_bind_name".to_string(),
        "contract_name".to_string(),
        None,
        None,
    );
    assert_eq!(init_response.attributes.len(), 2);
    assert_eq!(init_response.attributes[0].key, "contract_info");
    assert_eq!(init_response.attributes[0].value, expected_contract_info.describe());
    assert_eq!(init_response.attributes[1].key, "action");
    assert_eq!(init_response.attributes[1].value, "init");
    let contract_info = get_contract_info(&state).unwrap();
    assert_eq!(contract_info.admin, "contract_admin");
    assert_eq!(contract_info.bind_name, "contract_bind_name");
    assert_eq!(contract_info.contract_name, "contract_name");
    assert_eq!(contract_info.ask_fee, None);
    assert_eq!(contract_info.bid_fee, None);
}

#[test]
fn instantiate_with_invalid_data() {
    let mut state = ContractState::new();
    let info = mock_info("contract_owner", &[]);
    let err = instantiate(
        &mut state,
        &mock_env(),
        &info,
        InstantiateMsg {
            bind_name: "".to_string(),
            contract_name: "contract_name".to_string(),
            ask_fee: None,
            bid_fee: None,
        },
    )
    .unwrap_err();
    match err {
        ContractError::MissingField { field } => assert_eq!(field, "bind_name"),
        error => panic!("unexpected error: {:?}", error),
    }
    let err = instantiate(
        &mut state,
        &mock_env(),
        &info,
        InstantiateMsg {
            bind_name: "bind_name".to_string(),
            contract_name: "".to_string(),
            ask_fee: None,
            bid_fee: None,
        },
    )
    .unwrap_err();
    match err {
        ContractError::MissingField { field } => assert_eq!(field, "contract_name"),
        error => panic!("unexpected error: {:?}", error),
    }
    let err = instantiate(
        &mut state,
        &mock_env(),
        &info,
        InstantiateMsg {
            bind_name: "bind_name".to_string(),
            contract_name: "contract_name".to_string(),
            ask_fee: Some(0),
            bid_fee: None,
        },
    )
    .unwrap_err();
    match err {
        ContractError::InvalidFee { fee_type } => assert_eq!(fee_type, "ask"),
        error => panic!("unexpected error: {:?}", error),
    }
    let err = instantiate(
        &mut state,
        &mock_env(),
        &info,
        InstantiateMsg {
            bind_name: "bind_name".to_string(),
            contract_name: "contract_name".to_string(),
            ask_fee: Some(100),
            bid_fee: Some(0),
        },
    )
    .unwrap_err();
    match err {
        ContractError::InvalidFee { fee_type } => assert_eq!(fee_type, "bid"),
        error => panic!("unexpected error: {:?}", error),
    }
}

fn test_valid_coin_ask(ask_fee: Option<u128>) {
    let mut state = instantiated_state(ask_fee, None);
    let asker_info = mock_info("asker", &coins(2, "base_1"));
    let create_ask_msg = ExecuteMsg::CreateAsk {
        id: "ask_id".to_string(),
        quote: coins(100, "quote_1"),
        scope_address: None,
    };
    let response = execute(&mut state, &mock_env(), &asker_info, create_ask_msg, None).unwrap();
    assert_eq!(response.attributes[0].key, "action");
    assert_eq!(response.attributes[0].value, "create_ask");
    if let Some(fee) = ask_fee {
        assert_eq!(response.attributes.len(), 2);
        assert_eq!(response.attributes[1].key, "fee_charged");
        assert_eq!(response.attributes[1].value, format!("{}nhash", fee));
        assert_eq!(response.messages.len(), 1);
        match &response.messages[0] {
            Instruction::ChargeFee { amount, fee_name, from, recipient } => {
                assert_eq!(amount.amount, fee);
                assert_eq!(amount.denom, "nhash");
                assert_eq!(fee_name, "Ask creation fee");
                assert_eq!(from, MOCK_CONTRACT_ADDR);
                assert_eq!(recipient, "contract_admin");
            }
            msg => panic!("unexpected instruction: {:?}", msg),
        }
    } else {
        assert_eq!(response.attributes.len(), 1);
        assert_eq!(response.messages.len(), 0);
    }
    let stored = get_ask(&state, &"ask_id".to_string()).expect("the ask should be stored");
    assert_eq!(stored.id, "ask_id");
    assert_eq!(stored.owner, "asker");
    match stored.base {
        BaseType::Coin { coins: base_coins } => {
            assert_eq!(base_coins.len(), 1);
            assert_eq!(base_coins[0].denom, "base_1");
            assert_eq!(base_coins[0].amount, 2);
        }
        base => panic!("unexpected base: {:?}", base),
    }
    assert_eq!(stored.quote.len(), 1);
    assert_eq!(stored.quote[0].denom, "quote_1");
    assert_eq!(stored.quote[0].amount, 100);
}

#[test]
fn create_ask_for_coin_with_valid_data_no_fee() {
    test_valid_coin_ask(None);
}

#[test]
fn create_ask_for_coin_with_valid_data_and_fee() {
    test_valid_coin_ask(Some(500));
}

fn contract_owned_scope() -> Scope {
    Scope {
        scope_id: "scope_address".to_string(),
        owners: vec![Party {
            address: MOCK_CONTRACT_ADDR.to_string(),
            role: PartyType::Owner,
        }],
        value_owner_address: MOCK_CONTRACT_ADDR.to_string(),
    }
}

fn test_valid_scope_ask(ask_fee: Option<u128>) {
    let mut state = instantiated_state(ask_fee, None);
    let asker_info = mock_info("asker", &[]);
    let create_ask_msg = ExecuteMsg::CreateAsk {
        id: "ask_id".to_string(),
        quote: coins(100, "quote_1"),
        scope_address: Some("scope_address".to_string()),
    };
    let response = execute(
        &mut state,
        &mock_env(),
        &asker_info,
        create_ask_msg,
        Some(contract_owned_scope()),
    )
    .unwrap();
    if let Some(fee) = ask_fee {
        assert_eq!(response.messages.len(), 1);
        match &response.messages[0] {
            Instruction::ChargeFee { amount, .. } => assert_eq!(amount.amount, fee),
            msg => panic!("unexpected instruction: {:?}", msg),
        }
    } else {
        assert_eq!(response.messages.len(), 0);
    }
    let stored = get_ask(&state, &"ask_id".to_string()).expect("the ask should be stored");
    match stored.base {
        BaseType::Scope { scope_address } => assert_eq!(scope_address, "scope_address"),
        base => panic!("unexpected base: {:?}", base),
    }
}

#[test]
fn test_create_ask_for_scope_with_valid_data_no_fee() {
    test_valid_scope_ask(None);
}

#[test]
fn test_create_ask_for_scope_with_valid_data_and_fee() {
    test_valid_scope_ask(Some(1000000));
}

#[test]
fn create_ask_with_invalid_data() {
    let mut state = instantiated_state(None, None);

    // create ask with empty id and empty quote
    let err = execute(
        &mut state,
        &mock_env(),
        &mock_info("asker", &[]),
        ExecuteMsg::CreateAsk { id: "".to_string(), quote: vec![], scope_address: None },
        None,
    )
    .unwrap_err();
    match err {
        ContractError::MissingField { field } => assert_eq!(field, "id"),
        error => panic!("unexpected error: {:?}", error),
    }

    // create ask missing id
    let err = execute(
        &mut state,
        &mock_env(),
        &mock_info("asker", &coins(100, "base_1")),
        ExecuteMsg::CreateAsk {
            id: "".to_string(),
            quote: coins(100, "quote_1"),
            scope_address: None,
        },
        None,
    )
    .unwrap_err();
    match err {
        ContractError::MissingField { field } => assert_eq!(field, "id"),
        error => panic!("unexpected error: {:?}", error),
    }

    // create ask missing quote
    let err = execute(
        &mut state,
        &mock_env(),
        &mock_info("asker", &coins(100, "base_1")),
        ExecuteMsg::CreateAsk { id: "id".to_string(), quote: vec![], scope_address: None },
        None,
    )
    .unwrap_err();
    match err {
        ContractError::MissingField { field } => assert_eq!(field, "quote"),
        error => panic!("unexpected error: {:?}", error),
    }

    // create ask missing base
    let err = execute(
        &mut state,
        &mock_env(),
        &mock_info("asker", &[]),
        ExecuteMsg::CreateAsk {
            id: "id".to_string(),
            quote: coins(100, "quote_1"),
            scope_address: None,
        },
        None,
    )
    .unwrap_err();
    assert!(matches!(err, ContractError::MissingAskBase));

    // create ask with scope and funds provided
    let err = execute(
        &mut state,
        &mock_env(),
        &mock_info("asker", &coins(150, "fakecoin")),
        ExecuteMsg::CreateAsk {
            id: "id".to_string(),
            quote: coins(100, "quote_1"),
            scope_address: Some("scope-address".to_string()),
        },
        None,
    )
    .unwrap_err();
    assert!(matches!(err, ContractError::ScopeAskBaseWithFunds));

    // create ask with scope provided with incorrect value owner address
    let err = execute(
        &mut state,
        &mock_env(),
        &mock_info("asker", &[]),
        ExecuteMsg::CreateAsk {
            id: "id".to_string(),
            quote: coins(100, "quote_1"),
            scope_address: Some("scope_address".to_string()),
        },
        Some(Scope {
            scope_id: "scope_address".to_string(),
            owners: vec![Party {
                address: MOCK_CONTRACT_ADDR.to_string(),
                role: PartyType::Owner,
            }],
            value_owner_address: "not_contract_address".to_string(),
        }),
    )
    .unwrap_err();
    match err {
        ContractError::InvalidScopeOwner { scope_address, explanation } => {
            assert_eq!(
                "scope_address", scope_address,
                "the proper scope address should be found",
            );
            assert_eq!(
                "the scope's value owner was expected to be [cosmos2contract], not [not_contract_address]",
                explanation,
                "the proper explanation must be used in the InvalidScopeOwner error",
            );
        }
        error => panic!("unexpected error: {:?}", error),
    }

    // create ask with scope provided with multiple owners specified
    let err = execute(
        &mut state,
        &mock_env(),
        &mock_info("asker", &[]),
        ExecuteMsg::CreateAsk {
            id: "id".to_string(),
            quote: coins(100, "quote_1"),
            scope_address: Some("scope_address".to_string()),
        },
        Some(Scope {
            scope_id: "scope_address".to_string(),
            owners: vec![
                Party { address: "asker".to_string(), role: PartyType::Owner },
                Party { address: "other-guy".to_string(), role: PartyType::Owner },
            ],
            value_owner_address: MOCK_CONTRACT_ADDR.to_string(),
        }),
    )
    .unwrap_err();
    match err {
        ContractError::InvalidScopeOwner { scope_address, explanation } => {
            assert_eq!("scope_address", scope_address);
            assert_eq!(
                "the scope should only include a single owner, but found: 2", explanation,
                "the proper explanation must be used in the InvalidScopeOwner error",
            );
        }
        error => panic!("unexpected error: {:?}", error),
    }

    // create ask with scope provided with incorrect contract owner specified
    let err = execute(
        &mut state,
        &mock_env(),
        &mock_info("asker", &[]),
        ExecuteMsg::CreateAsk {
            id: "id".to_string(),
            quote: coins(100, "quote_1"),
            scope_address: Some("scope_address".to_string()),
        },
        Some(Scope {
            scope_id: "scope_address".to_string(),
            owners: vec![Party {
                address: "not-contract-address".to_string(),
                role: PartyType::Owner,
            }],
            value_owner_address: MOCK_CONTRACT_ADDR.to_string(),
        }),
    )
    .unwrap_err();
    match err {
        ContractError::InvalidScopeOwner { scope_address, explanation } => {
            assert_eq!("scope_address", scope_address);
            assert_eq!(
                "the scope owner was expected to be [cosmos2contract], not [not-contract-address]",
                explanation,
                "the proper explanation must be used in the InvalidScopeOwner error",
            );
        }
        error => panic!("unexpected error: {:?}", error),
    }
}

fn test_valid_coin_bid(bid_fee: Option<u128>) {
    let mut state = instantiated_state(None, bid_fee);
    let bidder_info = mock_info("bidder", &coins(100, "quote_1"));
    let create_bid_msg = ExecuteMsg::CreateBid {
        id: "bid_id".to_string(),
        base: BaseType::coin(100, "base_1".to_string()),
        effective_time: Some(0),
    };
    let response = execute(&mut state, &mock_env(), &bidder_info, create_bid_msg, None).unwrap();
    assert_eq!(response.attributes[0].key, "action");
    assert_eq!(response.attributes[0].value, "create_bid");
    if let Some(fee) = bid_fee {
        assert_eq!(response.messages.len(), 1);
        match &response.messages[0] {
            Instruction::ChargeFee { amount, fee_name, .. } => {
                assert_eq!(amount.amount, fee);
                assert_eq!(fee_name, "Bid creation fee");
            }
            msg => panic!("unexpected instruction: {:?}", msg),
        }
    } else {
        assert_eq!(response.messages.len(), 0);
    }
    let stored = get_bid(&state, &"bid_id".to_string()).expect("the bid should be stored");
    assert_eq!(stored.owner, "bidder");
    assert_eq!(stored.quote.len(), 1);
    assert_eq!(stored.quote[0].denom, "quote_1");
    assert_eq!(stored.quote[0].amount, 100);
}

#[test]
fn test_create_coin_bid_with_valid_data_no_fee() {
    test_valid_coin_bid(None);
}

#[test]
fn test_create_coin_bid_with_valid_data_and_fee() {
    test_valid_coin_bid(Some(12345));
}

fn test_valid_scope_bid(bid_fee: Option<u128>) {
    let mut state = instantiated_state(None, bid_fee);
    let bidder_info = mock_info("bidder", &coins(100, "quote_1"));
    let create_bid_msg = ExecuteMsg::CreateBid {
        id: "bid_id".to_string(),
        base: BaseType::scope("scope_address".to_string()),
        effective_time: Some(0),
    };
    execute(&mut state, &mock_env(), &bidder_info, create_bid_msg, None).unwrap();
    let stored = get_bid(&state, &"bid_id".to_string()).expect("the bid should be stored");
    match stored.base {
        BaseType::Scope { scope_address } => assert_eq!(scope_address, "scope_address"),
        base => panic!("unexpected base: {:?}", base),
    }
}

#[test]
fn test_create_scope_bid_with_valid_data_no_fee() {
    test_valid_scope_bid(None);
}

#[test]
fn test_create_scope_bid_with_valid_data_and_fee() {
    test_valid_scope_bid(Some(3434234));
}

#[test]
fn create_bid_with_invalid_data() {
    let mut state = instantiated_state(None, None);
    let err = execute(
        &mut state,
        &mock_env(),
        &mock_info("bidder", &coins(100, "quote_1")),
        ExecuteMsg::CreateBid {
            id: "".to_string(),
            base: BaseType::coin(100, "base_1".to_string()),
            effective_time: Some(0),
        },
        None,
    )
    .unwrap_err();
    match err {
        ContractError::MissingField { field } => assert_eq!(field, "id"),
        error => panic!("unexpected error: {:?}", error),
    }
    let err = execute(
        &mut state,
        &mock_env(),
        &mock_info("bidder", &coins(100, "quote_1")),
        ExecuteMsg::CreateBid {
            id: "id".to_string(),
            base: BaseType::coins(vec![]),
            effective_time: Some(0),
        },
        None,
    )
    .unwrap_err();
    match err {
        ContractError::MissingField { field } => assert_eq!(field, "base"),
        error => panic!("unexpected error: {:?}", error),
    }
    let err = execute(
        &mut state,
        &mock_env(),
        &mock_info("bidder", &[]),
        ExecuteMsg::CreateBid {
            id: "id".to_string(),
            base: BaseType::coin(100, "base_1".to_string()),
            effective_time: Some(0),
        },
        None,
    )
    .unwrap_err();
    assert!(matches!(err, ContractError::MissingBidQuote));
}

#[test]
fn cancel_coin_with_valid_data() {
    let mut state = instantiated_state(None, None);
    execute(
        &mut state,
        &mock_env(),
        &mock_info("asker", &coins(200, "base_1")),
        ExecuteMsg::CreateAsk {
            id: "ask_id".to_string(),
            quote: coins(100, "quote_1"),
            scope_address: None,
        },
        None,
    )
    .unwrap();
    assert!(get_ask(&state, &"ask_id".to_string()).is_some());

    let cancel_ask_response = execute(
        &mut state,
        &mock_env(),
        &mock_info("asker", &[]),
        ExecuteMsg::CancelAsk { id: "ask_id".to_string() },
        None,
    )
    .unwrap();
    assert_eq!(cancel_ask_response.attributes.len(), 1);
    assert_eq!(cancel_ask_response.attributes[0].key, "action");
    assert_eq!(cancel_ask_response.attributes[0].value, "cancel_ask");
    assert_eq!(cancel_ask_response.messages.len(), 1);
    match &cancel_ask_response.messages[0] {
        Instruction::TransferFunds { to_address, amount } => {
            assert_eq!(to_address, "asker");
            assert_eq!(amount.len(), 1);
            assert_eq!(amount[0].denom, "base_1");
            assert_eq!(amount[0].amount, 200);
        }
        msg => panic!("unexpected instruction: {:?}", msg),
    }
    assert!(get_ask(&state, &"ask_id".to_string()).is_none());

    execute(
        &mut state,
        &mock_env(),
        &mock_info("bidder", &coins(100, "quote_1")),
        ExecuteMsg::CreateBid {
            id: "bid_id".to_string(),
            base: BaseType::coins(vec![coin(200, "base_1")]),
            effective_time: Some(0),
        },
        None,
    )
    .unwrap();
    assert!(get_bid(&state, &"bid_id".to_string()).is_some());

    let cancel_bid_response = execute(
        &mut state,
        &mock_env(),
        &mock_info("bidder", &[]),
        ExecuteMsg::CancelBid { id: "bid_id".to_string() },
        None,
    )
    .unwrap();
    assert_eq!(cancel_bid_response.attributes.len(), 1);
    assert_eq!(cancel_bid_response.attributes[0].key, "action");
    assert_eq!(cancel_bid_response.attributes[0].value, "cancel_bid");
    assert_eq!(cancel_bid_response.messages.len(), 1);
    match &cancel_bid_response.messages[0] {
        Instruction::TransferFunds { to_address, amount } => {
            assert_eq!(to_address, "bidder");
            assert_eq!(amount.len(), 1);
            assert_eq!(amount[0].denom, "quote_1");
            assert_eq!(amount[0].amount, 100);
        }
        msg => panic!("unexpected instruction: {:?}", msg),
    }
    assert!(get_bid(&state, &"bid_id".to_string()).is_none());
}

#[test]
fn cancel_scope_with_valid_data() {
    let mut state = instantiated_state(None, None);
    execute(
        &mut state,
        &mock_env(),
        &mock_info("asker", &[]),
        ExecuteMsg::CreateAsk {
            id: "ask_id".to_string(),
            quote: coins(100, "quote_1"),
            scope_address: Some("scope_address".to_string()),
        },
        Some(contract_owned_scope()),
    )
    .unwrap();
    assert!(get_ask(&state, &"ask_id".to_string()).is_some());

    let cancel_ask_response = execute(
        &mut state,
        &mock_env(),
        &mock_info("asker", &[]),
        ExecuteMsg::CancelAsk { id: "ask_id".to_string() },
        None,
    )
    .unwrap();
    assert_eq!(cancel_ask_response.attributes.len(), 1);
    assert_eq!(cancel_ask_response.attributes[0].key, "action");
    assert_eq!(cancel_ask_response.attributes[0].value, "cancel_ask");
    assert_eq!(cancel_ask_response.messages.len(), 1);
    match &cancel_ask_response.messages[0] {
        Instruction::ReassignScopeOwner { scope_address, new_owner } => {
            assert_eq!(
                scope_address, "scope_address",
                "expected the stored scope address to be reassigned",
            );
            assert_eq!(
                new_owner, "asker",
                "expected the asker to be set as the scope owner after a cancellation",
            );
        }
        msg => panic!("unexpected instruction: {:?}", msg),
    }
    assert!(get_ask(&state, &"ask_id".to_string()).is_none());

    execute(
        &mut state,
        &mock_env(),
        &mock_info("bidder", &coins(100, "quote_1")),
        ExecuteMsg::CreateBid {
            id: "bid_id".to_string(),
            base: BaseType::scope("scope_address".to_string()),
            effective_time: Some(0),
        },
        None,
    )
    .unwrap();
    assert!(get_bid(&state, &"bid_id".to_string()).is_some());

    let cancel_bid_response = execute(
        &mut state,
        &mock_env(),
        &mock_info("bidder", &[]),
        ExecuteMsg::CancelBid { id: "bid_id".to_string() },
        None,
    )
    .unwrap();
    assert_eq!(cancel_bid_response.attributes.len(), 1);
    assert_eq!(cancel_bid_response.messages.len(), 1);
    match &cancel_bid_response.messages[0] {
        Instruction::TransferFunds { to_address, amount } => {
            assert_eq!(to_address, "bidder");
            assert_eq!(amount[0].denom, "quote_1");
            assert_eq!(amount[0].amount, 100);
        }
        msg => panic!("unexpected instruction: {:?}", msg),
    }
    assert!(get_bid(&state, &"bid_id".to_string()).is_none());
}

#[test]
fn cancel_with_invalid_data() {
    let mut state = instantiated_state(None, None);

    // cancel ask order with missing id returns Unauthorized
    let err = execute(
        &mut state,
        &mock_env(),
        &mock_info("asker", &[]),
        ExecuteMsg::CancelAsk { id: "".to_string() },
        None,
    )
    .unwrap_err();
    assert!(matches!(err, ContractError::Unauthorized));

    // cancel non-existent ask order returns Unauthorized
    let err = execute(
        &mut state,
        &mock_env(),
        &mock_info("asker", &[]),
        ExecuteMsg::CancelAsk { id: "unknown_id".to_string() },
        None,
    )
    .unwrap_err();
    assert!(matches!(err, ContractError::Unauthorized));

    // cancel ask order with sender not equal to owner returns Unauthorized
    state.asks.insert(
        "ask_id".to_string(),
        AskOrderV2 {
            base: BaseType::coin(200, "base_1".to_string()),
            id: "ask_id".to_string(),
            owner: "".to_string(),
            quote: coins(100, "quote_1"),
        },
    );
    let err = execute(
        &mut state,
        &mock_env(),
        &mock_info("asker", &[]),
        ExecuteMsg::CancelAsk { id: "ask_id".to_string() },
        None,
    )
    .unwrap_err();
    assert!(matches!(err, ContractError::Unauthorized));

    // cancel ask order with sent funds returns CancelWithFunds
    let err = execute(
        &mut state,
        &mock_env(),
        &mock_info("asker", &coins(1, "sent_coin")),
        ExecuteMsg::CancelAsk { id: "ask_id".to_string() },
        None,
    )
    .unwrap_err();
    assert!(matches!(err, ContractError::CancelWithFunds));
}

#[test]
fn execute_match_with_valid_coin_data() {
    let mut state = instantiated_state(None, None);
    state.asks.insert(
        "ask_id".to_string(),
        AskOrderV2 {
            base: BaseType::coins(vec![coin(100, "base_1"), coin(200, "base_2")]),
            id: "ask_id".to_string(),
            owner: "asker".to_string(),
            quote: coins(200, "quote_1"),
        },
    );
    state.bids.insert(
        "bid_id".to_string(),
        BidOrderV2 {
            base: BaseType::coins(vec![coin(200, "base_2"), coin(100, "base_1")]),
            effective_time: Some(0),
            id: "bid_id".to_string(),
            owner: "bidder".to_string(),
            quote: coins(200, "quote_1"),
        },
    );
    let execute_response = execute(
        &mut state,
        &mock_env(),
        &mock_info("contract_admin", &[]),
        ExecuteMsg::ExecuteMatch { ask_id: "ask_id".to_string(), bid_id: "bid_id".to_string() },
        None,
    )
    .unwrap();
    assert_eq!(execute_response.attributes.len(), 1);
    assert_eq!(execute_response.attributes[0].key, "action");
    assert_eq!(execute_response.attributes[0].value, "execute");
    assert_eq!(execute_response.messages.len(), 2);
    match &execute_response.messages[0] {
        Instruction::TransferFunds { to_address, amount } => {
            assert_eq!(to_address, "asker");
            assert_eq!(amount[0].denom, "quote_1");
            assert_eq!(amount[0].amount, 200);
        }
        msg => panic!("unexpected instruction: {:?}", msg),
    }
    match &execute_response.messages[1] {
        Instruction::TransferFunds { to_address, amount } => {
            assert_eq!(to_address, "bidder");
            assert_eq!(amount.len(), 2);
            assert_eq!(amount[0].denom, "base_2");
            assert_eq!(amount[0].amount, 200);
            assert_eq!(amount[1].denom, "base_1");
            assert_eq!(amount[1].amount, 100);
        }
        msg => panic!("unexpected instruction: {:?}", msg),
    }
    assert!(get_ask(&state, &"ask_id".to_string()).is_none());
    assert!(get_bid(&state, &"bid_id".to_string()).is_none());
}

#[test]
fn execute_match_with_valid_scope_data() {
    let mut state = instantiated_state(None, None);
    state.asks.insert(
        "ask_id".to_string(),
        AskOrderV2 {
            base: BaseType::scope("scope_address".to_string()),
            id: "ask_id".to_string(),
            owner: "asker".to_string(),
            quote: coins(200, "quote_1"),
        },
    );
    state.bids.insert(
        "bid_id".to_string(),
        BidOrderV2 {
            base: BaseType::scope("scope_address".to_string()),
            effective_time: Some(0),
            id: "bid_id".to_string(),
            owner: "bidder".to_string(),
            quote: coins(200, "quote_1"),
        },
    );
    let execute_response = execute(
        &mut state,
        &mock_env(),
        &mock_info("contract_admin", &[]),
        ExecuteMsg::ExecuteMatch { ask_id: "ask_id".to_string(), bid_id: "bid_id".to_string() },
        None,
    )
    .unwrap();
    assert_eq!(execute_response.attributes.len(), 1);
    assert_eq!(execute_response.attributes[0].value, "execute");
    assert_eq!(execute_response.messages.len(), 2);
    match &execute_response.messages[0] {
        Instruction::TransferFunds { to_address, amount } => {
            assert_eq!(to_address, "asker");
            assert_eq!(amount[0].amount, 200);
        }
        msg => panic!("unexpected instruction: {:?}", msg),
    }
    match &execute_response.messages[1] {
        Instruction::ReassignScopeOwner { scope_address, new_owner } => {
            assert_eq!(scope_address, "scope_address");
            assert_eq!(new_owner, "bidder");
        }
        msg => panic!("unexpected instruction: {:?}", msg),
    }
    assert!(get_ask(&state, &"ask_id".to_string()).is_none());
    assert!(get_bid(&state, &"bid_id".to_string()).is_none());
}

#[test]
fn execute_match_with_invalid_coin_data() {
    let mut state = instantiated_state(None, None);
    state.asks.insert(
        "ask_id".to_string(),
        AskOrderV2 {
            base: BaseType::coin(200, "base_1".to_string()),
            id: "ask_id".to_string(),
            owner: "asker".to_string(),
            quote: coins(100, "quote_1"),
        },
    );
    state.bids.insert(
        "bid_id".to_string(),
        BidOrderV2 {
            base: BaseType::coin(100, "base_1".to_string()),
            effective_time: Some(0),
            id: "bid_id".to_string(),
            owner: "bidder".to_string(),
            quote: coins(100, "quote_1"),
        },
    );

    // execute by non-admin
    let err = execute(
        &mut state,
        &mock_env(),
        &mock_info("bidder", &[]),
        ExecuteMsg::ExecuteMatch { ask_id: "ask_id".to_string(), bid_id: "bid_id".to_string() },
        None,
    )
    .unwrap_err();
    assert!(matches!(err, ContractError::Unauthorized));

    // execute on mismatched orders
    let err = execute(
        &mut state,
        &mock_env(),
        &mock_info("contract_admin", &[]),
        ExecuteMsg::ExecuteMatch { ask_id: "ask_id".to_string(), bid_id: "bid_id".to_string() },
        None,
    )
    .unwrap_err();
    assert!(matches!(err, ContractError::AskBidMismatch));

    // execute on non-existent ask
    let err = execute(
        &mut state,
        &mock_env(),
        &mock_info("contract_admin", &[]),
        ExecuteMsg::ExecuteMatch {
            ask_id: "no_ask_id".to_string(),
            bid_id: "bid_id".to_string(),
        },
        None,
    )
    .unwrap_err();
    assert!(matches!(err, ContractError::AskBidMismatch));

    // execute on non-existent bid
    let err = execute(
        &mut state,
        &mock_env(),
        &mock_info("contract_admin", &[]),
        ExecuteMsg::ExecuteMatch {
            ask_id: "ask_id".to_string(),
            bid_id: "no_bid_id".to_string(),
        },
        None,
    )
    .unwrap_err();
    assert!(matches!(err, ContractError::AskBidMismatch));

    // execute with sent funds
    let err = execute(
        &mut state,
        &mock_env(),
        &mock_info("contract_admin", &coins(100, "quote_1")),
        ExecuteMsg::ExecuteMatch { ask_id: "ask_id".to_string(), bid_id: "bid_id".to_string() },
        None,
    )
    .unwrap_err();
    assert!(matches!(err, ContractError::ExecuteWithFunds));
}

#[test]
fn execute_match_with_invalid_scope_data() {
    let mut state = instantiated_state(None, None);
    state.asks.insert(
        "ask_id".to_string(),
        AskOrderV2 {
            base: BaseType::scope("scope_address_1".to_string()),
            id: "ask_id".to_string(),
            owner: "asker".to_string(),
            quote: coins(100, "quote_1"),
        },
    );
    state.bids.insert(
        "bid_id".to_string(),
        BidOrderV2 {
            base: BaseType::scope("scope_address_2".to_string()),
            effective_time: Some(0),
            id: "bid_id".to_string(),
            owner: "bidder".to_string(),
            quote: coins(100, "quote_1"),
        },
    );
    let err = execute(
        &mut state,
        &mock_env(),
        &mock_info("contract_admin", &[]),
        ExecuteMsg::ExecuteMatch { ask_id: "ask_id".to_string(), bid_id: "bid_id".to_string() },
        None,
    )
    .unwrap_err();
    assert!(matches!(err, ContractError::AskBidMismatch));
}

#[test]
fn query_with_valid_data() {
    let mut state = instantiated_state(None, None);
    let ask_order = AskOrderV2 {
        base: BaseType::coin(200, "base_1".to_string()),
        id: "ask_id".to_string(),
        owner: "asker".to_string(),
        quote: coins(100, "quote_1"),
    };
    let bid_order = BidOrderV2 {
        base: BaseType::coin(100, "base_1".to_string()),
        effective_time: Some(0),
        id: "bid_id".to_string(),
        owner: "bidder".to_string(),
        quote: coins(100, "quote_1"),
    };
    state.asks.insert("ask_id".to_string(), ask_order);
    state.bids.insert("bid_id".to_string(), bid_order);

    match query(&state, QueryMsg::GetContractInfo {}).unwrap() {
        QueryResult::Info(info) => {
            assert_eq!(info.admin, "contract_admin");
            assert_eq!(info.bind_name, "contract_bind_name");
        }
        result => panic!("unexpected query result: {:?}", result),
    }
    match query(&state, QueryMsg::GetAsk { id: "ask_id".to_string() }).unwrap() {
        QueryResult::Ask(ask) => {
            assert_eq!(ask.id, "ask_id");
            assert_eq!(ask.owner, "asker");
            assert_eq!(ask.quote[0].amount, 100);
        }
        result => panic!("unexpected query result: {:?}", result),
    }
    match query(&state, QueryMsg::GetBid { id: "bid_id".to_string() }).unwrap() {
        QueryResult::Bid(bid) => {
            assert_eq!(bid.id, "bid_id");
            assert_eq!(bid.owner, "bidder");
            assert_eq!(bid.quote[0].amount, 100);
        }
        result => panic!("unexpected query result: {:?}", result),
    }
}

#[test]
fn test_update_fees_with_valid_data() {
    let mut state = instantiated_state(None, None);
    let contract_info = get_contract_info(&state).unwrap();
    assert_eq!(None, contract_info.ask_fee);
    assert_eq!(None, contract_info.bid_fee);

    let response = update_fees(
        &mut state,
        &mock_info("contract_admin", &[]),
        Some(10),
        Some(15),
    )
    .unwrap();
    assert_eq!(3, response.attributes.len());
    assert_eq!(response.attributes[0].key, "action");
    assert_eq!(response.attributes[0].value, "update_fees");
    assert_eq!(response.attributes[1].key, "new_ask_fee");
    assert_eq!(response.attributes[1].value, "10nhash");
    assert_eq!(response.attributes[2].key, "new_bid_fee");
    assert_eq!(response.attributes[2].value, "15nhash");
    let contract_info = get_contract_info(&state).unwrap();
    assert_eq!(Some(10), contract_info.ask_fee);
    assert_eq!(Some(15), contract_info.bid_fee);

    let response =
        update_fees(&mut state, &mock_info("contract_admin", &[]), None, None).unwrap();
    assert_eq!(3, response.attributes.len());
    assert_eq!(response.attributes[1].key, "new_ask_fee");
    assert_eq!(response.attributes[1].value, "cleared");
    assert_eq!(response.attributes[2].key, "new_bid_fee");
    assert_eq!(response.attributes[2].value, "cleared");
    let contract_info = get_contract_info(&state).unwrap();
    assert_eq!(None, contract_info.ask_fee);
    assert_eq!(None, contract_info.bid_fee);
}

#[test]
fn test_update_fees_with_invalid_data() {
    let mut state = instantiated_state(None, None);

    // non-admin sender
    let err =
        update_fees(&mut state, &mock_info("not_admin", &[]), Some(10), None).unwrap_err();
    assert!(matches!(err, ContractError::Unauthorized));

    // funds attached
    let err = update_fees(
        &mut state,
        &mock_info("contract_admin", &coins(10, "nhash")),
        Some(10),
        None,
    )
    .unwrap_err();
    assert!(matches!(err, ContractError::UpdateFeesWithFunds));

    // zero ask fee
    let err =
        update_fees(&mut state, &mock_info("contract_admin", &[]), Some(0), None).unwrap_err();
    match err {
        ContractError::InvalidFee { fee_type } => assert_eq!(fee_type, "ask"),
        error => panic!("unexpected error: {:?}", error),
    }

    // zero bid fee
    let err = update_fees(&mut state, &mock_info("contract_admin", &[]), Some(10), Some(0))
        .unwrap_err();
    match err {
        ContractError::InvalidFee { fee_type } => assert_eq!(fee_type, "bid"),
        error => panic!("unexpected error: {:?}", error),
    }
}

#[test]
fn set_contract_info_with_valid_data() {
    let mut state = ContractState::new();
    state.contract_info = Some(ContractInfo::new(
        "contract_admin".to_string(),
        "contract_bind_name".to_string(),
        "contract_name".to_string(),
        Some(50),
        Some(100),
    ));
    let contract_info = get_contract_info(&state).unwrap();
    assert_eq!(contract_info.admin, "contract_admin");
    assert_eq!(contract_info.bind_name, "contract_bind_name");
    assert_eq!(contract_info.contract_name, "contract_name");
    assert_eq!(contract_info.contract_type, "bilateral_trade");
    assert_eq!(contract_info.contract_version, "0.1.0");
    assert_eq!(contract_info.ask_fee, Some(50));
    assert_eq!(contract_info.bid_fee, Some(100));
}

#[test]
fn create_ask_with_duplicate_id_is_rejected() {
    let mut state = instantiated_state(None, None);
    execute(
        &mut state,
        &mock_env(),
        &mock_info("asker", &coins(100, "base_1")),
        ExecuteMsg::CreateAsk {
            id: "ask_id".to_string(),
            quote: coins(100, "quote_1"),
            scope_address: None,
        },
        None,
    )
    .unwrap();
    let err = execute(
        &mut state,
        &mock_env(),
        &mock_info("someone_else", &coins(999, "base_2")),
        ExecuteMsg::CreateAsk {
            id: "ask_id".to_string(),
            quote: coins(1, "quote_2"),
            scope_address: None,
        },
        None,
    )
    .unwrap_err();
    match err {
        ContractError::DuplicateId { id_type, id } => {
            assert_eq!(id_type, "ask");
            assert_eq!(id, "ask_id");
        }
        error => panic!("unexpected error: {:?}", error),
    }
    // The stored order is untouched: ids are unique and orders immutable.
    let stored = get_ask(&state, &"ask_id".to_string()).unwrap();
    assert_eq!(stored.owner, "asker");
    assert_eq!(stored.quote[0].denom, "quote_1");
    assert_eq!(stored.quote[0].amount, 100);
}

#[test]
fn create_bid_with_duplicate_id_is_rejected() {
    let mut state = instantiated_state(None, None);
    execute(
        &mut state,
        &mock_env(),
        &mock_info("bidder", &coins(100, "quote_1")),
        ExecuteMsg::CreateBid {
            id: "bid_id".to_string(),
            base: BaseType::coin(100, "base_1".to_string()),
            effective_time: None,
        },
        None,
    )
    .unwrap();
    let err = execute(
        &mut state,
        &mock_env(),
        &mock_info("someone_else", &coins(5, "quote_2")),
        ExecuteMsg::CreateBid {
            id: "bid_id".to_string(),
            base: BaseType::coin(1, "base_2".to_string()),
            effective_time: None,
        },
        None,
    )
    .unwrap_err();
    match err {
        ContractError::DuplicateId { id_type, id } => {
            assert_eq!(id_type, "bid");
            assert_eq!(id, "bid_id");
        }
        error => panic!("unexpected error: {:?}", error),
    }
    let stored = get_bid(&state, &"bid_id".to_string()).unwrap();
    assert_eq!(stored.owner, "bidder");
    assert_eq!(stored.quote[0].denom, "quote_1");
}
