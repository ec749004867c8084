//! Scenario tests for the order-book properties, and checks of the helper
//! functions on concrete values.

use bilateral_trade::coin::{Coin, coin_lists_match, sort_coins};
use bilateral_trade::contract::{execute, get_ask, get_bid, ContractState, Env, MessageInfo};
use bilateral_trade::contract_info::ContractInfo;
use bilateral_trade::error::ContractError;
use bilateral_trade::instructions::Instruction;
use bilateral_trade::match_engine::is_executable;
use bilateral_trade::msg::ExecuteMsg;
use bilateral_trade::numeric::{parse_u128_dec, u128_to_dec_string};
use bilateral_trade::orders::{AskOrderV2, BaseType, BidOrderV2};
use bilateral_trade::semver_util::SemVer;
use bilateral_trade::string_order::str_lex_le;

const MOCK_CONTRACT_ADDR: &str = "cosmos2contract";

fn coin(amount: u128, denom: &str) -> Coin {
    Coin { denom: denom.to_string(), amount }
}

fn coins(amount: u128, denom: &str) -> Vec<Coin> {
    vec![coin(amount, denom)]
}

fn mock_env() -> Env {
    Env { contract_address: MOCK_CONTRACT_ADDR.to_string() }
}

fn mock_info(sender: &str, funds: &[Coin]) -> MessageInfo {
    MessageInfo { sender: sender.to_string(), funds: funds.to_vec() }
}

fn matched_state() -> ContractState {
    let mut state = ContractState::new();
    state.contract_info = Some(ContractInfo::new(
        "contract_admin".to_string(),
        "contract_bind_name".to_string(),
        "contract_name".to_string(),
        None,
        None,
    ));
    execute(
        &mut state,
        &mock_env(),
        &mock_info("asker", &coins(100, "base")),
        ExecuteMsg::CreateAsk {
            id: "a1".to_string(),
            quote: coins(100, "quote"),
            scope_address: None,
        },
        None,
    )
    .unwrap();
    state
}

#[test]
fn matched_orders_execute_and_clear() {
    // Ask a1 sells 100 base for 100 quote; bid b1 pays 100 quote for 100 base.
    let mut state = matched_state();
    execute(
        &mut state,
        &mock_env(),
        &mock_info("bidder", &coins(100, "quote")),
        ExecuteMsg::CreateBid {
            id: "b1".to_string(),
            base: BaseType::coins(coins(100, "base")),
            effective_time: None,
        },
        None,
    )
    .unwrap();
    let ask = get_ask(&state, &"a1".to_string()).unwrap();
    let bid = get_bid(&state, &"b1".to_string()).unwrap();
    assert!(is_executable(&ask, &bid));

    let response = execute(
        &mut state,
        &mock_env(),
        &mock_info("contract_admin", &[]),
        ExecuteMsg::ExecuteMatch { ask_id: "a1".to_string(), bid_id: "b1".to_string() },
        None,
    )
    .unwrap();
    assert_eq!(response.messages.len(), 2);
    match &response.messages[0] {
        Instruction::TransferFunds { to_address, amount } => {
            assert_eq!(to_address, "asker");
            assert_eq!(amount.len(), 1);
            assert_eq!(amount[0].denom, "quote");
            assert_eq!(amount[0].amount, 100);
        }
        msg => panic!("unexpected instruction: {:?}", msg),
    }
    match &response.messages[1] {
        Instruction::TransferFunds { to_address, amount } => {
            assert_eq!(to_address, "bidder");
            assert_eq!(amount.len(), 1);
            assert_eq!(amount[0].denom, "base");
            assert_eq!(amount[0].amount, 100);
        }
        msg => panic!("unexpected instruction: {:?}", msg),
    }
    assert!(get_ask(&state, &"a1".to_string()).is_none());
    assert!(get_bid(&state, &"b1".to_string()).is_none());
}

#[test]
fn underpaying_bid_does_not_execute() {
    // Same ask, but the bid escrows only 99 quote: no match, and the
    // execution fails with AskBidMismatch.
    let mut state = matched_state();
    execute(
        &mut state,
        &mock_env(),
        &mock_info("bidder", &coins(99, "quote")),
        ExecuteMsg::CreateBid {
            id: "b1".to_string(),
            base: BaseType::coins(coins(100, "base")),
            effective_time: None,
        },
        None,
    )
    .unwrap();
    let ask = get_ask(&state, &"a1".to_string()).unwrap();
    let bid = get_bid(&state, &"b1".to_string()).unwrap();
    assert!(!is_executable(&ask, &bid));

    let err = execute(
        &mut state,
        &mock_env(),
        &mock_info("contract_admin", &[]),
        ExecuteMsg::ExecuteMatch { ask_id: "a1".to_string(), bid_id: "b1".to_string() },
        None,
    )
    .unwrap_err();
    assert!(matches!(err, ContractError::AskBidMismatch));
    assert!(get_ask(&state, &"a1".to_string()).is_some());
    assert!(get_bid(&state, &"b1".to_string()).is_some());
}

#[test]
fn empty_price_list_is_rejected_and_nothing_stored() {
    let mut state = matched_state();
    let err = execute(
        &mut state,
        &mock_env(),
        &mock_info("asker", &coins(100, "base")),
        ExecuteMsg::CreateAsk { id: "a2".to_string(), quote: vec![], scope_address: None },
        None,
    )
    .unwrap_err();
    match err {
        ContractError::MissingField { field } => assert_eq!(field, "quote"),
        error => panic!("unexpected error: {:?}", error),
    }
    assert!(get_ask(&state, &"a2".to_string()).is_none());
}

#[test]
fn match_is_insensitive_to_coin_order() {
    // The same multiset of coins, listed in different orders, matches alike.
    let ask = AskOrderV2 {
        base: BaseType::coins(vec![coin(1, "a"), coin(2, "b"), coin(3, "c")]),
        id: "ask".to_string(),
        owner: "asker".to_string(),
        quote: vec![coin(5, "x"), coin(6, "y")],
    };
    let bid_sorted = BidOrderV2 {
        base: BaseType::coins(vec![coin(1, "a"), coin(2, "b"), coin(3, "c")]),
        effective_time: None,
        id: "bid".to_string(),
        owner: "bidder".to_string(),
        quote: vec![coin(5, "x"), coin(6, "y")],
    };
    let bid_shuffled = BidOrderV2 {
        base: BaseType::coins(vec![coin(3, "c"), coin(1, "a"), coin(2, "b")]),
        effective_time: None,
        id: "bid".to_string(),
        owner: "bidder".to_string(),
        quote: vec![coin(6, "y"), coin(5, "x")],
    };
    assert!(is_executable(&ask, &bid_sorted));
    assert!(is_executable(&ask, &bid_shuffled));

    // A genuinely different multiset does not match.
    let bid_different = BidOrderV2 {
        base: BaseType::coins(vec![coin(3, "c"), coin(1, "a"), coin(2, "b"), coin(2, "b")]),
        effective_time: None,
        id: "bid".to_string(),
        owner: "bidder".to_string(),
        quote: vec![coin(6, "y"), coin(5, "x")],
    };
    assert!(!is_executable(&ask, &bid_different));
}

#[test]
fn canonical_sort_orders_by_denom_then_amount() {
    let sorted = sort_coins(&vec![
        coin(5, "b"),
        coin(3, "a"),
        coin(2, "b"),
        coin(7, "a"),
    ]);
    let rendered: Vec<(String, u128)> =
        sorted.iter().map(|c| (c.denom.clone(), c.amount)).collect();
    assert_eq!(
        rendered,
        vec![
            ("a".to_string(), 3),
            ("a".to_string(), 7),
            ("b".to_string(), 2),
            ("b".to_string(), 5),
        ],
    );
}

#[test]
fn base_sorted_canonicalizes_in_place() {
    let mut base = BaseType::coins(vec![coin(9, "z"), coin(1, "a"), coin(4, "m")]);
    let canonical = base.sorted();
    for b in [&base, &canonical] {
        match b {
            BaseType::Coin { coins } => {
                let denoms: Vec<&str> = coins.iter().map(|c| c.denom.as_str()).collect();
                assert_eq!(denoms, vec!["a", "m", "z"]);
            }
            other => panic!("unexpected base: {:?}", other),
        }
    }
    let mut scope_base = BaseType::scope("addr".to_string());
    match scope_base.sorted() {
        BaseType::Scope { scope_address } => assert_eq!(scope_address, "addr"),
        other => panic!("unexpected base: {:?}", other),
    }
}

#[test]
fn coin_list_match_is_multiset_equality() {
    let left = vec![coin(1, "x"), coin(1, "x"), coin(2, "y")];
    let permuted = vec![coin(2, "y"), coin(1, "x"), coin(1, "x")];
    let fewer = vec![coin(1, "x"), coin(2, "y")];
    assert!(coin_lists_match(&left, &permuted));
    assert!(!coin_lists_match(&left, &fewer));
}

#[test]
fn lexicographic_order_on_strings() {
    assert!(str_lex_le(&"abc".to_string(), &"abd".to_string()));
    assert!(!str_lex_le(&"abd".to_string(), &"abc".to_string()));
    assert!(str_lex_le(&"ab".to_string(), &"abc".to_string()));
    assert!(str_lex_le(&"".to_string(), &"a".to_string()));
    assert!(str_lex_le(&"same".to_string(), &"same".to_string()));
}

#[test]
fn decimal_rendering_and_parsing() {
    assert_eq!(u128_to_dec_string(0), "0");
    assert_eq!(u128_to_dec_string(7), "7");
    assert_eq!(u128_to_dec_string(1050), "1050");
    assert_eq!(u128_to_dec_string(u128::MAX), "340282366920938463463374607431768211455");
    assert_eq!(parse_u128_dec("0"), Some(0));
    assert_eq!(parse_u128_dec("1050"), Some(1050));
    assert_eq!(parse_u128_dec("340282366920938463463374607431768211455"), Some(u128::MAX));
    assert_eq!(parse_u128_dec("340282366920938463463374607431768211456"), None);
    assert_eq!(parse_u128_dec(""), None);
    assert_eq!(parse_u128_dec("12a"), None);
    assert_eq!(parse_u128_dec("-5"), None);
}

#[test]
fn semver_parse_reads_numeric_components() {
    let v = SemVer::parse("1.2.3").unwrap();
    assert_eq!(v.major, 1);
    assert_eq!(v.minor, 2);
    assert_eq!(v.patch, 3);
    assert!(SemVer::parse("not a version").is_none());
    assert!(SemVer::parse("1.2").is_none());
    let newer = SemVer::parse("1.10.0").unwrap();
    let older = SemVer::parse("1.9.9").unwrap();
    assert!(newer.newer_than(&older));
    assert!(!older.newer_than(&newer));
}
