//! Laws of the order book, proved from the orchestrator's contracts: what
//! holds across two calls, and what every successful call guarantees.

use vstd::prelude::*;

use crate::coin::CoinView;
use crate::contract::{StateView, cancel_ask_post, cancel_bid_post, create_ask_post,
    execute_match_post, creation_msgs, creation_attrs};
use crate::error::ContractErrorView;
use crate::instructions::{AttributeView, InstructionView, ResponseView};
use crate::numeric::dec_str_of;
use crate::orders::{AskOrderV2View, BaseTypeView};
use crate::scope::ScopeView;

verus! {

/// Cancellation is not idempotent: cancelling an ask removes it, so a second
/// cancel of the same id — by anyone, with no funds attached — fails with
/// `Unauthorized` (the not-found case) and changes nothing.
pub proof fn lemma_cancel_ask_not_twice(
    pre: StateView,
    mid: StateView,
    post: StateView,
    sender1: Seq<char>,
    sender2: Seq<char>,
    funds2: Seq<CoinView>,
    id: Seq<char>,
    res1: Result<ResponseView, ContractErrorView>,
    res2: Result<ResponseView, ContractErrorView>,
)
    requires
        cancel_ask_post(pre, mid, sender1, Seq::<CoinView>::empty(), id, res1),
        res1 is Ok,
        funds2.len() == 0,
        cancel_ask_post(mid, post, sender2, funds2, id, res2),
    ensures
        res2 == Err::<ResponseView, ContractErrorView>(ContractErrorView::Unauthorized),
        post == mid,
{
    assert(mid.asks == pre.asks.remove(id));
    assert(!mid.asks.contains_key(id));
}

/// The same law for bids: a second cancel of the same bid id fails with
/// `Unauthorized` and changes nothing.
pub proof fn lemma_cancel_bid_not_twice(
    pre: StateView,
    mid: StateView,
    post: StateView,
    sender1: Seq<char>,
    sender2: Seq<char>,
    funds2: Seq<CoinView>,
    id: Seq<char>,
    res1: Result<ResponseView, ContractErrorView>,
    res2: Result<ResponseView, ContractErrorView>,
)
    requires
        cancel_bid_post(pre, mid, sender1, Seq::<CoinView>::empty(), id, res1),
        res1 is Ok,
        funds2.len() == 0,
        cancel_bid_post(mid, post, sender2, funds2, id, res2),
    ensures
        res2 == Err::<ResponseView, ContractErrorView>(ContractErrorView::Unauthorized),
        post == mid,
{
    assert(mid.bids == pre.bids.remove(id));
    assert(!mid.bids.contains_key(id));
}

/// Round trip: after a successful funds-backed ask creation, the ask stored
/// under the id holds exactly the attached funds as the asset for sale, the
/// given quote as the price, and the caller as owner.
pub proof fn lemma_create_ask_round_trip(
    pre: StateView,
    post: StateView,
    contract_address: Seq<char>,
    sender: Seq<char>,
    funds: Seq<CoinView>,
    id: Seq<char>,
    quote: Seq<CoinView>,
    res: Result<ResponseView, ContractErrorView>,
)
    requires
        create_ask_post(
            pre,
            post,
            contract_address,
            sender,
            funds,
            id,
            quote,
            None,
            None,
            res,
        ),
        res is Ok,
    ensures
        post.asks.contains_key(id),
        post.asks[id] == (AskOrderV2View {
            base: BaseTypeView::Coin { coins: funds },
            id,
            owner: sender,
            quote,
        }),
{
}

/// Fee gating: a successful ask creation emits exactly one fee-charge
/// instruction of the configured amount and a matching `fee_charged`
/// attribute when a fee is configured, and no instruction and no such
/// attribute when none is.
pub proof fn lemma_create_ask_fee_gating(
    pre: StateView,
    post: StateView,
    contract_address: Seq<char>,
    sender: Seq<char>,
    funds: Seq<CoinView>,
    id: Seq<char>,
    quote: Seq<CoinView>,
    scope_address: Option<Seq<char>>,
    scope: Option<ScopeView>,
    res: Result<ResponseView, ContractErrorView>,
)
    requires
        create_ask_post(
            pre,
            post,
            contract_address,
            sender,
            funds,
            id,
            quote,
            scope_address,
            scope,
            res,
        ),
        res is Ok,
    ensures
        res matches Ok(resp) && match pre.contract_info.unwrap().ask_fee {
            Some(fee) => {
                &&& resp.messages == seq![
                    InstructionView::ChargeFee {
                        amount: CoinView { denom: "nhash"@, amount: fee },
                        fee_name: "Ask creation fee"@,
                        from: contract_address,
                        recipient: pre.contract_info.unwrap().admin,
                    },
                ]
                &&& resp.attributes.len() == 2
                &&& resp.attributes[1] == (AttributeView {
                    key: "fee_charged"@,
                    value: dec_str_of(fee as nat) + "nhash"@,
                })
            },
            None => {
                &&& resp.messages.len() == 0
                &&& forall|i: int| 0 <= i < resp.attributes.len()
                    ==> #[trigger] resp.attributes[i].key != "fee_charged"@
            },
        },
{
    let info = pre.contract_info.unwrap();
    let resp = res->Ok_0;
    assert(resp.messages == creation_msgs(
        info.ask_fee,
        "Ask creation fee"@,
        contract_address,
        info.admin,
    ));
    assert(resp.attributes == creation_attrs("create_ask"@, info.ask_fee));
    if info.ask_fee is None {
        assert forall|i: int| 0 <= i < resp.attributes.len()
            implies #[trigger] resp.attributes[i].key != "fee_charged"@ by {
            reveal_strlit("action");
            reveal_strlit("fee_charged");
            assert(resp.attributes[i].key == "action"@);
        }
    }
}

/// A successful match clears both orders and produces exactly two settlement
/// instructions: the asked price to the asker, and the traded asset to the
/// bidder (a funds transfer, or an ownership reassignment for an external
/// asset).
pub proof fn lemma_match_clears_both(
    pre: StateView,
    post: StateView,
    sender: Seq<char>,
    funds: Seq<CoinView>,
    ask_id: Seq<char>,
    bid_id: Seq<char>,
    res: Result<ResponseView, ContractErrorView>,
)
    requires
        execute_match_post(pre, post, sender, funds, ask_id, bid_id, res),
        res is Ok,
    ensures
        !post.asks.contains_key(ask_id),
        !post.bids.contains_key(bid_id),
        res matches Ok(resp) && {
            let ask = pre.asks[ask_id];
            let bid = pre.bids[bid_id];
            &&& resp.messages.len() == 2
            &&& resp.messages[0] == (InstructionView::TransferFunds {
                to_address: ask.owner,
                amount: ask.quote,
            })
            &&& (bid.base matches BaseTypeView::Coin { coins } ==> resp.messages[1]
                == (InstructionView::TransferFunds { to_address: bid.owner, amount: coins }))
            &&& (bid.base matches BaseTypeView::Scope { scope_address } ==> resp.messages[1]
                == (InstructionView::ReassignScopeOwner {
                    scope_address,
                    new_owner: bid.owner,
                }))
        },
{
}

} // verus!
