//! The match predicate: an ask and a bid are executable together exactly when
//! they trade the same asset for the same payment, compared as multisets of
//! coins (insensitive to the order coins were listed in) and by address for
//! external assets.

use vstd::prelude::*;

use crate::coin::coin_lists_match;
use crate::orders::{AskOrderV2, AskOrderV2View, BaseType, BaseTypeView, BidOrderV2,
    BidOrderV2View, base_matches};

verus! {

/// An ask and a bid match exactly when their bases agree (same kind, same
/// content) and the asked price equals the escrowed payment as multisets.
pub open spec fn executable(ask: AskOrderV2View, bid: BidOrderV2View) -> bool {
    base_matches(ask.base, bid.base) && ask.quote.to_multiset() == bid.quote.to_multiset()
}

/// Decides whether two bases agree in kind and content.
pub fn bases_match(a: &BaseType, b: &BaseType) -> (r: bool)
    ensures
        r == base_matches(a@, b@),
{
    match a {
        BaseType::Coin { coins: x } => match b {
            BaseType::Coin { coins: y } => coin_lists_match(x, y),
            BaseType::Scope { .. } => false,
        },
        BaseType::Scope { scope_address: x } => match b {
            BaseType::Coin { .. } => false,
            BaseType::Scope { scope_address: y } => String::eq(x, y),
        },
    }
}

/// Decides whether the ask and bid can be settled against each other.
pub fn is_executable(ask_order: &AskOrderV2, bid_order: &BidOrderV2) -> (r: bool)
    ensures
        r == executable(ask_order@, bid_order@),
{
    if !bases_match(&ask_order.base, &bid_order.base) {
        return false;
    }
    coin_lists_match(&ask_order.quote, &bid_order.quote)
}

/// Match symmetry: permuting the coin lists inside a bid (keeping the same
/// multisets of coins) never changes whether it matches a given ask.
pub proof fn lemma_match_order_insensitive(
    ask: AskOrderV2View,
    bid: BidOrderV2View,
    permuted: BidOrderV2View,
)
    requires
        base_matches(bid.base, permuted.base),
        bid.quote.to_multiset() == permuted.quote.to_multiset(),
    ensures
        executable(ask, bid) == executable(ask, permuted),
{
}

/// Type-safety of the match: an external-asset base never matches a funds
/// base, whatever their contents.
pub proof fn lemma_no_cross_kind_match(ask: AskOrderV2View, bid: BidOrderV2View)
    requires
        (ask.base is Scope && bid.base is Coin) || (ask.base is Coin && bid.base is Scope),
    ensures
        !executable(ask, bid),
{
}

} // verus!
