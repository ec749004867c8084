//! Order records: the asset being offered or sought (a coin list or a
//! reference to an external, host-controlled asset), and the ask/bid records
//! held in escrow by the engine.

use vstd::prelude::*;
use vstd::relations::sorted_by;

use crate::coin::{Coin, CoinView, coins_view, coins_multiset, coin_le_fn, clone_coins,
    sort_coins};

verus! {

/// What an order trades: either a list of coins held by the engine, or a
/// reference to an external asset whose ownership the host controls.
#[derive(Clone, Debug)]
pub enum BaseType {
    Coin { coins: Vec<Coin> },
    Scope { scope_address: String },
}

/// The mathematical value of a [`BaseType`].
pub ghost enum BaseTypeView {
    Coin { coins: Seq<CoinView> },
    Scope { scope_address: Seq<char> },
}

impl View for BaseType {
    type V = BaseTypeView;

    open spec fn view(&self) -> BaseTypeView {
        match self {
            BaseType::Coin { coins } => BaseTypeView::Coin { coins: coins_view(coins@) },
            BaseType::Scope { scope_address } => BaseTypeView::Scope {
                scope_address: scope_address@,
            },
        }
    }
}

/// Two bases agree when they have the same kind and the same content: equal
/// coin multisets for funds, the same address for an external asset.  A funds
/// base never agrees with an external-asset base.
pub open spec fn base_matches(a: BaseTypeView, b: BaseTypeView) -> bool {
    match a {
        BaseTypeView::Coin { coins: x } => match b {
            BaseTypeView::Coin { coins: y } => x.to_multiset() == y.to_multiset(),
            BaseTypeView::Scope { .. } => false,
        },
        BaseTypeView::Scope { scope_address: x } => match b {
            BaseTypeView::Coin { .. } => false,
            BaseTypeView::Scope { scope_address: y } => x == y,
        },
    }
}

/// A base is canonical when its coin list, if it has one, is sorted.
pub open spec fn base_canonical(b: BaseTypeView) -> bool {
    match b {
        BaseTypeView::Coin { coins } => sorted_by(coins, coin_le_fn()),
        BaseTypeView::Scope { .. } => true,
    }
}

impl BaseType {
    /// A funds base holding one coin.
    pub fn coin(amount: u128, denom: String) -> (r: BaseType)
        ensures
            r@ == (BaseTypeView::Coin {
                coins: seq![CoinView { denom: denom@, amount: amount }],
            }),
    {
        let coins = vec![Coin { denom, amount }];
        proof {
            assert(coins_view(coins@) =~= seq![CoinView { denom: coins@[0].denom@, amount }]);
        }
        BaseType::Coin { coins }
    }

    /// A funds base holding the given coins.
    pub fn coins(coins: Vec<Coin>) -> (r: BaseType)
        ensures
            r@ == (BaseTypeView::Coin { coins: coins_view(coins@) }),
    {
        BaseType::Coin { coins }
    }

    /// An external-asset base referring to the given address.
    pub fn scope(scope_address: String) -> (r: BaseType)
        ensures
            r@ == (BaseTypeView::Scope { scope_address: scope_address@ }),
    {
        BaseType::Scope { scope_address }
    }

    /// An exact copy of the base.
    pub fn clone_base(&self) -> (r: BaseType)
        ensures
            r@ == self@,
    {
        match self {
            BaseType::Coin { coins } => BaseType::Coin { coins: clone_coins(coins) },
            BaseType::Scope { scope_address } => BaseType::Scope {
                scope_address: scope_address.clone(),
            },
        }
    }

    /// Brings this base into canonical form in place and returns a copy of it.
    pub fn sorted(&mut self) -> (r: BaseType)
        ensures
            r@ == final(self)@,
            base_canonical(r@),
            base_matches(r@, old(self)@),
    {
        let c = match &*self {
            BaseType::Coin { coins } => BaseType::Coin { coins: sort_coins(coins) },
            BaseType::Scope { scope_address } => BaseType::Scope {
                scope_address: scope_address.clone(),
            },
        };
        let r = c.clone_base();
        *self = c;
        r
    }
}

/// An offer to sell: the asset held in escrow and the price asked for it.
#[derive(Clone, Debug)]
pub struct AskOrderV2 {
    pub base: BaseType,
    pub id: String,
    pub owner: String,
    pub quote: Vec<Coin>,
}

/// The mathematical value of an [`AskOrderV2`].
pub ghost struct AskOrderV2View {
    pub base: BaseTypeView,
    pub id: Seq<char>,
    pub owner: Seq<char>,
    pub quote: Seq<CoinView>,
}

impl View for AskOrderV2 {
    type V = AskOrderV2View;

    open spec fn view(&self) -> AskOrderV2View {
        AskOrderV2View {
            base: self.base@,
            id: self.id@,
            owner: self.owner@,
            quote: coins_view(self.quote@),
        }
    }
}

impl AskOrderV2 {
    /// An exact copy of the order.
    pub fn clone_order(&self) -> (r: AskOrderV2)
        ensures
            r@ == self@,
    {
        AskOrderV2 {
            base: self.base.clone_base(),
            id: self.id.clone(),
            owner: self.owner.clone(),
            quote: clone_coins(&self.quote),
        }
    }
}

/// An offer to buy: the asset sought, and the payment escrowed at creation.
/// `effective_time` is informational only; the engine stores it untouched.
#[derive(Clone, Debug)]
pub struct BidOrderV2 {
    pub base: BaseType,
    pub effective_time: Option<u64>,
    pub id: String,
    pub owner: String,
    pub quote: Vec<Coin>,
}

/// The mathematical value of a [`BidOrderV2`].
pub ghost struct BidOrderV2View {
    pub base: BaseTypeView,
    pub effective_time: Option<u64>,
    pub id: Seq<char>,
    pub owner: Seq<char>,
    pub quote: Seq<CoinView>,
}

impl View for BidOrderV2 {
    type V = BidOrderV2View;

    open spec fn view(&self) -> BidOrderV2View {
        BidOrderV2View {
            base: self.base@,
            effective_time: self.effective_time,
            id: self.id@,
            owner: self.owner@,
            quote: coins_view(self.quote@),
        }
    }
}

impl BidOrderV2 {
    /// An exact copy of the order.
    pub fn clone_order(&self) -> (r: BidOrderV2)
        ensures
            r@ == self@,
    {
        BidOrderV2 {
            base: self.base.clone_base(),
            effective_time: self.effective_time,
            id: self.id.clone(),
            owner: self.owner.clone(),
            quote: clone_coins(&self.quote),
        }
    }
}

/// The first-generation ask record: the escrowed asset as a bare coin list.
#[derive(Clone, Debug)]
pub struct AskOrder {
    pub base: Vec<Coin>,
    pub id: String,
    pub owner: String,
    pub quote: Vec<Coin>,
}

/// The first-generation bid record: the sought asset as a bare coin list.
#[derive(Clone, Debug)]
pub struct BidOrder {
    pub base: Vec<Coin>,
    pub effective_time: Option<u64>,
    pub id: String,
    pub owner: String,
    pub quote: Vec<Coin>,
}

} // verus!
