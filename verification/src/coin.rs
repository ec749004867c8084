//! Coins — (denomination, amount) pairs — and their canonical form.
//!
//! A coin list stands for a multiset of coins: two lists are interchangeable
//! when they hold the same coins in any order.  Equality of those multisets is
//! decided by sorting both lists with the total order "denomination, then
//! amount" and comparing element-wise.

use vstd::prelude::*;
use vstd::relations::{sorted_by, total_ordering};
use vstd::seq_lib::lemma_sorted_unique;
use vstd::multiset::Multiset;

use crate::string_order::{lex_le, str_lex_le, lemma_lex_le_total, lemma_lex_le_antisym,
    lemma_lex_le_trans};

verus! {

broadcast use vstd::multiset::group_multiset_axioms, vstd::seq_lib::group_to_multiset_ensures;

/// A quantity of a single token denomination.
#[derive(Clone, Debug)]
pub struct Coin {
    pub denom: String,
    pub amount: u128,
}

/// The mathematical value of a [`Coin`].
pub ghost struct CoinView {
    pub denom: Seq<char>,
    pub amount: u128,
}

impl View for Coin {
    type V = CoinView;

    open spec fn view(&self) -> CoinView {
        CoinView { denom: self.denom@, amount: self.amount }
    }
}

/// The values of a coin list, in order.
pub open spec fn coins_view(s: Seq<Coin>) -> Seq<CoinView> {
    s.map_values(|c: Coin| c@)
}

/// The multiset a coin list stands for.
pub open spec fn coins_multiset(s: Seq<Coin>) -> Multiset<CoinView> {
    coins_view(s).to_multiset()
}

/// The canonical total order on coins: by denomination, ties by amount.
pub open spec fn coin_le(a: CoinView, b: CoinView) -> bool {
    if a.denom == b.denom {
        a.amount <= b.amount
    } else {
        lex_le(a.denom, b.denom)
    }
}

/// [`coin_le`] as a first-class relation, the form the sorting lemmas take.
pub open spec fn coin_le_fn() -> spec_fn(CoinView, CoinView) -> bool {
    |a: CoinView, b: CoinView| coin_le(a, b)
}

/// The canonical coin order is a total order.
pub proof fn lemma_coin_le_total_ordering()
    ensures
        total_ordering(coin_le_fn()),
{
    let leq = coin_le_fn();
    assert forall|a: CoinView, b: CoinView| #[trigger] leq(a, b) || #[trigger] leq(b, a) by {
        lemma_lex_le_total(a.denom, b.denom);
    }
    assert forall|a: CoinView, b: CoinView| #[trigger] leq(a, b) && #[trigger] leq(b, a) implies a == b by {
        if a.denom != b.denom {
            lemma_lex_le_antisym(a.denom, b.denom);
        }
    }
    assert forall|a: CoinView, b: CoinView, c: CoinView|
        #[trigger] leq(a, b) && #[trigger] leq(b, c) implies #[trigger] leq(a, c) by {
        if a.denom == b.denom && b.denom == c.denom {
        } else if a.denom == b.denom {
        } else if b.denom == c.denom {
        } else {
            lemma_lex_le_trans(a.denom, b.denom, c.denom);
            if a.denom == c.denom {
                lemma_lex_le_antisym(a.denom, b.denom);
            }
        }
    }
}

/// An exact copy of a coin.
pub fn clone_coin(c: &Coin) -> (r: Coin)
    ensures
        r@ == c@,
{
    Coin { denom: c.denom.clone(), amount: c.amount }
}

/// An exact copy of a coin list.
pub fn clone_coins(v: &Vec<Coin>) -> (r: Vec<Coin>)
    ensures
        coins_view(r@) == coins_view(v@),
        r@.len() == v@.len(),
{
    let mut out: Vec<Coin> = Vec::new();
    let mut i: usize = 0;
    while i < v.len()
        invariant
            i <= v.len(),
            out@.len() == i,
            forall|j: int| 0 <= j < i ==> out@[j]@ == v@[j]@,
        decreases v.len() - i,
    {
        out.push(clone_coin(&v[i]));
        i = i + 1;
    }
    proof {
        assert(coins_view(out@) =~= coins_view(v@));
    }
    out
}

/// Decides [`coin_le`] on two coins.
pub fn coin_le_exec(a: &Coin, b: &Coin) -> (r: bool)
    ensures
        r == coin_le(a@, b@),
{
    if a.denom == b.denom {
        a.amount <= b.amount
    } else {
        str_lex_le(&a.denom, &b.denom)
    }
}

/// Inserting an element anywhere in a sequence adds it to the multiset.
proof fn lemma_insert_to_multiset(s: Seq<CoinView>, i: int, x: CoinView)
    requires
        0 <= i <= s.len(),
    ensures
        s.insert(i, x).to_multiset() == s.to_multiset().insert(x),
{
    let t = s.insert(i, x);
    assert(t.remove(i) =~= s);
    assert(t.remove(i).to_multiset() == t.to_multiset().remove(t[i]));
    assert(t[i] == x);
    assert(t.to_multiset().count(x) > 0) by {
        assert(t.contains(x));
    }
    assert(t.to_multiset() =~= s.to_multiset().insert(x)) by {
        assert(forall|y: CoinView|
            s.to_multiset().count(y) == t.to_multiset().remove(x).count(y));
    }
}

/// Inserts a coin into a canonically sorted list, keeping it sorted.
fn insert_sorted(v: &mut Vec<Coin>, c: Coin)
    requires
        sorted_by(coins_view(old(v)@), coin_le_fn()),
    ensures
        sorted_by(coins_view(final(v)@), coin_le_fn()),
        coins_multiset(final(v)@) == coins_multiset(old(v)@).insert(c@),
        final(v)@.len() == old(v)@.len() + 1,
{
    proof {
        lemma_coin_le_total_ordering();
    }
    let ghost cv = c@;
    let mut pos: usize = 0;
    while pos < v.len() && coin_le_exec(&v[pos], &c)
        invariant
            pos <= v@.len(),
            forall|j: int| 0 <= j < pos ==> coin_le(coins_view(v@)[j], cv),
            c@ == cv,
            sorted_by(coins_view(v@), coin_le_fn()),
        decreases v@.len() - pos,
    {
        pos = pos + 1;
    }
    proof {
        let leq = coin_le_fn();
        let before = coins_view(v@);
        if pos < v@.len() {
            assert(!coin_le(before[pos as int], cv));
            assert(leq(cv, before[pos as int])) by {
                lemma_lex_le_total(cv.denom, before[pos as int].denom);
            }
        }
        let after = coins_view(v@.insert(pos as int, c));
        assert(after =~= before.insert(pos as int, cv));
        assert(sorted_by(after, leq)) by {
            assert forall|x: int, y: int| 0 <= x < y < after.len() implies #[trigger] leq(after[x], after[y]) by {
                if x < pos && y == pos {
                } else if x == pos && y > pos {
                    assert(after[y] == before[y - 1]);
                    assert(leq(cv, before[pos as int]));
                    if y - 1 > pos {
                        assert(leq(before[pos as int], before[y - 1]));
                    }
                } else if x < pos && y > pos {
                    assert(after[x] == before[x] && after[y] == before[y - 1]);
                } else if x > pos && y > pos {
                    assert(after[x] == before[x - 1] && after[y] == before[y - 1]);
                }
            }
        }
        lemma_insert_to_multiset(before, pos as int, cv);
    }
    v.insert(pos, c);
}

/// Returns the canonical (sorted) form of a coin list: same multiset of
/// coins, ordered by denomination and then amount.
pub fn sort_coins(input: &Vec<Coin>) -> (r: Vec<Coin>)
    ensures
        sorted_by(coins_view(r@), coin_le_fn()),
        coins_multiset(r@) == coins_multiset(input@),
        r@.len() == input@.len(),
{
    let mut out: Vec<Coin> = Vec::new();
    let mut i: usize = 0;
    proof {
        assert(coins_view(input@.subrange(0, 0)) =~= Seq::<CoinView>::empty());
        assert(coins_view(out@) =~= Seq::<CoinView>::empty());
    }
    while i < input.len()
        invariant
            i <= input@.len(),
            sorted_by(coins_view(out@), coin_le_fn()),
            coins_multiset(out@) == coins_multiset(input@.subrange(0, i as int)),
            out@.len() == i,
        decreases input@.len() - i,
    {
        let c = clone_coin(&input[i]);
        proof {
            let pre = input@.subrange(0, i as int);
            let post = input@.subrange(0, i as int + 1);
            assert(coins_view(post) =~= coins_view(pre).push(input@[i as int]@));
        }
        insert_sorted(&mut out, c);
        i = i + 1;
    }
    proof {
        assert(input@.subrange(0, input@.len() as int) =~= input@);
    }
    out
}

/// Compares two coin lists element-wise (by value).
pub fn coin_vecs_equal(a: &Vec<Coin>, b: &Vec<Coin>) -> (r: bool)
    ensures
        r == (coins_view(a@) == coins_view(b@)),
{
    if a.len() != b.len() {
        proof {
            assert(coins_view(a@).len() != coins_view(b@).len());
        }
        return false;
    }
    let mut i: usize = 0;
    while i < a.len()
        invariant
            i <= a@.len(),
            a@.len() == b@.len(),
            forall|j: int| 0 <= j < i ==> coins_view(a@)[j] == coins_view(b@)[j],
        decreases a@.len() - i,
    {
        if !(a[i].denom == b[i].denom && a[i].amount == b[i].amount) {
            proof {
                assert(coins_view(a@)[i as int] != coins_view(b@)[i as int]);
            }
            return false;
        }
        proof {
            assert(coins_view(a@)[i as int] == coins_view(b@)[i as int]);
        }
        i = i + 1;
    }
    proof {
        assert(coins_view(a@) =~= coins_view(b@));
    }
    true
}

/// Decides whether two coin lists stand for the same multiset of coins,
/// by comparing their canonical forms.
pub fn coin_lists_match(a: &Vec<Coin>, b: &Vec<Coin>) -> (r: bool)
    ensures
        r == (coins_multiset(a@) == coins_multiset(b@)),
{
    let sa = sort_coins(a);
    let sb = sort_coins(b);
    let eq = coin_vecs_equal(&sa, &sb);
    proof {
        if eq {
            assert(coins_multiset(sa@) == coins_multiset(sb@));
        } else {
            if coins_multiset(a@) == coins_multiset(b@) {
                lemma_coin_le_total_ordering();
                lemma_sorted_unique(coins_view(sa@), coins_view(sb@), coin_le_fn());
                assert(false);
            }
        }
    }
    eq
}

} // verus!
