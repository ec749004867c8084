//! The name service's persistent state: the configuration record, and the
//! registry of name records kept sorted by name (ascending, no duplicates),
//! which is the order the search walks them in.

use vstd::prelude::*;

use crate::string_order::{lex_le, str_lex_le, lemma_lex_le_total, lemma_lex_le_trans};
use crate::nameservice::version_info::{VersionInfoV1, VersionInfoV1View};

verus! {

/// The contract configuration: the root name the contract registers under,
/// the registration fee (stored in its string form), and where fees go.
#[derive(Clone, Debug)]
pub struct State {
    pub name: String,
    pub fee_amount: String,
    pub fee_collection_address: String,
}

/// The mathematical value of a [`State`].
pub ghost struct StateView {
    pub name: Seq<char>,
    pub fee_amount: Seq<char>,
    pub fee_collection_address: Seq<char>,
}

impl View for State {
    type V = StateView;

    open spec fn view(&self) -> StateView {
        StateView {
            name: self.name@,
            fee_amount: self.fee_amount@,
            fee_collection_address: self.fee_collection_address@,
        }
    }
}

impl State {
    /// An exact copy of the configuration.
    pub fn clone_state(&self) -> (r: State)
        ensures
            r@ == self@,
    {
        State {
            name: self.name.clone(),
            fee_amount: self.fee_amount.clone(),
            fee_collection_address: self.fee_collection_address.clone(),
        }
    }
}

/// One registered name and the account it resolves to.
#[derive(Clone, Debug)]
pub struct NameMeta {
    pub name: String,
    pub address: String,
}

/// The mathematical value of a [`NameMeta`].
pub ghost struct NameMetaView {
    pub name: Seq<char>,
    pub address: Seq<char>,
}

impl View for NameMeta {
    type V = NameMetaView;

    open spec fn view(&self) -> NameMetaView {
        NameMetaView { name: self.name@, address: self.address@ }
    }
}

impl NameMeta {
    /// An exact copy of the record.
    pub fn clone_meta(&self) -> (r: NameMeta)
        ensures
            r@ == self@,
    {
        NameMeta { name: self.name.clone(), address: self.address.clone() }
    }
}

/// The views of a record list.
pub open spec fn metas_view(s: Seq<NameMeta>) -> Seq<NameMetaView> {
    s.map_values(|m: NameMeta| m@)
}

/// Whether some record in the list carries this name.
pub open spec fn has_name(metas: Seq<NameMetaView>, name: Seq<char>) -> bool {
    exists|i: int| 0 <= i < metas.len() && metas[i].name == name
}

/// The records are strictly ascending by name: sorted, with no duplicates.
pub open spec fn metas_sorted(metas: Seq<NameMetaView>) -> bool {
    forall|i: int, j: int| 0 <= i < j < metas.len() ==> lex_le(
        #[trigger] metas[i].name,
        #[trigger] metas[j].name,
    ) && metas[i].name != metas[j].name
}

/// Everything the name service persists: the configuration (absent until
/// instantiation), the sorted name registry, and the code-version record.
pub struct NameRegistry {
    pub config: Option<State>,
    pub metas: Vec<NameMeta>,
    pub version_info: Option<VersionInfoV1>,
}

/// The mathematical value of a [`NameRegistry`].
pub ghost struct NameRegistryView {
    pub config: Option<StateView>,
    pub metas: Seq<NameMetaView>,
    pub version_info: Option<VersionInfoV1View>,
}

impl View for NameRegistry {
    type V = NameRegistryView;

    open spec fn view(&self) -> NameRegistryView {
        NameRegistryView {
            config: match self.config {
                Some(s) => Some(s@),
                None => None,
            },
            metas: metas_view(self.metas@),
            version_info: match self.version_info {
                Some(v) => Some(v@),
                None => None,
            },
        }
    }
}

impl NameRegistry {
    /// The registry's invariant: records strictly ascending by name.
    pub open spec fn wf(&self) -> bool {
        metas_sorted(self@.metas)
    }

    /// A fresh registry: nothing configured, nothing registered.
    pub fn new() -> (r: NameRegistry)
        ensures
            r@.config is None,
            r@.metas == Seq::<NameMetaView>::empty(),
            r@.version_info is None,
            r.wf(),
    {
        let reg = NameRegistry { config: None, metas: Vec::new(), version_info: None };
        proof {
            assert(reg@.metas =~= Seq::<NameMetaView>::empty());
        }
        reg
    }

    /// Looks a name up in the registry.
    pub fn find_meta(&self, name: &String) -> (r: Option<NameMeta>)
        ensures
            match r {
                Some(m) => has_name(self@.metas, name@) && exists|i: int|
                    0 <= i < self@.metas.len() && self@.metas[i] == m@ && m@.name == name@,
                None => !has_name(self@.metas, name@),
            },
    {
        let mut i: usize = 0;
        while i < self.metas.len()
            invariant
                i <= self@.metas.len(),
                forall|j: int| 0 <= j < i ==> self@.metas[j].name != name@,
            decreases self@.metas.len() - i,
        {
            if String::eq(&self.metas[i].name, name) {
                let m = self.metas[i].clone_meta();
                proof {
                    assert(self@.metas[i as int] == m@);
                    assert(0 <= i < self@.metas.len() && self@.metas[i as int] == m@
                        && m@.name == name@);
                }
                return Some(m);
            }
            i = i + 1;
        }
        None
    }

    /// Inserts a record whose name is not yet registered, keeping the
    /// registry sorted.  The abstract content grows by exactly this record.
    pub fn insert_meta(&mut self, meta: NameMeta)
        requires
            old(self).wf(),
            !has_name(old(self)@.metas, meta@.name),
        ensures
            final(self).wf(),
            final(self)@.metas.to_multiset() == old(self)@.metas.to_multiset().insert(meta@),
            final(self)@.config == old(self)@.config,
            final(self)@.version_info == old(self)@.version_info,
            has_name(final(self)@.metas, meta@.name),
            forall|i: int| 0 <= i < final(self)@.metas.len() && final(self)@.metas[i].name != meta@.name
                ==> old(self)@.metas.contains(#[trigger] final(self)@.metas[i]),
            forall|i: int| 0 <= i < old(self)@.metas.len()
                ==> final(self)@.metas.contains(#[trigger] old(self)@.metas[i]),
    {
        broadcast use vstd::seq_lib::group_to_multiset_ensures, vstd::multiset::group_multiset_axioms;

        let ghost mv = meta@;
        let mut pos: usize = 0;
        while pos < self.metas.len() && str_lex_le(&self.metas[pos].name, &meta.name)
            invariant
                pos <= self@.metas.len(),
                forall|j: int| 0 <= j < pos ==> lex_le(#[trigger] self@.metas[j].name, mv.name),
                meta@ == mv,
                old(self)@ == self@,
                old(self).wf(),
                !has_name(old(self)@.metas, mv.name),
            decreases self@.metas.len() - pos,
        {
            proof {
                assert(self@.metas[pos as int].name != mv.name) by {
                    assert(has_name(self@.metas, self@.metas[pos as int].name));
                }
            }
            pos = pos + 1;
        }
        proof {
            let pre = self@.metas;
            if pos < pre.len() {
                assert(!lex_le(pre[pos as int].name, mv.name));
                lemma_lex_le_total(pre[pos as int].name, mv.name);
            }
            let after = pre.insert(pos as int, mv);
            assert(metas_sorted(after)) by {
                assert forall|x: int, y: int| 0 <= x < y < after.len() implies lex_le(
                    #[trigger] after[x].name,
                    #[trigger] after[y].name,
                ) && after[x].name != after[y].name by {
                    if x < pos && y == pos {
                        assert(after[x] == pre[x] && after[y] == mv);
                        assert(after[x].name != mv.name) by {
                            assert(has_name(pre, pre[x].name));
                        }
                    } else if x == pos && y > pos {
                        assert(after[x] == mv && after[y] == pre[y - 1]);
                        assert(pre[y - 1].name != mv.name) by {
                            assert(has_name(pre, pre[y - 1].name));
                        }
                        if y - 1 > pos {
                            lemma_lex_le_trans(mv.name, pre[pos as int].name, pre[y - 1].name);
                        }
                    } else if x < pos && y > pos {
                        assert(after[x] == pre[x] && after[y] == pre[y - 1]);
                    } else if x > pos && y > pos {
                        assert(after[x] == pre[x - 1] && after[y] == pre[y - 1]);
                    }
                }
            }
            let t = after;
            assert(t.remove(pos as int) =~= pre);
            assert(t.remove(pos as int).to_multiset() =~= t.to_multiset().remove(t[pos as int]));
            assert(t.to_multiset().count(mv) > 0) by {
                assert(t.contains(mv));
            }
            assert(t.to_multiset() =~= pre.to_multiset().insert(mv)) by {
                assert(forall|y: NameMetaView|
                    pre.to_multiset().count(y) == t.to_multiset().remove(mv).count(y));
            }
            assert(metas_view(self.metas@.insert(pos as int, meta)) =~= after);
            assert(forall|i: int| 0 <= i < after.len() && after[i].name != mv.name
                ==> pre.contains(#[trigger] after[i]));
            assert(forall|i: int| 0 <= i < pre.len() ==> after.contains(#[trigger] pre[i])) by {
                assert(forall|i: int| 0 <= i < pre.len() ==> pre[i] == after[
                    if i < pos { i } else { i + 1 }
                ]);
            }
            assert(has_name(after, mv.name)) by {
                assert(after[pos as int].name == mv.name);
            }
        }
        self.metas.insert(pos, meta);
    }
}

} // verus!
