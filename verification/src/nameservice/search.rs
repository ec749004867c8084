//! Substring search over the registry: walks the records in ascending name
//! order and returns those whose name contains the search string, capped at a
//! fixed number of results.

use vstd::prelude::*;

use crate::nameservice::msg::NameSearchResponse;
use crate::nameservice::state::{NameMeta, NameMetaView, NameRegistry, metas_view};

verus! {

/// The most records one search will ever return.
pub const MAX_NAME_SEARCH_RESULTS: usize = 10;

/// Whether `needle` occurs contiguously inside `hay` (the empty needle always
/// does).
pub open spec fn contains_sub(hay: Seq<char>, needle: Seq<char>) -> bool {
    exists|i: int| 0 <= i && i + needle.len() <= hay.len() && #[trigger] hay.subrange(
        i,
        i + needle.len(),
    ) == needle
}

/// Decides whether `needle` occurs inside `hay`.
pub fn str_contains(hay: &String, needle: &String) -> (r: bool)
    ensures
        r == contains_sub(hay@, needle@),
{
    let hlen = hay.as_str().unicode_len();
    let nlen = needle.as_str().unicode_len();
    if nlen > hlen {
        proof {
            assert(!contains_sub(hay@, needle@));
        }
        return false;
    }
    if nlen == 0 {
        proof {
            assert(contains_sub(hay@, needle@)) by {
                assert(hay@.subrange(0, 0 + needle@.len() as int) =~= needle@);
            }
        }
        return true;
    }
    let mut start: usize = 0;
    while start <= hlen - nlen
        invariant
            nlen <= hlen,
            hlen == hay@.len(),
            nlen == needle@.len(),
            nlen > 0,
            start <= hlen - nlen + 1,
            forall|s: int| 0 <= s < start ==> #[trigger] hay@.subrange(s, s + needle@.len())
                != needle@,
        decreases hlen - nlen - start + 1,
    {
        let mut j: usize = 0;
        let mut matched = true;
        while j < nlen && matched
            invariant
                nlen <= hlen,
                hlen == hay@.len(),
                nlen == needle@.len(),
                start <= hlen - nlen,
                j <= nlen,
                matched ==> forall|k: int| 0 <= k < j ==> hay@[start + k] == needle@[k],
                !matched ==> hay@.subrange(start as int, start as int + needle@.len()) != needle@,
            decreases nlen - j + (if matched { 1int } else { 0 }),
        {
            let hc = hay.as_str().get_char(start + j);
            let nc = needle.as_str().get_char(j);
            proof {
                crate::string_order::lemma_char_eq_code_point(hc, nc);
            }
            if (hc as u32) != (nc as u32) {
                proof {
                    assert(hay@.subrange(start as int, start as int + needle@.len())
                        != needle@) by {
                        assert(hay@.subrange(start as int, start as int + needle@.len())[j as int]
                            == hay@[start + j]);
                    }
                }
                matched = false;
            } else {
                j = j + 1;
            }
        }
        if matched {
            proof {
                assert(contains_sub(hay@, needle@)) by {
                    assert(hay@.subrange(start as int, start as int + needle@.len()) =~= needle@);
                }
            }
            return true;
        }
        start = start + 1;
    }
    proof {
        assert forall|i: int| 0 <= i && i + needle@.len() <= hay@.len() implies #[trigger]
        hay@.subrange(i, i + needle@.len()) != needle@ by {
            assert(i < start);
        }
    }
    false
}

/// The records whose name contains the search string, in registry order.
pub open spec fn matching_metas(metas: Seq<NameMetaView>, needle: Seq<char>) -> Seq<
    NameMetaView,
> {
    metas.filter(|m: NameMetaView| contains_sub(m.name, needle))
}

/// What a search returns: the matching records in registry order, capped at
/// [`MAX_NAME_SEARCH_RESULTS`].
pub open spec fn search_results(metas: Seq<NameMetaView>, needle: Seq<char>) -> Seq<
    NameMetaView,
> {
    let found = matching_metas(metas, needle);
    if found.len() <= MAX_NAME_SEARCH_RESULTS as int {
        found
    } else {
        found.take(MAX_NAME_SEARCH_RESULTS as int)
    }
}

/// Scans the registry for names containing the search string, returning at
/// most [`MAX_NAME_SEARCH_RESULTS`] records, in ascending name order.
pub fn search_for_names(reg: &NameRegistry, search: String) -> (r: NameSearchResponse)
    ensures
        r.search@ == search@,
        metas_view(r.names@) == search_results(reg@.metas, search@),
{
    let mut names: Vec<NameMeta> = Vec::new();
    let mut i: usize = 0;
    proof {
        assert(reg@.metas.take(0) =~= Seq::<NameMetaView>::empty());
        assert(Seq::<NameMetaView>::empty().filter(
            |m: NameMetaView| contains_sub(m.name, search@),
        ) =~= Seq::<NameMetaView>::empty());
        assert(metas_view(names@) =~= Seq::<NameMetaView>::empty());
    }
    while i < reg.metas.len() && names.len() < MAX_NAME_SEARCH_RESULTS
        invariant
            i <= reg@.metas.len(),
            metas_view(names@) == matching_metas(reg@.metas.take(i as int), search@),
            names@.len() <= MAX_NAME_SEARCH_RESULTS,
        decreases reg@.metas.len() - i,
    {
        let ghost pre_views = reg@.metas.take(i as int);
        let ghost post_views = reg@.metas.take(i as int + 1);
        proof {
            assert(post_views.drop_last() =~= pre_views);
            pre_views.lemma_filter_push(
                reg@.metas[i as int],
                |m: NameMetaView| contains_sub(m.name, search@),
            );
            assert(post_views =~= pre_views.push(reg@.metas[i as int]));
        }
        if str_contains(&reg.metas[i].name, &search) {
            names.push(reg.metas[i].clone_meta());
            proof {
                assert(metas_view(names@) =~= matching_metas(post_views, search@));
            }
        } else {
            proof {
                assert(metas_view(names@) =~= matching_metas(post_views, search@));
            }
        }
        i = i + 1;
    }
    proof {
        let all = reg@.metas;
        let needle = search@;
        if i < all.len() {
            assert(names@.len() == MAX_NAME_SEARCH_RESULTS);
            assert(all =~= all.take(i as int) + all.skip(i as int));
            Seq::filter_distributes_over_add(
                all.take(i as int),
                all.skip(i as int),
                |m: NameMetaView| contains_sub(m.name, needle),
            );
            assert(matching_metas(all, needle) == matching_metas(all.take(i as int), needle)
                + matching_metas(all.skip(i as int), needle));
            assert(matching_metas(all, needle).len() >= MAX_NAME_SEARCH_RESULTS as int);
            assert(matching_metas(all, needle).take(MAX_NAME_SEARCH_RESULTS as int)
                =~= matching_metas(all.take(i as int), needle));
        } else {
            assert(all.take(i as int) =~= all);
        }
    }
    NameSearchResponse::new(search, names)
}

} // verus!
