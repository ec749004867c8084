//! The name service's read-only lookups.

use vstd::prelude::*;

use crate::nameservice::error::{ContractError, ContractErrorView};
use crate::nameservice::msg::NameResponse;
use crate::nameservice::state::{NameMeta, NameMetaView, NameRegistry, State, has_name};
use crate::nameservice::version_info::{VersionInfoV1, get_version_info};

verus! {

/// The names registered to one address, in registry order.
pub open spec fn names_of_address(metas: Seq<NameMetaView>, address: Seq<char>) -> Seq<
    Seq<char>,
> {
    metas.filter(|m: NameMetaView| m.address == address).map_values(|m: NameMetaView| m.name)
}

/// Lists every name registered to an address, in ascending name order.
pub fn query_names_by_address(reg: &NameRegistry, address: String) -> (r: NameResponse)
    ensures
        r.address@ == address@,
        r.names@.map_values(|n: String| n@) == names_of_address(reg@.metas, address@),
{
    let mut names: Vec<String> = Vec::new();
    let mut i: usize = 0;
    proof {
        assert(reg@.metas.take(0) =~= Seq::<NameMetaView>::empty());
        assert(Seq::<NameMetaView>::empty().filter(
            |m: NameMetaView| m.address == address@,
        ) =~= Seq::<NameMetaView>::empty());
        assert(names@.map_values(|n: String| n@) =~= names_of_address(
            reg@.metas.take(0),
            address@,
        ));
    }
    while i < reg.metas.len()
        invariant
            i <= reg@.metas.len(),
            names@.map_values(|n: String| n@) == names_of_address(
                reg@.metas.take(i as int),
                address@,
            ),
        decreases reg@.metas.len() - i,
    {
        let ghost pre_views = reg@.metas.take(i as int);
        let ghost post_views = reg@.metas.take(i as int + 1);
        proof {
            assert(post_views.drop_last() =~= pre_views);
            pre_views.lemma_filter_push(
                reg@.metas[i as int],
                |m: NameMetaView| m.address == address@,
            );
            assert(post_views =~= pre_views.push(reg@.metas[i as int]));
        }
        if String::eq(&reg.metas[i].address, &address) {
            names.push(reg.metas[i].name.clone());
            proof {
                let m = reg@.metas[i as int];
                assert(post_views.filter(|m: NameMetaView| m.address == address@)
                    == pre_views.filter(|m: NameMetaView| m.address == address@).push(m));
                assert(names_of_address(post_views, address@) =~= names_of_address(
                    pre_views,
                    address@,
                ).push(m.name));
                assert(names@.map_values(|n: String| n@) =~= names_of_address(
                    pre_views,
                    address@,
                ).push(m.name));
            }
        } else {
            proof {
                assert(post_views.filter(|m: NameMetaView| m.address == address@)
                    == pre_views.filter(|m: NameMetaView| m.address == address@));
                assert(names@.map_values(|n: String| n@) =~= names_of_address(
                    post_views,
                    address@,
                ));
            }
        }
        i = i + 1;
    }
    proof {
        assert(reg@.metas.take(reg@.metas.len() as int) =~= reg@.metas);
    }
    NameResponse::new(address, names)
}

/// Resolves a name to its registered record, the service's main lookup.
pub fn query_address_by_name(reg: &NameRegistry, name: String) -> (r: Result<
    NameMeta,
    ContractError,
>)
    ensures
        match r {
            Ok(m) => has_name(reg@.metas, name@) && m@.name == name@ && reg@.metas.contains(m@),
            Err(e) => !has_name(reg@.metas, name@) && e@ == (ContractErrorView::Std {
                message: "name not found"@,
            }),
        },
{
    match reg.find_meta(&name) {
        Some(m) => {
            proof {
                let i = choose|i: int|
                    0 <= i < reg@.metas.len() && reg@.metas[i] == m@ && m@.name == name@;
                assert(reg@.metas.contains(m@)) by {
                    assert(reg@.metas[i] == m@);
                }
            }
            Ok(m)
        },
        None => ContractError::std_err(String::from_str("name not found")),
    }
}

/// Returns the configuration record.
pub fn query_state(reg: &NameRegistry) -> (r: Result<State, ContractError>)
    ensures
        match r {
            Ok(s) => reg@.config == Some(s@),
            Err(e) => reg@.config is None && e@ == (ContractErrorView::Std {
                message: "contract state not found"@,
            }),
        },
{
    match &reg.config {
        Some(s) => Ok(s.clone_state()),
        None => ContractError::std_err(String::from_str("contract state not found")),
    }
}

/// Returns the stored code-version record.
pub fn query_version(reg: &NameRegistry) -> (r: Result<VersionInfoV1, ContractError>)
    ensures
        match r {
            Ok(v) => reg@.version_info == Some(v@),
            Err(e) => reg@.version_info is None && e@ == (ContractErrorView::Std {
                message: "version info not found"@,
            }),
        },
{
    get_version_info(reg)
}

} // verus!
