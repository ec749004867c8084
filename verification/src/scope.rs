//! A model of the host's external-asset record (a "scope"): the fields the
//! engine reads to validate and reassign ownership.  The host owns the full
//! record; the engine sees its identifier, its owning parties, and its value
//! owner as plain values.

use vstd::prelude::*;

use crate::error::{ContractError, ContractErrorView};
use crate::numeric::{dec_str_of, u128_to_dec_string};

verus! {

/// The role a party plays on an external-asset record.
#[derive(Clone, Copy, Debug, PartialEq, Eq, Structural)]
pub enum PartyType {
    Originator,
    Servicer,
    Investor,
    Custodian,
    Owner,
    Affiliate,
    Omnibus,
    Provenance,
    Unspecified,
}

/// One party named on an external-asset record.
#[derive(Clone, Debug)]
pub struct Party {
    pub address: String,
    pub role: PartyType,
}

/// The mathematical value of a [`Party`].
pub ghost struct PartyView {
    pub address: Seq<char>,
    pub role: PartyType,
}

impl View for Party {
    type V = PartyView;

    open spec fn view(&self) -> PartyView {
        PartyView { address: self.address@, role: self.role }
    }
}

/// The external-asset record fields the engine reads.
#[derive(Clone, Debug)]
pub struct Scope {
    pub scope_id: String,
    pub owners: Vec<Party>,
    pub value_owner_address: String,
}

/// The mathematical value of a [`Scope`].
pub ghost struct ScopeView {
    pub scope_id: Seq<char>,
    pub owners: Seq<PartyView>,
    pub value_owner_address: Seq<char>,
}

impl View for Scope {
    type V = ScopeView;

    open spec fn view(&self) -> ScopeView {
        ScopeView {
            scope_id: self.scope_id@,
            owners: self.owners@.map_values(|p: Party| p@),
            value_owner_address: self.value_owner_address@,
        }
    }
}

/// The parties on the record whose role is `Owner`.
pub open spec fn owner_parties(owners: Seq<PartyView>) -> Seq<PartyView> {
    owners.filter(|p: PartyView| p.role == PartyType::Owner)
}

/// The explanation reported when the record does not have exactly one
/// `Owner` party.
pub open spec fn owner_count_explanation(count: nat) -> Seq<char> {
    "the scope should only include a single owner, but found: "@ + dec_str_of(count)
}

/// The explanation reported when the single `Owner` party is not the expected
/// address.
pub open spec fn owner_mismatch_explanation(expected: Seq<char>, actual: Seq<char>) -> Seq<
    char,
> {
    "the scope owner was expected to be ["@ + expected + "], not ["@ + actual + "]"@
}

/// The explanation reported when the value owner is not the expected address.
pub open spec fn value_owner_mismatch_explanation(
    expected: Seq<char>,
    actual: Seq<char>,
) -> Seq<char> {
    "the scope's value owner was expected to be ["@ + expected + "], not ["@ + actual + "]"@
}

/// The outcome of the ownership pre-check: `None` when the record passes
/// (exactly one `Owner` party, that party and the value owner matching the
/// expected addresses where those are given), otherwise the exact error, the
/// first failing check deciding.
pub open spec fn scope_owners_check(
    scope: ScopeView,
    expected_owner: Option<Seq<char>>,
    expected_value_owner: Option<Seq<char>>,
) -> Option<ContractErrorView> {
    let owners = owner_parties(scope.owners);
    if owners.len() != 1 {
        Some(
            ContractErrorView::InvalidScopeOwner {
                scope_address: scope.scope_id,
                explanation: owner_count_explanation(owners.len()),
            },
        )
    } else if expected_owner is Some && owners[0].address != expected_owner.unwrap() {
        Some(
            ContractErrorView::InvalidScopeOwner {
                scope_address: scope.scope_id,
                explanation: owner_mismatch_explanation(
                    expected_owner.unwrap(),
                    owners[0].address,
                ),
            },
        )
    } else if expected_value_owner is Some && scope.value_owner_address
        != expected_value_owner.unwrap() {
        Some(
            ContractErrorView::InvalidScopeOwner {
                scope_address: scope.scope_id,
                explanation: value_owner_mismatch_explanation(
                    expected_value_owner.unwrap(),
                    scope.value_owner_address,
                ),
            },
        )
    } else {
        None
    }
}

/// Whether the record passes the ownership pre-check.
pub open spec fn scope_owners_valid(
    scope: ScopeView,
    expected_owner: Option<Seq<char>>,
    expected_value_owner: Option<Seq<char>>,
) -> bool {
    scope_owners_check(scope, expected_owner, expected_value_owner) is None
}

/// Collects the parties with role `Owner`.
fn collect_owner_parties(owners: &Vec<Party>) -> (r: Vec<Party>)
    ensures
        r@.map_values(|p: Party| p@) == owner_parties(owners@.map_values(|p: Party| p@)),
{
    let mut out: Vec<Party> = Vec::new();
    let mut i: usize = 0;
    proof {
        assert(owners@.map_values(|p: Party| p@).take(0) =~= Seq::<PartyView>::empty());
        assert(Seq::<PartyView>::empty().filter(|p: PartyView| p.role == PartyType::Owner)
            =~= Seq::<PartyView>::empty());
        assert(out@.map_values(|p: Party| p@) =~= Seq::<PartyView>::empty());
    }
    while i < owners.len()
        invariant
            i <= owners@.len(),
            out@.map_values(|p: Party| p@) == owner_parties(
                owners@.map_values(|p: Party| p@).take(i as int),
            ),
        decreases owners@.len() - i,
    {
        let ghost pre_views = owners@.map_values(|p: Party| p@).take(i as int);
        let ghost post_views = owners@.map_values(|p: Party| p@).take(i as int + 1);
        proof {
            assert(post_views.drop_last() =~= pre_views);
            pre_views.lemma_filter_push(
                owners@.map_values(|p: Party| p@)[i as int],
                |p: PartyView| p.role == PartyType::Owner,
            );
            assert(post_views =~= pre_views.push(owners@.map_values(|p: Party| p@)[i as int]));
        }
        if matches!(owners[i].role, PartyType::Owner) {
            let p = Party { address: owners[i].address.clone(), role: owners[i].role };
            proof {
                assert(p@ == owners@.map_values(|q: Party| q@)[i as int]);
            }
            out.push(p);
            proof {
                assert(out@.map_values(|p: Party| p@) =~= owner_parties(post_views));
            }
        } else {
            proof {
                assert(out@.map_values(|p: Party| p@) =~= owner_parties(post_views));
            }
        }
        i = i + 1;
    }
    proof {
        assert(owners@.map_values(|p: Party| p@).take(owners@.len() as int)
            =~= owners@.map_values(|p: Party| p@));
    }
    out
}

/// Verifies that the external asset is properly owned: at minimum, that it
/// has exactly one `Owner` party; additionally, that this party and the value
/// owner match the expected addresses where those are given.
pub fn check_scope_owners(
    scope: &Scope,
    expected_owner: Option<&String>,
    expected_value_owner: Option<&String>,
) -> (r: Result<(), ContractError>)
    ensures
        (match scope_owners_check(
            scope@,
            match expected_owner {
                Some(a) => Some(a@),
                None => None,
            },
            match expected_value_owner {
                Some(a) => Some(a@),
                None => None,
            },
        ) {
            None => r is Ok,
            Some(expected_err) => r matches Err(e) && e@ == expected_err,
        }),
{
    let ghost owner_views = owner_parties(scope@.owners);
    let owners = collect_owner_parties(&scope.owners);
    if owners.len() != 1 {
        let mut explanation = String::from_str(
            "the scope should only include a single owner, but found: ",
        );
        explanation.append(u128_to_dec_string(owners.len() as u128).as_str());
        proof {
            assert(owners@.len() == owner_views.len());
            assert(explanation@ =~= owner_count_explanation(owner_views.len()));
        }
        return Err(ContractError::InvalidScopeOwner {
            scope_address: scope.scope_id.clone(),
            explanation,
        });
    }
    proof {
        assert(owners@[0]@ == owner_views[0]);
    }
    if let Some(expected) = expected_owner {
        if !String::eq(&owners[0].address, expected) {
            let mut explanation = String::from_str("the scope owner was expected to be [");
            explanation.append(expected.as_str());
            explanation.append("], not [");
            explanation.append(owners[0].address.as_str());
            explanation.append("]");
            proof {
                assert(explanation@ =~= owner_mismatch_explanation(
                    expected@,
                    owner_views[0].address,
                ));
            }
            return Err(ContractError::InvalidScopeOwner {
                scope_address: scope.scope_id.clone(),
                explanation,
            });
        }
    }
    if let Some(expected) = expected_value_owner {
        if !String::eq(&scope.value_owner_address, expected) {
            let mut explanation = String::from_str(
                "the scope's value owner was expected to be [",
            );
            explanation.append(expected.as_str());
            explanation.append("], not [");
            explanation.append(scope.value_owner_address.as_str());
            explanation.append("]");
            proof {
                assert(explanation@ =~= value_owner_mismatch_explanation(
                    expected@,
                    scope@.value_owner_address,
                ));
            }
            return Err(ContractError::InvalidScopeOwner {
                scope_address: scope.scope_id.clone(),
                explanation,
            });
        }
    }
    Ok(())
}

/// Replaces the record's single owner: drops every `Owner` party, appends the
/// new owner as the sole `Owner`, and makes it the value owner as well.
pub fn replace_scope_owner(scope: Scope, new_owner: String) -> (r: Result<Scope, ContractError>)
    ensures
        r matches Ok(s) && s@.scope_id == scope@.scope_id && s@.value_owner_address == new_owner@
            && s@.owners == scope@.owners.filter(|p: PartyView| p.role != PartyType::Owner).push(
            PartyView { address: new_owner@, role: PartyType::Owner },
        ),
{
    let mut kept: Vec<Party> = Vec::new();
    let mut i: usize = 0;
    proof {
        assert(scope@.owners.take(0) =~= Seq::<PartyView>::empty());
        assert(Seq::<PartyView>::empty().filter(|p: PartyView| p.role != PartyType::Owner)
            =~= Seq::<PartyView>::empty());
        assert(kept@.map_values(|p: Party| p@) =~= Seq::<PartyView>::empty());
    }
    while i < scope.owners.len()
        invariant
            i <= scope.owners@.len(),
            kept@.map_values(|p: Party| p@) == scope@.owners.take(i as int).filter(
                |p: PartyView| p.role != PartyType::Owner,
            ),
        decreases scope.owners@.len() - i,
    {
        let ghost pre_views = scope@.owners.take(i as int);
        let ghost post_views = scope@.owners.take(i as int + 1);
        proof {
            assert(post_views.drop_last() =~= pre_views);
            pre_views.lemma_filter_push(
                scope@.owners[i as int],
                |p: PartyView| p.role != PartyType::Owner,
            );
            assert(post_views =~= pre_views.push(scope@.owners[i as int]));
        }
        if !matches!(scope.owners[i].role, PartyType::Owner) {
            let p = Party {
                address: scope.owners[i].address.clone(),
                role: scope.owners[i].role,
            };
            proof {
                assert(p@ == scope@.owners[i as int]);
            }
            kept.push(p);
            proof {
                assert(kept@.map_values(|p: Party| p@) =~= post_views.filter(
                    |p: PartyView| p.role != PartyType::Owner,
                ));
            }
        } else {
            proof {
                assert(kept@.map_values(|p: Party| p@) =~= post_views.filter(
                    |p: PartyView| p.role != PartyType::Owner,
                ));
            }
        }
        i = i + 1;
    }
    proof {
        assert(scope@.owners.take(scope.owners@.len() as int) =~= scope@.owners);
    }
    kept.push(Party { address: new_owner.clone(), role: PartyType::Owner });
    proof {
        assert(kept@.map_values(|p: Party| p@) =~= scope@.owners.filter(
            |p: PartyView| p.role != PartyType::Owner,
        ).push(PartyView { address: new_owner@, role: PartyType::Owner }));
    }
    Ok(Scope { scope_id: scope.scope_id, owners: kept, value_owner_address: new_owner })
}

} // verus!
