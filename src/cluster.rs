use vstd::prelude::*;
use vstd::string::*;

use crate::error::EcsError;
use crate::identifier::{display_name_of, has_separator, parse_identifier, str_equal};
use crate::model::{ClusterRecord, ClusterRef};

verus! {

/// A described cluster answers to `name` by its name or by its identifier.
pub open spec fn cluster_matches(c: ClusterRecord, name: Seq<char>) -> bool {
    ||| (c.name is Some && c.name->Some_0@ == name)
    ||| (c.arn is Some && c.arn->Some_0@ == name)
}

/// `i` is the first described cluster that answers to `name`.
pub open spec fn first_cluster_match(s: Seq<ClusterRecord>, name: Seq<char>, i: int) -> bool {
    &&& 0 <= i < s.len()
    &&& cluster_matches(s[i], name)
    &&& forall|j: int| 0 <= j < i ==> !cluster_matches(#[trigger] s[j], name)
}

/// A described cluster with a non-empty name and a non-empty identifier.
pub open spec fn complete_cluster(c: ClusterRecord) -> bool {
    &&& c.name is Some
    &&& c.arn is Some
    &&& c.name->Some_0@.len() > 0
    &&& c.arn->Some_0@.len() > 0
}

/// What resolving the explicitly named cluster `name` among `described` gives.
pub open spec fn cluster_lookup(name: Seq<char>, described: Seq<ClusterRecord>, r: Result<ClusterRef, EcsError>) -> bool {
    match r {
        Ok(c) => exists|i: int|
            {
                &&& #[trigger] first_cluster_match(described, name, i)
                &&& complete_cluster(described[i])
                &&& c.name == described[i].name->Some_0
                &&& c.arn == described[i].arn->Some_0
            },
        Err(e) => {
            ||| (forall|i: int| 0 <= i < described.len() ==> !cluster_matches(#[trigger] described[i], name))
                && e is NotFound && e->NotFound_0@ == name
            ||| (exists|i: int| #[trigger] first_cluster_match(described, name, i) && !complete_cluster(described[i]))
                && e is ApiError
        },
    }
}

/// Resolves an explicitly named cluster among the clusters that a lookup by that
/// name returned: the first that answers to the name by its name or identifier.
/// Fails with `NotFound` when none does, and with `ApiError` when that one lacks
/// its name or identifier.
pub fn cluster_by_name(name: &str, described: &Vec<ClusterRecord>) -> (r: Result<ClusterRef, EcsError>)
    ensures
        cluster_lookup(name@, described@, r),
{
    let mut i: usize = 0;
    while i < described.len()
        invariant
            i <= described@.len(),
            forall|j: int| 0 <= j < i ==> !cluster_matches(#[trigger] described@[j], name@),
        decreases described@.len() - i,
    {
        let c = &described[i];
        let by_name = match &c.name {
            Some(n) => str_equal(n.as_str(), name),
            None => false,
        };
        let by_arn = match &c.arn {
            Some(a) => str_equal(a.as_str(), name),
            None => false,
        };
        if by_name || by_arn {
            assert(first_cluster_match(described@, name@, i as int));
            match (&c.name, &c.arn) {
                (Some(n), Some(a)) => {
                    if n.as_str().unicode_len() > 0 && a.as_str().unicode_len() > 0 {
                        return Ok(ClusterRef { name: n.clone(), arn: a.clone() });
                    }
                },
                _ => {},
            }
            return Err(EcsError::ApiError(String::from_str("cluster name or identifier is not defined")));
        }
        i = i + 1;
    }
    Err(EcsError::NotFound(String::from_str(name)))
}

/// When exactly one described cluster answers to the name, it is the first that
/// does, and no other is: the lookup by name resolves to that entry.
pub proof fn lemma_unique_match_resolves(described: Seq<ClusterRecord>, name: Seq<char>, i: int)
    requires
        0 <= i < described.len(),
        cluster_matches(described[i], name),
        forall|j: int| 0 <= j < described.len() && j != i ==> !cluster_matches(#[trigger] described[j], name),
    ensures
        first_cluster_match(described, name, i),
        forall|k: int| #[trigger] first_cluster_match(described, name, k) ==> k == i,
{
}

/// A listed cluster identifier from which a cluster can be offered: it holds a
/// separator, and a non-empty display name after it.
pub open spec fn offerable_cluster(arn: Seq<char>) -> bool {
    has_separator(arn) && display_name_of(arn).len() > 0
}

/// `c` is the cluster offered for the listed identifier `arn`.
pub open spec fn offered_for(arn: Seq<char>, c: ClusterRef) -> bool {
    &&& offerable_cluster(arn)
    &&& c.arn@ == arn
    &&& c.name@ == display_name_of(arn)
}

/// What offering the clusters listed as `arns` gives.
pub open spec fn cluster_offer(arns: Seq<String>, r: Result<Vec<ClusterRef>, EcsError>) -> bool {
    match r {
        Ok(v) => {
            &&& arns.len() > 0
            &&& v@.len() == arns.len()
            &&& forall|i: int| 0 <= i < v@.len() ==> #[trigger] offered_for(arns[i]@, v@[i])
        },
        Err(e) => {
            ||| arns.len() == 0 && e is EmptyResult
            ||| arns.len() > 0 && (exists|i: int| 0 <= i < arns.len() && !offerable_cluster(#[trigger] arns[i]@))
                && e is ParseError
        },
    }
}

/// The clusters offered for selection, from the listed cluster identifiers: each
/// identifier with its display name, in the order listed. Fails with `EmptyResult`
/// when nothing is listed, so that no prompt is shown, and with `ParseError` when an
/// identifier holds no separator or nothing after it.
pub fn cluster_candidates(arns: &Vec<String>) -> (r: Result<Vec<ClusterRef>, EcsError>)
    ensures
        cluster_offer(arns@, r),
{
    if arns.len() == 0 {
        return Err(EcsError::EmptyResult(String::from_str("cluster")));
    }
    let mut v: Vec<ClusterRef> = Vec::new();
    let mut i: usize = 0;
    while i < arns.len()
        invariant
            i <= arns@.len(),
            arns@.len() > 0,
            v@.len() == i,
            forall|j: int| 0 <= j < i ==> #[trigger] offered_for(arns@[j]@, v@[j]),
        decreases arns@.len() - i,
    {
        let arn = &arns[i];
        match parse_identifier(arn.as_str()) {
            Ok(p) => {
                if p.name.as_str().unicode_len() == 0 {
                    return Err(EcsError::ParseError(arn.clone()));
                }
                let ghost before = v@;
                v.push(ClusterRef { name: p.name, arn: arn.clone() });
                assert(offered_for(arns@[i as int]@, v@[i as int]));
                assert forall|j: int| 0 <= j < i + 1 implies #[trigger] offered_for(arns@[j]@, v@[j]) by {
                    if j < i {
                        assert(v@[j] == before[j]);
                    }
                }
            },
            Err(e) => {
                return Err(e);
            },
        }
        i = i + 1;
    }
    Ok(v)
}

} // verus!
