use vstd::prelude::*;
use vstd::string::*;

use crate::error::EcsError;
use crate::model::TaskRecord;

verus! {

/// What resolving the explicitly named task `name` from `described` gives.
pub open spec fn task_lookup(name: Seq<char>, described: Seq<TaskRecord>, r: Result<TaskRecord, EcsError>) -> bool {
    match r {
        Ok(t) => described.len() > 0 && t == described[0] && t.arn is Some,
        Err(e) => {
            ||| described.len() == 0 && e is NotFound && e->NotFound_0@ == name
            ||| described.len() > 0 && described[0].arn is None && e is ApiError
        },
    }
}

/// Resolves an explicitly named task from what a lookup of that name within the
/// cluster returned: the first task returned. Fails with `NotFound` when none was,
/// and with `ApiError` when that task lacks its identifier.
pub fn task_by_name(name: &str, described: Vec<TaskRecord>) -> (r: Result<TaskRecord, EcsError>)
    ensures
        task_lookup(name@, described@, r),
{
    let mut described = described;
    if described.len() == 0 {
        return Err(EcsError::NotFound(String::from_str(name)));
    }
    let t = described.swap_remove(0);
    if t.arn.is_none() {
        return Err(EcsError::ApiError(String::from_str("task identifier is not defined")));
    }
    Ok(t)
}

/// What offering the tasks `described` for `requested` listed identifiers gives.
pub open spec fn task_offer(requested: int, described: Seq<TaskRecord>, r: Result<Vec<TaskRecord>, EcsError>) -> bool {
    match r {
        Ok(v) => {
            &&& v@ == described
            &&& described.len() >= requested
            &&& described.len() > 0
            &&& forall|i: int| 0 <= i < described.len() ==> (#[trigger] described[i]).arn is Some
        },
        Err(e) => {
            ||| described.len() < requested && e is ApiError
            ||| described.len() >= requested
                && (exists|i: int| 0 <= i < described.len() && (#[trigger] described[i]).arn is None)
                && e is ApiError
            ||| described.len() == 0 && requested == 0 && e is EmptyResult
        },
    }
}

/// The tasks offered for selection, from the `requested` identifiers that were
/// listed in the cluster and the tasks that describing them returned, kept whole
/// and in the order returned. Fails with `ApiError` when fewer tasks came back than
/// were requested, or when one lacks the identifier that it is shown by; with
/// `EmptyResult` when there is no task, so that no prompt is shown.
pub fn task_candidates(requested: usize, described: Vec<TaskRecord>) -> (r: Result<Vec<TaskRecord>, EcsError>)
    ensures
        task_offer(requested as int, described@, r),
{
    if described.len() < requested {
        return Err(EcsError::ApiError(String::from_str("fewer tasks were described than requested")));
    }
    let mut i: usize = 0;
    while i < described.len()
        invariant
            i <= described@.len(),
            forall|j: int| 0 <= j < i ==> (#[trigger] described@[j]).arn is Some,
        decreases described@.len() - i,
    {
        if described[i].arn.is_none() {
            return Err(EcsError::ApiError(String::from_str("task identifier is not defined")));
        }
        i = i + 1;
    }
    if described.len() == 0 {
        return Err(EcsError::EmptyResult(String::from_str("task")));
    }
    Ok(described)
}

} // verus!
