use vstd::prelude::*;
use vstd::string::*;

use crate::error::EcsError;

verus! {

/// What offering `offered` at `stage` gives.
pub open spec fn offer_result<T>(stage: Seq<char>, offered: Seq<T>, r: Result<Vec<T>, EcsError>) -> bool {
    match r {
        Ok(v) => v@ == offered && offered.len() > 0,
        Err(e) => offered.len() == 0 && e is EmptyResult && e->EmptyResult_0@ == stage,
    }
}

/// Passes on the candidates of `stage` to be offered for selection. Fails with
/// `EmptyResult` when there is none, so that no prompt is shown.
pub fn offer<T>(stage: &str, offered: Vec<T>) -> (r: Result<Vec<T>, EcsError>)
    ensures
        offer_result(stage@, offered@, r),
{
    if offered.len() == 0 {
        return Err(EcsError::EmptyResult(String::from_str(stage)));
    }
    Ok(offered)
}

/// What the prompt's `answer` at `stage` over `offered` gives.
pub open spec fn picked<T>(stage: Seq<char>, offered: Seq<T>, answer: Option<usize>, r: Result<T, EcsError>) -> bool {
    match r {
        Ok(t) => answer is Some && answer->Some_0 < offered.len() && t == offered[answer->Some_0 as int],
        Err(e) => {
            &&& (answer is None || answer->Some_0 >= offered.len())
            &&& e is PromptFailed
            &&& e->PromptFailed_0@ == stage
        },
    }
}

/// The candidate of `stage` that the prompt's `answer` designates by its position.
/// Fails with `PromptFailed` when the prompt was cancelled (no answer) or answered
/// out of range.
pub fn pick<T>(stage: &str, offered: Vec<T>, answer: Option<usize>) -> (r: Result<T, EcsError>)
    ensures
        picked(stage@, offered@, answer, r),
{
    match answer {
        Some(i) => {
            if i < offered.len() {
                let mut rest = offered;
                Ok(rest.swap_remove(i))
            } else {
                Err(EcsError::PromptFailed(String::from_str(stage)))
            }
        },
        None => Err(EcsError::PromptFailed(String::from_str(stage))),
    }
}

} // verus!
