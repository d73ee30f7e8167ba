use vstd::prelude::*;
use vstd::string::*;

use crate::error::EcsError;
use crate::identifier::str_equal;
use crate::model::{ContainerRecord, ContainerRef, TaskRecord};

verus! {

/// The containers of one described task; none when the answer omits them.
pub open spec fn containers_of(t: TaskRecord) -> Seq<ContainerRecord> {
    match t.containers {
        Some(v) => v@,
        None => Seq::empty(),
    }
}

/// The containers of all described tasks, task after task.
pub open spec fn all_containers(ts: Seq<TaskRecord>) -> Seq<ContainerRecord>
    decreases ts.len(),
{
    if ts.len() == 0 {
        Seq::empty()
    } else {
        all_containers(ts.drop_last()) + containers_of(ts.last())
    }
}

/// A described container can be selected: it has a name, an identifier and a
/// runtime id.
pub open spec fn is_ready(c: ContainerRecord) -> bool {
    c.name is Some && c.arn is Some && c.runtime_id is Some
}

/// The selectable container of a ready record.
pub open spec fn ready_ref(c: ContainerRecord) -> ContainerRef {
    ContainerRef { name: c.name->Some_0, arn: c.arn->Some_0, runtime_id: c.runtime_id->Some_0 }
}

/// The ready containers among `cs`, in their order.
pub open spec fn ready_containers(cs: Seq<ContainerRecord>) -> Seq<ContainerRef>
    decreases cs.len(),
{
    if cs.len() == 0 {
        Seq::empty()
    } else if is_ready(cs.last()) {
        ready_containers(cs.drop_last()).push(ready_ref(cs.last()))
    } else {
        ready_containers(cs.drop_last())
    }
}

/// The containers offered for a task, from what describing it returned: the
/// containers of every returned task, flattened in order, without those that are
/// not ready.
pub fn container_candidates(described: &Vec<TaskRecord>) -> (r: Vec<ContainerRef>)
    ensures
        r@ == ready_containers(all_containers(described@)),
{
    let mut r: Vec<ContainerRef> = Vec::new();
    let mut k: usize = 0;
    while k < described.len()
        invariant
            k <= described@.len(),
            r@ == ready_containers(all_containers(described@.subrange(0, k as int))),
        decreases described@.len() - k,
    {
        let ghost done = all_containers(described@.subrange(0, k as int));
        proof {
            assert(described@.subrange(0, k + 1).drop_last() =~= described@.subrange(0, k as int));
        }
        match &described[k].containers {
            Some(cs) => {
                let mut j: usize = 0;
                while j < cs.len()
                    invariant
                        j <= cs@.len(),
                        r@ == ready_containers(done + cs@.subrange(0, j as int)),
                    decreases cs@.len() - j,
                {
                    proof {
                        assert((done + cs@.subrange(0, j + 1)).drop_last() =~= done + cs@.subrange(0, j as int));
                    }
                    let c = &cs[j];
                    match (&c.name, &c.arn, &c.runtime_id) {
                        (Some(n), Some(a), Some(id)) => {
                            r.push(ContainerRef { name: n.clone(), arn: a.clone(), runtime_id: id.clone() });
                        },
                        _ => {},
                    }
                    j = j + 1;
                }
                proof {
                    assert(cs@.subrange(0, j as int) =~= cs@);
                }
            },
            None => {
                proof {
                    assert(done + Seq::empty() =~= done);
                }
            },
        }
        k = k + 1;
    }
    proof {
        assert(described@.subrange(0, k as int) =~= described@);
    }
    r
}

/// Every container offered is a ready one of those described: one with a runtime
/// id, which is the candidate's runtime id.
pub proof fn lemma_offered_containers_are_ready(cs: Seq<ContainerRecord>)
    ensures
        forall|i: int| 0 <= i < ready_containers(cs).len() ==> exists|j: int|
            0 <= j < cs.len() && is_ready(#[trigger] cs[j])
                && cs[j].runtime_id == Some((#[trigger] ready_containers(cs)[i]).runtime_id)
                && ready_containers(cs)[i] == ready_ref(cs[j]),
    decreases cs.len(),
{
    if cs.len() > 0 {
        let init = cs.drop_last();
        lemma_offered_containers_are_ready(init);
        assert forall|i: int| 0 <= i < ready_containers(cs).len() implies exists|j: int|
            0 <= j < cs.len() && is_ready(#[trigger] cs[j])
                && cs[j].runtime_id == Some((#[trigger] ready_containers(cs)[i]).runtime_id)
                && ready_containers(cs)[i] == ready_ref(cs[j]) by {
            if i < ready_containers(init).len() {
                let j = choose|j: int|
                    0 <= j < init.len() && is_ready(#[trigger] init[j])
                        && init[j].runtime_id == Some((#[trigger] ready_containers(init)[i]).runtime_id)
                        && ready_containers(init)[i] == ready_ref(init[j]);
                assert(cs[j] == init[j]);
            } else {
                assert(cs[cs.len() - 1] == cs.last());
            }
        }
    }
}

/// What resolving the explicitly named container `name` among `offered` gives.
pub open spec fn container_match(name: Seq<char>, offered: Seq<ContainerRef>, r: Result<ContainerRef, EcsError>) -> bool {
    match r {
        Ok(c) => exists|i: int|
            0 <= i < offered.len() && c == #[trigger] offered[i] && c.name@ == name
                && forall|j: int| 0 <= j < i ==> (#[trigger] offered[j]).name@ != name,
        Err(e) => {
            &&& forall|i: int| 0 <= i < offered.len() ==> (#[trigger] offered[i]).name@ != name
            &&& e is NotFound
            &&& e->NotFound_0@ == name
        },
    }
}

/// Resolves an explicitly named container among the offered ones: the first with
/// exactly that name. Fails with `NotFound` exactly when no offered container has
/// that name, whatever their order.
pub fn container_by_name(name: &str, offered: Vec<ContainerRef>) -> (r: Result<ContainerRef, EcsError>)
    ensures
        container_match(name@, offered@, r),
{
    let mut i: usize = 0;
    while i < offered.len()
        invariant
            i <= offered@.len(),
            forall|j: int| 0 <= j < i ==> (#[trigger] offered@[j]).name@ != name@,
        decreases offered@.len() - i,
    {
        if str_equal(offered[i].name.as_str(), name) {
            let mut rest = offered;
            let c = rest.swap_remove(i);
            return Ok(c);
        }
        i = i + 1;
    }
    Err(EcsError::NotFound(String::from_str(name)))
}

} // verus!
