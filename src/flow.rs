use vstd::prelude::*;
use vstd::string::*;

use crate::cluster::{
    cluster_by_name, cluster_candidates, cluster_lookup, cluster_matches, cluster_offer, complete_cluster,
    first_cluster_match, lemma_unique_match_resolves,
};
use crate::container::{all_containers, container_by_name, container_candidates, container_match, ready_containers};
use crate::error::EcsError;
use crate::model::{ClusterRecord, ClusterRef, ContainerRef, TaskRecord};
use crate::selection::{offer, offer_result, pick, picked};
use crate::task::{task_by_name, task_candidates, task_lookup, task_offer};

verus! {

/// Where a resolution stands: the answer it awaits, and what it has resolved.
#[derive(Debug, Clone, PartialEq, Eq)]
pub enum Phase {
    /// Awaits the clusters that a lookup of this name returned.
    DescribingCluster(String),
    /// Awaits the listed cluster identifiers.
    ListingClusters,
    /// Awaits the answer to the prompt over these clusters.
    ChoosingCluster(Vec<ClusterRef>),
    /// Awaits the tasks that a lookup by the task name in the cluster returned.
    DescribingTask(ClusterRef, String),
    /// Awaits the task identifiers listed in the cluster.
    ListingTasks(ClusterRef),
    /// Awaits the tasks described for this many listed identifiers.
    DescribingTasks(ClusterRef, usize),
    /// Awaits the answer to the prompt over these tasks.
    ChoosingTask(ClusterRef, Vec<TaskRecord>),
    /// Awaits the description of the resolved task, for its containers.
    DescribingContainers(ClusterRef, TaskRecord),
    /// Awaits the answer to the prompt over these containers.
    ChoosingContainer(ClusterRef, TaskRecord, Vec<ContainerRef>),
    /// The cluster, the task and the container are resolved.
    Resolved,
    /// The resolution failed.
    Failed,
}

/// An answer of the control plane or of the prompt.
#[derive(Debug, Clone, PartialEq, Eq)]
pub enum Event {
    /// The clusters that a lookup by name returned.
    Clusters(Vec<ClusterRecord>),
    /// The listed cluster identifiers.
    ClusterArns(Vec<String>),
    /// The tasks that a lookup or a description returned.
    Tasks(Vec<TaskRecord>),
    /// The listed task identifiers.
    TaskArns(Vec<String>),
    /// The position chosen at the prompt; none when it was cancelled or failed.
    Answer(Option<usize>),
}

/// What the caller is to do next.
#[derive(Debug, Clone, PartialEq, Eq)]
pub enum Action {
    /// Look up the cluster of this name.
    DescribeCluster(String),
    /// List the cluster identifiers.
    ListClusters,
    /// Look up, in the cluster of the first identifier, the task of the second name.
    DescribeTask(String, String),
    /// List the task identifiers of the cluster of this identifier.
    ListTasks(String),
    /// Describe, in the cluster of the first identifier, all these tasks in one call.
    DescribeTasks(String, Vec<String>),
    /// Describe, in the cluster of the first identifier, the task of the second.
    DescribeContainers(String, String),
    /// Prompt for one of these labels at the named stage.
    Prompt(String, Vec<String>),
    /// The resolution is done.
    Done(ClusterRef, TaskRecord, ContainerRef),
    /// The resolution failed.
    Fail(EcsError),
}

/// A resolution of a cluster, a task and a container, from optional explicit names.
#[derive(Debug, Clone, PartialEq, Eq)]
pub struct Resolver {
    pub task_arg: Option<String>,
    pub container_arg: Option<String>,
    pub phase: Phase,
}

/// How a cluster or a container is shown at the prompt: its name and, in
/// parentheses, its identifier.
pub open spec fn ref_label(name: Seq<char>, arn: Seq<char>) -> Seq<char> {
    name + " ("@ + arn + ")"@
}

/// The labels of clusters at the prompt.
pub open spec fn cluster_labels(labels: Seq<String>, v: Seq<ClusterRef>) -> bool {
    &&& labels.len() == v.len()
    &&& forall|i: int| 0 <= i < v.len() ==> (#[trigger] labels[i])@ == ref_label(v[i].name@, v[i].arn@)
}

/// The labels of tasks at the prompt: their identifiers.
pub open spec fn task_labels(labels: Seq<String>, v: Seq<TaskRecord>) -> bool {
    &&& labels.len() == v.len()
    &&& forall|i: int| 0 <= i < v.len() ==> v[i].arn == Some(#[trigger] labels[i])
}

/// The labels of containers at the prompt.
pub open spec fn container_labels(labels: Seq<String>, v: Seq<ContainerRef>) -> bool {
    &&& labels.len() == v.len()
    &&& forall|i: int| 0 <= i < v.len() ==> (#[trigger] labels[i])@ == ref_label(v[i].name@, v[i].arn@)
}

impl Resolver {
    /// Every task that the resolution holds has an identifier.
    pub open spec fn wf(&self) -> bool {
        match self.phase {
            Phase::ChoosingTask(_, v) => forall|i: int| 0 <= i < v@.len() ==> (#[trigger] v@[i]).arn is Some,
            Phase::DescribingContainers(_, t) => t.arn is Some,
            Phase::ChoosingContainer(_, t, _) => t.arn is Some,
            _ => true,
        }
    }
}

/// `n` has failed with `e`, and the caller is told so.
pub open spec fn failed(n: Resolver, a: Action, e: EcsError) -> bool {
    n.phase is Failed && a == Action::Fail(e)
}

/// An answer that the phase does not await fails the resolution.
pub open spec fn refused(n: Resolver, a: Action) -> bool {
    n.phase is Failed && a is Fail && a->Fail_0 is ApiError
}

/// With the cluster `c` resolved, the task is looked up by its explicit name, or the
/// tasks of the cluster are listed.
pub open spec fn enters_task(n: Resolver, a: Action, c: ClusterRef) -> bool {
    match n.task_arg {
        Some(t) => n.phase == Phase::DescribingTask(c, t) && a == Action::DescribeTask(c.arn, t),
        None => n.phase == Phase::ListingTasks(c) && a == Action::ListTasks(c.arn),
    }
}

/// With the task `t` resolved, it is described for its containers.
pub open spec fn enters_container(n: Resolver, a: Action, c: ClusterRef, t: TaskRecord) -> bool {
    &&& t.arn is Some
    &&& n.phase == Phase::DescribingContainers(c, t)
    &&& a == Action::DescribeContainers(c.arn, t.arn->Some_0)
}

/// What follows the cluster stage's outcome `r`.
pub open spec fn after_cluster(n: Resolver, a: Action, r: Result<ClusterRef, EcsError>) -> bool {
    match r {
        Ok(c) => enters_task(n, a, c),
        Err(e) => failed(n, a, e),
    }
}

/// What follows the task stage's outcome `r`.
pub open spec fn after_task(n: Resolver, a: Action, c: ClusterRef, r: Result<TaskRecord, EcsError>) -> bool {
    match r {
        Ok(t) => enters_container(n, a, c, t),
        Err(e) => failed(n, a, e),
    }
}

/// What follows the container stage's outcome `r`.
pub open spec fn after_container(
    n: Resolver,
    a: Action,
    c: ClusterRef,
    t: TaskRecord,
    r: Result<ContainerRef, EcsError>,
) -> bool {
    match r {
        Ok(k) => n.phase is Resolved && a == Action::Done(c, t, k),
        Err(e) => failed(n, a, e),
    }
}

/// A resolution begins: the cluster is looked up by its explicit name, or the
/// clusters are listed.
pub open spec fn begins(cluster_arg: Option<String>, n: Resolver, a: Action) -> bool {
    match cluster_arg {
        Some(name) => n.phase == Phase::DescribingCluster(name) && a == Action::DescribeCluster(name),
        None => n.phase is ListingClusters && a is ListClusters,
    }
}

/// One step of a resolution: from `s`, the answer `ev` leads to `n`, and the caller
/// is to do `a`. Each stage resolves by its explicit name when one is given, and by
/// a prompt over its candidates otherwise; an empty list of task identifiers is not
/// described.
pub open spec fn steps_to(s: Resolver, ev: Event, n: Resolver, a: Action) -> bool {
    &&& n.task_arg == s.task_arg
    &&& n.container_arg == s.container_arg
    &&& match s.phase {
        Phase::DescribingCluster(name) => match ev {
            Event::Clusters(recs) => exists|r| #[trigger] cluster_lookup(name@, recs@, r) && after_cluster(n, a, r),
            _ => refused(n, a),
        },
        Phase::ListingClusters => match ev {
            Event::ClusterArns(arns) => exists|r: Result<Vec<ClusterRef>, EcsError>|
                #[trigger] cluster_offer(arns@, r) && match r {
                    Ok(v) => n.phase == Phase::ChoosingCluster(v) && a is Prompt && a->Prompt_0@ == "cluster"@
                        && cluster_labels(a->Prompt_1@, v@),
                    Err(e) => failed(n, a, e),
                },
            _ => refused(n, a),
        },
        Phase::ChoosingCluster(v) => match ev {
            Event::Answer(ans) => exists|r| #[trigger] picked("cluster"@, v@, ans, r) && after_cluster(n, a, r),
            _ => refused(n, a),
        },
        Phase::DescribingTask(c, name) => match ev {
            Event::Tasks(recs) => exists|r| #[trigger] task_lookup(name@, recs@, r) && after_task(n, a, c, r),
            _ => refused(n, a),
        },
        Phase::ListingTasks(c) => match ev {
            Event::TaskArns(ids) => if ids@.len() == 0 {
                n.phase is Failed && a is Fail && a->Fail_0 is EmptyResult
            } else {
                n.phase == Phase::DescribingTasks(c, ids@.len() as usize) && a == Action::DescribeTasks(c.arn, ids)
            },
            _ => refused(n, a),
        },
        Phase::DescribingTasks(c, k) => match ev {
            Event::Tasks(recs) => exists|r: Result<Vec<TaskRecord>, EcsError>|
                #[trigger] task_offer(k as int, recs@, r) && match r {
                    Ok(v) => n.phase == Phase::ChoosingTask(c, v) && a is Prompt && a->Prompt_0@ == "task"@
                        && task_labels(a->Prompt_1@, v@),
                    Err(e) => failed(n, a, e),
                },
            _ => refused(n, a),
        },
        Phase::ChoosingTask(c, v) => match ev {
            Event::Answer(ans) => exists|r| #[trigger] picked("task"@, v@, ans, r) && after_task(n, a, c, r),
            _ => refused(n, a),
        },
        Phase::DescribingContainers(c, t) => match ev {
            Event::Tasks(recs) => match s.container_arg {
                Some(name) => exists|r|
                    #[trigger] container_match(name@, ready_containers(all_containers(recs@)), r)
                        && after_container(n, a, c, t, r),
                None => exists|r: Result<Vec<ContainerRef>, EcsError>|
                    #[trigger] offer_result("container"@, ready_containers(all_containers(recs@)), r)
                        && match r {
                        Ok(v) => n.phase == Phase::ChoosingContainer(c, t, v) && a is Prompt && a->Prompt_0@
                            == "container"@ && container_labels(a->Prompt_1@, v@),
                        Err(e) => failed(n, a, e),
                    },
            },
            _ => refused(n, a),
        },
        Phase::ChoosingContainer(c, t, v) => match ev {
            Event::Answer(ans) => exists|r| #[trigger] picked("container"@, v@, ans, r) && after_container(n, a, c, t, r),
            _ => refused(n, a),
        },
        Phase::Resolved => refused(n, a),
        Phase::Failed => refused(n, a),
    }
}

/// Builds the prompt label of a cluster or a container.
fn label_of(name: &str, arn: &str) -> (r: String)
    ensures
        r@ == ref_label(name@, arn@),
{
    let mut r = String::from_str(name);
    r.append(" (");
    r.append(arn);
    r.append(")");
    r
}

/// Builds the prompt labels of clusters.
fn labels_of_clusters(v: &Vec<ClusterRef>) -> (r: Vec<String>)
    ensures
        cluster_labels(r@, v@),
{
    let mut r: Vec<String> = Vec::new();
    let mut i: usize = 0;
    while i < v.len()
        invariant
            i <= v@.len(),
            r@.len() == i,
            forall|j: int| 0 <= j < i ==> (#[trigger] r@[j])@ == ref_label(v@[j].name@, v@[j].arn@),
        decreases v@.len() - i,
    {
        r.push(label_of(v[i].name.as_str(), v[i].arn.as_str()));
        i = i + 1;
    }
    r
}

/// Builds the prompt labels of containers.
fn labels_of_containers(v: &Vec<ContainerRef>) -> (r: Vec<String>)
    ensures
        container_labels(r@, v@),
{
    let mut r: Vec<String> = Vec::new();
    let mut i: usize = 0;
    while i < v.len()
        invariant
            i <= v@.len(),
            r@.len() == i,
            forall|j: int| 0 <= j < i ==> (#[trigger] r@[j])@ == ref_label(v@[j].name@, v@[j].arn@),
        decreases v@.len() - i,
    {
        r.push(label_of(v[i].name.as_str(), v[i].arn.as_str()));
        i = i + 1;
    }
    r
}

/// Builds the prompt labels of tasks, each of which has an identifier.
fn labels_of_tasks(v: &Vec<TaskRecord>) -> (r: Vec<String>)
    requires
        forall|i: int| 0 <= i < v@.len() ==> (#[trigger] v@[i]).arn is Some,
    ensures
        task_labels(r@, v@),
{
    let mut r: Vec<String> = Vec::new();
    let mut i: usize = 0;
    while i < v.len()
        invariant
            i <= v@.len(),
            r@.len() == i,
            forall|j: int| 0 <= j < v@.len() ==> (#[trigger] v@[j]).arn is Some,
            forall|j: int| 0 <= j < i ==> v@[j].arn == Some(#[trigger] r@[j]),
        decreases v@.len() - i,
    {
        match &v[i].arn {
            Some(a) => r.push(a.clone()),
            None => {
                proof {
                    assert(v@[i as int].arn is Some);
                }
            },
        }
        i = i + 1;
    }
    r
}

/// Fails the resolution with `e`.
fn fail_with(task_arg: Option<String>, container_arg: Option<String>, e: EcsError) -> (r: (Resolver, Action))
    ensures
        r.0.task_arg == task_arg,
        r.0.container_arg == container_arg,
        r.0.wf(),
        failed(r.0, r.1, e),
{
    (Resolver { task_arg, container_arg, phase: Phase::Failed }, Action::Fail(e))
}

/// An answer that the phase does not await.
fn refuse(task_arg: Option<String>, container_arg: Option<String>) -> (r: (Resolver, Action))
    ensures
        r.0.task_arg == task_arg,
        r.0.container_arg == container_arg,
        r.0.wf(),
        refused(r.0, r.1),
{
    let e = EcsError::ApiError(String::from_str("unexpected answer for this stage"));
    (Resolver { task_arg, container_arg, phase: Phase::Failed }, Action::Fail(e))
}

/// Goes on from the outcome of the cluster stage.
fn continue_cluster(task_arg: Option<String>, container_arg: Option<String>, r: Result<ClusterRef, EcsError>) -> (out: (
    Resolver,
    Action,
))
    ensures
        out.0.task_arg == task_arg,
        out.0.container_arg == container_arg,
        out.0.wf(),
        after_cluster(out.0, out.1, r),
{
    match r {
        Ok(c) => match &task_arg {
            Some(t) => {
                let t = t.clone();
                let a = Action::DescribeTask(c.arn.clone(), t.clone());
                (Resolver { task_arg, container_arg, phase: Phase::DescribingTask(c, t) }, a)
            },
            None => {
                let a = Action::ListTasks(c.arn.clone());
                (Resolver { task_arg, container_arg, phase: Phase::ListingTasks(c) }, a)
            },
        },
        Err(e) => fail_with(task_arg, container_arg, e),
    }
}

/// Goes on from the outcome of the task stage in the cluster `c`.
fn continue_task(
    task_arg: Option<String>,
    container_arg: Option<String>,
    c: ClusterRef,
    r: Result<TaskRecord, EcsError>,
) -> (out: (Resolver, Action))
    requires
        r matches Ok(t) ==> t.arn is Some,
    ensures
        out.0.task_arg == task_arg,
        out.0.container_arg == container_arg,
        out.0.wf(),
        after_task(out.0, out.1, c, r),
{
    match r {
        Ok(t) => {
            let id = match &t.arn {
                Some(id) => id.clone(),
                None => String::new(),
            };
            let a = Action::DescribeContainers(c.arn.clone(), id);
            (Resolver { task_arg, container_arg, phase: Phase::DescribingContainers(c, t) }, a)
        },
        Err(e) => fail_with(task_arg, container_arg, e),
    }
}

/// Goes on from the outcome of the container stage.
fn continue_container(
    task_arg: Option<String>,
    container_arg: Option<String>,
    c: ClusterRef,
    t: TaskRecord,
    r: Result<ContainerRef, EcsError>,
) -> (out: (Resolver, Action))
    ensures
        out.0.task_arg == task_arg,
        out.0.container_arg == container_arg,
        out.0.wf(),
        after_container(out.0, out.1, c, t, r),
{
    match r {
        Ok(k) => (Resolver { task_arg, container_arg, phase: Phase::Resolved }, Action::Done(c, t, k)),
        Err(e) => fail_with(task_arg, container_arg, e),
    }
}

impl Resolver {
    /// Begins a resolution from the optional explicit names of the cluster, the task
    /// and the container.
    pub fn start(cluster: Option<String>, task: Option<String>, container: Option<String>) -> (r: (Resolver, Action))
        ensures
            r.0.wf(),
            r.0.task_arg == task,
            r.0.container_arg == container,
            begins(cluster, r.0, r.1),
    {
        match cluster {
            Some(name) => {
                let a = Action::DescribeCluster(name.clone());
                (Resolver { task_arg: task, container_arg: container, phase: Phase::DescribingCluster(name) }, a)
            },
            None => (Resolver { task_arg: task, container_arg: container, phase: Phase::ListingClusters }, Action::ListClusters),
        }
    }

    /// Takes the answer `event` to the last action, and says what to do next.
    pub fn step(self, event: Event) -> (r: (Resolver, Action))
        requires
            self.wf(),
        ensures
            r.0.wf(),
            steps_to(self, event, r.0, r.1),
    {
        let Resolver { task_arg, container_arg, phase } = self;
        match phase {
            Phase::DescribingCluster(name) => match event {
                Event::Clusters(recs) => {
                    let res = cluster_by_name(name.as_str(), &recs);
                    continue_cluster(task_arg, container_arg, res)
                },
                _ => refuse(task_arg, container_arg),
            },
            Phase::ListingClusters => match event {
                Event::ClusterArns(arns) => {
                    let res = cluster_candidates(&arns);
                    match res {
                        Ok(v) => {
                            let labels = labels_of_clusters(&v);
                            let a = Action::Prompt(String::from_str("cluster"), labels);
                            (Resolver { task_arg, container_arg, phase: Phase::ChoosingCluster(v) }, a)
                        },
                        Err(e) => fail_with(task_arg, container_arg, e),
                    }
                },
                _ => refuse(task_arg, container_arg),
            },
            Phase::ChoosingCluster(v) => match event {
                Event::Answer(ans) => {
                    let res = pick("cluster", v, ans);
                    continue_cluster(task_arg, container_arg, res)
                },
                _ => refuse(task_arg, container_arg),
            },
            Phase::DescribingTask(c, name) => match event {
                Event::Tasks(recs) => {
                    let res = task_by_name(name.as_str(), recs);
                    continue_task(task_arg, container_arg, c, res)
                },
                _ => refuse(task_arg, container_arg),
            },
            Phase::ListingTasks(c) => match event {
                Event::TaskArns(ids) => {
                    if ids.len() == 0 {
                        fail_with(task_arg, container_arg, EcsError::EmptyResult(String::from_str("task")))
                    } else {
                        let k = ids.len();
                        let a = Action::DescribeTasks(c.arn.clone(), ids);
                        (Resolver { task_arg, container_arg, phase: Phase::DescribingTasks(c, k) }, a)
                    }
                },
                _ => refuse(task_arg, container_arg),
            },
            Phase::DescribingTasks(c, k) => match event {
                Event::Tasks(recs) => {
                    let res = task_candidates(k, recs);
                    match res {
                        Ok(v) => {
                            let labels = labels_of_tasks(&v);
                            let a = Action::Prompt(String::from_str("task"), labels);
                            (Resolver { task_arg, container_arg, phase: Phase::ChoosingTask(c, v) }, a)
                        },
                        Err(e) => fail_with(task_arg, container_arg, e),
                    }
                },
                _ => refuse(task_arg, container_arg),
            },
            Phase::ChoosingTask(c, v) => match event {
                Event::Answer(ans) => {
                    let ghost vs = v@;
                    let res = pick("task", v, ans);
                    proof {
                        if res is Ok {
                            assert(vs[ans->Some_0 as int].arn is Some);
                        }
                    }
                    continue_task(task_arg, container_arg, c, res)
                },
                _ => refuse(task_arg, container_arg),
            },
            Phase::DescribingContainers(c, t) => match event {
                Event::Tasks(recs) => {
                    let cands = container_candidates(&recs);
                    match &container_arg {
                        Some(name) => {
                            let res = container_by_name(name.as_str(), cands);
                            continue_container(task_arg, container_arg, c, t, res)
                        },
                        None => {
                            let res = offer("container", cands);
                            match res {
                                Ok(v) => {
                                    let labels = labels_of_containers(&v);
                                    let a = Action::Prompt(String::from_str("container"), labels);
                                    (Resolver { task_arg, container_arg, phase: Phase::ChoosingContainer(c, t, v) }, a)
                                },
                                Err(e) => fail_with(task_arg, container_arg, e),
                            }
                        },
                    }
                },
                _ => refuse(task_arg, container_arg),
            },
            Phase::ChoosingContainer(c, t, v) => match event {
                Event::Answer(ans) => {
                    let res = pick("container", v, ans);
                    continue_container(task_arg, container_arg, c, t, res)
                },
                _ => refuse(task_arg, container_arg),
            },
            Phase::Resolved => refuse(task_arg, container_arg),
            Phase::Failed => refuse(task_arg, container_arg),
        }
    }
}

/// With no cluster named and none listed, the resolution fails with `EmptyResult`
/// at once, and whatever answer comes after, it asks for nothing more: no task is
/// listed or described and no prompt is shown.
pub proof fn lemma_no_cluster_listed_stops(
    s0: Resolver,
    a0: Action,
    arns: Vec<String>,
    s1: Resolver,
    a1: Action,
    ev: Event,
    s2: Resolver,
    a2: Action,
)
    requires
        begins(None, s0, a0),
        arns@.len() == 0,
        steps_to(s0, Event::ClusterArns(arns), s1, a1),
        steps_to(s1, ev, s2, a2),
    ensures
        a0 is ListClusters,
        s1.phase is Failed,
        a1 is Fail,
        a1->Fail_0 is EmptyResult,
        a2 is Fail,
{
    let r = choose|r: Result<Vec<ClusterRef>, EcsError>|
        #[trigger] cluster_offer(arns@, r) && match r {
            Ok(v) => s1.phase == Phase::ChoosingCluster(v) && a1 is Prompt && a1->Prompt_0@ == "cluster"@
                && cluster_labels(a1->Prompt_1@, v@),
            Err(e) => failed(s1, a1, e),
        };
    assert(r is Err);
}

/// A cluster named explicitly that exactly one described cluster answers to, with
/// its name and identifier, is resolved to that entry without a prompt: the next
/// action goes on to the task.
pub proof fn lemma_named_cluster_resolves_without_prompt(
    name: String,
    s0: Resolver,
    a0: Action,
    recs: Vec<ClusterRecord>,
    i: int,
    s1: Resolver,
    a1: Action,
)
    requires
        begins(Some(name), s0, a0),
        0 <= i < recs@.len(),
        cluster_matches(recs@[i], name@),
        forall|j: int| 0 <= j < recs@.len() && j != i ==> !cluster_matches(#[trigger] recs@[j], name@),
        complete_cluster(recs@[i]),
        steps_to(s0, Event::Clusters(recs), s1, a1),
    ensures
        a0 == Action::DescribeCluster(name),
        !(a1 is Prompt),
        enters_task(s1, a1, ClusterRef { name: recs@[i].name->Some_0, arn: recs@[i].arn->Some_0 }),
{
    lemma_unique_match_resolves(recs@, name@, i);
    let r = choose|r| #[trigger] cluster_lookup(name@, recs@, r) && after_cluster(s1, a1, r);
    if r is Err {
        assert(first_cluster_match(recs@, name@, i));
        assert(!cluster_matches(recs@[i], name@) || !(forall|j: int|
            0 <= j < recs@.len() ==> !cluster_matches(#[trigger] recs@[j], name@)));
    }
    let c = r->Ok_0;
    let k = choose|k: int|
        {
            &&& #[trigger] first_cluster_match(recs@, name@, k)
            &&& complete_cluster(recs@[k])
            &&& c.name == recs@[k].name->Some_0
            &&& c.arn == recs@[k].arn->Some_0
        };
    assert(k == i);
    assert(c == ClusterRef { name: recs@[i].name->Some_0, arn: recs@[i].arn->Some_0 });
}

} // verus!
