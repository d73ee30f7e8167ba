use lazy_ecs::cluster::{cluster_by_name, cluster_candidates};
use lazy_ecs::container::{container_by_name, container_candidates};
use lazy_ecs::error::EcsError;
use lazy_ecs::identifier::parse_identifier;
use lazy_ecs::model::{ClusterRecord, ClusterRef, ContainerRecord, ContainerRef, TaskRecord};
use lazy_ecs::selection::{offer, pick};
use lazy_ecs::task::{task_by_name, task_candidates};

fn s(v: &str) -> String {
    v.to_string()
}

fn cluster_record(name: Option<&str>, arn: Option<&str>) -> ClusterRecord {
    ClusterRecord { name: name.map(s), arn: arn.map(s) }
}

fn container(name: Option<&str>, arn: Option<&str>, runtime_id: Option<&str>) -> ContainerRecord {
    ContainerRecord { name: name.map(s), arn: arn.map(s), runtime_id: runtime_id.map(s) }
}

fn task(arn: Option<&str>, containers: Option<Vec<ContainerRecord>>) -> TaskRecord {
    TaskRecord { arn: arn.map(s), definition_arn: Some(s("arn:aws:ecs:eu-west-1:1:task-definition/web:3")), containers }
}

fn ready(name: &str, runtime_id: &str) -> ContainerRef {
    ContainerRef { name: s(name), arn: format!("arn:aws:ecs:eu-west-1:1:container/{}", name), runtime_id: s(runtime_id) }
}

fn ready_record(name: &str, runtime_id: &str) -> ContainerRecord {
    let r = ready(name, runtime_id);
    container(Some(&r.name), Some(&r.arn), Some(runtime_id))
}

#[test]
fn identifier_splits_at_first_separator() {
    let p = parse_identifier("arn:aws:ecs:eu-west-1:1:cluster/prod").unwrap();
    assert_eq!(p.prefix, "arn:aws:ecs:eu-west-1:1:cluster");
    assert_eq!(p.name, "prod");
    let q = parse_identifier("arn:aws:ecs:eu-west-1:1:task/prod/abc123").unwrap();
    assert_eq!(q.prefix, "arn:aws:ecs:eu-west-1:1:task");
    assert_eq!(q.name, "prod/abc123");
    let e = parse_identifier("/x").unwrap();
    assert_eq!(e.prefix, "");
    assert_eq!(e.name, "x");
}

#[test]
fn identifier_without_separator_is_parse_error() {
    assert_eq!(parse_identifier("no-separator").err(), Some(EcsError::ParseError(s("no-separator"))));
    assert_eq!(parse_identifier("").err(), Some(EcsError::ParseError(s(""))));
}

#[test]
fn no_clusters_listed_is_empty_result() {
    assert_eq!(cluster_candidates(&vec![]).err(), Some(EcsError::EmptyResult(s("cluster"))));
}

#[test]
fn listed_clusters_are_offered_with_display_names() {
    let arns = vec![s("arn:aws:ecs:eu-west-1:1:cluster/prod"), s("arn:aws:ecs:eu-west-1:1:cluster/staging")];
    let offered = cluster_candidates(&arns).unwrap();
    assert_eq!(
        offered,
        vec![
            ClusterRef { name: s("prod"), arn: arns[0].clone() },
            ClusterRef { name: s("staging"), arn: arns[1].clone() },
        ]
    );
}

#[test]
fn listed_cluster_without_separator_is_parse_error() {
    let arns = vec![s("arn:aws:ecs:eu-west-1:1:cluster/prod"), s("broken")];
    assert_eq!(cluster_candidates(&arns).err(), Some(EcsError::ParseError(s("broken"))));
    let arns = vec![s("arn:aws:ecs:eu-west-1:1:cluster/")];
    assert!(matches!(cluster_candidates(&arns), Err(EcsError::ParseError(_))));
}

#[test]
fn explicit_cluster_matching_one_entry_is_returned() {
    let described = vec![
        cluster_record(Some("staging"), Some("arn:aws:ecs:eu-west-1:1:cluster/staging")),
        cluster_record(Some("prod"), Some("arn:aws:ecs:eu-west-1:1:cluster/prod")),
    ];
    let c = cluster_by_name("prod", &described).unwrap();
    assert_eq!(c, ClusterRef { name: s("prod"), arn: s("arn:aws:ecs:eu-west-1:1:cluster/prod") });
    let by_arn = cluster_by_name("arn:aws:ecs:eu-west-1:1:cluster/staging", &described).unwrap();
    assert_eq!(by_arn.name, "staging");
}

#[test]
fn explicit_cluster_not_described_is_not_found() {
    let described = vec![cluster_record(Some("staging"), Some("arn:aws:ecs:eu-west-1:1:cluster/staging"))];
    assert_eq!(cluster_by_name("prod", &described).err(), Some(EcsError::NotFound(s("prod"))));
    assert_eq!(cluster_by_name("prod", &vec![]).err(), Some(EcsError::NotFound(s("prod"))));
}

#[test]
fn explicit_cluster_without_identifier_is_api_error() {
    let described = vec![cluster_record(Some("prod"), None)];
    assert!(matches!(cluster_by_name("prod", &described), Err(EcsError::ApiError(_))));
    let empty_name = vec![cluster_record(Some(""), Some("prod"))];
    assert!(matches!(cluster_by_name("prod", &empty_name), Err(EcsError::ApiError(_))));
}

#[test]
fn explicit_task_is_first_described() {
    let t = task(Some("arn:aws:ecs:eu-west-1:1:task/prod/abc"), None);
    let got = task_by_name("abc", vec![t.clone(), task(Some("other/x"), None)]).unwrap();
    assert_eq!(got, t);
    assert_eq!(task_by_name("abc", vec![]).err(), Some(EcsError::NotFound(s("abc"))));
    assert!(matches!(task_by_name("abc", vec![task(None, None)]), Err(EcsError::ApiError(_))));
}

#[test]
fn task_candidates_are_kept_whole() {
    let ts = vec![task(Some("p/a"), None), task(Some("p/b"), Some(vec![ready_record("app", "r1")]))];
    assert_eq!(task_candidates(2, ts.clone()).unwrap(), ts);
}

#[test]
fn task_candidates_shortfall_is_api_error() {
    let ts = vec![task(Some("p/a"), None)];
    assert!(matches!(task_candidates(2, ts), Err(EcsError::ApiError(_))));
    assert!(matches!(task_candidates(1, vec![task(None, None)]), Err(EcsError::ApiError(_))));
}

#[test]
fn no_tasks_is_empty_result() {
    assert_eq!(task_candidates(0, vec![]).err(), Some(EcsError::EmptyResult(s("task"))));
}

#[test]
fn containers_without_runtime_id_are_not_offered() {
    let ts = vec![
        task(Some("p/a"), Some(vec![ready_record("app", "r1"), container(Some("sidecar"), Some("c/s"), None)])),
        task(Some("p/b"), None),
        task(Some("p/c"), Some(vec![container(None, Some("c/x"), Some("r9")), ready_record("db", "r2")])),
    ];
    let offered = container_candidates(&ts);
    assert_eq!(offered, vec![ready("app", "r1"), ready("db", "r2")]);
    assert_eq!(container_by_name("sidecar", offered).err(), Some(EcsError::NotFound(s("sidecar"))));
}

#[test]
fn explicit_container_absent_is_not_found_in_any_order() {
    let a = vec![ready("app", "r1"), ready("db", "r2"), ready("cache", "r3")];
    let mut b = a.clone();
    b.reverse();
    assert_eq!(container_by_name("web", a).err(), Some(EcsError::NotFound(s("web"))));
    assert_eq!(container_by_name("web", b).err(), Some(EcsError::NotFound(s("web"))));
    assert_eq!(container_by_name("web", vec![]).err(), Some(EcsError::NotFound(s("web"))));
}

#[test]
fn explicit_container_is_matched_exactly() {
    let offered = vec![ready("app-2", "r0"), ready("app", "r1")];
    assert_eq!(container_by_name("app", offered.clone()).unwrap(), ready("app", "r1"));
    assert!(container_by_name("App", offered).is_err());
}

#[test]
fn offering_nothing_is_empty_result() {
    let none: Vec<ContainerRef> = vec![];
    assert_eq!(offer("container", none).err(), Some(EcsError::EmptyResult(s("container"))));
    assert_eq!(offer("container", vec![ready("app", "r1")]).unwrap(), vec![ready("app", "r1")]);
}

#[test]
fn prompt_answer_picks_candidate() {
    let offered = vec![ready("app", "r1"), ready("db", "r2")];
    assert_eq!(pick("container", offered.clone(), Some(1)).unwrap(), ready("db", "r2"));
    assert_eq!(pick("container", offered.clone(), None).err(), Some(EcsError::PromptFailed(s("container"))));
    assert_eq!(pick("container", offered, Some(2)).err(), Some(EcsError::PromptFailed(s("container"))));
}
