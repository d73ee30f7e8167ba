use lazy_ecs::error::EcsError;
use lazy_ecs::flow::{Action, Event, Phase, Resolver};
use lazy_ecs::model::{ClusterRecord, ClusterRef, ContainerRecord, ContainerRef, TaskRecord};
use lazy_ecs::session::{launch_arguments, ExecSession};

fn s(v: &str) -> String {
    v.to_string()
}

const CLUSTER_ARN: &str = "arn:aws:ecs:eu-west-1:1:cluster/prod";
const TASK_ARN: &str = "arn:aws:ecs:eu-west-1:1:task/abc123";
const CONTAINER_ARN: &str = "arn:aws:ecs:eu-west-1:1:container/app";

fn running_task() -> TaskRecord {
    TaskRecord {
        arn: Some(s(TASK_ARN)),
        definition_arn: Some(s("arn:aws:ecs:eu-west-1:1:task-definition/web:3")),
        containers: Some(vec![ContainerRecord {
            name: Some(s("app")),
            arn: Some(s(CONTAINER_ARN)),
            runtime_id: Some(s("r1")),
        }]),
    }
}

fn prod() -> ClusterRef {
    ClusterRef { name: s("prod"), arn: s(CLUSTER_ARN) }
}

#[test]
fn named_cluster_prompts_only_for_task() {
    let (r, a) = Resolver::start(Some(s("prod")), None, Some(s("app")));
    assert_eq!(a, Action::DescribeCluster(s("prod")));
    let (r, a) = r.step(Event::Clusters(vec![ClusterRecord { name: Some(s("prod")), arn: Some(s(CLUSTER_ARN)) }]));
    assert_eq!(a, Action::ListTasks(s(CLUSTER_ARN)));
    let (r, a) = r.step(Event::TaskArns(vec![s(TASK_ARN)]));
    assert_eq!(a, Action::DescribeTasks(s(CLUSTER_ARN), vec![s(TASK_ARN)]));
    let (r, a) = r.step(Event::Tasks(vec![running_task()]));
    assert_eq!(a, Action::Prompt(s("task"), vec![s(TASK_ARN)]));
    let (r, a) = r.step(Event::Answer(Some(0)));
    assert_eq!(a, Action::DescribeContainers(s(CLUSTER_ARN), s(TASK_ARN)));
    let (r, a) = r.step(Event::Tasks(vec![running_task()]));
    let container = ContainerRef { name: s("app"), arn: s(CONTAINER_ARN), runtime_id: s("r1") };
    assert_eq!(a, Action::Done(prod(), running_task(), container.clone()));
    assert_eq!(r.phase, Phase::Resolved);

    let session = ExecSession { session_id: Some(s("sid")), stream_url: Some(s("wss://u")), token_value: Some(s("tok")) };
    let args = launch_arguments(&prod(), TASK_ARN, &container, &session, &Some(s("eu-west-1"))).unwrap();
    assert_eq!(
        args,
        vec![
            s(r#"{"SessionId":"sid","StreamUrl":"wss://u","TokenValue":"tok"}"#),
            s("eu-west-1"),
            s("StartSession"),
            s(""),
            s(r#"{"DocumentName":null,"Parameters":null,"Reason":null,"Target":"ecs:prod_abc123_r1"}"#),
            s("https://ssm.eu-west-1.amazonaws.com"),
        ]
    );
}

#[test]
fn no_clusters_stops_before_tasks_and_prompts() {
    let (r, a) = Resolver::start(None, None, None);
    assert_eq!(a, Action::ListClusters);
    let (r, a) = r.step(Event::ClusterArns(vec![]));
    assert_eq!(a, Action::Fail(EcsError::EmptyResult(s("cluster"))));
    assert_eq!(r.phase, Phase::Failed);
    let (_, a) = r.step(Event::TaskArns(vec![s(TASK_ARN)]));
    assert!(matches!(a, Action::Fail(EcsError::ApiError(_))));
}

#[test]
fn listed_clusters_are_prompted_with_labels() {
    let (r, _) = Resolver::start(None, Some(s("abc123")), None);
    let (r, a) = r.step(Event::ClusterArns(vec![s(CLUSTER_ARN)]));
    assert_eq!(a, Action::Prompt(s("cluster"), vec![format!("prod ({})", CLUSTER_ARN)]));
    let (r, a) = r.step(Event::Answer(Some(0)));
    assert_eq!(a, Action::DescribeTask(s(CLUSTER_ARN), s("abc123")));
    let (r, a) = r.step(Event::Tasks(vec![running_task()]));
    assert_eq!(a, Action::DescribeContainers(s(CLUSTER_ARN), s(TASK_ARN)));
    let (r, a) = r.step(Event::Tasks(vec![running_task()]));
    assert_eq!(a, Action::Prompt(s("container"), vec![format!("app ({})", CONTAINER_ARN)]));
    let (_, a) = r.step(Event::Answer(None));
    assert_eq!(a, Action::Fail(EcsError::PromptFailed(s("container"))));
}

#[test]
fn no_listed_tasks_is_empty_result_without_describe() {
    let (r, _) = Resolver::start(Some(s("prod")), None, None);
    let (r, _) = r.step(Event::Clusters(vec![ClusterRecord { name: Some(s("prod")), arn: Some(s(CLUSTER_ARN)) }]));
    let (r, a) = r.step(Event::TaskArns(vec![]));
    assert!(matches!(a, Action::Fail(EcsError::EmptyResult(_))));
    assert_eq!(r.phase, Phase::Failed);
}

#[test]
fn unknown_container_name_fails_resolution() {
    let (r, _) = Resolver::start(Some(s("prod")), Some(s("abc123")), Some(s("web")));
    let (r, _) = r.step(Event::Clusters(vec![ClusterRecord { name: Some(s("prod")), arn: Some(s(CLUSTER_ARN)) }]));
    let (r, _) = r.step(Event::Tasks(vec![running_task()]));
    let (_, a) = r.step(Event::Tasks(vec![running_task()]));
    assert_eq!(a, Action::Fail(EcsError::NotFound(s("web"))));
}

#[test]
fn unknown_cluster_name_fails_resolution() {
    let (r, _) = Resolver::start(Some(s("prod")), None, None);
    let (_, a) = r.step(Event::Clusters(vec![]));
    assert_eq!(a, Action::Fail(EcsError::NotFound(s("prod"))));
}
