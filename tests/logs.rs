use lazy_ecs::error::EcsError;
use lazy_ecs::logs::{definition_identifier, log_group, ContainerDefinition, LogConfiguration};
use lazy_ecs::model::TaskRecord;

fn s(v: &str) -> String {
    v.to_string()
}

fn definition(name: &str, driver: Option<&str>, options: Option<Vec<(&str, &str)>>) -> ContainerDefinition {
    ContainerDefinition {
        name: Some(s(name)),
        log_configuration: driver.map(|d| LogConfiguration {
            log_driver: s(d),
            options: options.map(|o| o.into_iter().map(|(k, v)| (s(k), s(v))).collect()),
        }),
    }
}

#[test]
fn remote_log_driver_is_unsupported() {
    let defs = vec![definition("app", Some("awslogs"), Some(vec![("awslogs-group", "/ecs/app")]))];
    assert_eq!(log_group("app", &Some(defs)).err(), Some(EcsError::UnsupportedLogDriver(s("awslogs"))));
    let no_options = vec![definition("app", Some("awslogs"), None)];
    assert_eq!(log_group("app", &Some(no_options)).err(), Some(EcsError::UnsupportedLogDriver(s("awslogs"))));
}

#[test]
fn log_group_is_read_from_options() {
    let defs = vec![
        definition("web", Some("json-file"), Some(vec![])),
        definition("app", Some("fluentd"), Some(vec![("tag", "x"), ("awslogs-group", "/ecs/app")])),
    ];
    assert_eq!(log_group("app", &Some(defs)).unwrap(), "/ecs/app");
}

#[test]
fn log_container_not_defined_is_not_found() {
    let defs = vec![definition("web", Some("fluentd"), None)];
    assert_eq!(log_group("app", &Some(defs)).err(), Some(EcsError::NotFound(s("app"))));
}

#[test]
fn missing_log_configuration_is_api_error() {
    assert!(matches!(log_group("app", &None), Err(EcsError::ApiError(_))));
    let defs = vec![definition("app", None, None)];
    assert!(matches!(log_group("app", &Some(defs)), Err(EcsError::ApiError(_))));
    let defs = vec![definition("app", Some("fluentd"), Some(vec![("tag", "x")]))];
    assert!(matches!(log_group("app", &Some(defs)), Err(EcsError::ApiError(_))));
}

#[test]
fn task_definition_is_taken_from_record() {
    let t = TaskRecord { arn: Some(s("p/a")), definition_arn: Some(s("td/web:3")), containers: None };
    assert_eq!(definition_identifier(&t).unwrap(), "td/web:3");
    let u = TaskRecord { arn: Some(s("p/a")), definition_arn: None, containers: None };
    assert!(matches!(definition_identifier(&u), Err(EcsError::ApiError(_))));
}
