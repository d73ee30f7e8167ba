use vstd::prelude::*;
use vstd::string::*;

use crate::error::EcsError;
use crate::identifier::str_equal;
use crate::model::TaskRecord;

verus! {

/// The logging configuration of a container definition: its driver, and the
/// driver's options as key and value pairs.
#[derive(Debug, Clone, PartialEq, Eq)]
pub struct LogConfiguration {
    pub log_driver: String,
    pub options: Option<Vec<(String, String)>>,
}

/// A container definition of a task definition.
#[derive(Debug, Clone, PartialEq, Eq)]
pub struct ContainerDefinition {
    pub name: Option<String>,
    pub log_configuration: Option<LogConfiguration>,
}

/// The driver that sends logs to the log-aggregation service, which this tool does
/// not read from.
pub open spec fn unsupported_driver(d: Seq<char>) -> bool {
    d == "awslogs"@
}

/// The option of that driver that names the log group.
pub open spec fn log_group_key() -> Seq<char> {
    "awslogs-group"@
}

/// The task definition that a resolved task runs. Fails with `ApiError` when the
/// task record lacks it.
pub fn definition_identifier(task: &TaskRecord) -> (r: Result<String, EcsError>)
    ensures
        match r {
            Ok(d) => task.definition_arn == Some(d),
            Err(e) => task.definition_arn is None && e is ApiError,
        },
{
    match &task.definition_arn {
        Some(d) => Ok(d.clone()),
        None => Err(EcsError::ApiError(String::from_str("task definition identifier is not defined"))),
    }
}

/// `i` is the first definition named `name`.
pub open spec fn first_definition_named(defs: Seq<ContainerDefinition>, name: Seq<char>, i: int) -> bool {
    &&& 0 <= i < defs.len()
    &&& defs[i].name is Some && defs[i].name->Some_0@ == name
    &&& forall|j: int| 0 <= j < i ==> !((#[trigger] defs[j]).name is Some && defs[j].name->Some_0@ == name)
}

/// `i` is the first option whose key is `key`.
pub open spec fn first_option_keyed(opts: Seq<(String, String)>, key: Seq<char>, i: int) -> bool {
    &&& 0 <= i < opts.len()
    &&& opts[i].0@ == key
    &&& forall|j: int| 0 <= j < i ==> (#[trigger] opts[j]).0@ != key
}

/// The definition logs through a supported driver whose `k`-th option is the
/// first that names the log group, and names `g`.
pub open spec fn names_log_group(d: ContainerDefinition, k: int, g: String) -> bool {
    &&& d.log_configuration is Some
    &&& !unsupported_driver(d.log_configuration->Some_0.log_driver@)
    &&& d.log_configuration->Some_0.options is Some
    &&& first_option_keyed(d.log_configuration->Some_0.options->Some_0@, log_group_key(), k)
    &&& g == d.log_configuration->Some_0.options->Some_0@[k].1
}

/// The first definition named `name` names the log group `g`.
pub open spec fn found_log_group(defs: Seq<ContainerDefinition>, name: Seq<char>, g: String) -> bool {
    exists|i: int|
        #[trigger] first_definition_named(defs, name, i) && exists|k: int| #[trigger] names_log_group(defs[i], k, g)
}

/// Why the named definition `d` yields no log group: `e` says that it has no
/// configuration, that its driver is unsupported, or that it names no log group.
pub open spec fn refused_configuration(d: ContainerDefinition, e: EcsError) -> bool {
    match d.log_configuration {
        None => e is ApiError,
        Some(lc) => {
            ||| unsupported_driver(lc.log_driver@) && e is UnsupportedLogDriver && e->UnsupportedLogDriver_0
                == lc.log_driver
            ||| !unsupported_driver(lc.log_driver@) && e is ApiError && match lc.options {
                None => true,
                Some(opts) => forall|k: int| 0 <= k < opts@.len() ==> (#[trigger] opts@[k]).0@ != log_group_key(),
            }
        },
    }
}

/// Finds the first definition named `name`.
fn find_definition(name: &str, defs: &Vec<ContainerDefinition>) -> (r: Option<usize>)
    ensures
        match r {
            Some(i) => first_definition_named(defs@, name@, i as int),
            None => forall|j: int| 0 <= j < defs@.len()
                ==> !((#[trigger] defs@[j]).name is Some && defs@[j].name->Some_0@ == name@),
        },
{
    let mut i: usize = 0;
    while i < defs.len()
        invariant
            i <= defs@.len(),
            forall|j: int| 0 <= j < i ==> !((#[trigger] defs@[j]).name is Some && defs@[j].name->Some_0@ == name@),
        decreases defs@.len() - i,
    {
        match &defs[i].name {
            Some(n) => {
                if str_equal(n.as_str(), name) {
                    return Some(i);
                }
            },
            None => {},
        }
        i = i + 1;
    }
    None
}

/// Finds the first option keyed `key`.
fn find_option(key: &str, opts: &Vec<(String, String)>) -> (r: Option<usize>)
    ensures
        match r {
            Some(i) => first_option_keyed(opts@, key@, i as int),
            None => forall|j: int| 0 <= j < opts@.len() ==> (#[trigger] opts@[j]).0@ != key@,
        },
{
    let mut i: usize = 0;
    while i < opts.len()
        invariant
            i <= opts@.len(),
            forall|j: int| 0 <= j < i ==> (#[trigger] opts@[j]).0@ != key@,
        decreases opts@.len() - i,
    {
        if str_equal(opts[i].0.as_str(), key) {
            return Some(i);
        }
        i = i + 1;
    }
    None
}

/// Validates the logging configuration of the container `container` among the
/// container definitions of its task definition, and returns the log group that it
/// names. The first definition with exactly that name is taken; `NotFound` when
/// there is none. A definition that logs through an unsupported driver is refused
/// with `UnsupportedLogDriver` before any option is read. A missing list of
/// definitions, configuration, option list or log group is an `ApiError`.
pub fn log_group(container: &str, definitions: &Option<Vec<ContainerDefinition>>) -> (r: Result<String, EcsError>)
    ensures
        match r {
            Ok(g) => definitions is Some && found_log_group(definitions->Some_0@, container@, g),
            Err(e) => {
                ||| definitions is None && e is ApiError
                ||| definitions is Some && (forall|j: int| 0 <= j < definitions->Some_0@.len()
                    ==> !((#[trigger] definitions->Some_0@[j]).name is Some
                        && definitions->Some_0@[j].name->Some_0@ == container@))
                    && e is NotFound && e->NotFound_0@ == container@
                ||| definitions is Some && exists|i: int|
                    #[trigger] first_definition_named(definitions->Some_0@, container@, i)
                        && refused_configuration(definitions->Some_0@[i], e)
            },
        },
{
    let defs = match definitions {
        Some(d) => d,
        None => {
            return Err(EcsError::ApiError(String::from_str("container definitions are not defined")));
        },
    };
    let i = match find_definition(container, defs) {
        Some(i) => i,
        None => {
            return Err(EcsError::NotFound(String::from_str(container)));
        },
    };
    assert(first_definition_named(definitions->Some_0@, container@, i as int));
    let lc = match &defs[i].log_configuration {
        Some(lc) => lc,
        None => {
            let e = EcsError::ApiError(String::from_str("log configuration is not defined"));
            assert(refused_configuration(definitions->Some_0@[i as int], e));
            return Err(e);
        },
    };
    if str_equal(lc.log_driver.as_str(), "awslogs") {
        let e = EcsError::UnsupportedLogDriver(lc.log_driver.clone());
        assert(refused_configuration(definitions->Some_0@[i as int], e));
        return Err(e);
    }
    let opts = match &lc.options {
        Some(o) => o,
        None => {
            let e = EcsError::ApiError(String::from_str("log options are not defined"));
            assert(refused_configuration(definitions->Some_0@[i as int], e));
            return Err(e);
        },
    };
    match find_option("awslogs-group", opts) {
        Some(k) => {
            let g = opts[k].1.clone();
            assert(names_log_group(definitions->Some_0@[i as int], k as int, g));
            assert(found_log_group(definitions->Some_0@, container@, g));
            Ok(g)
        },
        None => {
            let e = EcsError::ApiError(String::from_str("log group is not defined"));
            assert(refused_configuration(definitions->Some_0@[i as int], e));
            Err(e)
        },
    }
}

} // verus!
