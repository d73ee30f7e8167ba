use vstd::prelude::*;

verus! {

/// A cluster as the control plane describes it.
#[derive(Debug, Clone, PartialEq, Eq)]
pub struct ClusterRecord {
    pub name: Option<String>,
    pub arn: Option<String>,
}

/// A resolved cluster: its display name and its identifier.
#[derive(Debug, Clone, PartialEq, Eq)]
pub struct ClusterRef {
    pub name: String,
    pub arn: String,
}

/// A container of a task as the control plane describes it. A container without a
/// runtime id is not ready for execution.
#[derive(Debug, Clone, PartialEq, Eq)]
pub struct ContainerRecord {
    pub name: Option<String>,
    pub arn: Option<String>,
    pub runtime_id: Option<String>,
}

/// A task as the control plane describes it, kept whole.
#[derive(Debug, Clone, PartialEq, Eq)]
pub struct TaskRecord {
    pub arn: Option<String>,
    pub definition_arn: Option<String>,
    pub containers: Option<Vec<ContainerRecord>>,
}

/// A container ready for execution: its name, its identifier and its runtime id.
#[derive(Debug, Clone, PartialEq, Eq)]
pub struct ContainerRef {
    pub name: String,
    pub arn: String,
    pub runtime_id: String,
}

} // verus!
