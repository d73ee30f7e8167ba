//! Resolution of a cluster, a task and a container of a container-orchestration
//! service, and the launch protocol of an exec session into that container.
//!
//! Every decision is a function from plain values to plain values: the calls to the
//! control plane, the interactive prompt and the subprocess are made by the caller,
//! which hands their results to these functions.
pub mod cluster;
pub mod container;
pub mod error;
pub mod flow;
pub mod identifier;
pub mod json;
pub mod logs;
pub mod model;
pub mod selection;
pub mod session;
pub mod task;
