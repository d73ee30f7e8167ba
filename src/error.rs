use vstd::prelude::*;

verus! {

/// Why an invocation stopped. The first failure of any stage ends the invocation.
#[derive(Debug, Clone, PartialEq, Eq)]
pub enum EcsError {
    /// An explicit name was given at a stage and matched nothing; carries that name.
    NotFound(String),
    /// A stage had no candidate to offer where it would have prompted; carries the stage.
    EmptyResult(String),
    /// An identifier holds no `/` separator; carries the identifier.
    ParseError(String),
    /// The interactive selection was cancelled or could not be shown; carries the stage.
    PromptFailed(String),
    /// A control-plane answer lacked what it must hold; carries what was missing.
    ApiError(String),
    /// The secure-transport executable is not on the search path.
    PluginNotFound,
    /// The container logs through a driver that is not supported; carries the driver.
    UnsupportedLogDriver(String),
}

} // verus!
