//! Safe error values of the library.

use vstd::prelude::*;

verus! {

/// Safe, non-secret library error.
#[derive(Clone, Debug)]
pub enum AiError {
    /// Deployment or host configuration cannot represent the request.
    InvalidConfiguration(String),
    /// Caller-supplied input is malformed.
    InvalidInput(String),
    /// The current principal or binding may not perform the action.
    Forbidden,
    /// A durable precondition or ordering check failed.
    Conflict,
    /// The requested record does not exist or is not visible.
    NotFound,
    /// Persistence could not prove the requested effect.
    PersistenceFailed,
    /// The principal could not be rehydrated.
    ReauthorizationFailed,
    /// The runtime is not ready to serve the request.
    RuntimeNotReady,
    /// The atomic budget reservation refused the turn before transport.
    PreTransportBudgetDenied,
    /// The provider adapter proved a rejection before transport.
    PreTransportProviderFailed,
    /// The provider turn failed after transport might have occurred; the
    /// outcome stays uncertain.
    ProviderFailed,
    /// A stateless native item was refused after usage was committed.
    StatelessNativeItemRejected,
    /// The retained provider session is still cleaning up; retry later.
    ProviderSessionDeferred,
    /// Content may not leave for the selected destination.
    EgressDenied,
    /// A run budget refused the work.
    BudgetDenied,
}

/// Safe error of authenticated GraphQL tool execution.
#[derive(Clone, Copy, Debug, PartialEq, Eq, Structural)]
pub enum ToolExecutionError {
    /// The logical execution target is unknown or incompletely bound.
    InvalidTarget,
    /// The operation contract no longer matches the registered target.
    StaleContract,
    /// The principal could not be rehydrated.
    Reauthorization,
    /// Current host policy does not allow the exact request.
    Authorization,
}

} // verus!
