//! The retry classifier: pure functions from a structured remote-call error
//! to an advisory retryable verdict.

use vstd::prelude::*;
use crate::errors::PollError;
use crate::errors::QueryError;

verus! {

/// The generic classifier rules, in priority order:
/// a timeout is retryable; a malformed response is retryable; a dispatch
/// failure whose cause is itself a timeout or an I/O error is retryable;
/// anything else is not.
pub open spec fn generic_retryable(e: QueryError) -> bool {
    match e {
        QueryError::Timeout => true,
        QueryError::Response => true,
        QueryError::Dispatch { is_timeout, is_io } => is_timeout || is_io,
        _ => false,
    }
}

/// The call-specific rule for the health-update path: a service-rejected
/// request whose fault code signals resource contention (a server-side
/// transient lock) is retryable. No other error is, under this rule alone.
pub open spec fn contention_retryable(e: QueryError) -> bool {
    e matches QueryError::Service { resource_contention } && resource_contention
}

/// Classifies an error from the status-query path.
pub fn is_err_retryable(e: &QueryError) -> (r: bool)
    ensures
        r == generic_retryable(*e),
{
    match *e {
        QueryError::Timeout => true,
        QueryError::Response => true,
        QueryError::Dispatch { is_timeout, is_io } => is_timeout || is_io,
        _ => false,
    }
}

/// Classifies an error from the health-update call with the generic rules.
pub fn is_error_retryable(e: &QueryError) -> (r: bool)
    ensures
        r == generic_retryable(*e),
{
    is_err_retryable(e)
}

/// Applies only the call-specific resource-contention rule; the generic
/// rules are applied separately by `is_error_retryable`.
pub fn is_error_retryable_set_instance_health(e: &QueryError) -> (r: bool)
    ensures
        r == contention_retryable(*e),
{
    match *e {
        QueryError::Service { resource_contention } => resource_contention,
        _ => false,
    }
}

/// The whole verdict for the health-update path: the generic rules together
/// with the call-specific resource-contention rule, first match wins.
pub fn health_update_retryable(e: &QueryError) -> (r: bool)
    ensures
        r == (generic_retryable(*e) || contention_retryable(*e)),
{
    is_error_retryable(e) || is_error_retryable_set_instance_health(e)
}

/// The classified error the health-update call ends with when the remote
/// call fails: a transport error whose retryability comes from the generic
/// rules together with the resource-contention rule.
pub fn classify_health_update_error(e: &QueryError) -> (r: PollError)
    ensures
        r == (PollError::Transport {
            retryable: generic_retryable(*e) || contention_retryable(*e),
        }),
{
    PollError::Transport { retryable: health_update_retryable(e) }
}

} // verus!
