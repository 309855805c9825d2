//! Error taxonomy: the structured shape of a failed remote call, and the
//! classified errors a poll invocation can end with.

use vstd::prelude::*;

verus! {

/// Structural description of an error returned by a remote call.
///
/// This is a closed model of the transport error taxonomy: classification is
/// a pure match over this data, never an inspection of a live error object.
/// The `Dispatch` sub-flags say whether the underlying cause of a dispatch
/// (connection) failure was itself a timeout or an I/O error; `Service`
/// carries whether the service-side fault code signalled resource contention.
#[derive(Clone, Copy, Debug, PartialEq, Eq, Structural)]
pub enum QueryError {
    /// The request could not even be constructed.
    ConstructionFailure,
    /// The call timed out.
    Timeout,
    /// A response was received but was malformed or could not be read.
    Response,
    /// The request could not be dispatched to the remote endpoint.
    Dispatch { is_timeout: bool, is_io: bool },
    /// The service rejected the request with a service-defined fault code.
    Service { resource_contention: bool },
}

/// The classified error a poll invocation (or a health update) ends with.
///
/// Each variant carries its own retryability: the flag is advisory metadata
/// for the caller's retry policy; nothing is retried inside the poller.
#[derive(Clone, Copy, Debug, PartialEq, Eq, Structural)]
pub enum PollError {
    /// The remote call itself failed; retryability comes from the classifier.
    Transport { retryable: bool },
    /// The operation reported its own `Failed` state, and that was not the
    /// desired outcome. Never retryable.
    OperationFailed,
    /// The overall timeout elapsed without reaching the desired state.
    /// Always retryable: try again with a fresh budget.
    PollTimeout,
}

impl PollError {
    /// Whether the caller may reasonably retry the whole invocation.
    pub open spec fn spec_retryable(self) -> bool {
        match self {
            PollError::Transport { retryable } => retryable,
            PollError::OperationFailed => false,
            PollError::PollTimeout => true,
        }
    }

    /// Returns the advisory retryable flag of this error.
    pub fn retryable(&self) -> (r: bool)
        ensures
            r == self.spec_retryable(),
    {
        match *self {
            PollError::Transport { retryable } => retryable,
            PollError::OperationFailed => false,
            PollError::PollTimeout => true,
        }
    }
}

} // verus!
