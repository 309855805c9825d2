//! The closed set of lifecycle states a remote operation can report.

use vstd::prelude::*;

verus! {

/// Lifecycle state of a remote operation, as reported by the control-plane.
///
/// The set is closed: the poller only ever reads these values and compares
/// them for equality; it never mutates one. `Failed` is special-cased by the
/// poller (observing it when it is not the desired state ends the poll).
#[derive(Clone, Copy, Debug, PartialEq, Eq, Structural)]
pub enum Status {
    Pending,
    InProgress,
    Delayed,
    Success,
    Cancelled,
    Cancelling,
    TimedOut,
    Failed,
}

} // verus!
