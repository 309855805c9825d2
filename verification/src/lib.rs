//! A bounded-time, interval-based status poller for long-running remote
//! operations, with a structural retry classifier for transport errors.
//!
//! The poller is a small state machine: it waits, queries a remote
//! control-plane for the status of an operation, and decides whether to
//! continue, succeed, or fail. All decisions are made by verified functions
//! over plain data; the surrounding async runtime only sleeps, queries, and
//! feeds the observed outcome back in.

pub mod classify;
pub mod errors;
pub mod poller;
pub mod status;

pub use classify::classify_health_update_error;
pub use classify::health_update_retryable;
pub use classify::is_err_retryable;
pub use classify::is_error_retryable;
pub use classify::is_error_retryable_set_instance_health;
pub use errors::PollError;
pub use errors::QueryError;
pub use poller::PollRun;
pub use poller::PollState;
pub use poller::QueryOutcome;
pub use poller::StepVerdict;
pub use poller::WARMUP_DELAY_MS;
pub use poller::run_poll;
pub use status::Status;
