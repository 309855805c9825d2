use status_poller::classify_health_update_error;
use status_poller::PollError;
use status_poller::QueryError;
use status_poller::health_update_retryable;
use status_poller::is_err_retryable;
use status_poller::is_error_retryable;
use status_poller::is_error_retryable_set_instance_health;

#[test]
fn timeout_is_retryable() {
    assert!(is_err_retryable(&QueryError::Timeout));
    assert!(is_error_retryable(&QueryError::Timeout));
}

#[test]
fn malformed_response_is_retryable() {
    assert!(is_err_retryable(&QueryError::Response));
    assert!(is_error_retryable(&QueryError::Response));
}

#[test]
fn dispatch_io_is_retryable() {
    let e = QueryError::Dispatch { is_timeout: false, is_io: true };
    assert!(is_err_retryable(&e));
    assert!(is_error_retryable(&e));
}

#[test]
fn dispatch_timeout_is_retryable() {
    let e = QueryError::Dispatch { is_timeout: true, is_io: false };
    assert!(is_err_retryable(&e));
}

#[test]
fn dispatch_other_is_not_retryable() {
    let e = QueryError::Dispatch { is_timeout: false, is_io: false };
    assert!(!is_err_retryable(&e));
    assert!(!is_error_retryable(&e));
}

#[test]
fn contention_is_not_retryable_on_generic_path() {
    let e = QueryError::Service { resource_contention: true };
    assert!(!is_err_retryable(&e));
    assert!(!is_error_retryable(&e));
}

#[test]
fn contention_is_retryable_on_health_update_path() {
    let e = QueryError::Service { resource_contention: true };
    assert!(is_error_retryable_set_instance_health(&e));
    assert!(health_update_retryable(&e));
}

#[test]
fn other_service_fault_is_not_retryable() {
    let e = QueryError::Service { resource_contention: false };
    assert!(!is_err_retryable(&e));
    assert!(!is_error_retryable_set_instance_health(&e));
    assert!(!health_update_retryable(&e));
}

#[test]
fn unclassified_error_is_not_retryable() {
    assert!(!is_err_retryable(&QueryError::ConstructionFailure));
    assert!(!is_error_retryable(&QueryError::ConstructionFailure));
    assert!(!is_error_retryable_set_instance_health(&QueryError::ConstructionFailure));
    assert!(!health_update_retryable(&QueryError::ConstructionFailure));
}

#[test]
fn health_update_path_keeps_generic_rules() {
    assert!(health_update_retryable(&QueryError::Timeout));
    assert!(health_update_retryable(&QueryError::Response));
    assert!(health_update_retryable(&QueryError::Dispatch { is_timeout: false, is_io: true }));
    assert!(!health_update_retryable(&QueryError::Dispatch { is_timeout: false, is_io: false }));
}

#[test]
fn health_update_error_is_a_classified_transport_error() {
    let contention = QueryError::Service { resource_contention: true };
    assert_eq!(
        classify_health_update_error(&contention),
        PollError::Transport { retryable: true },
    );
    let rejected = QueryError::Service { resource_contention: false };
    assert_eq!(
        classify_health_update_error(&rejected),
        PollError::Transport { retryable: false },
    );
    assert!(classify_health_update_error(&contention).retryable());
}

#[test]
fn contention_only_rule_ignores_generic_errors() {
    assert!(!is_error_retryable_set_instance_health(&QueryError::Timeout));
    assert!(!is_error_retryable_set_instance_health(&QueryError::Response));
    assert!(!is_error_retryable_set_instance_health(&QueryError::Dispatch {
        is_timeout: true,
        is_io: true,
    }));
}
