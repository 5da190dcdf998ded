use iocp::completion_port::{
    check_register_options, completion_outcome, drain_decision, permit_result, poll_decision,
    poll_result, PollDecision, DEFAULT_MAX_BUFFER_SIZE, RESERVED_PORTS, SHUTDOWN_PORT,
};
use iocp::errors::{ERROR_IO_PENDING, ERROR_OPERATION_ABORTED};
use iocp::{CompletionOutcome, CompletionPoll, CompletionStatus, Error, RegisterOptions};

/// The number of pending operations that a poll reports shutting down with.
fn shutdown_pending(poll: Result<CompletionPoll, Error>) -> Option<usize> {
    match poll {
        Ok(CompletionPoll::Shutdown(shutdown)) => Some(shutdown.pending),
        _ => None,
    }
}

#[test]
fn default_register_options() {
    let options = RegisterOptions::default();
    assert_eq!(options.key(), 0);
    assert_eq!(options.max_buffer_size(), DEFAULT_MAX_BUFFER_SIZE);
    assert_eq!(DEFAULT_MAX_BUFFER_SIZE, 1 << 16);
}

#[test]
fn with_max_buffer_size_keeps_key() {
    let options = RegisterOptions::default().with_max_buffer_size(128);
    assert_eq!(options.max_buffer_size(), 128);
    assert_eq!(options.key(), 0);
}

#[test]
fn register_accepts_default_key() {
    assert_eq!(check_register_options(&RegisterOptions::default()), Ok(()));
}

#[test]
fn reserved_ports_are_the_top_sixteen_keys() {
    assert_eq!(RESERVED_PORTS, !0b1111usize);
    assert_eq!(SHUTDOWN_PORT, usize::MAX);
    assert_eq!(poll_decision(RESERVED_PORTS - 1), PollDecision::Completion);
    assert_eq!(poll_decision(RESERVED_PORTS), PollDecision::Reserved);
    assert_eq!(poll_decision(SHUTDOWN_PORT - 1), PollDecision::Reserved);
    assert_eq!(poll_decision(SHUTDOWN_PORT), PollDecision::Shutdown);
    assert_eq!(drain_decision(3), PollDecision::Completion);
    assert_eq!(drain_decision(SHUTDOWN_PORT), PollDecision::Shutdown);
}

#[test]
fn completion_outcomes() {
    assert_eq!(completion_outcome(true, 0), CompletionOutcome::Completed);
    assert_eq!(completion_outcome(true, ERROR_OPERATION_ABORTED), CompletionOutcome::Completed);
    assert_eq!(completion_outcome(false, ERROR_OPERATION_ABORTED), CompletionOutcome::Aborted);
    assert_eq!(completion_outcome(false, ERROR_IO_PENDING), CompletionOutcome::Errored);
}

#[test]
fn completion_status_new() {
    let status = CompletionStatus::new(false, 995, 7, 12);
    assert_eq!(status.completion_key, 7);
    assert_eq!(status.bytes_transferred, 12);
    assert_eq!(status.outcome, CompletionOutcome::Aborted);
}

#[test]
fn shutdown_message_reports_pending() {
    let status = CompletionStatus::new(true, 0, SHUTDOWN_PORT, 0);
    assert_eq!(shutdown_pending(poll_result(status, 0)), Some(0));
    assert_eq!(shutdown_pending(poll_result(status, 3)), Some(3));
}

#[test]
fn reserved_status_is_an_error() {
    let status = CompletionStatus::new(true, 0, RESERVED_PORTS + 1, 0);
    assert_eq!(poll_result(status, 0), Err(Error::ReservedStatus));
}

#[test]
fn operation_status_is_handed_out() {
    let status = CompletionStatus::new(true, 0, 0, 128);
    assert_eq!(poll_result(status, 5), Ok(CompletionPoll::Status(status)));
}

#[test]
fn permits_until_shutdown() {
    assert_eq!(permit_result(0), Ok(()));
    assert_eq!(permit_result(17), Ok(()));
    assert_eq!(permit_result(-1), Err(Error::ShuttingDown));
    assert_eq!(permit_result(isize::MIN + 2), Err(Error::ShuttingDown));
}

#[test]
fn counter_refuses_permits_after_shutdown() {
    // A counter with two operations in flight shuts down.
    let mut count: isize = 2;
    let before = count;
    count = count.wrapping_add(isize::MIN);
    let status = CompletionStatus::new(true, 0, SHUTDOWN_PORT, 0);
    assert_eq!(shutdown_pending(poll_result(status, before)), Some(2));
    assert_eq!(permit_result(count), Err(Error::ShuttingDown));
    count -= 1;
    assert_eq!(permit_result(count), Err(Error::ShuttingDown));
}

use iocp::completion_port::PendingCounter;

#[test]
fn counter_reports_pending_at_shutdown() {
    let counter = PendingCounter::new();
    // Two operations are submitted; their permits are kept by the port.
    assert_eq!(counter.permit(), Ok(()));
    assert_eq!(counter.permit(), Ok(()));
    // One of them completes.
    let status = CompletionStatus::new(true, 0, 0, 4);
    assert_eq!(counter.poll(status), Ok(CompletionPoll::Status(status)));
    let shutdown = CompletionStatus::new(true, 0, SHUTDOWN_PORT, 0);
    assert_eq!(shutdown_pending(counter.poll(shutdown)), Some(1));
    assert_eq!(counter.permit(), Err(Error::ShuttingDown));
}

#[test]
fn counter_with_nothing_pending() {
    let counter = PendingCounter::new();
    assert_eq!(counter.permit(), Ok(()));
    counter.complete();
    let shutdown = CompletionStatus::new(true, 0, SHUTDOWN_PORT, 0);
    assert_eq!(shutdown_pending(counter.poll(shutdown)), Some(0));
    let reserved = CompletionStatus::new(true, 0, RESERVED_PORTS, 0);
    assert_eq!(counter.poll(reserved), Err(Error::ReservedStatus));
}
