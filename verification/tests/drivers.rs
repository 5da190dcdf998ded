use iocp::background::{BackgroundDriver, DriverState, DriverStep, StatusAction};
use iocp::errors::ERROR_IO_PENDING;
use iocp::handle::{lock_action, OperationStage, PollAction};
use iocp::io::run::{RunAction, RunStage};
use iocp::io::tokio::{reader, writer};
use iocp::io::{handle_io_pending, start_progress, Progress};
use iocp::task::LockResult;
use iocp::completion_port::{poll_result, SHUTDOWN_PORT};
use iocp::{CompletionOutcome, CompletionPoll, CompletionStatus, Error, OverlappedState};

/// The poll that reports shutting down with `pending` operations.
fn shutdown(pending: isize) -> CompletionPoll {
    poll_result(CompletionStatus::new(true, 0, SHUTDOWN_PORT, 0), pending).unwrap()
}

fn pending() -> Error {
    Error::from_raw_os_error(ERROR_IO_PENDING as i32)
}

#[test]
fn handle_io_pending_cases() {
    assert_eq!(handle_io_pending::<usize>(Ok(4)), Ok(()));
    assert_eq!(handle_io_pending::<usize>(Err(pending())), Ok(()));
    assert_eq!(handle_io_pending::<usize>(Err(Error::Os(5))), Err(Error::Os(5)));
    assert_eq!(handle_io_pending::<usize>(Err(Error::ShuttingDown)), Err(Error::ShuttingDown));
}

#[test]
fn start_progress_cases() {
    assert_eq!(start_progress::<usize>(&Ok(1)), Progress::Ready);
    assert_eq!(start_progress::<usize>(&Err(pending())), Progress::Suspend);
    assert_eq!(start_progress::<usize>(&Err(Error::Os(2))), Progress::Ready);
}

#[test]
fn lock_actions() {
    assert_eq!(lock_action(LockResult::Busy(true)), PollAction::Wait { cancel: true });
    assert_eq!(lock_action(LockResult::Busy(false)), PollAction::Wait { cancel: false });
    assert_eq!(lock_action(LockResult::Locked(OverlappedState::Idle)), PollAction::Prepare);
    assert_eq!(lock_action(LockResult::Locked(OverlappedState::Pending)), PollAction::Collect);
}

#[test]
fn polled_after_completion() {
    let mut stage = OperationStage::Running;
    assert_eq!(stage.check_running(), Ok(()));
    stage.complete();
    assert_eq!(stage.check_running(), Err(Error::PolledAfterCompletion));
    assert_eq!(stage.check_running(), Err(Error::PolledAfterCompletion));
}

#[test]
fn run_lifecycle_through_pending() {
    let mut stage = RunStage::Waiting;
    assert_eq!(stage.on_locked(), RunAction::Start);
    assert_eq!(stage.on_started::<usize>(&Err(pending())), Progress::Suspend);
    assert_eq!(stage, RunStage::Pending);
    assert_eq!(stage.on_locked(), RunAction::Collect);
    assert_eq!(stage, RunStage::Complete);
    assert_eq!(stage.on_locked(), RunAction::Fail(Error::PolledAfterCompletion));
}

#[test]
fn run_completes_at_once() {
    let mut stage = RunStage::Waiting;
    stage.on_locked();
    assert_eq!(stage.on_started::<usize>(&Ok(3)), Progress::Ready);
    assert_eq!(stage, RunStage::Complete);
    let mut failed = RunStage::Waiting;
    failed.on_locked();
    assert_eq!(failed.on_started::<usize>(&Err(Error::Os(6))), Progress::Ready);
    assert_eq!(failed, RunStage::Complete);
}

#[test]
fn reader_state_machine() {
    let mut state = reader::State::Init;
    assert_eq!(state.on_locked(), reader::ReadAction::Start);
    assert_eq!(state, reader::State::Pending);
    assert_eq!(state.on_started::<usize>(&Err(pending())), Progress::Suspend);
    assert_eq!(state, reader::State::Pending);
    assert_eq!(state.on_locked(), reader::ReadAction::Collect);
    assert_eq!(state, reader::State::Init);
    state.on_locked();
    assert_eq!(state.on_started::<usize>(&Err(Error::Os(1))), Progress::Ready);
    assert_eq!(state, reader::State::Init);
}

#[test]
fn writer_stays_pending_after_immediate_error() {
    let mut state = writer::State::Init;
    assert_eq!(state.on_locked(), writer::WriteAction::Start);
    assert_eq!(state.on_started::<usize>(&Err(Error::Os(1))), Progress::Ready);
    assert_eq!(state, writer::State::Pending);
    assert_eq!(state.on_locked(), writer::WriteAction::Collect);
    assert_eq!(state, writer::State::Init);
    state.on_locked();
    assert_eq!(state.on_started::<usize>(&Ok(4)), Progress::Ready);
    assert_eq!(state, writer::State::Init);
}

#[test]
fn background_driver_drains_pending_then_finishes() {
    let mut driver = BackgroundDriver::new();
    assert_eq!(driver.next_step(), DriverStep::Poll);
    let aborted = CompletionStatus::new(false, 995, 0, 0);
    assert_eq!(aborted.outcome, CompletionOutcome::Aborted);
    assert_eq!(driver.on_poll(CompletionPoll::Status(aborted)), Some(StatusAction::Unlock));
    let done = CompletionStatus::new(true, 0, 0, 10);
    assert_eq!(driver.on_poll(CompletionPoll::Status(done)), Some(StatusAction::Release));
    assert_eq!(driver.on_poll(shutdown(2)), None);
    assert_eq!(driver.state(), DriverState::Draining(2));
    assert_eq!(driver.next_step(), DriverStep::PollDuringShutdown);
    assert_eq!(driver.on_drained(), StatusAction::Release);
    assert_eq!(driver.next_step(), DriverStep::PollDuringShutdown);
    assert_eq!(driver.on_drained(), StatusAction::Release);
    assert_eq!(driver.next_step(), DriverStep::Finish);
    driver.finish();
    assert_eq!(driver.state(), DriverState::Finished);
}

#[test]
fn background_driver_with_nothing_pending() {
    let mut driver = BackgroundDriver::new();
    driver.on_poll(shutdown(0));
    assert_eq!(driver.next_step(), DriverStep::Finish);
}
