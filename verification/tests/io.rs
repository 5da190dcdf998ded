use iocp::errors::{ERROR_BROKEN_PIPE, ERROR_HANDLE_EOF, ERROR_IO_PENDING};
use iocp::io::{counting_lock_acquired, overlapped_result, strict_overlapped_result, submit_len};
use iocp::ops::{ConnectNamedPipe, DeviceIoCtl, OverlappedOutcome, Read, Write};
use iocp::task::OverlappedOffset;
use iocp::{Error, OverlappedResult};

#[test]
fn overlapped_result_success() {
    assert_eq!(overlapped_result(true, 42, 0), Ok(OverlappedResult { bytes_transferred: 42 }));
    assert_eq!(strict_overlapped_result(true, 42, 0), Ok(OverlappedResult { bytes_transferred: 42 }));
}

#[test]
fn end_of_file_and_broken_pipe_read_as_empty() {
    assert_eq!(overlapped_result(false, 9, ERROR_HANDLE_EOF), Ok(OverlappedResult::empty()));
    assert_eq!(overlapped_result(false, 9, ERROR_BROKEN_PIPE), Ok(OverlappedResult::empty()));
    assert_eq!(strict_overlapped_result(false, 9, ERROR_HANDLE_EOF), Err(Error::Os(38)));
}

#[test]
fn other_failures_are_os_errors() {
    assert_eq!(overlapped_result(false, 0, 5), Err(Error::Os(5)));
    assert_eq!(overlapped_result(false, 0, ERROR_IO_PENDING), Err(Error::Os(997)));
    assert_eq!(Error::Os(5).raw_os_error(), Some(5));
    assert_eq!(Error::ReservedPort.raw_os_error(), None);
    assert!(Error::from_raw_os_error(997).is_io_pending());
    assert!(!Error::PolledAfterCompletion.is_io_pending());
}

#[test]
fn submit_len_clamps() {
    assert_eq!(submit_len(0), 0);
    assert_eq!(submit_len(4096), 4096);
    assert_eq!(submit_len(u32::MAX as usize), u32::MAX);
    if let Some(n) = (u32::MAX as usize).checked_add(1) {
        assert_eq!(submit_len(n), u32::MAX);
    }
}

#[test]
fn counting_lock() {
    assert!(counting_lock_acquired(0));
    assert!(!counting_lock_acquired(1));
    assert!(!counting_lock_acquired(-1));
}

#[test]
fn collect_of_write_and_ioctl() {
    let mut write = Write::new(vec![1u8, 2, 3]);
    assert_eq!(write.collect(OverlappedResult { bytes_transferred: 3 }), (3, OverlappedOutcome::Unchanged));
    assert_eq!(write.buf, vec![1, 2, 3]);
    let mut ioctl = DeviceIoCtl::new(17u32);
    assert_eq!(ioctl.collect(OverlappedResult { bytes_transferred: 8 }), (8, OverlappedOutcome::Unchanged));
    let mut connect = ConnectNamedPipe::new();
    assert_eq!(connect.collect(OverlappedResult::empty()), ((), OverlappedOutcome::Unchanged));
    let read = Read::new([0u8; 4]);
    assert_eq!(read.buf, [0; 4]);
}

#[test]
fn outcome_apply_to_offset() {
    let mut offset = OverlappedOffset { offset: 1, offset_high: 0 };
    OverlappedOutcome::Unchanged.apply_to(&mut offset);
    assert_eq!(offset, OverlappedOffset { offset: 1, offset_high: 0 });
    OverlappedOutcome::Advance(9).apply_to(&mut offset);
    assert_eq!(offset, OverlappedOffset { offset: 10, offset_high: 0 });
}
