use windows_sys::Win32::Foundation;
use windows_sys::Win32::Storage::FileSystem;
use windows_sys::Win32::System::Pipes;

#[test]
fn error_codes_match_windows() {
    assert_eq!(iocp::errors::ERROR_HANDLE_EOF, Foundation::ERROR_HANDLE_EOF);
    assert_eq!(iocp::errors::ERROR_BROKEN_PIPE, Foundation::ERROR_BROKEN_PIPE);
    assert_eq!(iocp::errors::ERROR_OPERATION_ABORTED, Foundation::ERROR_OPERATION_ABORTED);
    assert_eq!(iocp::errors::ERROR_IO_PENDING, Foundation::ERROR_IO_PENDING);
}

#[test]
fn pipe_flags_match_windows() {
    assert_eq!(iocp::pipe::PIPE_ACCESS_INBOUND, FileSystem::PIPE_ACCESS_INBOUND);
    assert_eq!(iocp::pipe::PIPE_ACCESS_OUTBOUND, FileSystem::PIPE_ACCESS_OUTBOUND);
    assert_eq!(iocp::pipe::PIPE_ACCESS_DUPLEX, FileSystem::PIPE_ACCESS_DUPLEX);
    assert_eq!(iocp::pipe::FILE_FLAG_FIRST_PIPE_INSTANCE, FileSystem::FILE_FLAG_FIRST_PIPE_INSTANCE);
    assert_eq!(iocp::pipe::PIPE_TYPE_BYTE, Pipes::PIPE_TYPE_BYTE);
    assert_eq!(iocp::pipe::PIPE_TYPE_MESSAGE, Pipes::PIPE_TYPE_MESSAGE);
    assert_eq!(iocp::pipe::PIPE_REJECT_REMOTE_CLIENTS, Pipes::PIPE_REJECT_REMOTE_CLIENTS);
    assert_eq!(iocp::pipe::PIPE_UNLIMITED_INSTANCES, Pipes::PIPE_UNLIMITED_INSTANCES);
    assert_eq!(iocp::flags::FILE_FLAG_OVERLAPPED, FileSystem::FILE_FLAG_OVERLAPPED);
}
