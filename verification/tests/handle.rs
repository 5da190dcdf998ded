use std::sync::Arc;

use iocp::pool::INITIAL_BUFFER_SIZE;
use iocp::socket::operation::Accept;
use iocp::{Handle, Socket};

#[test]
fn duplicate_handle_has_fresh_pool() {
    let mut handle = Handle::new(Arc::new(5u32), 512);
    handle.pool_mut().take(100);
    let mut copy = handle.duplicate();
    assert_eq!(**copy.as_ref(), 5);
    assert_eq!(copy.pool().max_buffer_size(), 512);
    assert_eq!(copy.pool().taken(), 0);
    assert_eq!(copy.pool_mut().take(1), 0);
    assert_eq!(copy.pool_mut().buffer_mut(0).len(), INITIAL_BUFFER_SIZE);
    assert_eq!(handle.pool().taken(), 1);
}

#[test]
fn handle_as_mut_replaces_inner() {
    let mut handle = Handle::new(1u8, 16);
    *handle.as_mut() = 2;
    assert_eq!(*handle.as_ref(), 2);
}

#[test]
fn duplicate_socket_has_fresh_pool() {
    let mut socket = Socket::new(Arc::new(7u64), 64);
    socket.pool_mut().take(10);
    let copy = socket.duplicate();
    assert_eq!(**copy.as_ref(), 7);
    assert_eq!(copy.pool().taken(), 0);
    assert_eq!(copy.pool().max_buffer_size(), 64);
    *socket.as_mut() = Arc::new(8);
    assert_eq!(**socket.as_ref(), 8);
    let _accept = Accept::new();
}
