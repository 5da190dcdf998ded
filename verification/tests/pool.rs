use iocp::ops::{collect_read, stage_write, OverlappedOutcome};
use iocp::pool::socket_pool::{SocketBuf, SocketPool};
use iocp::pool::INITIAL_BUFFER_SIZE;
use iocp::{BufferPool, OverlappedResult};

#[test]
fn new_pool_has_one_initial_buffer() {
    let mut pool = BufferPool::new(1024);
    assert_eq!(pool.max_buffer_size(), 1024);
    assert_eq!(pool.taken(), 0);
    assert_eq!(pool.released(), 0);
    let slot = pool.take(10);
    assert_eq!(slot, 0);
    assert_eq!(pool.buffer_mut(0).len(), INITIAL_BUFFER_SIZE);
}

#[test]
fn take_grows_buffer_to_requested_size() {
    let mut pool = BufferPool::new(1 << 16);
    let slot = pool.take(1000);
    assert_eq!(slot, 0);
    assert_eq!(pool.buffer_mut(slot).len(), 1000);
    let slot = pool.take(7);
    assert_eq!(slot, 1);
    assert_eq!(pool.buffer_mut(slot).len(), 7);
    assert_eq!(pool.taken(), 2);
}

#[test]
fn take_grants_full_size_beyond_max_buffer_size() {
    let mut pool = BufferPool::new(16);
    pool.take(10);
    let slot = pool.take(100);
    assert!(pool.buffer_mut(slot).len() >= 100);
}

#[test]
fn release_is_fifo_for_larger_takes() {
    let mut pool = BufferPool::new(16);
    pool.clear();
    let a = pool.take(100);
    pool.fill(a, b"alpha");
    let b = pool.take(3);
    pool.fill(b, b"be");
    let c = pool.take(50);
    pool.fill(c, b"gamma ray");
    assert_eq!(pool.release(5), b"alpha".to_vec());
    assert_eq!(pool.released(), 1);
    assert_eq!(pool.release(1), b"b".to_vec());
    assert_eq!(pool.release(9), b"gamma ray".to_vec());
    assert_eq!(pool.released(), 3);
}

#[test]
fn take_fill_release_round_trip() {
    let mut pool = BufferPool::new(1 << 16);
    let slot = stage_write(&mut pool, b"ping");
    assert_eq!(slot, 0);
    let filled = pool.release(4);
    assert_eq!(filled, b"ping".to_vec());
    assert_eq!(pool.released(), pool.taken());
}

#[test]
fn release_is_fifo() {
    let mut pool = BufferPool::new(1 << 16);
    pool.clear();
    let a = stage_write(&mut pool, b"first");
    let b = stage_write(&mut pool, b"second");
    let c = stage_write(&mut pool, b"third!!");
    assert_eq!((a, b, c), (0, 1, 2));
    assert_eq!(pool.release(5), b"first".to_vec());
    assert_eq!(pool.release(6), b"second".to_vec());
    assert_eq!(pool.release(7), b"third!!".to_vec());
    assert_eq!(pool.released(), pool.taken());
}

#[test]
fn release_of_a_prefix() {
    let mut pool = BufferPool::new(1 << 16);
    stage_write(&mut pool, b"hello world");
    assert_eq!(pool.release(5), b"hello".to_vec());
}

#[test]
fn clear_keeps_buffers_for_reuse() {
    let mut pool = BufferPool::new(1 << 16);
    let slot = pool.take(4096);
    pool.clear();
    assert_eq!(pool.taken(), 0);
    assert_eq!(pool.released(), 0);
    let again = pool.take(1);
    assert_eq!(again, slot);
    assert_eq!(pool.buffer_mut(again).len(), 4096);
}

#[test]
fn fill_writes_at_start_of_buffer() {
    let mut pool = BufferPool::new(16);
    let slot = pool.take(8);
    pool.fill(slot, &[1, 2, 3]);
    assert_eq!(&pool.buffer_mut(slot)[..4], &[1, 2, 3, 0]);
}

#[test]
fn collect_read_copies_and_advances() {
    let mut pool = BufferPool::new(1 << 16);
    let slot = pool.take(8);
    pool.buffer_mut(slot)[..3].copy_from_slice(b"abc");
    let mut out = [9u8; 5];
    let (n, outcome) = collect_read(&mut pool, OverlappedResult { bytes_transferred: 3 }, &mut out);
    assert_eq!(n, 3);
    assert_eq!(outcome, OverlappedOutcome::Advance(3));
    assert_eq!(out, [b'a', b'b', b'c', 9, 9]);
    assert_eq!(pool.released(), 1);
}

#[test]
fn collect_read_of_nothing() {
    let mut pool = BufferPool::new(1 << 16);
    pool.take(8);
    let mut out = [7u8; 2];
    let (n, outcome) = collect_read(&mut pool, OverlappedResult::empty(), &mut out);
    assert_eq!(n, 0);
    assert_eq!(outcome, OverlappedOutcome::Advance(0));
    assert_eq!(out, [7, 7]);
}

#[test]
fn socket_pool_creates_sockets_on_demand() {
    let mut pool = SocketPool::new();
    assert!(pool.needs_socket());
    assert_eq!(pool.take(None), None);
    assert_eq!(pool.take(Some(42)), Some(SocketBuf(42)));
    assert_eq!(pool.take(Some(43)), Some(SocketBuf(43)));
    assert!(pool.needs_socket());
}

#[test]
fn socket_pool_is_fifo_and_reuses_sockets() {
    let mut pool = SocketPool::new();
    pool.take(Some(1));
    pool.take(Some(2));
    let mut first = pool.release();
    assert_eq!(first.as_raw_socket(), 1);
    let closed = pool.clear();
    assert_eq!(closed, vec![2]);
    assert!(!pool.needs_socket());
    assert_eq!(pool.take(Some(99)), Some(SocketBuf(1)));
}

#[test]
fn socket_pool_clear_of_all_released() {
    let mut pool = SocketPool::new();
    pool.take(Some(5));
    assert_eq!(pool.release(), SocketBuf(5));
    assert_eq!(pool.clear(), Vec::<usize>::new());
}
