use iocp::Buf;

#[test]
fn new_buf_is_empty_and_zeroed() {
    let buf = Buf::new(4);
    assert_eq!(buf.len(), 0);
    assert_eq!(buf.capacity(), 4);
    assert_eq!(buf.as_ref(), &[] as &[u8]);
    assert_eq!(buf.as_ptr(), &[0, 0, 0, 0]);
}

#[test]
fn copy_from_sets_len() {
    let mut buf = Buf::new(8);
    buf.copy_from(b"abc");
    assert_eq!(buf.len(), 3);
    assert_eq!(buf.as_ref(), b"abc");
    assert_eq!(buf.capacity(), 8);
}

#[test]
fn zero_clears_filled_part() {
    let mut buf = Buf::new(4);
    buf.as_mut_ptr().copy_from_slice(&[1, 2, 3, 4]);
    buf.set_len(2);
    buf.zero();
    assert_eq!(buf.len(), 0);
    assert_eq!(buf.as_ptr(), &[0, 0, 3, 4]);
}

#[test]
fn set_len_exposes_written_bytes() {
    let mut buf = Buf::new(4);
    buf.set_len(0);
    buf.as_mut_ptr()[0] = 7;
    buf.set_len(1);
    assert_eq!(buf.as_ref(), &[7]);
}

#[test]
fn read_grows_buffer() {
    let mut buf = Buf::new(2);
    buf.copy_from(&[5, 6]);
    let copy = buf.read(4);
    assert_eq!(buf.len(), 4);
    assert_eq!(buf.as_ref(), &[5, 6, 0, 0]);
    assert_eq!(copy.as_ref(), &[5, 6, 0, 0]);
    let shorter = buf.read(1);
    assert_eq!(shorter.as_ref(), &[5]);
    assert_eq!(buf.capacity(), 4);
}
