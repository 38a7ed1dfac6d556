use cosupport::stdio::nonblocking_flags;

#[test]
fn nonblocking_bit_is_added_once() {
    assert_eq!(nonblocking_flags(0b0010, 0b1000), Some(0b1010));
    assert_eq!(nonblocking_flags(0b1010, 0b1000), None);
    assert_eq!(nonblocking_flags(0, libc::O_NONBLOCK), Some(libc::O_NONBLOCK));
}
