use fdsource::{socket_token, OsSocket, SocketHandle, Source};

#[test]
fn usize_boundary_of_descriptor_width() {
    assert!(SocketHandle::raw_from_usize(1usize << 31).is_err());
    assert_eq!(SocketHandle::raw_from_usize((1usize << 31) - 1).unwrap(), i32::MAX);
}

#[test]
fn usize_far_out_of_range_is_rejected() {
    assert!(SocketHandle::raw_from_usize(usize::MAX).is_err());
    assert!(SocketHandle::raw_from_usize(1usize << 32).is_err());
}

#[test]
fn usize_small_values_convert_exactly() {
    assert_eq!(SocketHandle::raw_from_usize(0).unwrap(), 0);
    assert_eq!(SocketHandle::raw_from_usize(42).unwrap(), 42);
}

#[test]
fn every_i32_is_a_descriptor() {
    for fd in [i32::MIN, -1, 0, 42, i32::MAX] {
        assert_eq!(SocketHandle::raw_from_i32(fd).unwrap(), fd);
    }
}

#[test]
fn bare_socket_conversion_boundaries() {
    assert!(OsSocket::try_new(1usize << 31).is_err());
    assert_eq!(OsSocket::try_new((1usize << 31) - 1).unwrap().raw(), i32::MAX);
    assert_eq!(OsSocket::new(42).raw(), 42);
}

#[test]
fn bare_source_keeps_identifier() {
    match Source::socket(42) {
        Source::Socket(s) => assert_eq!(s.raw(), 42),
        Source::TCPListener(_) => panic!("a bare identifier made a listener source"),
    }
}

#[test]
fn token_is_descriptor_value() {
    assert_eq!(socket_token(0), 0);
    assert_eq!(socket_token(42), 42);
    assert_eq!(socket_token(i32::MAX), 2147483647usize);
}

#[test]
fn conversion_round_trips_through_token() {
    for id in [0usize, 1, 7, 42, 65535, (1usize << 31) - 1] {
        let raw = SocketHandle::raw_from_usize(id).unwrap();
        assert_eq!(socket_token(raw), id);
    }
}

#[test]
fn bare_socket_view_names_its_descriptor() {
    let socket = OsSocket::new(42);
    assert_eq!(*socket.as_source_fd().0, 42);
    let edge = OsSocket::new((1usize << 31) - 1);
    assert_eq!(*edge.as_source_fd().0, i32::MAX);
}
