use bytes::Bytes;
use libp2p_auto_relay::address::Multiaddr;
use libp2p_auto_relay::connection::Connection;

fn connection(buffered: &'static [u8]) -> Connection<&'static str> {
    Connection::new(
        Multiaddr::parse("/ip4/1.2.3.4/tcp/5").unwrap(),
        Bytes::from_static(buffered),
        "stream",
    )
}

#[test]
fn remote_addr_is_kept() {
    let connection = connection(b"");
    assert_eq!(connection.remote_addr().text(), "/ip4/1.2.3.4/tcp/5");
    assert_eq!(connection.sub_stream, "stream");
}

#[test]
fn buffered_bytes_are_read_in_pieces() {
    let mut connection = connection(b"abcdefg");
    let mut read: Vec<u8> = Vec::new();
    for size in vec![3usize, 0, 2, 10] {
        let mut buf = vec![b'.'; size];
        let n = connection.read_buffered(&mut buf).unwrap();
        read.extend_from_slice(&buf[..n]);
        assert!(buf[n..].iter().all(|b| *b == b'.'));
    }
    assert_eq!(read, b"abcdefg");
    let mut buf = vec![b'.'; 4];
    assert_eq!(connection.read_buffered(&mut buf), None);
    assert_eq!(buf, b"....");
}

#[test]
fn buffer_larger_than_what_is_buffered_keeps_its_tail() {
    let mut connection = connection(b"abc");
    let mut buf = vec![b'.'; 5];
    assert_eq!(connection.read_buffered(&mut buf), Some(3));
    assert_eq!(buf, b"abc..");
}

#[test]
fn buffers_are_filled_one_behind_the_other() {
    let mut connection = connection(b"abcdefg");
    let mut bufs = vec![vec![0u8; 2], vec![0u8; 3]];
    assert!(connection.ends_at_buffer(&bufs));
    assert_eq!(connection.read_buffered_vectored(&mut bufs), Some(5));
    assert_eq!(bufs, vec![b"ab".to_vec(), b"cde".to_vec()]);
    let mut rest = vec![vec![0u8; 2], vec![7u8; 1]];
    assert!(connection.ends_at_buffer(&rest));
    assert_eq!(connection.read_buffered_vectored(&mut rest), Some(2));
    assert_eq!(rest, vec![b"fg".to_vec(), vec![7u8]]);
    assert_eq!(connection.read_buffered_vectored(&mut rest), None);
}

#[test]
fn an_empty_buffer_ends_a_vectored_read() {
    let mut connection = connection(b"abcd");
    let mut bufs = vec![vec![0u8; 2], vec![], vec![0u8; 2]];
    assert!(connection.ends_at_buffer(&bufs));
    assert_eq!(connection.read_buffered_vectored(&mut bufs), Some(2));
    assert_eq!(bufs, vec![b"ab".to_vec(), vec![], vec![0u8; 2]]);
    let mut buf = vec![0u8; 4];
    assert_eq!(connection.read_buffered(&mut buf), Some(2));
    assert_eq!(&buf[..2], b"cd");
}

#[test]
fn bytes_that_end_within_a_buffer_are_seen() {
    let connection = connection(b"abc");
    assert!(!connection.ends_at_buffer(&vec![vec![0u8; 2], vec![0u8; 2]]));
    assert!(connection.ends_at_buffer(&vec![vec![0u8; 2], vec![0u8; 1]]));
    assert!(connection.ends_at_buffer(&vec![vec![0u8; 2]]));
    assert!(connection.ends_at_buffer(&vec![]));
}
