use ihnet::bytes::{bytes_equal, copy_bytes};
use ihnet::wire::{handshake, is_handshake, Protocol, HANDSHAKE, TCP_ALPN, UDP_ALPN};

#[test]
fn protocol_names_are_the_agreed_ones() {
    assert_eq!(&TCP_ALPN, b"INETTCPV0");
    assert_eq!(&UDP_ALPN, b"INETUDPV0");
    assert_eq!(Protocol::Tcp.alpn(), b"INETTCPV0".to_vec());
    assert_eq!(Protocol::Udp.alpn(), b"INETUDPV0".to_vec());
}

#[test]
fn a_name_negotiates_one_protocol() {
    assert!(Protocol::Tcp.is_named(b"INETTCPV0"));
    assert!(!Protocol::Tcp.is_named(b"INETUDPV0"));
    assert!(Protocol::Udp.is_named(b"INETUDPV0"));
    assert!(!Protocol::Udp.is_named(b"INETTCPV0"));
    assert!(!Protocol::Tcp.is_named(b"INETTCPV"));
    assert!(!Protocol::Tcp.is_named(b""));
}

#[test]
fn greeting_is_recognised() {
    assert_eq!(&HANDSHAKE, b"wyll");
    assert_eq!(handshake(), b"wyll".to_vec());
    assert!(is_handshake(b"wyll"));
    assert!(!is_handshake(b"wylL"));
    assert!(!is_handshake(b"wyl"));
    assert!(!is_handshake(b"wylll"));
    assert!(!is_handshake(b""));
}

#[test]
fn byte_strings_compare_by_content() {
    assert!(bytes_equal(b"", b""));
    assert!(bytes_equal(b"abc", b"abc"));
    assert!(!bytes_equal(b"abc", b"abd"));
    assert!(!bytes_equal(b"abc", b"ab"));
    assert_eq!(copy_bytes(b"abc"), vec![97u8, 98, 99]);
    assert_eq!(copy_bytes(b""), Vec::<u8>::new());
}
