use ihnet::address::SocketAddress;
use ihnet::cli::{default_logging, Cli, Incoming, Mode, Reception, DEFAULT_PORT};
use ihnet::node::NodeId;
use ihnet::wire::Protocol;

const LOCAL: SocketAddress = SocketAddress::V4 { ipv4: 0x7f00_0001, port: 8080 };
const NODE: NodeId = NodeId { bytes: [7; 32] };

fn modes() -> Vec<Mode> {
    vec![
        Mode::Forward { addr: LOCAL },
        Mode::ForwardTcp { addr: LOCAL },
        Mode::ForwardUdp { addr: LOCAL },
        Mode::Connect { to: NODE },
        Mode::ConnectTcp { to: NODE },
        Mode::ConnectUdp { to: NODE },
        Mode::Web,
    ]
}

fn connected(alpn: &[u8]) -> Incoming<Vec<u8>> {
    Incoming::Connected { alpn: Some(alpn.to_vec()) }
}

#[test]
fn defaults() {
    assert_eq!(DEFAULT_PORT, 61608);
    assert_eq!(default_logging(), "ihnet=info");
}

#[test]
fn local_sockets_listen_on_loopback() {
    let mut cli: Cli<String> = Cli {
        logging: default_logging(),
        port: DEFAULT_PORT,
        ipv6: false,
        identity: None,
        mode: Mode::Web,
    };
    assert_eq!(cli.address(), SocketAddress::V4 { ipv4: 0x7f00_0001, port: 61608 });
    cli.ipv6 = true;
    cli.port = 1;
    assert_eq!(
        cli.address(),
        SocketAddress::V6 { ipv6: 1, port: 1, flowinfo: 0, scope_id: 0 }
    );
}

#[test]
fn families() {
    assert!(!SocketAddress::loopback(false, 5).is_ipv6());
    assert!(SocketAddress::loopback(true, 5).is_ipv6());
}

#[test]
fn offered_protocols() {
    let offered: Vec<Vec<Vec<u8>>> = modes().iter().map(|m| m.alpns()).collect();
    let tcp: Vec<u8> = b"INETTCPV0".to_vec();
    let udp: Vec<u8> = b"INETUDPV0".to_vec();
    assert_eq!(
        offered,
        vec![
            vec![tcp.clone(), udp.clone()],
            vec![tcp],
            vec![udp],
            vec![],
            vec![],
            vec![],
            vec![],
        ]
    );
    assert_eq!(modes()[0].served(), vec![Protocol::Tcp, Protocol::Udp]);
}

#[test]
fn local_listeners() {
    let listens: Vec<Vec<Protocol>> = modes().iter().map(|m| m.listens()).collect();
    assert_eq!(
        listens,
        vec![
            vec![],
            vec![],
            vec![],
            vec![Protocol::Udp, Protocol::Tcp],
            vec![Protocol::Tcp],
            vec![Protocol::Udp],
            vec![Protocol::Tcp],
        ]
    );
}

#[test]
fn offered_is_served() {
    let serve_tcp = Reception::Serve { protocol: Protocol::Tcp, addr: LOCAL };
    let serve_udp = Reception::Serve { protocol: Protocol::Udp, addr: LOCAL };
    let m = modes();
    assert_eq!(m[0].receive(connected(b"INETTCPV0")), serve_tcp);
    assert_eq!(m[0].receive(connected(b"INETUDPV0")), serve_udp);
    assert_eq!(m[1].receive(connected(b"INETTCPV0")), serve_tcp);
    assert_eq!(m[1].receive(connected(b"INETUDPV0")), Reception::NotServed);
    assert_eq!(m[2].receive(connected(b"INETTCPV0")), Reception::NotServed);
    assert_eq!(m[2].receive(connected(b"INETUDPV0")), serve_udp);
    assert_eq!(m[6].receive(connected(b"INETTCPV0")), Reception::NotServed);
    for mode in m {
        assert_eq!(mode.receive(connected(b"h3")), Reception::NotServed);
        for name in mode.alpns() {
            assert!(matches!(mode.receive(connected(&name)), Reception::Serve { .. }));
        }
    }
}

#[test]
fn connections_that_come_to_nothing() {
    for mode in modes() {
        assert_eq!(mode.receive(Incoming::Closed), Reception::Stop);
        assert_eq!(mode.receive(Incoming::Failed), Reception::ConnectionFailed);
        assert_eq!(
            mode.receive(Incoming::Connected { alpn: None }),
            Reception::MissingAlpn
        );
    }
}
