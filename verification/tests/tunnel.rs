use ihnet::address::SocketAddress;
use ihnet::node::{NodeAddr, NodeId};
use ihnet::session::{Action, Event, SessionError, TunnelAction, DATAGRAM_CAPACITY};
use ihnet::tcp::{connect_tcp, forward_tcp, ConnectTcp, ForwardTcp, ForwardTcpPhase};
use ihnet::udp::{connect_udp, forward_udp, ConnectUdp, ForwardUdp, ForwardUdpPhase};

const V4: SocketAddress = SocketAddress::V4 { ipv4: 0x0a00_0001, port: 53 };
const V6: SocketAddress = SocketAddress::V6 { ipv6: 9, port: 53, flowinfo: 3, scope_id: 4 };
const ALICE: SocketAddress = SocketAddress::V4 { ipv4: 1, port: 1 };
const BOB: SocketAddress = SocketAddress::V6 { ipv6: 2, port: 2, flowinfo: 0, scope_id: 7 };

type Told = Event<Vec<u8>, String>;

fn data(bytes: &[u8]) -> Told {
    Event::Data { data: bytes.to_vec() }
}

fn node(byte: u8) -> NodeAddr {
    NodeAddr { node_id: NodeId { bytes: [byte; 32] }, relay_url: None, direct_addresses: vec![] }
}

fn failed() -> Told {
    Event::Failed { error: String::from("broken") }
}

fn broken() -> TunnelAction<String> {
    Action::Finish { result: Err(SessionError::Io(String::from("broken"))) }
}

fn run_connect_tcp(mut s: ConnectTcp, events: Vec<Told>) -> Vec<TunnelAction<String>> {
    let mut asked = vec![];
    for event in events {
        let (next, action) = s.step(event);
        s = next;
        asked.push(action);
    }
    asked
}

fn run_forward_tcp(mut s: ForwardTcp, events: Vec<Told>) -> Vec<TunnelAction<String>> {
    let mut asked = vec![];
    for event in events {
        let (next, action) = s.step(event);
        s = next;
        asked.push(action);
    }
    asked
}

fn run_connect_udp(mut s: ConnectUdp, events: Vec<Told>) -> Vec<TunnelAction<String>> {
    let mut asked = vec![];
    for event in events {
        let (next, action) = s.step(event);
        s = next;
        asked.push(action);
    }
    asked
}

fn run_forward_udp(mut s: ForwardUdp, events: Vec<Told>) -> Vec<TunnelAction<String>> {
    let mut asked = vec![];
    for event in events {
        let (next, action) = s.step(event);
        s = next;
        asked.push(action);
    }
    asked
}

#[test]
fn tunnels_are_dialled_under_their_protocol() {
    let (session, action) = connect_tcp::<String>(NodeId { bytes: [3; 32] });
    assert_eq!(session, ConnectTcp::Dialing);
    assert_eq!(action, Action::Dial { to: node(3), alpn: b"INETTCPV0".to_vec() });
    let (session, action) = connect_udp::<String>(NodeId { bytes: [4; 32] });
    assert_eq!(session, ConnectUdp::Dialing);
    assert_eq!(action, Action::Dial { to: node(4), alpn: b"INETUDPV0".to_vec() });
}

#[test]
fn forwarding_starts_with_a_stream() {
    let (session, action) = forward_tcp::<String>(V4);
    assert_eq!(session, ForwardTcp { addr: V4, phase: ForwardTcpPhase::Accepting });
    assert_eq!(action, Action::AcceptStream);
    let (session, action) = forward_udp::<String>(V6);
    assert_eq!(session, ForwardUdp { addr: V6, phase: ForwardUdpPhase::Accepting });
    assert_eq!(action, Action::AcceptStream);
}

#[test]
fn course_of_a_dialled_tcp_tunnel() {
    let events: Vec<Told> = vec![
        Event::Done,
        Event::Done,
        Event::Done,
        Event::Done,
        Event::Done,
        Event::Done,
    ];
    assert_eq!(
        run_connect_tcp(ConnectTcp::Dialing, events),
        vec![
            Action::OpenStream,
            Action::WriteStream { data: b"wyll".to_vec() },
            Action::Splice,
            Action::AwaitClosed,
            Action::Finish { result: Ok(()) },
            Action::Await,
        ]
    );
}

#[test]
fn course_of_a_forwarded_tcp_tunnel() {
    let events: Vec<Told> = vec![
        Event::Done,
        data(b"wyll"),
        Event::Done,
        Event::Done,
        Event::Done,
        Event::Done,
    ];
    assert_eq!(
        run_forward_tcp(forward_tcp::<String>(V4).0, events),
        vec![
            Action::ReadExact { len: 4 },
            Action::ConnectTcp { addr: V4 },
            Action::Splice,
            Action::Close { code: 0, reason: b"bye".to_vec() },
            Action::Finish { result: Ok(()) },
            Action::Await,
        ]
    );
}

#[test]
fn wrong_greeting_is_refused() {
    for greeting in [&b"wylL"[..], &b"GET "[..], &b""[..], &b"wyllx"[..]] {
        let refused: Vec<TunnelAction<String>> = vec![
            Action::ReadExact { len: 4 },
            Action::Finish { result: Err(SessionError::InvalidHandshake) },
            Action::Await,
        ];
        assert_eq!(
            run_forward_tcp(
                forward_tcp::<String>(V4).0,
                vec![Event::Done, data(greeting), Event::Done]
            ),
            refused
        );
        assert_eq!(
            run_forward_udp(
                forward_udp::<String>(V4).0,
                vec![Event::Done, data(greeting), Event::Done]
            ),
            refused
        );
    }
}

#[test]
fn nothing_local_before_the_greeting() {
    let events: Vec<Told> = vec![
        data(b"wyll"),
        Event::EndOfStream,
        Event::Done,
        Event::Done,
        Event::EndOfStream,
        Event::Datagram { data: b"wyll".to_vec(), from: ALICE },
    ];
    let waited: Vec<TunnelAction<String>> = vec![
        Action::Await,
        Action::Await,
        Action::ReadExact { len: 4 },
        Action::Await,
        Action::Await,
        Action::Await,
    ];
    assert_eq!(run_forward_tcp(forward_tcp::<String>(V4).0, events), waited);
    let events: Vec<Told> = vec![
        data(b"wyll"),
        Event::EndOfStream,
        Event::Done,
        Event::Done,
        Event::EndOfStream,
        Event::Datagram { data: b"wyll".to_vec(), from: ALICE },
    ];
    assert_eq!(run_forward_udp(forward_udp::<String>(V4).0, events), waited);
}

#[test]
fn datagrams_are_passed_on_and_answered_to_their_senders() {
    let events: Vec<Told> = vec![
        Event::Done,
        Event::Done,
        Event::Done,
        Event::Datagram { data: b"one".to_vec(), from: ALICE },
        Event::Done,
        data(b"uno"),
        Event::Done,
        Event::Datagram { data: b"".to_vec(), from: BOB },
        Event::Done,
        Event::EndOfStream,
        Event::Done,
    ];
    assert_eq!(
        run_connect_udp(ConnectUdp::Dialing, events),
        vec![
            Action::OpenStream,
            Action::WriteStream { data: b"wyll".to_vec() },
            Action::ReceiveFrom { max: 1500 },
            Action::WriteStream { data: b"one".to_vec() },
            Action::ReadStream { max: 1500 },
            Action::SendTo { data: b"uno".to_vec(), peer: ALICE },
            Action::ReceiveFrom { max: 1500 },
            Action::WriteStream { data: vec![] },
            Action::ReadStream { max: 1500 },
            Action::SendTo { data: vec![], peer: BOB },
            Action::ReceiveFrom { max: 1500 },
        ]
    );
    assert_eq!(DATAGRAM_CAPACITY, 1500);
}

#[test]
fn forwarded_datagrams_are_served_one_by_one() {
    let events: Vec<Told> = vec![
        Event::Done,
        data(b"wyll"),
        Event::Done,
        Event::Done,
        data(b"one"),
        Event::Done,
        data(b"uno"),
        Event::Done,
        Event::EndOfStream,
        Event::Done,
        data(b""),
        Event::Done,
    ];
    assert_eq!(
        run_forward_udp(forward_udp::<String>(V6).0, events),
        vec![
            Action::ReadExact { len: 4 },
            Action::BindUdp {
                addr: SocketAddress::V6 { ipv6: 1, port: 0, flowinfo: 0, scope_id: 0 }
            },
            Action::ConnectUdp { addr: V6 },
            Action::ReadStream { max: 1500 },
            Action::Send { data: b"one".to_vec() },
            Action::Receive { max: 1500 },
            Action::WriteStream { data: b"uno".to_vec() },
            Action::ReadStream { max: 1500 },
            Action::Send { data: vec![] },
            Action::Receive { max: 1500 },
            Action::WriteStream { data: vec![] },
            Action::ReadStream { max: 1500 },
        ]
    );
}

#[test]
fn local_socket_is_of_the_forwarded_family() {
    assert_eq!(
        forward_udp::<String>(V4).0.bind_addr(),
        SocketAddress::V4 { ipv4: 0x7f00_0001, port: 0 }
    );
    assert_eq!(
        forward_udp::<String>(V6).0.bind_addr(),
        SocketAddress::V6 { ipv6: 1, port: 0, flowinfo: 0, scope_id: 0 }
    );
}

#[test]
fn failure_ends_a_tunnel() {
    for s in [ConnectTcp::Dialing, ConnectTcp::Opening, ConnectTcp::Greeting, ConnectTcp::Splicing]
    {
        assert_eq!(s.step(failed()), (ConnectTcp::Finished, broken()));
    }
    for s in [
        ConnectUdp::Dialing,
        ConnectUdp::Opening,
        ConnectUdp::Greeting,
        ConnectUdp::Receiving,
        ConnectUdp::Passing { from: ALICE },
        ConnectUdp::Reading { from: ALICE },
        ConnectUdp::Returning,
    ] {
        assert_eq!(s.step(failed()), (ConnectUdp::Finished, broken()));
    }
    for phase in [
        ForwardTcpPhase::Accepting,
        ForwardTcpPhase::Greeting,
        ForwardTcpPhase::Connecting,
        ForwardTcpPhase::Splicing,
    ] {
        assert_eq!(
            ForwardTcp { addr: V4, phase }.step(failed()),
            (ForwardTcp { addr: V4, phase: ForwardTcpPhase::Finished }, broken())
        );
    }
    for phase in [
        ForwardUdpPhase::Accepting,
        ForwardUdpPhase::Greeting,
        ForwardUdpPhase::Binding,
        ForwardUdpPhase::Connecting,
        ForwardUdpPhase::Reading,
        ForwardUdpPhase::Sending,
        ForwardUdpPhase::Receiving,
        ForwardUdpPhase::Answering,
    ] {
        assert_eq!(
            ForwardUdp { addr: V4, phase }.step(failed()),
            (ForwardUdp { addr: V4, phase: ForwardUdpPhase::Finished }, broken())
        );
    }
}

#[test]
fn closing_cannot_fail() {
    assert_eq!(ConnectTcp::Draining.step(failed()), (ConnectTcp::Draining, Action::Await));
    let closing = ForwardTcp { addr: V4, phase: ForwardTcpPhase::Closing };
    assert_eq!(closing.step(failed()), (closing, Action::Await));
}

#[test]
fn finished_tunnels_are_silent() {
    assert_eq!(ConnectTcp::Finished.step(failed()), (ConnectTcp::Finished, Action::Await));
    assert_eq!(ConnectUdp::Finished.step(failed()), (ConnectUdp::Finished, Action::Await));
    let tcp = ForwardTcp { addr: V4, phase: ForwardTcpPhase::Finished };
    assert_eq!(tcp.step(failed()), (tcp, Action::Await));
    let udp = ForwardUdp { addr: V4, phase: ForwardUdpPhase::Finished };
    assert_eq!(udp.step(failed()), (udp, Action::Await));
}

#[test]
fn messages_of_errors() {
    let invalid: SessionError<String> = SessionError::InvalidHandshake;
    assert_eq!(invalid.message(), Some(String::from("Invalid handshake")));
    let io: SessionError<String> = SessionError::Io(String::from("x"));
    assert_eq!(io.message(), None);
}
