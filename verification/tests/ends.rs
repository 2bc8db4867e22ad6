use ihnet::address::SocketAddress;
use ihnet::proxy::{Proxy, ProxyAction};
use ihnet::session::{Action, Event, TunnelAction};
use ihnet::tcp::{forward_tcp, ConnectTcp};
use ihnet::udp::{forward_udp, ConnectUdp, ForwardUdp, ForwardUdpPhase};

const SERVER: SocketAddress = SocketAddress::V4 { ipv4: 0x7f00_0001, port: 53 };

fn peer(port: u16) -> SocketAddress {
    SocketAddress::V4 { ipv4: 0x7f00_0001, port }
}

fn written<R>(action: Action<ihnet::node::NodeAddr, Vec<u8>, R>) -> Vec<u8> {
    match action {
        Action::WriteStream { data } => data,
        _ => panic!("nothing was written"),
    }
}

#[test]
fn tcp_ends_agree_on_the_greeting() {
    let (_, action): (ConnectTcp, TunnelAction<u8>) = ConnectTcp::Opening.step(Event::Done);
    let greeting = written(action);
    let (server, action) = forward_tcp::<u8>(SERVER).0.step::<u8>(Event::Done);
    assert_eq!(action, Action::ReadExact { len: greeting.len() });
    let (_, action) = server.step::<u8>(Event::Data { data: greeting });
    assert_eq!(action, Action::ConnectTcp { addr: SERVER });
}

#[test]
fn udp_ends_agree_on_the_greeting() {
    let (_, action): (ConnectUdp, TunnelAction<u8>) = ConnectUdp::Opening.step(Event::Done);
    let greeting = written(action);
    let (server, action) = forward_udp::<u8>(SERVER).0.step::<u8>(Event::Done);
    assert_eq!(action, Action::ReadExact { len: greeting.len() });
    let (server, action) = server.step::<u8>(Event::Data { data: greeting });
    assert_eq!(action, Action::BindUdp { addr: peer(0) });
    let (_, action) = server.step::<u8>(Event::Done);
    assert_eq!(action, Action::ConnectUdp { addr: SERVER });
}

#[test]
fn proxy_greets_as_a_tunnel() {
    let (_, action): (Proxy, ProxyAction<u8>) = Proxy::Opening.step(Event::Done);
    let (server, _) = forward_tcp::<u8>(SERVER).0.step::<u8>(Event::Done);
    let (_, action) = server.step::<u8>(Event::Data { data: written(action) });
    assert_eq!(action, Action::ConnectTcp { addr: SERVER });
}

#[test]
fn datagrams_cross_the_tunnel() {
    let mut client = ConnectUdp::Receiving;
    let mut server = ForwardUdp { addr: SERVER, phase: ForwardUdpPhase::Reading };
    for port in 1u16..6 {
        let question: Vec<u8> = vec![port as u8; port as usize];
        let answer: Vec<u8> = vec![100 + port as u8; 2 * port as usize];

        let (s, action) =
            client.step::<u8>(Event::Datagram { data: question.clone(), from: peer(port) });
        client = s;
        let (s, action) = server.step::<u8>(Event::Data { data: written(action) });
        server = s;
        assert_eq!(action, Action::Send { data: question });

        let (s, action) = server.step::<u8>(Event::Done);
        server = s;
        assert_eq!(action, Action::Receive { max: 1500 });
        let (s, back) = server.step::<u8>(Event::Data { data: answer.clone() });
        server = s;

        let (s, action) = client.step::<u8>(Event::Done);
        client = s;
        assert_eq!(action, Action::ReadStream { max: 1500 });
        let (s, action) = client.step::<u8>(Event::Data { data: written(back) });
        client = s;
        assert_eq!(action, Action::SendTo { data: answer, peer: peer(port) });

        let (s, action) = client.step::<u8>(Event::Done);
        client = s;
        assert_eq!(action, Action::ReceiveFrom { max: 1500 });
        let (s, action) = server.step::<u8>(Event::Done);
        server = s;
        assert_eq!(action, Action::ReadStream { max: 1500 });
    }
}

#[test]
fn udp_tunnels_never_end_well() {
    let ended: TunnelAction<u8> = Action::Finish { result: Ok(()) };
    for client in [
        ConnectUdp::Dialing,
        ConnectUdp::Receiving,
        ConnectUdp::Reading { from: SERVER },
        ConnectUdp::Returning,
    ] {
        assert_ne!(client.step(Event::Done).1, ended);
        assert_ne!(client.step(Event::EndOfStream).1, ended);
        assert_ne!(client.step(Event::Failed { error: 1 }).1, ended);
    }
    for phase in [
        ForwardUdpPhase::Reading,
        ForwardUdpPhase::Sending,
        ForwardUdpPhase::Receiving,
        ForwardUdpPhase::Answering,
    ] {
        let server = ForwardUdp { addr: SERVER, phase };
        assert_ne!(server.step(Event::Done).1, ended);
        assert_ne!(server.step(Event::EndOfStream).1, ended);
        assert_ne!(server.step(Event::Failed { error: 1 }).1, ended);
    }
}
