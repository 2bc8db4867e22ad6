//! What the program was asked to do.
use vstd::prelude::*;

use crate::address::SocketAddress;
use crate::node::NodeId;
use crate::wire::{law_alpns_differ, Protocol, TCP_ALPN, UDP_ALPN};

verus! {

/// The port on which to listen, where none is given.
pub const DEFAULT_PORT: u16 = 61608;

/// What the program was asked to do, and how. `P` is the path of a file.
#[derive(Debug)]
pub struct Cli<P> {
    /// The logging level.
    pub logging: String,
    /// The port on which to listen.
    pub port: u16,
    /// Whether to listen on IPv6.
    pub ipv6: bool,
    /// The file to store the identity in or restore it from.
    pub identity: Option<P>,
    /// What to do.
    pub mode: Mode,
}

impl<P> Cli<P> {
    /// The address at which local connections and datagrams are taken.
    pub fn address(&self) -> (r: SocketAddress)
        ensures
            r == SocketAddress::spec_loopback(self.ipv6, self.port),
            match r {
                SocketAddress::V4 { ipv4, port } => !self.ipv6 && ipv4 == 0x7f00_0001 && port
                    == self.port,
                SocketAddress::V6 { ipv6, port, flowinfo, scope_id } => self.ipv6 && ipv6 == 1
                    && port == self.port && flowinfo == 0 && scope_id == 0,
            },
    {
        SocketAddress::loopback(self.ipv6, self.port)
    }
}

/// The logging level, where none is given.
pub fn default_logging() -> (r: String)
    ensures
        r@ == "ihnet=info"@,
{
    "ihnet=info".to_owned()
}

/// What to do.
#[derive(Clone, Copy, PartialEq, Eq, Debug)]
pub enum Mode {
    /// Forward a local socket, TCP and UDP, to the network.
    Forward { addr: SocketAddress },
    /// Forward a local TCP socket to the network.
    ForwardTcp { addr: SocketAddress },
    /// Forward a local UDP socket to the network.
    ForwardUdp { addr: SocketAddress },
    /// Connect to a forwarded socket, TCP and UDP.
    Connect { to: NodeId },
    /// Connect to a forwarded TCP socket.
    ConnectTcp { to: NodeId },
    /// Connect to a forwarded UDP socket.
    ConnectUdp { to: NodeId },
    /// Connect to the network with a web interface.
    Web,
}

/// What came of waiting for another node. `B` is a byte string.
#[derive(PartialEq, Eq, Debug)]
pub enum Incoming<B> {
    /// The endpoint was closed: no node will come any more.
    Closed,
    /// A node came, and the connection to it failed.
    Failed,
    /// A node is connected, under the protocol name that was negotiated, if one was.
    Connected { alpn: Option<B> },
}

/// What to do about it.
#[derive(Clone, Copy, PartialEq, Eq, Debug, Structural)]
pub enum Reception {
    /// End the program, all is well.
    Stop,
    /// Nothing: there is no connection.
    ConnectionFailed,
    /// Nothing: no protocol was negotiated.
    MissingAlpn,
    /// Nothing: the protocol is not served.
    NotServed,
    /// Serve the connection as the forwarding end of a tunnel to a local socket.
    Serve { protocol: Protocol, addr: SocketAddress },
}

/// The names of a list of protocols.
pub open spec fn alpns_of(protocols: Seq<Protocol>) -> Seq<Seq<u8>> {
    protocols.map_values(|p: Protocol| p.spec_alpn())
}

impl Mode {
    /// The protocols that other nodes are served.
    pub open spec fn spec_served(self) -> Seq<Protocol> {
        match self {
            Mode::Forward { .. } => seq![Protocol::Tcp, Protocol::Udp],
            Mode::ForwardTcp { .. } => seq![Protocol::Tcp],
            Mode::ForwardUdp { .. } => seq![Protocol::Udp],
            _ => Seq::empty(),
        }
    }

    /// The local socket that is forwarded.
    pub open spec fn spec_forwarded(self) -> Option<SocketAddress> {
        match self {
            Mode::Forward { addr } | Mode::ForwardTcp { addr } | Mode::ForwardUdp { addr } => Some(
                addr,
            ),
            _ => None,
        }
    }

    /// The protocols of which local sockets are opened at the address of the program, in the order
    /// in which they are opened.
    pub open spec fn spec_listens(self) -> Seq<Protocol> {
        match self {
            Mode::Connect { .. } => seq![Protocol::Udp, Protocol::Tcp],
            Mode::ConnectTcp { .. } | Mode::Web => seq![Protocol::Tcp],
            Mode::ConnectUdp { .. } => seq![Protocol::Udp],
            _ => Seq::empty(),
        }
    }

    /// The protocols of which local sockets are opened at the address of the program, in the order
    /// in which they are opened.
    pub fn listens(&self) -> (r: Vec<Protocol>)
        ensures
            r@ == self.spec_listens(),
            match *self {
                Mode::Connect { .. } => r@ == seq![Protocol::Udp, Protocol::Tcp],
                Mode::ConnectTcp { .. } | Mode::Web => r@ == seq![Protocol::Tcp],
                Mode::ConnectUdp { .. } => r@ == seq![Protocol::Udp],
                Mode::Forward { .. } | Mode::ForwardTcp { .. } | Mode::ForwardUdp { .. } => r@.len()
                    == 0,
            },
    {
        let mut r: Vec<Protocol> = Vec::new();
        match self {
            Mode::Connect { .. } => {
                r.push(Protocol::Udp);
                r.push(Protocol::Tcp);
            },
            Mode::ConnectTcp { .. } | Mode::Web => {
                r.push(Protocol::Tcp);
            },
            Mode::ConnectUdp { .. } => {
                r.push(Protocol::Udp);
            },
            _ => {},
        }
        assert(r@ =~= self.spec_listens());
        r
    }

    /// The protocols that other nodes are served.
    pub fn served(&self) -> (r: Vec<Protocol>)
        ensures
            r@ == self.spec_served(),
            match *self {
                Mode::Forward { .. } => r@ == seq![Protocol::Tcp, Protocol::Udp],
                Mode::ForwardTcp { .. } => r@ == seq![Protocol::Tcp],
                Mode::ForwardUdp { .. } => r@ == seq![Protocol::Udp],
                Mode::Connect { .. } | Mode::ConnectTcp { .. } | Mode::ConnectUdp { .. }
                | Mode::Web => r@.len() == 0,
            },
    {
        let mut r: Vec<Protocol> = Vec::new();
        match self {
            Mode::Forward { .. } => {
                r.push(Protocol::Tcp);
                r.push(Protocol::Udp);
            },
            Mode::ForwardTcp { .. } => {
                r.push(Protocol::Tcp);
            },
            Mode::ForwardUdp { .. } => {
                r.push(Protocol::Udp);
            },
            _ => {},
        }
        assert(r@ =~= self.spec_served());
        r
    }

    /// The protocol names that are offered to other nodes.
    pub fn alpns(&self) -> (r: Vec<Vec<u8>>)
        ensures
            r@.map_values(|name: Vec<u8>| name@) == alpns_of(self.spec_served()),
            match *self {
                Mode::Forward { .. } => r@.len() == 2 && r@[0]@ == TCP_ALPN@ && r@[1]@ == UDP_ALPN@,
                Mode::ForwardTcp { .. } => r@.len() == 1 && r@[0]@ == TCP_ALPN@,
                Mode::ForwardUdp { .. } => r@.len() == 1 && r@[0]@ == UDP_ALPN@,
                Mode::Connect { .. } | Mode::ConnectTcp { .. } | Mode::ConnectUdp { .. }
                | Mode::Web => r@.len() == 0,
            },
    {
        let served = self.served();
        let mut r: Vec<Vec<u8>> = Vec::new();
        let mut i: usize = 0;
        while i < served.len()
            invariant
                i <= served@.len(),
                r@.len() == i,
                forall|j: int| 0 <= j < i ==> (#[trigger] r@[j])@ == served@[j].spec_alpn(),
            decreases served@.len() - i,
        {
            r.push(served[i].alpn());
            i = i + 1;
        }
        assert(r@.map_values(|name: Vec<u8>| name@) =~= alpns_of(served@));
        r
    }

    /// What to do about a node that came, or did not.
    pub open spec fn reception(self, incoming: Incoming<Seq<u8>>) -> Reception {
        match incoming {
            Incoming::Closed => Reception::Stop,
            Incoming::Failed => Reception::ConnectionFailed,
            Incoming::Connected { alpn: None } => Reception::MissingAlpn,
            Incoming::Connected { alpn: Some(name) } => match self.spec_forwarded() {
                None => Reception::NotServed,
                Some(addr) => if name == Protocol::Tcp.spec_alpn() && self.spec_served().contains(
                    Protocol::Tcp,
                ) {
                    Reception::Serve { protocol: Protocol::Tcp, addr }
                } else if name == Protocol::Udp.spec_alpn() && self.spec_served().contains(
                    Protocol::Udp,
                ) {
                    Reception::Serve { protocol: Protocol::Udp, addr }
                } else {
                    Reception::NotServed
                },
            },
        }
    }

    /// What to do about a node that came, or did not.
    pub fn receive(&self, incoming: Incoming<Vec<u8>>) -> (r: Reception)
        ensures
            r == self.reception(incoming@),
            incoming is Closed <==> r == Reception::Stop,
            incoming is Failed <==> r == Reception::ConnectionFailed,
            incoming matches Incoming::Connected { alpn } ==> {
                &&& alpn is None <==> r == Reception::MissingAlpn
                &&& alpn matches Some(name) ==> match *self {
                    Mode::Forward { addr } => {
                        &&& name@ == TCP_ALPN@ <==> r == (Reception::Serve {
                            protocol: Protocol::Tcp,
                            addr,
                        })
                        &&& name@ == UDP_ALPN@ <==> r == (Reception::Serve {
                            protocol: Protocol::Udp,
                            addr,
                        })
                        &&& name@ != TCP_ALPN@ && name@ != UDP_ALPN@ <==> r == Reception::NotServed
                    },
                    Mode::ForwardTcp { addr } => {
                        &&& name@ == TCP_ALPN@ <==> r == (Reception::Serve {
                            protocol: Protocol::Tcp,
                            addr,
                        })
                        &&& name@ != TCP_ALPN@ <==> r == Reception::NotServed
                    },
                    Mode::ForwardUdp { addr } => {
                        &&& name@ == UDP_ALPN@ <==> r == (Reception::Serve {
                            protocol: Protocol::Udp,
                            addr,
                        })
                        &&& name@ != UDP_ALPN@ <==> r == Reception::NotServed
                    },
                    Mode::Connect { .. } | Mode::ConnectTcp { .. } | Mode::ConnectUdp { .. }
                    | Mode::Web => r == Reception::NotServed,
                }
            },
    {
        proof {
            let tcp = Protocol::Tcp;
            let udp = Protocol::Udp;
            assert(seq![tcp, udp][0] == tcp && seq![tcp, udp][1] == udp);
            assert(seq![tcp][0] == tcp && seq![udp][0] == udp);
            law_alpns_differ(tcp, udp);
        }
        match incoming {
            Incoming::Closed => Reception::Stop,
            Incoming::Failed => Reception::ConnectionFailed,
            Incoming::Connected { alpn: None } => Reception::MissingAlpn,
            Incoming::Connected { alpn: Some(name) } => match self {
                Mode::Forward { addr } => if Protocol::Tcp.is_named(name.as_slice()) {
                    Reception::Serve { protocol: Protocol::Tcp, addr: *addr }
                } else if Protocol::Udp.is_named(name.as_slice()) {
                    Reception::Serve { protocol: Protocol::Udp, addr: *addr }
                } else {
                    Reception::NotServed
                },
                Mode::ForwardTcp { addr } => if Protocol::Tcp.is_named(name.as_slice()) {
                    Reception::Serve { protocol: Protocol::Tcp, addr: *addr }
                } else {
                    Reception::NotServed
                },
                Mode::ForwardUdp { addr } => if Protocol::Udp.is_named(name.as_slice()) {
                    Reception::Serve { protocol: Protocol::Udp, addr: *addr }
                } else {
                    Reception::NotServed
                },
                _ => Reception::NotServed,
            },
        }
    }
}

impl View for Incoming<Vec<u8>> {
    type V = Incoming<Seq<u8>>;

    open spec fn view(&self) -> Incoming<Seq<u8>> {
        match *self {
            Incoming::Closed => Incoming::Closed,
            Incoming::Failed => Incoming::Failed,
            Incoming::Connected { alpn } => Incoming::Connected {
                alpn: match alpn {
                    Some(name) => Some(name@),
                    None => None,
                },
            },
        }
    }
}

/// What is offered is what is served: a connection is served exactly when its protocol name is one
/// that the mode offers, and then under the protocol of that name and towards the forwarded socket.
pub proof fn law_offered_is_served(mode: Mode, name: Seq<u8>)
    ensures
        ({
            let reception = mode.reception(Incoming::Connected { alpn: Some(name) });
            &&& alpns_of(mode.spec_served()).contains(name) <==> reception is Serve
            &&& reception matches Reception::Serve { protocol, addr } ==> name
                == protocol.spec_alpn() && mode.spec_forwarded() == Some(addr)
        }),
{
    law_alpns_differ(Protocol::Tcp, Protocol::Udp);
    let served = mode.spec_served();
    let names = alpns_of(served);
    let reception = mode.reception(Incoming::Connected { alpn: Some(name) });
    assert forall|p: Protocol| #[trigger] served.contains(p) implies names.contains(
        p.spec_alpn(),
    ) by {
        let i = served.index_of(p);
        assert(names[i] == p.spec_alpn());
    }
    if names.contains(name) {
        let i = names.index_of(name);
        assert(served[i].spec_alpn() == name);
        assert(served.contains(served[i]));
    }
}

/// A node that forwards a socket under a protocol serves every node that dials it under that
/// protocol.
pub proof fn law_dialled_protocol_is_served(mode: Mode, protocol: Protocol)
    requires
        mode.spec_served().contains(protocol),
    ensures
        mode.spec_forwarded() is Some,
        mode.reception(Incoming::Connected { alpn: Some(protocol.spec_alpn()) })
            == (Reception::Serve { protocol, addr: mode.spec_forwarded()->0 }),
{
    law_alpns_differ(Protocol::Tcp, Protocol::Udp);
}

/// A node that is served is joined to the socket that the user named, whatever its address, and under
/// a protocol that the user forwards.
pub proof fn law_served_socket_is_the_named_one(
    mode: Mode,
    incoming: Incoming<Seq<u8>>,
    protocol: Protocol,
    addr: SocketAddress,
)
    ensures
        mode.reception(incoming) == (Reception::Serve { protocol, addr }) <==> {
            ||| mode == (Mode::Forward { addr }) && protocol is Tcp && incoming
                == (Incoming::Connected { alpn: Some(TCP_ALPN@) })
            ||| mode == (Mode::Forward { addr }) && protocol is Udp && incoming
                == (Incoming::Connected { alpn: Some(UDP_ALPN@) })
            ||| mode == (Mode::ForwardTcp { addr }) && protocol is Tcp && incoming
                == (Incoming::Connected { alpn: Some(TCP_ALPN@) })
            ||| mode == (Mode::ForwardUdp { addr }) && protocol is Udp && incoming
                == (Incoming::Connected { alpn: Some(UDP_ALPN@) })
        },
{
    law_alpns_differ(Protocol::Tcp, Protocol::Udp);
    assert(seq![Protocol::Tcp, Protocol::Udp][0] == Protocol::Tcp);
    assert(seq![Protocol::Tcp, Protocol::Udp][1] == Protocol::Udp);
    assert(seq![Protocol::Tcp][0] == Protocol::Tcp);
    assert(seq![Protocol::Udp][0] == Protocol::Udp);
}

/// The program stops exactly when no node will come any more, and every node that is not served is
/// passed over for one reason: its connection failed, it negotiated nothing, or what it negotiated
/// is not served.
pub proof fn law_why_nodes_are_passed_over(mode: Mode, incoming: Incoming<Seq<u8>>)
    ensures
        mode.reception(incoming) is Stop <==> incoming is Closed,
        mode.reception(incoming) is ConnectionFailed <==> incoming is Failed,
        mode.reception(incoming) is MissingAlpn <==> incoming == (Incoming::<Seq<u8>>::Connected {
            alpn: None,
        }),
{
}

/// What each mode offers other nodes, whatever address or node it is given: a forwarded socket both
/// names, TCP first, a forwarded TCP or UDP socket its own, and the other modes nothing.
pub proof fn law_offered_protocols(addr: SocketAddress, to: NodeId)
    ensures
        (Mode::Forward { addr }).spec_served() == seq![Protocol::Tcp, Protocol::Udp],
        (Mode::ForwardTcp { addr }).spec_served() == seq![Protocol::Tcp],
        (Mode::ForwardUdp { addr }).spec_served() == seq![Protocol::Udp],
        (Mode::Connect { to }).spec_served().len() == 0,
        (Mode::ConnectTcp { to }).spec_served().len() == 0,
        (Mode::ConnectUdp { to }).spec_served().len() == 0,
        Mode::Web.spec_served().len() == 0,
        alpns_of((Mode::Forward { addr }).spec_served()) == seq![TCP_ALPN@, UDP_ALPN@],
        alpns_of((Mode::ForwardTcp { addr }).spec_served()) == seq![TCP_ALPN@],
        alpns_of((Mode::ForwardUdp { addr }).spec_served()) == seq![UDP_ALPN@],
        alpns_of((Mode::Connect { to }).spec_served()).len() == 0,
        alpns_of((Mode::ConnectTcp { to }).spec_served()).len() == 0,
        alpns_of((Mode::ConnectUdp { to }).spec_served()).len() == 0,
        alpns_of(Mode::Web.spec_served()).len() == 0,
        (Mode::Forward { addr }).reception(Incoming::Connected { alpn: Some(TCP_ALPN@) }) is Serve,
        (Mode::Forward { addr }).reception(Incoming::Connected { alpn: Some(UDP_ALPN@) }) is Serve,
        (Mode::ForwardTcp { addr }).reception(
            Incoming::Connected { alpn: Some(TCP_ALPN@) },
        ) is Serve,
        (Mode::ForwardUdp { addr }).reception(
            Incoming::Connected { alpn: Some(UDP_ALPN@) },
        ) is Serve,
{
    law_served_socket_is_the_named_one(
        Mode::Forward { addr },
        Incoming::Connected { alpn: Some(TCP_ALPN@) },
        Protocol::Tcp,
        addr,
    );
    law_served_socket_is_the_named_one(
        Mode::Forward { addr },
        Incoming::Connected { alpn: Some(UDP_ALPN@) },
        Protocol::Udp,
        addr,
    );
    law_served_socket_is_the_named_one(
        Mode::ForwardTcp { addr },
        Incoming::Connected { alpn: Some(TCP_ALPN@) },
        Protocol::Tcp,
        addr,
    );
    law_served_socket_is_the_named_one(
        Mode::ForwardUdp { addr },
        Incoming::Connected { alpn: Some(UDP_ALPN@) },
        Protocol::Udp,
        addr,
    );
    assert(alpns_of((Mode::Forward { addr }).spec_served()) =~= seq![TCP_ALPN@, UDP_ALPN@]);
    assert(alpns_of((Mode::ForwardTcp { addr }).spec_served()) =~= seq![TCP_ALPN@]);
    assert(alpns_of((Mode::ForwardUdp { addr }).spec_served()) =~= seq![UDP_ALPN@]);
}

/// What each mode opens local sockets for, whatever address or node it is given: a connected socket
/// UDP and then TCP, a connected TCP or UDP socket its own, the web interface TCP, and the forwarding
/// modes nothing.
pub proof fn law_local_listeners(addr: SocketAddress, to: NodeId)
    ensures
        (Mode::Connect { to }).spec_listens() == seq![Protocol::Udp, Protocol::Tcp],
        (Mode::ConnectTcp { to }).spec_listens() == seq![Protocol::Tcp],
        (Mode::ConnectUdp { to }).spec_listens() == seq![Protocol::Udp],
        Mode::Web.spec_listens() == seq![Protocol::Tcp],
        (Mode::Forward { addr }).spec_listens().len() == 0,
        (Mode::ForwardTcp { addr }).spec_listens().len() == 0,
        (Mode::ForwardUdp { addr }).spec_listens().len() == 0,
{
}

/// The program listens at the port and in the family of its command line, whatever they are, and on
/// no other address than 127.0.0.1 or ::1.
pub proof fn law_listens_where_asked<P>(cli: Cli<P>, address: SocketAddress)
    requires
        address == SocketAddress::spec_loopback(cli.ipv6, cli.port),
    ensures
        match address {
            SocketAddress::V4 { ipv4, port } => !cli.ipv6 && ipv4 == 0x7f00_0001 && port
                == cli.port,
            SocketAddress::V6 { ipv6, port, flowinfo, scope_id } => cli.ipv6 && ipv6 == 1 && port
                == cli.port && flowinfo == 0 && scope_id == 0,
        },
{
}

/// What came of waiting for a node says what it holds.
pub proof fn law_incoming_says_what_it_holds(incoming: Incoming<Vec<u8>>)
    ensures
        incoming@ is Closed <==> incoming is Closed,
        incoming@ is Failed <==> incoming is Failed,
        incoming matches Incoming::Connected { alpn: None } ==> incoming@ == (Incoming::<
            Seq<u8>,
        >::Connected { alpn: None }),
        incoming matches Incoming::Connected { alpn: Some(name) } ==> incoming@ == (Incoming::<
            Seq<u8>,
        >::Connected { alpn: Some(name@) }),
{
}

} // verus!
