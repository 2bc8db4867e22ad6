//! The two ends of a UDP tunnel. Datagrams cross it one at a time, each answered before the next
//! is taken: the dialling end passes a datagram on and returns what comes back to its sender, and
//! the forwarding end hands it to the socket that it forwards and passes the answer back.
use vstd::prelude::*;

use crate::address::SocketAddress;
use crate::node::{NodeAddr, NodeAddrView, NodeId};
use crate::session::{Action, Event, Outcome, SessionError, TunnelAction, DATAGRAM_CAPACITY};
use crate::wire::{handshake, is_handshake, Protocol, HANDSHAKE, UDP_ALPN};

verus! {

/// The dialling end of a UDP tunnel, by what it waits for.
#[derive(Clone, Copy, PartialEq, Eq, Debug, Structural)]
pub enum ConnectUdp {
    /// The connection to the node.
    Dialing,
    /// The stream.
    Opening,
    /// The greeting to be written.
    Greeting,
    /// A datagram.
    Receiving,
    /// The datagram of this sender to be passed on.
    Passing { from: SocketAddress },
    /// The answer for this sender.
    Reading { from: SocketAddress },
    /// The answer to be returned.
    Returning,
    /// Nothing any more.
    Finished,
}

impl ConnectUdp {
    /// Where the session goes on an event, and what it then asks for.
    pub open spec fn next<E>(self, event: Event<Seq<u8>, E>) -> (
        ConnectUdp,
        Action<NodeAddrView, Seq<u8>, Outcome<E>>,
    ) {
        match (self, event) {
            (ConnectUdp::Finished, _) => (self, Action::Await),
            (_, Event::Failed { error }) => (
                ConnectUdp::Finished,
                Action::Finish { result: Err(SessionError::Io(error)) },
            ),
            (ConnectUdp::Dialing, Event::Done) => (ConnectUdp::Opening, Action::OpenStream),
            (ConnectUdp::Opening, Event::Done) => (
                ConnectUdp::Greeting,
                Action::WriteStream { data: HANDSHAKE@ },
            ),
            (ConnectUdp::Greeting, Event::Done) | (ConnectUdp::Returning, Event::Done) => (
                ConnectUdp::Receiving,
                Action::ReceiveFrom { max: DATAGRAM_CAPACITY },
            ),
            (ConnectUdp::Receiving, Event::Datagram { data, from }) => (
                ConnectUdp::Passing { from },
                Action::WriteStream { data },
            ),
            (ConnectUdp::Passing { from }, Event::Done) => (
                ConnectUdp::Reading { from },
                Action::ReadStream { max: DATAGRAM_CAPACITY },
            ),
            (ConnectUdp::Reading { from }, Event::Data { data }) => (
                ConnectUdp::Returning,
                Action::SendTo { data, peer: from },
            ),
            (ConnectUdp::Reading { from }, Event::EndOfStream) => (
                ConnectUdp::Returning,
                Action::SendTo { data: Seq::empty(), peer: from },
            ),
            _ => (self, Action::Await),
        }
    }

    /// Takes the session on by one event.
    pub fn step<E>(self, event: Event<Vec<u8>, E>) -> (r: (ConnectUdp, TunnelAction<E>))
        ensures
            (r.0, r.1@) == self.next(event@),
    {
        match event {
            Event::Done => match self {
                ConnectUdp::Dialing => (ConnectUdp::Opening, Action::OpenStream),
                ConnectUdp::Opening => (
                    ConnectUdp::Greeting,
                    Action::WriteStream { data: handshake() },
                ),
                ConnectUdp::Greeting | ConnectUdp::Returning => (
                    ConnectUdp::Receiving,
                    Action::ReceiveFrom { max: DATAGRAM_CAPACITY },
                ),
                ConnectUdp::Passing { from } => (
                    ConnectUdp::Reading { from },
                    Action::ReadStream { max: DATAGRAM_CAPACITY },
                ),
                _ => (self, Action::Await),
            },
            Event::Datagram { data, from } => match self {
                ConnectUdp::Receiving => (
                    ConnectUdp::Passing { from },
                    Action::WriteStream { data },
                ),
                _ => (self, Action::Await),
            },
            Event::Data { data } => match self {
                ConnectUdp::Reading { from } => (
                    ConnectUdp::Returning,
                    Action::SendTo { data, peer: from },
                ),
                _ => (self, Action::Await),
            },
            Event::EndOfStream => match self {
                ConnectUdp::Reading { from } => (
                    ConnectUdp::Returning,
                    Action::SendTo { data: Vec::new(), peer: from },
                ),
                _ => (self, Action::Await),
            },
            Event::Failed { error } => match self {
                ConnectUdp::Finished => (self, Action::Await),
                _ => (
                    ConnectUdp::Finished,
                    Action::Finish { result: Err(SessionError::Io(error)) },
                ),
            },
        }
    }
}

/// Starts the dialling end of a UDP tunnel to a node.
pub fn connect_udp<E>(to: NodeId) -> (r: (ConnectUdp, TunnelAction<E>))
    ensures
        r.0 == ConnectUdp::Dialing,
        r.1@ == (Action::<NodeAddrView, Seq<u8>, Outcome<E>>::Dial {
            to: NodeAddrView::discovered(to@),
            alpn: Protocol::Udp.spec_alpn(),
        }),
        r.1 matches Action::Dial { to: node, alpn } && {
            &&& node.node_id.bytes@ == to.bytes@
            &&& node.relay_url is None
            &&& node.direct_addresses@.len() == 0
            &&& alpn@ == UDP_ALPN@
        },
{
    (
        ConnectUdp::Dialing,
        Action::Dial { to: NodeAddr::discovered(to), alpn: Protocol::Udp.alpn() },
    )
}

/// What the forwarding end of a UDP tunnel waits for.
#[derive(Clone, Copy, PartialEq, Eq, Debug, Structural)]
pub enum ForwardUdpPhase {
    /// The stream.
    Accepting,
    /// The greeting of the other node.
    Greeting,
    /// The local socket to be bound.
    Binding,
    /// The local socket to be connected to the forwarded one.
    Connecting,
    /// What the other node passes on.
    Reading,
    /// It to be sent to the forwarded socket.
    Sending,
    /// The answer of the forwarded socket.
    Receiving,
    /// The answer to be passed back.
    Answering,
    /// Nothing any more.
    Finished,
}

/// The forwarding end of a UDP tunnel.
#[derive(Clone, Copy, PartialEq, Eq, Debug, Structural)]
pub struct ForwardUdp {
    /// The forwarded socket.
    pub addr: SocketAddress,
    pub phase: ForwardUdpPhase,
}

impl ForwardUdp {
    pub open spec fn at(self, phase: ForwardUdpPhase) -> ForwardUdp {
        ForwardUdp { addr: self.addr, phase }
    }

    /// The address at which the local socket is bound: any port of the loopback address of the
    /// family of the forwarded socket.
    pub open spec fn spec_bind_addr(self) -> SocketAddress {
        SocketAddress::spec_loopback(self.addr is V6, 0)
    }

    /// The address at which the local socket is bound.
    pub fn bind_addr(self) -> (r: SocketAddress)
        ensures
            r == self.spec_bind_addr(),
            match (self.addr, r) {
                (SocketAddress::V4 { .. }, SocketAddress::V4 { ipv4, port }) => ipv4 == 0x7f00_0001
                    && port == 0,
                (
                    SocketAddress::V6 { .. },
                    SocketAddress::V6 { ipv6, port, flowinfo, scope_id },
                ) => ipv6 == 1 && port == 0 && flowinfo == 0 && scope_id == 0,
                _ => false,
            },
    {
        SocketAddress::loopback(self.addr.is_ipv6(), 0)
    }

    /// Where the session goes on an event, and what it then asks for.
    pub open spec fn next<E>(self, event: Event<Seq<u8>, E>) -> (
        ForwardUdp,
        Action<NodeAddrView, Seq<u8>, Outcome<E>>,
    ) {
        match (self.phase, event) {
            (ForwardUdpPhase::Finished, _) => (self, Action::Await),
            (_, Event::Failed { error }) => (
                self.at(ForwardUdpPhase::Finished),
                Action::Finish { result: Err(SessionError::Io(error)) },
            ),
            (ForwardUdpPhase::Accepting, Event::Done) => (
                self.at(ForwardUdpPhase::Greeting),
                Action::ReadExact { len: HANDSHAKE@.len() as usize },
            ),
            (ForwardUdpPhase::Greeting, Event::Data { data }) => if data == HANDSHAKE@ {
                (
                    self.at(ForwardUdpPhase::Binding),
                    Action::BindUdp { addr: self.spec_bind_addr() },
                )
            } else {
                (
                    self.at(ForwardUdpPhase::Finished),
                    Action::Finish { result: Err(SessionError::InvalidHandshake) },
                )
            },
            (ForwardUdpPhase::Binding, Event::Done) => (
                self.at(ForwardUdpPhase::Connecting),
                Action::ConnectUdp { addr: self.addr },
            ),
            (ForwardUdpPhase::Connecting, Event::Done) | (
                ForwardUdpPhase::Answering,
                Event::Done,
            ) => (
                self.at(ForwardUdpPhase::Reading),
                Action::ReadStream { max: DATAGRAM_CAPACITY },
            ),
            (ForwardUdpPhase::Reading, Event::Data { data }) => (
                self.at(ForwardUdpPhase::Sending),
                Action::Send { data },
            ),
            (ForwardUdpPhase::Reading, Event::EndOfStream) => (
                self.at(ForwardUdpPhase::Sending),
                Action::Send { data: Seq::empty() },
            ),
            (ForwardUdpPhase::Sending, Event::Done) => (
                self.at(ForwardUdpPhase::Receiving),
                Action::Receive { max: DATAGRAM_CAPACITY },
            ),
            (ForwardUdpPhase::Receiving, Event::Data { data }) => (
                self.at(ForwardUdpPhase::Answering),
                Action::WriteStream { data },
            ),
            _ => (self, Action::Await),
        }
    }

    /// Takes the session on by one event.
    pub fn step<E>(self, event: Event<Vec<u8>, E>) -> (r: (ForwardUdp, TunnelAction<E>))
        ensures
            (r.0, r.1@) == self.next(event@),
    {
        let addr: SocketAddress = self.addr;
        match event {
            Event::Done => match self.phase {
                ForwardUdpPhase::Accepting => (
                    ForwardUdp { addr, phase: ForwardUdpPhase::Greeting },
                    Action::ReadExact { len: HANDSHAKE.as_slice().len() },
                ),
                ForwardUdpPhase::Binding => (
                    ForwardUdp { addr, phase: ForwardUdpPhase::Connecting },
                    Action::ConnectUdp { addr },
                ),
                ForwardUdpPhase::Connecting | ForwardUdpPhase::Answering => (
                    ForwardUdp { addr, phase: ForwardUdpPhase::Reading },
                    Action::ReadStream { max: DATAGRAM_CAPACITY },
                ),
                ForwardUdpPhase::Sending => (
                    ForwardUdp { addr, phase: ForwardUdpPhase::Receiving },
                    Action::Receive { max: DATAGRAM_CAPACITY },
                ),
                _ => (self, Action::Await),
            },
            Event::Data { data } => match self.phase {
                ForwardUdpPhase::Greeting => if is_handshake(data.as_slice()) {
                    (
                        ForwardUdp { addr, phase: ForwardUdpPhase::Binding },
                        Action::BindUdp { addr: self.bind_addr() },
                    )
                } else {
                    (
                        ForwardUdp { addr, phase: ForwardUdpPhase::Finished },
                        Action::Finish { result: Err(SessionError::InvalidHandshake) },
                    )
                },
                ForwardUdpPhase::Reading => (
                    ForwardUdp { addr, phase: ForwardUdpPhase::Sending },
                    Action::Send { data },
                ),
                ForwardUdpPhase::Receiving => (
                    ForwardUdp { addr, phase: ForwardUdpPhase::Answering },
                    Action::WriteStream { data },
                ),
                _ => (self, Action::Await),
            },
            Event::EndOfStream => match self.phase {
                ForwardUdpPhase::Reading => (
                    ForwardUdp { addr, phase: ForwardUdpPhase::Sending },
                    Action::Send { data: Vec::new() },
                ),
                _ => (self, Action::Await),
            },
            Event::Datagram { .. } => (self, Action::Await),
            Event::Failed { error } => match self.phase {
                ForwardUdpPhase::Finished => (self, Action::Await),
                _ => (
                    ForwardUdp { addr, phase: ForwardUdpPhase::Finished },
                    Action::Finish { result: Err(SessionError::Io(error)) },
                ),
            },
        }
    }
}

/// Starts the forwarding end of a UDP tunnel to a local socket.
pub fn forward_udp<E>(addr: SocketAddress) -> (r: (ForwardUdp, TunnelAction<E>))
    ensures
        r.0 == (ForwardUdp { addr, phase: ForwardUdpPhase::Accepting }),
        r.1@ == Action::<NodeAddrView, Seq<u8>, Outcome<E>>::AcceptStream,
{
    (ForwardUdp { addr, phase: ForwardUdpPhase::Accepting }, Action::AcceptStream)
}

} // verus!
