//! The two ends of a TCP tunnel. The dialling end greets the other node and then joins the stream
//! to a local connection; the forwarding end checks the greeting and joins the stream to the
//! socket that it forwards.
use vstd::prelude::*;

use crate::address::SocketAddress;
use crate::bytes::copy_bytes;
use crate::node::{NodeAddr, NodeAddrView, NodeId};
use crate::session::{
    Action, Event, Outcome, SessionError, TunnelAction, CLOSE_CODE, CLOSE_REASON,
};
use crate::wire::{handshake, is_handshake, Protocol, HANDSHAKE, TCP_ALPN};

verus! {

/// The dialling end of a TCP tunnel, by what it waits for.
#[derive(Clone, Copy, PartialEq, Eq, Debug, Structural)]
pub enum ConnectTcp {
    /// The connection to the node.
    Dialing,
    /// The stream.
    Opening,
    /// The greeting to be written.
    Greeting,
    /// The copying between the stream and the local connection.
    Splicing,
    /// The other node to close the connection.
    Draining,
    /// Nothing any more.
    Finished,
}

impl ConnectTcp {
    /// Where the session goes on an event, and what it then asks for.
    pub open spec fn next<E>(self, event: Event<Seq<u8>, E>) -> (
        ConnectTcp,
        Action<NodeAddrView, Seq<u8>, Outcome<E>>,
    ) {
        match (self, event) {
            (ConnectTcp::Dialing, Event::Done) => (ConnectTcp::Opening, Action::OpenStream),
            (ConnectTcp::Opening, Event::Done) => (
                ConnectTcp::Greeting,
                Action::WriteStream { data: HANDSHAKE@ },
            ),
            (ConnectTcp::Greeting, Event::Done) => (ConnectTcp::Splicing, Action::Splice),
            (ConnectTcp::Splicing, Event::Done) => (ConnectTcp::Draining, Action::AwaitClosed),
            (ConnectTcp::Draining, Event::Done) => (
                ConnectTcp::Finished,
                Action::Finish { result: Ok(()) },
            ),
            (ConnectTcp::Draining, _) | (ConnectTcp::Finished, _) => (self, Action::Await),
            (_, Event::Failed { error }) => (
                ConnectTcp::Finished,
                Action::Finish { result: Err(SessionError::Io(error)) },
            ),
            _ => (self, Action::Await),
        }
    }

    /// Takes the session on by one event.
    pub fn step<E>(self, event: Event<Vec<u8>, E>) -> (r: (ConnectTcp, TunnelAction<E>))
        ensures
            (r.0, r.1@) == self.next(event@),
    {
        match event {
            Event::Done => match self {
                ConnectTcp::Dialing => (ConnectTcp::Opening, Action::OpenStream),
                ConnectTcp::Opening => (
                    ConnectTcp::Greeting,
                    Action::WriteStream { data: handshake() },
                ),
                ConnectTcp::Greeting => (ConnectTcp::Splicing, Action::Splice),
                ConnectTcp::Splicing => (ConnectTcp::Draining, Action::AwaitClosed),
                ConnectTcp::Draining => (ConnectTcp::Finished, Action::Finish { result: Ok(()) }),
                ConnectTcp::Finished => (self, Action::Await),
            },
            Event::Failed { error } => match self {
                ConnectTcp::Draining | ConnectTcp::Finished => (self, Action::Await),
                _ => (
                    ConnectTcp::Finished,
                    Action::Finish { result: Err(SessionError::Io(error)) },
                ),
            },
            _ => (self, Action::Await),
        }
    }
}

/// Starts the dialling end of a TCP tunnel to a node.
pub fn connect_tcp<E>(to: NodeId) -> (r: (ConnectTcp, TunnelAction<E>))
    ensures
        r.0 == ConnectTcp::Dialing,
        r.1@ == (Action::<NodeAddrView, Seq<u8>, Outcome<E>>::Dial {
            to: NodeAddrView::discovered(to@),
            alpn: Protocol::Tcp.spec_alpn(),
        }),
        r.1 matches Action::Dial { to: node, alpn } && {
            &&& node.node_id.bytes@ == to.bytes@
            &&& node.relay_url is None
            &&& node.direct_addresses@.len() == 0
            &&& alpn@ == TCP_ALPN@
        },
{
    (
        ConnectTcp::Dialing,
        Action::Dial { to: NodeAddr::discovered(to), alpn: Protocol::Tcp.alpn() },
    )
}

/// What the forwarding end of a TCP tunnel waits for.
#[derive(Clone, Copy, PartialEq, Eq, Debug, Structural)]
pub enum ForwardTcpPhase {
    /// The stream.
    Accepting,
    /// The greeting of the other node.
    Greeting,
    /// The connection to the forwarded socket.
    Connecting,
    /// The copying between the stream and the forwarded socket.
    Splicing,
    /// The connection to be closed.
    Closing,
    /// Nothing any more.
    Finished,
}

/// The forwarding end of a TCP tunnel.
#[derive(Clone, Copy, PartialEq, Eq, Debug, Structural)]
pub struct ForwardTcp {
    /// The forwarded socket.
    pub addr: SocketAddress,
    pub phase: ForwardTcpPhase,
}

impl ForwardTcp {
    pub open spec fn at(self, phase: ForwardTcpPhase) -> ForwardTcp {
        ForwardTcp { addr: self.addr, phase }
    }

    /// Where the session goes on an event, and what it then asks for.
    pub open spec fn next<E>(self, event: Event<Seq<u8>, E>) -> (
        ForwardTcp,
        Action<NodeAddrView, Seq<u8>, Outcome<E>>,
    ) {
        match (self.phase, event) {
            (ForwardTcpPhase::Accepting, Event::Done) => (
                self.at(ForwardTcpPhase::Greeting),
                Action::ReadExact { len: HANDSHAKE@.len() as usize },
            ),
            (ForwardTcpPhase::Greeting, Event::Data { data }) => if data == HANDSHAKE@ {
                (self.at(ForwardTcpPhase::Connecting), Action::ConnectTcp { addr: self.addr })
            } else {
                (
                    self.at(ForwardTcpPhase::Finished),
                    Action::Finish { result: Err(SessionError::InvalidHandshake) },
                )
            },
            (ForwardTcpPhase::Connecting, Event::Done) => (
                self.at(ForwardTcpPhase::Splicing),
                Action::Splice,
            ),
            (ForwardTcpPhase::Splicing, Event::Done) => (
                self.at(ForwardTcpPhase::Closing),
                Action::Close { code: CLOSE_CODE, reason: CLOSE_REASON@ },
            ),
            (ForwardTcpPhase::Closing, Event::Done) => (
                self.at(ForwardTcpPhase::Finished),
                Action::Finish { result: Ok(()) },
            ),
            (ForwardTcpPhase::Closing, _) | (ForwardTcpPhase::Finished, _) => (self, Action::Await),
            (_, Event::Failed { error }) => (
                self.at(ForwardTcpPhase::Finished),
                Action::Finish { result: Err(SessionError::Io(error)) },
            ),
            _ => (self, Action::Await),
        }
    }

    /// Takes the session on by one event.
    pub fn step<E>(self, event: Event<Vec<u8>, E>) -> (r: (ForwardTcp, TunnelAction<E>))
        ensures
            (r.0, r.1@) == self.next(event@),
    {
        let addr: SocketAddress = self.addr;
        match event {
            Event::Done => match self.phase {
                ForwardTcpPhase::Accepting => (
                    ForwardTcp { addr, phase: ForwardTcpPhase::Greeting },
                    Action::ReadExact { len: HANDSHAKE.as_slice().len() },
                ),
                ForwardTcpPhase::Connecting => (
                    ForwardTcp { addr, phase: ForwardTcpPhase::Splicing },
                    Action::Splice,
                ),
                ForwardTcpPhase::Splicing => (
                    ForwardTcp { addr, phase: ForwardTcpPhase::Closing },
                    Action::Close { code: CLOSE_CODE, reason: copy_bytes(&CLOSE_REASON) },
                ),
                ForwardTcpPhase::Closing => (
                    ForwardTcp { addr, phase: ForwardTcpPhase::Finished },
                    Action::Finish { result: Ok(()) },
                ),
                ForwardTcpPhase::Greeting | ForwardTcpPhase::Finished => (self, Action::Await),
            },
            Event::Data { data } => match self.phase {
                ForwardTcpPhase::Greeting => if is_handshake(data.as_slice()) {
                    (
                        ForwardTcp { addr, phase: ForwardTcpPhase::Connecting },
                        Action::ConnectTcp { addr },
                    )
                } else {
                    (
                        ForwardTcp { addr, phase: ForwardTcpPhase::Finished },
                        Action::Finish { result: Err(SessionError::InvalidHandshake) },
                    )
                },
                _ => (self, Action::Await),
            },
            Event::Failed { error } => match self.phase {
                ForwardTcpPhase::Closing | ForwardTcpPhase::Finished => (self, Action::Await),
                _ => (
                    ForwardTcp { addr, phase: ForwardTcpPhase::Finished },
                    Action::Finish { result: Err(SessionError::Io(error)) },
                ),
            },
            _ => (self, Action::Await),
        }
    }
}

/// Starts the forwarding end of a TCP tunnel to a local socket.
pub fn forward_tcp<E>(addr: SocketAddress) -> (r: (ForwardTcp, TunnelAction<E>))
    ensures
        r.0 == (ForwardTcp { addr, phase: ForwardTcpPhase::Accepting }),
        r.1@ == Action::<NodeAddrView, Seq<u8>, Outcome<E>>::AcceptStream,
{
    (ForwardTcp { addr, phase: ForwardTcpPhase::Accepting }, Action::AcceptStream)
}

} // verus!
