//! The vocabulary in which a session and its driver talk. A session decides; the driver owns the
//! connections and sockets, performs each action and reports what became of it.
use vstd::prelude::*;

use crate::address::SocketAddress;
use crate::node::{NodeAddr, NodeAddrView};

verus! {

/// The most bytes that a UDP session takes at a time, from a socket or from a stream.
pub const DATAGRAM_CAPACITY: usize = 1500;

/// The code with which a TCP tunnel that has run its course is closed.
pub const CLOSE_CODE: u32 = 0;

/// The reason with which a TCP tunnel that has run its course is closed: `bye`.
pub const CLOSE_REASON: [u8; 3] = [0x62, 0x79, 0x65];

/// What a session asks for. `N` is the address of a node, `B` a byte string, `R` the result with
/// which the session ends.
#[derive(PartialEq, Eq, Debug)]
pub enum Action<N, B, R> {
    /// Connect to a node, under a protocol name.
    Dial { to: N, alpn: B },
    /// Open a bidirectional stream on the connection.
    OpenStream,
    /// Accept a bidirectional stream from the connection.
    AcceptStream,
    /// Write all of these bytes to the stream.
    WriteStream { data: B },
    /// Read this many bytes from the stream, no fewer.
    ReadExact { len: usize },
    /// Read what the stream has, up to this many bytes.
    ReadStream { max: usize },
    /// Connect to a local TCP socket.
    ConnectTcp { addr: SocketAddress },
    /// Bind a UDP socket.
    BindUdp { addr: SocketAddress },
    /// Connect the UDP socket.
    ConnectUdp { addr: SocketAddress },
    /// Receive a datagram of up to this many bytes, from anyone.
    ReceiveFrom { max: usize },
    /// Send a datagram to an address.
    SendTo { data: B, peer: SocketAddress },
    /// Receive a datagram of up to this many bytes from the connected peer.
    Receive { max: usize },
    /// Send a datagram to the connected peer.
    Send { data: B },
    /// Copy between the stream and the local socket, both ways, until both have ended.
    Splice,
    /// Wait until the connection is closed, for whatever reason.
    AwaitClosed,
    /// Close the connection.
    Close { code: u32, reason: B },
    /// Speak HTTP/1 as a client on the stream, and keep the connection running.
    HttpHandshake { preserve_header_case: bool, title_case_headers: bool },
    /// Send the request on as it came, and wait for the response.
    SendRequest,
    /// The session is over.
    Finish { result: R },
    /// The event was no answer to what was asked: nothing new, that action still stands.
    Await,
}

/// What became of an action. `B` is a byte string, `E` the error of a failed operation.
#[derive(PartialEq, Eq, Debug)]
pub enum Event<B, E> {
    /// It was done.
    Done,
    /// Bytes were read from the stream, or received from the connected peer.
    Data { data: B },
    /// The stream has ended: nothing is left to read.
    EndOfStream,
    /// A datagram was received.
    Datagram { data: B, from: SocketAddress },
    /// It failed.
    Failed { error: E },
}

/// Why a session ended early. `E` is the error of a failed operation.
#[derive(PartialEq, Eq, Debug)]
pub enum SessionError<E> {
    /// An operation failed.
    Io(E),
    /// The peer did not begin with the greeting.
    InvalidHandshake,
}

impl<E> SessionError<E> {
    /// What to say of an error that is the session's own.
    pub fn message(&self) -> (r: Option<String>)
        ensures
            match (*self, r) {
                (SessionError::InvalidHandshake, Some(text)) => text@ == "Invalid handshake"@,
                (SessionError::Io(_), None) => true,
                _ => false,
            },
    {
        match self {
            SessionError::InvalidHandshake => Some("Invalid handshake".to_owned()),
            SessionError::Io(_) => None,
        }
    }
}

/// The result of a tunnel.
pub type Outcome<E> = Result<(), SessionError<E>>;

/// What a tunnel asks for.
pub type TunnelAction<E> = Action<NodeAddr, Vec<u8>, Outcome<E>>;

impl<R> View for Action<NodeAddr, Vec<u8>, R> {
    type V = Action<NodeAddrView, Seq<u8>, R>;

    open spec fn view(&self) -> Action<NodeAddrView, Seq<u8>, R> {
        match *self {
            Action::Dial { to, alpn } => Action::Dial { to: to@, alpn: alpn@ },
            Action::OpenStream => Action::OpenStream,
            Action::AcceptStream => Action::AcceptStream,
            Action::WriteStream { data } => Action::WriteStream { data: data@ },
            Action::ReadExact { len } => Action::ReadExact { len },
            Action::ReadStream { max } => Action::ReadStream { max },
            Action::ConnectTcp { addr } => Action::ConnectTcp { addr },
            Action::BindUdp { addr } => Action::BindUdp { addr },
            Action::ConnectUdp { addr } => Action::ConnectUdp { addr },
            Action::ReceiveFrom { max } => Action::ReceiveFrom { max },
            Action::SendTo { data, peer } => Action::SendTo { data: data@, peer },
            Action::Receive { max } => Action::Receive { max },
            Action::Send { data } => Action::Send { data: data@ },
            Action::Splice => Action::Splice,
            Action::AwaitClosed => Action::AwaitClosed,
            Action::Close { code, reason } => Action::Close { code, reason: reason@ },
            Action::HttpHandshake { preserve_header_case, title_case_headers } => {
                Action::HttpHandshake { preserve_header_case, title_case_headers }
            },
            Action::SendRequest => Action::SendRequest,
            Action::Finish { result } => Action::Finish { result },
            Action::Await => Action::Await,
        }
    }
}

impl<E> View for Event<Vec<u8>, E> {
    type V = Event<Seq<u8>, E>;

    open spec fn view(&self) -> Event<Seq<u8>, E> {
        match *self {
            Event::Done => Event::Done,
            Event::Data { data } => Event::Data { data: data@ },
            Event::EndOfStream => Event::EndOfStream,
            Event::Datagram { data, from } => Event::Datagram { data: data@, from },
            Event::Failed { error } => Event::Failed { error },
        }
    }
}

/// Where a session stands after `events`, and the actions that it asked for on the way, one for
/// each event.
pub open spec fn run<S, V, A>(next: spec_fn(S, V) -> (S, A), start: S, events: Seq<V>) -> (S, Seq<A>)
    decreases events.len(),
{
    if events.len() == 0 {
        (start, Seq::empty())
    } else {
        let (state, actions) = run(next, start, events.drop_last());
        let (after, action) = next(state, events.last());
        (after, actions.push(action))
    }
}

/// A run through some events and then some more is a run through all of them.
pub proof fn lemma_run_appended<S, V, A>(
    next: spec_fn(S, V) -> (S, A),
    start: S,
    first: Seq<V>,
    second: Seq<V>,
)
    ensures
        ({
            let (middle, before) = run(next, start, first);
            let (end, after) = run(next, middle, second);
            run(next, start, first + second) == (end, before + after)
        }),
    decreases second.len(),
{
    let (middle, before) = run(next, start, first);
    if second.len() == 0 {
        assert(first + second =~= first);
        assert(before + Seq::<A>::empty() =~= before);
    } else {
        lemma_run_appended(next, start, first, second.drop_last());
        let whole = first + second;
        assert(whole.drop_last() =~= first + second.drop_last());
        assert(whole.last() == second.last());
        let (state, inner) = run(next, middle, second.drop_last());
        let (end, action) = next(state, second.last());
        assert((before + inner).push(action) =~= before + inner.push(action));
    }
}

/// A run through one event.
pub proof fn lemma_run_one<S, V, A>(next: spec_fn(S, V) -> (S, A), s: S, a: V)
    ensures
        run(next, s, seq![a]) == (next(s, a).0, seq![next(s, a).1]),
{
    reveal_with_fuel(run, 2);
    assert(seq![a].drop_last() =~= Seq::<V>::empty());
    assert(Seq::<A>::empty().push(next(s, a).1) =~= seq![next(s, a).1]);
}

/// A run through two events.
pub proof fn lemma_run_two<S, V, A>(next: spec_fn(S, V) -> (S, A), s: S, a: V, b: V)
    ensures
        ({
            let (s1, x) = next(s, a);
            let (s2, y) = next(s1, b);
            run(next, s, seq![a, b]) == (s2, seq![x, y])
        }),
{
    let (s1, x) = next(s, a);
    let (s2, y) = next(s1, b);
    lemma_run_one(next, s, a);
    lemma_run_one(next, s1, b);
    lemma_run_appended(next, s, seq![a], seq![b]);
    assert(seq![a] + seq![b] =~= seq![a, b]);
    assert(seq![x] + seq![y] =~= seq![x, y]);
}

/// A run through four events.
pub proof fn lemma_run_four<S, V, A>(next: spec_fn(S, V) -> (S, A), s: S, a: V, b: V, c: V, d: V)
    ensures
        ({
            let (s1, w) = next(s, a);
            let (s2, x) = next(s1, b);
            let (s3, y) = next(s2, c);
            let (s4, z) = next(s3, d);
            run(next, s, seq![a, b, c, d]) == (s4, seq![w, x, y, z])
        }),
{
    let (s1, w) = next(s, a);
    let (s2, x) = next(s1, b);
    let (s3, y) = next(s2, c);
    let (s4, z) = next(s3, d);
    lemma_run_two(next, s, a, b);
    lemma_run_two(next, s2, c, d);
    lemma_run_appended(next, s, seq![a, b], seq![c, d]);
    assert(seq![a, b] + seq![c, d] =~= seq![a, b, c, d]);
    assert(seq![w, x] + seq![y, z] =~= seq![w, x, y, z]);
}

/// An action says what it holds: no byte of what is dialled, written or sent is left out or changed,
/// and no address or bound.
pub proof fn law_action_says_what_it_holds<R>(action: Action<NodeAddr, Vec<u8>, R>)
    ensures
        match (action, action@) {
            (Action::Dial { to, alpn }, Action::Dial { to: node, alpn: name }) => {
                &&& node.node_id == to.node_id.bytes@
                &&& node.relay_url is None <==> to.relay_url is None
                &&& to.relay_url is Some ==> node.relay_url == Some(to.relay_url->0@)
                &&& node.direct_addresses == to.direct_addresses@
                &&& name == alpn@
            },
            (Action::WriteStream { data }, Action::WriteStream { data: said }) => said == data@,
            (Action::Send { data }, Action::Send { data: said }) => said == data@,
            (Action::SendTo { data, peer }, Action::SendTo { data: said, peer: named }) => said
                == data@ && named == peer,
            (Action::Close { code, reason }, Action::Close { code: number, reason: said }) => number
                == code && said == reason@,
            (Action::ReadExact { len }, Action::ReadExact { len: said }) => said == len,
            (Action::ReadStream { max }, Action::ReadStream { max: said }) => said == max,
            (Action::ReceiveFrom { max }, Action::ReceiveFrom { max: said }) => said == max,
            (Action::Receive { max }, Action::Receive { max: said }) => said == max,
            (Action::ConnectTcp { addr }, Action::ConnectTcp { addr: said }) => said == addr,
            (Action::BindUdp { addr }, Action::BindUdp { addr: said }) => said == addr,
            (Action::ConnectUdp { addr }, Action::ConnectUdp { addr: said }) => said == addr,
            (
                Action::HttpHandshake { preserve_header_case, title_case_headers },
                Action::HttpHandshake { preserve_header_case: p, title_case_headers: t },
            ) => p == preserve_header_case && t == title_case_headers,
            (Action::Finish { result }, Action::Finish { result: said }) => said == result,
            (Action::OpenStream, Action::OpenStream) => true,
            (Action::AcceptStream, Action::AcceptStream) => true,
            (Action::Splice, Action::Splice) => true,
            (Action::AwaitClosed, Action::AwaitClosed) => true,
            (Action::SendRequest, Action::SendRequest) => true,
            (Action::Await, Action::Await) => true,
            _ => false,
        },
{
}

/// An event says what it holds: the bytes that came, and who sent them.
pub proof fn law_event_says_what_it_holds<E>(event: Event<Vec<u8>, E>)
    ensures
        match (event, event@) {
            (Event::Done, Event::Done) => true,
            (Event::EndOfStream, Event::EndOfStream) => true,
            (Event::Data { data }, Event::Data { data: said }) => said == data@,
            (Event::Datagram { data, from }, Event::Datagram { data: said, from: sender }) => said
                == data@ && sender == from,
            (Event::Failed { error }, Event::Failed { error: said }) => said == error,
            _ => false,
        },
{
}

} // verus!
