//! What holds of the tunnel sessions over whole runs, and of the two ends of a tunnel together.
use vstd::prelude::*;

use crate::address::SocketAddress;
use crate::node::NodeAddrView;
use crate::session::{
    lemma_run_appended, lemma_run_four, lemma_run_one, lemma_run_two, run, Action, Event, Outcome,
    SessionError, CLOSE_REASON, DATAGRAM_CAPACITY,
};
use crate::tcp::{ConnectTcp, ForwardTcp, ForwardTcpPhase};
use crate::udp::{ConnectUdp, ForwardUdp, ForwardUdpPhase};
use crate::wire::HANDSHAKE;

verus! {

/// The events that sessions are told of.
pub type Told<E> = Event<Seq<u8>, E>;

/// The actions that sessions ask for.
pub type Asked<E> = Action<NodeAddrView, Seq<u8>, Outcome<E>>;

/// A run of the dialling end of a TCP tunnel.
pub open spec fn run_connect_tcp<E>(start: ConnectTcp, events: Seq<Told<E>>) -> (
    ConnectTcp,
    Seq<Asked<E>>,
) {
    run(|s: ConnectTcp, e: Told<E>| s.next(e), start, events)
}

/// A run of the forwarding end of a TCP tunnel.
pub open spec fn run_forward_tcp<E>(start: ForwardTcp, events: Seq<Told<E>>) -> (
    ForwardTcp,
    Seq<Asked<E>>,
) {
    run(|s: ForwardTcp, e: Told<E>| s.next(e), start, events)
}

/// A run of the dialling end of a UDP tunnel.
pub open spec fn run_connect_udp<E>(start: ConnectUdp, events: Seq<Told<E>>) -> (
    ConnectUdp,
    Seq<Asked<E>>,
) {
    run(|s: ConnectUdp, e: Told<E>| s.next(e), start, events)
}

/// A run of the forwarding end of a UDP tunnel.
pub open spec fn run_forward_udp<E>(start: ForwardUdp, events: Seq<Told<E>>) -> (
    ForwardUdp,
    Seq<Asked<E>>,
) {
    run(|s: ForwardUdp, e: Told<E>| s.next(e), start, events)
}

/// The greeting that the dialling end of a TCP tunnel writes is the one that the forwarding end
/// waits for, and lets it connect to the forwarded socket.
pub proof fn law_tcp_ends_agree_on_greeting<E>(addr: SocketAddress)
    ensures
        ({
            let written = ConnectTcp::Opening.next::<E>(Event::Done).1;
            let awaited = (ForwardTcp { addr, phase: ForwardTcpPhase::Accepting }).next::<E>(
                Event::Done,
            );
            &&& written is WriteStream
            &&& awaited.1 == Asked::<E>::ReadExact { len: written->WriteStream_data.len() as usize }
            &&& awaited.0.next::<E>(Event::Data { data: written->WriteStream_data }).1 == Asked::<
                E,
            >::ConnectTcp { addr }
        }),
{
}

/// The greeting that the dialling end of a UDP tunnel writes is the one that the forwarding end
/// waits for, and lets it bind a socket towards the forwarded one.
pub proof fn law_udp_ends_agree_on_greeting<E>(addr: SocketAddress)
    ensures
        ({
            let written = ConnectUdp::Opening.next::<E>(Event::Done).1;
            let awaited = (ForwardUdp { addr, phase: ForwardUdpPhase::Accepting }).next::<E>(
                Event::Done,
            );
            let answered = awaited.0.next::<E>(Event::Data { data: written->WriteStream_data });
            &&& written is WriteStream
            &&& awaited.1 == Asked::<E>::ReadExact { len: written->WriteStream_data.len() as usize }
            &&& answered.1 is BindUdp
            &&& answered.0.next::<E>(Event::Done).1 == Asked::<E>::ConnectUdp { addr }
        }),
{
}

/// A dialling end of a TCP tunnel of which every step succeeds dials, opens a stream, greets,
/// copies, waits for the connection to close, and ends well.
pub proof fn law_connect_tcp_course<E>()
    ensures
        run_connect_tcp::<E>(
            ConnectTcp::Dialing,
            seq![Event::Done, Event::Done, Event::Done, Event::Done, Event::Done],
        ) == (
            ConnectTcp::Finished,
            seq![
                Asked::<E>::OpenStream,
                Action::WriteStream { data: HANDSHAKE@ },
                Action::Splice,
                Action::AwaitClosed,
                Action::Finish { result: Ok(()) },
            ],
        ),
{
    let next = |s: ConnectTcp, e: Told<E>| s.next(e);
    let done: Told<E> = Event::Done;
    lemma_run_four(next, ConnectTcp::Dialing, done, done, done, done);
    lemma_run_one(next, ConnectTcp::Draining, done);
    let first = seq![done, done, done, done];
    lemma_run_appended(next, ConnectTcp::Dialing, first, seq![done]);
    assert(first + seq![done] =~= seq![done, done, done, done, done]);
    let (before, after) = (
        run(next, ConnectTcp::Dialing, first).1,
        run(next, ConnectTcp::Draining, seq![done]).1,
    );
    assert(before + after =~= seq![
        Asked::<E>::OpenStream,
        Action::WriteStream { data: HANDSHAKE@ },
        Action::Splice,
        Action::AwaitClosed,
        Action::Finish { result: Ok(()) },
    ]);
}

/// A forwarding end of a TCP tunnel that is greeted, and of which every step succeeds, connects to
/// the forwarded socket, copies, closes the connection with a goodbye, and ends well.
pub proof fn law_forward_tcp_course<E>(addr: SocketAddress)
    ensures
        run_forward_tcp::<E>(
            ForwardTcp { addr, phase: ForwardTcpPhase::Accepting },
            seq![
                Event::Done,
                Event::Data { data: HANDSHAKE@ },
                Event::Done,
                Event::Done,
                Event::Done,
            ],
        ) == (
            ForwardTcp { addr, phase: ForwardTcpPhase::Finished },
            seq![
                Asked::<E>::ReadExact { len: HANDSHAKE@.len() as usize },
                Action::ConnectTcp { addr },
                Action::Splice,
                Action::Close { code: 0, reason: seq![0x62u8, 0x79, 0x65] },
                Action::Finish { result: Ok(()) },
            ],
        ),
{
    assert(CLOSE_REASON@ =~= seq![0x62u8, 0x79, 0x65]);
    let next = |s: ForwardTcp, e: Told<E>| s.next(e);
    let done: Told<E> = Event::Done;
    let greeting: Told<E> = Event::Data { data: HANDSHAKE@ };
    let start = ForwardTcp { addr, phase: ForwardTcpPhase::Accepting };
    lemma_run_four(next, start, done, greeting, done, done);
    lemma_run_one(next, start.at(ForwardTcpPhase::Closing), done);
    let first = seq![done, greeting, done, done];
    lemma_run_appended(next, start, first, seq![done]);
    assert(first + seq![done] =~= seq![done, greeting, done, done, done]);
    let (before, after) = (
        run(next, start, first).1,
        run(next, start.at(ForwardTcpPhase::Closing), seq![done]).1,
    );
    assert(before + after =~= seq![
        Asked::<E>::ReadExact { len: HANDSHAKE@.len() as usize },
        Action::ConnectTcp { addr },
        Action::Splice,
        Action::Close { code: 0, reason: seq![0x62u8, 0x79, 0x65] },
        Action::Finish { result: Ok(()) },
    ]);
}

/// A forwarding end that is not greeted as it should be ends the session there, with the error that
/// says so.
pub proof fn law_wrong_greeting_is_refused<E>(addr: SocketAddress, data: Seq<u8>)
    requires
        data != HANDSHAKE@,
    ensures
        run_forward_tcp::<E>(
            ForwardTcp { addr, phase: ForwardTcpPhase::Accepting },
            seq![Event::Done, Event::Data { data }],
        ) == (
            ForwardTcp { addr, phase: ForwardTcpPhase::Finished },
            seq![
                Asked::<E>::ReadExact { len: HANDSHAKE@.len() as usize },
                Action::Finish { result: Err(SessionError::InvalidHandshake) },
            ],
        ),
        run_forward_udp::<E>(
            ForwardUdp { addr, phase: ForwardUdpPhase::Accepting },
            seq![Event::Done, Event::Data { data }],
        ) == (
            ForwardUdp { addr, phase: ForwardUdpPhase::Finished },
            seq![
                Asked::<E>::ReadExact { len: HANDSHAKE@.len() as usize },
                Action::Finish { result: Err(SessionError::InvalidHandshake) },
            ],
        ),
{
    lemma_run_two(
        |s: ForwardTcp, e: Told<E>| s.next(e),
        ForwardTcp { addr, phase: ForwardTcpPhase::Accepting },
        Event::Done,
        Event::Data { data },
    );
    lemma_run_two(
        |s: ForwardUdp, e: Told<E>| s.next(e),
        ForwardUdp { addr, phase: ForwardUdpPhase::Accepting },
        Event::Done,
        Event::Data { data },
    );
}

/// A session that is over asks for nothing more, whatever it is told.
pub proof fn law_finished_sessions_are_silent<E>(addr: SocketAddress, event: Told<E>)
    ensures
        ConnectTcp::Finished.next(event) == (ConnectTcp::Finished, Asked::<E>::Await),
        ConnectUdp::Finished.next(event) == (ConnectUdp::Finished, Asked::<E>::Await),
        ({
            let s = ForwardTcp { addr, phase: ForwardTcpPhase::Finished };
            s.next(event) == (s, Asked::<E>::Await)
        }),
        ({
            let s = ForwardUdp { addr, phase: ForwardUdpPhase::Finished };
            s.next(event) == (s, Asked::<E>::Await)
        }),
{
}

/// An operation that fails ends the session with that error.
pub proof fn law_failure_ends_session<E>(
    dial_tcp: ConnectTcp,
    dial_udp: ConnectUdp,
    serve_tcp: ForwardTcp,
    serve_udp: ForwardUdp,
    error: E,
)
    ensures
        !(dial_tcp is Draining) && !(dial_tcp is Finished) ==> dial_tcp.next(
            Event::Failed { error },
        ) == (ConnectTcp::Finished, Asked::<E>::Finish { result: Err(SessionError::Io(error)) }),
        !(dial_udp is Finished) ==> dial_udp.next(Event::Failed { error }) == (
            ConnectUdp::Finished,
            Asked::<E>::Finish { result: Err(SessionError::Io(error)) },
        ),
        !(serve_tcp.phase is Closing) && !(serve_tcp.phase is Finished) ==> serve_tcp.next(
            Event::Failed { error },
        ) == (
            ForwardTcp { addr: serve_tcp.addr, phase: ForwardTcpPhase::Finished },
            Asked::<E>::Finish { result: Err(SessionError::Io(error)) },
        ),
        !(serve_udp.phase is Finished) ==> serve_udp.next(Event::Failed { error }) == (
            ForwardUdp { addr: serve_udp.addr, phase: ForwardUdpPhase::Finished },
            Asked::<E>::Finish { result: Err(SessionError::Io(error)) },
        ),
{
}

/// A UDP tunnel has no good end: it goes on until an operation fails or the greeting is wrong.
pub proof fn law_udp_sessions_never_end_well<E>(
    dial: ConnectUdp,
    serve: ForwardUdp,
    event: Told<E>,
)
    ensures
        dial.next(event).1 != (Asked::<E>::Finish { result: Ok(()) }),
        serve.next(event).1 != (Asked::<E>::Finish { result: Ok(()) }),
{
}

/// Whether an action of a forwarding end reaches beyond the stream on which it waits for the
/// greeting.
pub open spec fn acts_on_behalf<E>(action: Asked<E>) -> bool {
    match action {
        Action::ReadExact { .. } | Action::Finish { .. } | Action::Await => false,
        _ => true,
    }
}

/// Whether the forwarding end of a TCP tunnel was greeted within `events`: while it waited for the
/// greeting, the greeting came.
pub open spec fn tcp_greeted<E>(start: ForwardTcp, events: Seq<Told<E>>) -> bool {
    exists|i: int|
        0 <= i < events.len() && #[trigger] events[i] == (Told::<E>::Data { data: HANDSHAKE@ })
            && run_forward_tcp(start, events.take(i)).0.phase is Greeting
}

/// Whether the forwarding end of a UDP tunnel was greeted within `events`: while it waited for the
/// greeting, the greeting came.
pub open spec fn udp_greeted<E>(start: ForwardUdp, events: Seq<Told<E>>) -> bool {
    exists|i: int|
        0 <= i < events.len() && #[trigger] events[i] == (Told::<E>::Data { data: HANDSHAKE@ })
            && run_forward_udp(start, events.take(i)).0.phase is Greeting
}

proof fn lemma_tcp_greeted_extends<E>(start: ForwardTcp, events: Seq<Told<E>>)
    requires
        events.len() > 0,
        tcp_greeted(start, events.drop_last()),
    ensures
        tcp_greeted(start, events),
{
    let shorter = events.drop_last();
    let i = choose|i: int|
        0 <= i < shorter.len() && #[trigger] shorter[i] == (Told::<E>::Data { data: HANDSHAKE@ })
            && run_forward_tcp(start, shorter.take(i)).0.phase is Greeting;
    assert(events[i] == shorter[i]);
    assert(events.take(i) =~= shorter.take(i));
}

proof fn lemma_udp_greeted_extends<E>(start: ForwardUdp, events: Seq<Told<E>>)
    requires
        events.len() > 0,
        udp_greeted(start, events.drop_last()),
    ensures
        udp_greeted(start, events),
{
    let shorter = events.drop_last();
    let i = choose|i: int|
        0 <= i < shorter.len() && #[trigger] shorter[i] == (Told::<E>::Data { data: HANDSHAKE@ })
            && run_forward_udp(start, shorter.take(i)).0.phase is Greeting;
    assert(events[i] == shorter[i]);
    assert(events.take(i) =~= shorter.take(i));
}

/// Whatever happens, the forwarding end of a TCP tunnel does nothing on behalf of the other node
/// that was not preceded by the greeting.
pub proof fn law_tcp_nothing_before_greeting<E>(addr: SocketAddress, events: Seq<Told<E>>)
    ensures
        ({
            let start = ForwardTcp { addr, phase: ForwardTcpPhase::Accepting };
            let (end, actions) = run_forward_tcp(start, events);
            &&& end.addr == addr
            &&& actions.len() == events.len()
            &&& end.phase is Connecting || end.phase is Splicing || end.phase is Closing
                ==> tcp_greeted(start, events)
            &&& forall|j: int|
                0 <= j < actions.len() && acts_on_behalf(#[trigger] actions[j]) ==> tcp_greeted(
                    start,
                    events.take(j + 1),
                )
        }),
    decreases events.len(),
{
    let start = ForwardTcp { addr, phase: ForwardTcpPhase::Accepting };
    let (end, actions) = run_forward_tcp(start, events);
    if events.len() > 0 {
        let shorter = events.drop_last();
        law_tcp_nothing_before_greeting(addr, shorter);
        let (state, before) = run_forward_tcp(start, shorter);
        let n = shorter.len() as int;
        if state.phase is Greeting && events.last() == (Told::<E>::Data { data: HANDSHAKE@ }) {
            assert(events[n] == events.last());
            assert(events.take(n) =~= shorter);
            assert(tcp_greeted(start, events));
        }
        if tcp_greeted(start, shorter) {
            lemma_tcp_greeted_extends(start, events);
        }
        assert forall|j: int|
            0 <= j < actions.len() && acts_on_behalf(#[trigger] actions[j]) implies tcp_greeted(
            start,
            events.take(j + 1),
        ) by {
            if j < n {
                assert(actions[j] == before[j]);
                assert(shorter.take(j + 1) =~= events.take(j + 1));
            } else {
                assert(events.take(j + 1) =~= events);
            }
        }
    }
}

/// Whatever happens, the forwarding end of a UDP tunnel does nothing on behalf of the other node
/// that was not preceded by the greeting.
pub proof fn law_udp_nothing_before_greeting<E>(addr: SocketAddress, events: Seq<Told<E>>)
    ensures
        ({
            let start = ForwardUdp { addr, phase: ForwardUdpPhase::Accepting };
            let (end, actions) = run_forward_udp(start, events);
            &&& end.addr == addr
            &&& actions.len() == events.len()
            &&& end.phase is Accepting || end.phase is Greeting || end.phase is Finished
                || udp_greeted(start, events)
            &&& forall|j: int|
                0 <= j < actions.len() && acts_on_behalf(#[trigger] actions[j]) ==> udp_greeted(
                    start,
                    events.take(j + 1),
                )
        }),
    decreases events.len(),
{
    let start = ForwardUdp { addr, phase: ForwardUdpPhase::Accepting };
    let (end, actions) = run_forward_udp(start, events);
    if events.len() > 0 {
        let shorter = events.drop_last();
        law_udp_nothing_before_greeting(addr, shorter);
        let (state, before) = run_forward_udp(start, shorter);
        let n = shorter.len() as int;
        if state.phase is Greeting && events.last() == (Told::<E>::Data { data: HANDSHAKE@ }) {
            assert(events[n] == events.last());
            assert(events.take(n) =~= shorter);
            assert(udp_greeted(start, events));
        }
        if udp_greeted(start, shorter) {
            lemma_udp_greeted_extends(start, events);
        }
        assert forall|j: int|
            0 <= j < actions.len() && acts_on_behalf(#[trigger] actions[j]) implies udp_greeted(
            start,
            events.take(j + 1),
        ) by {
            if j < n {
                assert(actions[j] == before[j]);
                assert(shorter.take(j + 1) =~= events.take(j + 1));
            } else {
                assert(events.take(j + 1) =~= events);
            }
        }
    }
}

/// The rounds of `xs` in a row, where a round has four entries.
pub open spec fn in_rounds<X, V>(xs: Seq<X>, round: spec_fn(X) -> Seq<V>) -> Seq<V> {
    Seq::new(4 * xs.len(), |k: int| round(xs[k / 4])[k % 4])
}

proof fn lemma_in_rounds_last<X, V>(xs: Seq<X>, round: spec_fn(X) -> Seq<V>)
    requires
        xs.len() > 0,
        round(xs.last()).len() == 4,
    ensures
        in_rounds(xs, round) == in_rounds(xs.drop_last(), round) + round(xs.last()),
{
    let n = xs.len() as int;
    let right = in_rounds(xs.drop_last(), round) + round(xs.last());
    assert forall|k: int| 0 <= k < 4 * n implies in_rounds(xs, round)[k] == right[k] by {
        if k < 4 * (n - 1) {
            assert(xs.drop_last()[k / 4] == xs[k / 4]);
        } else {
            assert(k / 4 == n - 1);
            assert(k % 4 == k - 4 * (n - 1));
        }
    }
    assert(in_rounds(xs, round) =~= right);
}

/// A datagram at the dialling end of a UDP tunnel: its bytes, its sender, and the answer that comes
/// over the stream, if the stream has not ended.
pub struct Exchange {
    pub data: Seq<u8>,
    pub from: SocketAddress,
    pub reply: Option<Seq<u8>>,
}

/// What a read of the stream reports.
pub open spec fn read_event<E>(read: Option<Seq<u8>>) -> Told<E> {
    match read {
        Some(data) => Event::Data { data },
        None => Event::EndOfStream,
    }
}

/// What a read of the stream counts as: nothing, where the stream has ended.
pub open spec fn read_bytes(read: Option<Seq<u8>>) -> Seq<u8> {
    match read {
        Some(data) => data,
        None => Seq::empty(),
    }
}

/// What the dialling end is told in the course of an exchange.
pub open spec fn exchange_told<E>(x: Exchange) -> Seq<Told<E>> {
    seq![
        Event::Datagram { data: x.data, from: x.from },
        Event::Done,
        read_event(x.reply),
        Event::Done,
    ]
}

/// What the dialling end asks for in the course of an exchange: that the datagram is passed on as
/// it is, that the stream is read, that what was read goes to the sender, and then for the next
/// datagram.
pub open spec fn exchange_asked<E>(x: Exchange) -> Seq<Asked<E>> {
    seq![
        Action::WriteStream { data: x.data },
        Action::ReadStream { max: DATAGRAM_CAPACITY },
        Action::SendTo { data: read_bytes(x.reply), peer: x.from },
        Action::ReceiveFrom { max: DATAGRAM_CAPACITY },
    ]
}

/// After its greeting, the dialling end of a UDP tunnel takes datagrams one by one. Each is passed
/// on unchanged, and its sender, and nobody else, is sent what the stream gives back for it.
pub proof fn law_connect_udp_exchanges<E>(exchanges: Seq<Exchange>)
    ensures
        run_connect_udp::<E>(
            ConnectUdp::Dialing,
            seq![Event::Done, Event::Done, Event::Done] + in_rounds(
                exchanges,
                |x: Exchange| exchange_told(x),
            ),
        ) == (
            ConnectUdp::Receiving,
            seq![
                Action::OpenStream,
                Action::WriteStream { data: HANDSHAKE@ },
                Action::ReceiveFrom { max: DATAGRAM_CAPACITY },
            ] + in_rounds(exchanges, |x: Exchange| exchange_asked::<E>(x)),
        ),
{
    let next = |s: ConnectUdp, e: Told<E>| s.next(e);
    let done: Told<E> = Event::Done;
    lemma_run_two(next, ConnectUdp::Dialing, done, done);
    lemma_run_one(next, ConnectUdp::Greeting, done);
    lemma_run_appended(next, ConnectUdp::Dialing, seq![done, done], seq![done]);
    let opening = seq![done, done, done];
    assert(seq![done, done] + seq![done] =~= opening);
    assert(run(next, ConnectUdp::Dialing, opening).1 =~= seq![
        Action::OpenStream,
        Action::WriteStream { data: HANDSHAKE@ },
        Action::ReceiveFrom { max: DATAGRAM_CAPACITY },
    ]);
    lemma_connect_udp_rounds::<E>(exchanges);
    lemma_run_appended(
        next,
        ConnectUdp::Dialing,
        opening,
        in_rounds(exchanges, |x: Exchange| exchange_told(x)),
    );
}

proof fn lemma_connect_udp_rounds<E>(exchanges: Seq<Exchange>)
    ensures
        run_connect_udp::<E>(
            ConnectUdp::Receiving,
            in_rounds(exchanges, |x: Exchange| exchange_told(x)),
        ) == (
            ConnectUdp::Receiving,
            in_rounds(exchanges, |x: Exchange| exchange_asked::<E>(x)),
        ),
    decreases exchanges.len(),
{
    let next = |s: ConnectUdp, e: Told<E>| s.next(e);
    let told = |x: Exchange| exchange_told::<E>(x);
    let asked = |x: Exchange| exchange_asked::<E>(x);
    if exchanges.len() == 0 {
        assert(in_rounds(exchanges, told) =~= Seq::empty());
        assert(in_rounds(exchanges, asked) =~= Seq::empty());
    } else {
        let x = exchanges.last();
        lemma_connect_udp_rounds::<E>(exchanges.drop_last());
        lemma_in_rounds_last(exchanges, told);
        lemma_in_rounds_last(exchanges, asked);
        lemma_run_four(
            next,
            ConnectUdp::Receiving,
            Event::Datagram { data: x.data, from: x.from },
            Event::Done,
            read_event(x.reply),
            Event::Done,
        );
        assert(run(next, ConnectUdp::Receiving, told(x)).1 =~= asked(x));
        lemma_run_appended(
            next,
            ConnectUdp::Receiving,
            in_rounds(exchanges.drop_last(), told),
            told(x),
        );
    }
}

/// A message at the forwarding end of a UDP tunnel: what the stream gives, if it has not ended, and
/// the answer of the forwarded socket.
pub struct Service {
    pub request: Option<Seq<u8>>,
    pub answer: Seq<u8>,
}

/// What the forwarding end is told in the course of a service.
pub open spec fn service_told<E>(x: Service) -> Seq<Told<E>> {
    seq![read_event(x.request), Event::Done, Event::Data { data: x.answer }, Event::Done]
}

/// What the forwarding end asks for in the course of a service: that what was read goes to the
/// forwarded socket as it is, that the answer is received, that it is passed back as it is, and
/// then for the next read.
pub open spec fn service_asked<E>(x: Service) -> Seq<Asked<E>> {
    seq![
        Action::Send { data: read_bytes(x.request) },
        Action::Receive { max: DATAGRAM_CAPACITY },
        Action::WriteStream { data: x.answer },
        Action::ReadStream { max: DATAGRAM_CAPACITY },
    ]
}

/// After it was greeted, the forwarding end of a UDP tunnel binds a loopback socket of the family of
/// the forwarded one, connects it, and then serves messages one by one. Each is sent on unchanged,
/// and the answer to it is passed back unchanged.
pub proof fn law_forward_udp_services<E>(addr: SocketAddress, services: Seq<Service>)
    ensures
        run_forward_udp::<E>(
            ForwardUdp { addr, phase: ForwardUdpPhase::Accepting },
            seq![Event::Done, Event::Data { data: HANDSHAKE@ }, Event::Done, Event::Done]
                + in_rounds(services, |x: Service| service_told(x)),
        ) == (
            ForwardUdp { addr, phase: ForwardUdpPhase::Reading },
            seq![
                Action::ReadExact { len: HANDSHAKE@.len() as usize },
                Action::BindUdp { addr: SocketAddress::spec_loopback(addr is V6, 0) },
                Action::ConnectUdp { addr },
                Action::ReadStream { max: DATAGRAM_CAPACITY },
            ] + in_rounds(services, |x: Service| service_asked::<E>(x)),
        ),
{
    let next = |s: ForwardUdp, e: Told<E>| s.next(e);
    let done: Told<E> = Event::Done;
    let greeting: Told<E> = Event::Data { data: HANDSHAKE@ };
    let start = ForwardUdp { addr, phase: ForwardUdpPhase::Accepting };
    lemma_run_four(next, start, done, greeting, done, done);
    lemma_forward_udp_rounds::<E>(addr, services);
    lemma_run_appended(
        next,
        start,
        seq![done, greeting, done, done],
        in_rounds(services, |x: Service| service_told(x)),
    );
}

proof fn lemma_forward_udp_rounds<E>(addr: SocketAddress, services: Seq<Service>)
    ensures
        run_forward_udp::<E>(
            ForwardUdp { addr, phase: ForwardUdpPhase::Reading },
            in_rounds(services, |x: Service| service_told(x)),
        ) == (
            ForwardUdp { addr, phase: ForwardUdpPhase::Reading },
            in_rounds(services, |x: Service| service_asked::<E>(x)),
        ),
    decreases services.len(),
{
    let next = |s: ForwardUdp, e: Told<E>| s.next(e);
    let told = |x: Service| service_told::<E>(x);
    let asked = |x: Service| service_asked::<E>(x);
    let reading = ForwardUdp { addr, phase: ForwardUdpPhase::Reading };
    if services.len() == 0 {
        assert(in_rounds(services, told) =~= Seq::empty());
        assert(in_rounds(services, asked) =~= Seq::empty());
    } else {
        let x = services.last();
        lemma_forward_udp_rounds::<E>(addr, services.drop_last());
        lemma_in_rounds_last(services, told);
        lemma_in_rounds_last(services, asked);
        lemma_run_four(
            next,
            reading,
            read_event(x.request),
            Event::Done,
            Event::Data { data: x.answer },
            Event::Done,
        );
        assert(run(next, reading, told(x)).1 =~= asked(x));
        lemma_run_appended(next, reading, in_rounds(services.drop_last(), told), told(x));
    }
}

/// What the forwarding end does with the datagrams of the dialling end, where the stream gives each
/// end what the other wrote, message by message.
pub open spec fn services_of(exchanges: Seq<Exchange>) -> Seq<Service> {
    exchanges.map_values(
        |x: Exchange| Service { request: Some(x.data), answer: read_bytes(x.reply) },
    )
}

/// Both ends of a UDP tunnel together. Where the stream gives each end what the other wrote, message
/// by message, the forwarded socket is sent the datagrams that came in at the dialling end, in
/// their order and unchanged, and each sender is sent the answer to its own datagram, unchanged.
pub proof fn law_datagrams_cross_the_tunnel<E>(
    addr: SocketAddress,
    exchanges: Seq<Exchange>,
    i: int,
)
    requires
        0 <= i < exchanges.len(),
        exchanges[i].reply is Some,
    ensures
        ({
            let dialled = run_connect_udp::<E>(
                ConnectUdp::Receiving,
                in_rounds(exchanges, |x: Exchange| exchange_told(x)),
            ).1;
            let forwarded = run_forward_udp::<E>(
                ForwardUdp { addr, phase: ForwardUdpPhase::Reading },
                in_rounds(services_of(exchanges), |x: Service| service_told(x)),
            ).1;
            let x = exchanges[i];
            let reply = x.reply->0;
            &&& dialled[4 * i] == Asked::<E>::WriteStream { data: x.data }
            &&& forwarded[4 * i] == Asked::<E>::Send { data: x.data }
            &&& forwarded[4 * i + 2] == Asked::<E>::WriteStream { data: reply }
            &&& dialled[4 * i + 2] == Asked::<E>::SendTo { data: reply, peer: x.from }
        }),
{
    lemma_connect_udp_rounds::<E>(exchanges);
    lemma_forward_udp_rounds::<E>(addr, services_of(exchanges));
    assert((4 * i) / 4 == i && (4 * i) % 4 == 0);
    assert((4 * i + 2) / 4 == i && (4 * i + 2) % 4 == 2);
}

/// How the dialling end of a UDP tunnel opens it: with a stream and the greeting, and then by waiting
/// for a datagram.
pub proof fn law_connect_udp_opening<E>()
    ensures
        run_connect_udp::<E>(
            ConnectUdp::Dialing,
            seq![Event::Done, Event::Done, Event::Done],
        ) == (
            ConnectUdp::Receiving,
            seq![
                Asked::<E>::OpenStream,
                Action::WriteStream { data: HANDSHAKE@ },
                Action::ReceiveFrom { max: 1500 },
            ],
        ),
{
    let told = |x: Exchange| exchange_told::<E>(x);
    let asked = |x: Exchange| exchange_asked::<E>(x);
    let none = Seq::<Exchange>::empty();
    law_connect_udp_exchanges::<E>(none);
    let done: Told<E> = Event::Done;
    assert(seq![done, done, done] + in_rounds(none, told) =~= seq![done, done, done]);
    let opening = seq![
        Asked::<E>::OpenStream,
        Action::WriteStream { data: HANDSHAKE@ },
        Action::ReceiveFrom { max: 1500 },
    ];
    assert(opening + in_rounds(none, asked) =~= opening);
}

/// A datagram at the dialling end, whatever its bytes and whoever sent it: all of it is written to the
/// stream, then the stream is read, and all that was read goes to that sender, or an empty datagram
/// where the stream has ended; and then the next datagram is awaited.
pub proof fn law_datagram_is_passed_on_and_answered<E>(
    data: Seq<u8>,
    from: SocketAddress,
    reply: Seq<u8>,
)
    ensures
        run_connect_udp::<E>(
            ConnectUdp::Receiving,
            seq![
                Event::Datagram { data, from },
                Event::Done,
                Event::Data { data: reply },
                Event::Done,
            ],
        ) == (
            ConnectUdp::Receiving,
            seq![
                Asked::<E>::WriteStream { data },
                Action::ReadStream { max: 1500 },
                Action::SendTo { data: reply, peer: from },
                Action::ReceiveFrom { max: 1500 },
            ],
        ),
        run_connect_udp::<E>(
            ConnectUdp::Receiving,
            seq![Event::Datagram { data, from }, Event::Done, Event::EndOfStream, Event::Done],
        ) == (
            ConnectUdp::Receiving,
            seq![
                Asked::<E>::WriteStream { data },
                Action::ReadStream { max: 1500 },
                Action::SendTo { data: Seq::empty(), peer: from },
                Action::ReceiveFrom { max: 1500 },
            ],
        ),
{
    let next = |s: ConnectUdp, e: Told<E>| s.next(e);
    lemma_run_four(
        next,
        ConnectUdp::Receiving,
        Event::Datagram { data, from },
        Event::Done,
        Event::Data { data: reply },
        Event::Done,
    );
    lemma_run_four(
        next,
        ConnectUdp::Receiving,
        Event::Datagram { data, from },
        Event::Done,
        Event::EndOfStream,
        Event::Done,
    );
}

/// How the forwarding end of a UDP tunnel that is greeted starts, whatever socket it forwards: with a
/// socket on the loopback address of the same family, at any port, that is connected to exactly the
/// forwarded socket, and then by reading the stream.
pub proof fn law_forward_udp_opening<E>(addr: SocketAddress)
    ensures
        run_forward_udp::<E>(
            ForwardUdp { addr, phase: ForwardUdpPhase::Accepting },
            seq![Event::Done, Event::Data { data: HANDSHAKE@ }, Event::Done, Event::Done],
        ) == (
            ForwardUdp { addr, phase: ForwardUdpPhase::Reading },
            seq![
                Asked::<E>::ReadExact { len: 4 },
                Action::BindUdp {
                    addr: match addr {
                        SocketAddress::V4 { .. } => SocketAddress::V4 {
                            ipv4: 0x7f00_0001,
                            port: 0,
                        },
                        SocketAddress::V6 { .. } => SocketAddress::V6 {
                            ipv6: 1,
                            port: 0,
                            flowinfo: 0,
                            scope_id: 0,
                        },
                    },
                },
                Action::ConnectUdp { addr },
                Action::ReadStream { max: 1500 },
            ],
        ),
{
    lemma_run_four(
        |s: ForwardUdp, e: Told<E>| s.next(e),
        ForwardUdp { addr, phase: ForwardUdpPhase::Accepting },
        Event::Done,
        Event::Data { data: HANDSHAKE@ },
        Event::Done,
        Event::Done,
    );
}

/// A message at the forwarding end, whatever its bytes: all of it is sent to the forwarded socket, or
/// an empty datagram where the stream has ended; then the answer is received, and all of it is
/// written to the stream; and then the next message is read.
pub proof fn law_message_is_sent_on_and_answered<E>(
    addr: SocketAddress,
    request: Seq<u8>,
    answer: Seq<u8>,
)
    ensures
        run_forward_udp::<E>(
            ForwardUdp { addr, phase: ForwardUdpPhase::Reading },
            seq![
                Event::Data { data: request },
                Event::Done,
                Event::Data { data: answer },
                Event::Done,
            ],
        ) == (
            ForwardUdp { addr, phase: ForwardUdpPhase::Reading },
            seq![
                Asked::<E>::Send { data: request },
                Action::Receive { max: 1500 },
                Action::WriteStream { data: answer },
                Action::ReadStream { max: 1500 },
            ],
        ),
        run_forward_udp::<E>(
            ForwardUdp { addr, phase: ForwardUdpPhase::Reading },
            seq![Event::EndOfStream, Event::Done, Event::Data { data: answer }, Event::Done],
        ) == (
            ForwardUdp { addr, phase: ForwardUdpPhase::Reading },
            seq![
                Asked::<E>::Send { data: Seq::empty() },
                Action::Receive { max: 1500 },
                Action::WriteStream { data: answer },
                Action::ReadStream { max: 1500 },
            ],
        ),
{
    let next = |s: ForwardUdp, e: Told<E>| s.next(e);
    let reading = ForwardUdp { addr, phase: ForwardUdpPhase::Reading };
    lemma_run_four(
        next,
        reading,
        Event::Data { data: request },
        Event::Done,
        Event::Data { data: answer },
        Event::Done,
    );
    lemma_run_four(
        next,
        reading,
        Event::EndOfStream,
        Event::Done,
        Event::Data { data: answer },
        Event::Done,
    );
}

/// An event that is no answer to what a session asked for changes nothing: the session goes on
/// waiting.
pub proof fn law_stray_events_change_nothing<E>(
    dial_tcp: ConnectTcp,
    dial_udp: ConnectUdp,
    serve_tcp: ForwardTcp,
    serve_udp: ForwardUdp,
    event: Told<E>,
)
    ensures
        event is Data || event is EndOfStream || event is Datagram || event is Failed
            && dial_tcp is Draining ==> dial_tcp.next(event) == (dial_tcp, Asked::<E>::Await),
        event is Datagram && !(dial_udp is Receiving) && !(dial_udp is Finished) ==> dial_udp.next(
            event,
        ) == (dial_udp, Asked::<E>::Await),
        (event is Data || event is EndOfStream) && !(dial_udp is Reading) ==> dial_udp.next(event)
            == (dial_udp, Asked::<E>::Await),
        event is Done && (dial_udp is Receiving || dial_udp is Reading) ==> dial_udp.next(event) == (
            dial_udp,
            Asked::<E>::Await,
        ),
        event is EndOfStream || event is Datagram || event is Data && !(serve_tcp.phase is Greeting)
            || event is Done && serve_tcp.phase is Greeting || event is Failed
            && serve_tcp.phase is Closing ==> serve_tcp.next(event) == (
            serve_tcp,
            Asked::<E>::Await,
        ),
        event is Datagram || event is EndOfStream && !(serve_udp.phase is Reading) ==> serve_udp.next(
            event,
        ) == (serve_udp, Asked::<E>::Await),
        event is Data && !(serve_udp.phase is Greeting) && !(serve_udp.phase is Reading) && !(
        serve_udp.phase is Receiving) ==> serve_udp.next(event) == (serve_udp, Asked::<E>::Await),
        event is Done && (serve_udp.phase is Greeting || serve_udp.phase is Reading
            || serve_udp.phase is Receiving) ==> serve_udp.next(event) == (
            serve_udp,
            Asked::<E>::Await,
        ),
{
}

/// Whatever a forwarding end is told, it goes on forwarding the same socket, and the only local socket
/// that it ever connects to is that one.
pub proof fn law_forwarded_socket_is_kept<E>(tcp: ForwardTcp, udp: ForwardUdp, event: Told<E>)
    ensures
        tcp.next(event).0.addr == tcp.addr,
        udp.next(event).0.addr == udp.addr,
        tcp.next(event).1 matches Action::ConnectTcp { addr } ==> addr == tcp.addr,
        udp.next(event).1 matches Action::ConnectUdp { addr } ==> addr == udp.addr,
{
}

} // verus!
