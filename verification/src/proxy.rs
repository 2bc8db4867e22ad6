//! The web proxy. A request names the node that it is for in the first label of its host name; it
//! is sent there through a TCP tunnel, or refused.
use http::header::{HeaderMap, HeaderValue};
use vstd::prelude::*;

use crate::address::SocketAddress;
use crate::headers::{
    fields, find_host, header_fields, header_value_bytes, is_text, is_visible, law_text_is_visible,
    names, text,
};
use crate::labels::{before_first, first_label, law_before_first};
use crate::node::{node_id_from_text, parse_node_id, NodeAddr, NodeAddrView, NodeId};
use crate::session::{
    lemma_run_appended, lemma_run_four, lemma_run_one, run, Action, Event, Outcome,
};
use crate::tcp::{ForwardTcp, ForwardTcpPhase};
use crate::wire::{handshake, Protocol, HANDSHAKE, TCP_ALPN};

verus! {

/// The HTTP status with which a request is refused.
pub const BAD_REQUEST: u16 = 400;

/// Whether the case in which header names came is kept, towards the client and towards the node.
pub const PRESERVE_HEADER_CASE: bool = true;

/// Whether header names of which the case is not known are written in title case.
pub const TITLE_CASE_HEADERS: bool = true;

/// Why a request is not sent on.
#[derive(Clone, Copy, PartialEq, Eq, Debug, Structural)]
pub enum Refusal {
    /// It has no host header.
    MissingHost,
    /// Its host header is not text.
    NotAscii,
    /// Its host name has a single label.
    MissingSubdomain,
    /// The first label of its host name is not the identifier of a node.
    InvalidSubdomain,
}

/// A short response.
#[derive(PartialEq, Eq, Debug)]
pub struct Reply {
    pub status: u16,
    pub body: String,
}

/// An error that ends the client's connection instead of answering it.
#[derive(PartialEq, Eq, Debug)]
pub struct ProxyError {
    pub status: u16,
    pub cause: String,
}

/// The response to a bad request, with a text that says what is wrong with it.
pub fn bad_request(text: &str) -> (r: Reply)
    ensures
        r.status == BAD_REQUEST,
        r.status == 400,
        r.body@ == text@,
{
    Reply { status: BAD_REQUEST, body: text.to_owned() }
}

impl Refusal {
    /// What is said of a refused request.
    pub open spec fn reason(self) -> Seq<char> {
        match self {
            Refusal::MissingHost => "missing host header"@,
            Refusal::NotAscii => "invalid host header - not ascii"@,
            Refusal::MissingSubdomain => "invalid host header - missing subdomain"@,
            Refusal::InvalidSubdomain => {
                "invalid host header - subdomain is neither a node id nor a ticket"@
            },
        }
    }

    /// What a client whose request is refused gets: a response that says why, or, where it did not
    /// say which host it wants, an error.
    pub fn answer(self) -> (r: Result<Reply, ProxyError>)
        ensures
            match r {
                Ok(reply) => {
                    &&& !(self is MissingHost)
                    &&& reply.status == BAD_REQUEST
                    &&& reply.body@ == self.reason()
                },
                Err(error) => {
                    &&& self is MissingHost
                    &&& error.status == BAD_REQUEST
                    &&& error.cause@ == self.reason()
                },
            },
            match self {
                Refusal::MissingHost => r matches Err(error) && error.status == 400 && error.cause@
                    == "missing host header"@,
                Refusal::NotAscii => r matches Ok(reply) && reply.status == 400 && reply.body@
                    == "invalid host header - not ascii"@,
                Refusal::MissingSubdomain => r matches Ok(reply) && reply.status == 400
                    && reply.body@ == "invalid host header - missing subdomain"@,
                Refusal::InvalidSubdomain => r matches Ok(reply) && reply.status == 400
                    && reply.body@
                    == "invalid host header - subdomain is neither a node id nor a ticket"@,
            },
    {
        match self {
            Refusal::MissingHost => Err(
                ProxyError { status: BAD_REQUEST, cause: "missing host header".to_owned() },
            ),
            Refusal::NotAscii => Ok(bad_request("invalid host header - not ascii")),
            Refusal::MissingSubdomain => Ok(bad_request("invalid host header - missing subdomain")),
            Refusal::InvalidSubdomain => Ok(
                bad_request("invalid host header - subdomain is neither a node id nor a ticket"),
            ),
        }
    }
}

/// The value of the first of `fields` that is named `host`.
pub open spec fn host_value(fields: Seq<(Seq<char>, Seq<u8>)>) -> Option<Seq<u8>>
    decreases fields.len(),
{
    if fields.len() == 0 {
        None
    } else if fields[0].0 == "host"@ {
        Some(fields[0].1)
    } else {
        host_value(fields.drop_first())
    }
}

/// The label that names the node which a request is for, or why there is none.
pub open spec fn subdomain_of(fields: Seq<(Seq<char>, Seq<u8>)>) -> Result<Seq<char>, Refusal> {
    match host_value(fields) {
        None => Err(Refusal::MissingHost),
        Some(value) => if !is_text(value) {
            Err(Refusal::NotAscii)
        } else {
            match before_first(text(value), '.') {
                None => Err(Refusal::MissingSubdomain),
                Some(label) => Ok(label),
            }
        },
    }
}

/// The node that a label names.
pub open spec fn node_of(label: Seq<char>) -> Option<NodeAddrView> {
    match node_id_from_text(label) {
        Some(id) => Some(NodeAddrView::discovered(id)),
        None => None,
    }
}

/// Where a request goes, or why it goes nowhere.
pub open spec fn route(fields: Seq<(Seq<char>, Seq<u8>)>) -> Result<NodeAddrView, Refusal> {
    match subdomain_of(fields) {
        Err(refusal) => Err(refusal),
        Ok(label) => match node_of(label) {
            None => Err(Refusal::InvalidSubdomain),
            Some(to) => Ok(to),
        },
    }
}

proof fn lemma_host_value_at(fields: Seq<(Seq<char>, Seq<u8>)>, i: int)
    requires
        0 <= i < fields.len(),
        fields[i].0 == "host"@,
        forall|j: int| 0 <= j < i ==> (#[trigger] fields[j]).0 != "host"@,
    ensures
        host_value(fields) == Some(fields[i].1),
    decreases i,
{
    if i > 0 {
        let rest = fields.drop_first();
        assert(fields[0].0 != "host"@);
        assert forall|j: int| 0 <= j < i - 1 implies (#[trigger] rest[j]).0 != "host"@ by {
            assert(rest[j] == fields[j + 1]);
        }
        lemma_host_value_at(rest, i - 1);
    }
}

proof fn lemma_host_value_none(fields: Seq<(Seq<char>, Seq<u8>)>)
    requires
        forall|j: int| 0 <= j < fields.len() ==> (#[trigger] fields[j]).0 != "host"@,
    ensures
        host_value(fields) is None,
    decreases fields.len(),
{
    if fields.len() > 0 {
        let rest = fields.drop_first();
        assert(fields[0].0 != "host"@);
        assert forall|j: int| 0 <= j < rest.len() implies (#[trigger] rest[j]).0 != "host"@ by {
            assert(rest[j] == fields[j + 1]);
        }
        lemma_host_value_none(rest);
    }
}

/// The label that names the node which a request with these headers is for.
pub fn subdomain<'a>(headers: &'a HeaderMap<HeaderValue>) -> (r: Result<&'a str, Refusal>)
    ensures
        match (r, subdomain_of(header_fields(*headers))) {
            (Ok(label), Ok(expected)) => label@ == expected,
            (Err(refusal), Err(expected)) => refusal == expected,
            _ => false,
        },
{
    let list = fields(headers);
    let ghost held = header_fields(*headers);
    proof {
        assert forall|j: int| 0 <= j < list@.len() implies #[trigger] names(list@)[j]
            == held[j].0 by {
            assert(list@[j].0@ == held[j].0);
        }
    }
    match find_host(&list) {
        None => {
            proof {
                assert forall|j: int| 0 <= j < held.len() implies (#[trigger] held[j]).0
                    != "host"@ by {
                    assert(names(list@)[j] == held[j].0);
                }
                lemma_host_value_none(held);
            }
            Err(Refusal::MissingHost)
        },
        Some(i) => {
            proof {
                assert forall|j: int| 0 <= j < i implies (#[trigger] held[j]).0 != "host"@ by {
                    assert(names(list@)[j] == held[j].0);
                }
                assert(names(list@)[i as int] == held[i as int].0);
                lemma_host_value_at(held, i as int);
                assert(header_value_bytes(*list@[i as int].1) == held[i as int].1);
            }
            match list[i].1.to_str() {
                Err(_) => Err(Refusal::NotAscii),
                Ok(hostname) => match first_label(hostname) {
                    None => Err(Refusal::MissingSubdomain),
                    Some(label) => Ok(label),
                },
            }
        },
    }
}

/// The error of a label that is not the identifier of a node.
#[derive(Clone, Copy, PartialEq, Eq, Debug, Structural)]
pub struct InvalidSubdomain;

impl InvalidSubdomain {
    /// What is said of it.
    pub fn message(self) -> (r: String)
        ensures
            r@ == "invalid subdomain"@,
    {
        "invalid subdomain".to_owned()
    }
}

/// Where to reach the node that a label was found to name, if it names one: wherever discovery
/// finds it.
pub fn named_node(found: Option<NodeId>) -> (r: Result<NodeAddr, InvalidSubdomain>)
    ensures
        match (r, found) {
            (Ok(addr), Some(id)) => addr@ == NodeAddrView::discovered(id@),
            (Err(_), None) => true,
            _ => false,
        },
        r is Ok <==> found is Some,
        r matches Ok(addr) ==> addr.node_id.bytes@ == found->0.bytes@ && addr.relay_url is None
            && addr.direct_addresses@.len() == 0,
{
    match found {
        Some(id) => Ok(NodeAddr::discovered(id)),
        None => Err(InvalidSubdomain),
    }
}

/// Where to reach the node that a label names.
pub fn parse_subdomain(subdomain: &str) -> (r: Result<NodeAddr, InvalidSubdomain>)
    ensures
        match (r, node_of(subdomain@)) {
            (Ok(addr), Some(expected)) => addr@ == expected,
            (Err(_), None) => true,
            _ => false,
        },
        r is Ok <==> node_id_from_text(subdomain@) is Some,
        r matches Ok(addr) ==> {
            &&& node_id_from_text(subdomain@) == Some(addr.node_id.bytes@)
            &&& addr.relay_url is None
            &&& addr.direct_addresses@.len() == 0
        },
{
    match parse_node_id(subdomain) {
        Ok(id) => named_node(Some(id)),
        Err(_) => named_node(None),
    }
}

/// The way of a request to its node, by what it waits for.
#[derive(Clone, Copy, PartialEq, Eq, Debug, Structural)]
pub enum Proxy {
    /// The connection to the node.
    Dialing,
    /// The stream.
    Opening,
    /// The greeting to be written.
    Greeting,
    /// HTTP to be set up on the stream.
    Attaching,
    /// The response.
    Requesting,
    /// Nothing any more.
    Finished,
}

/// What the proxy asks for. It ends well when the node has responded, and what the node responded is
/// then the response to the client.
pub type ProxyAction<E> = Action<NodeAddr, Vec<u8>, Result<(), E>>;

/// What a `ProxyAction` says.
pub type ProxyAsked<E> = Action<NodeAddrView, Seq<u8>, Result<(), E>>;

impl Proxy {
    /// Where the session goes on an event, and what it then asks for.
    pub open spec fn next<E>(self, event: Event<Seq<u8>, E>) -> (
        Proxy,
        ProxyAsked<E>,
    ) {
        match (self, event) {
            (Proxy::Finished, _) => (self, Action::Await),
            (_, Event::Failed { error }) => (
                Proxy::Finished,
                Action::Finish { result: Err(error) },
            ),
            (Proxy::Dialing, Event::Done) => (Proxy::Opening, Action::OpenStream),
            (Proxy::Opening, Event::Done) => (
                Proxy::Greeting,
                Action::WriteStream { data: HANDSHAKE@ },
            ),
            (Proxy::Greeting, Event::Done) => (
                Proxy::Attaching,
                Action::HttpHandshake {
                    preserve_header_case: PRESERVE_HEADER_CASE,
                    title_case_headers: TITLE_CASE_HEADERS,
                },
            ),
            (Proxy::Attaching, Event::Done) => (Proxy::Requesting, Action::SendRequest),
            (Proxy::Requesting, Event::Done) => (
                Proxy::Finished,
                Action::Finish { result: Ok(()) },
            ),
            _ => (self, Action::Await),
        }
    }

    /// Takes the session on by one event.
    pub fn step<E>(self, event: Event<Vec<u8>, E>) -> (r: (Proxy, ProxyAction<E>))
        ensures
            (r.0, r.1@) == self.next(event@),
    {
        match event {
            Event::Done => match self {
                Proxy::Dialing => (Proxy::Opening, Action::OpenStream),
                Proxy::Opening => (Proxy::Greeting, Action::WriteStream { data: handshake() }),
                Proxy::Greeting => (
                    Proxy::Attaching,
                    Action::HttpHandshake {
                        preserve_header_case: PRESERVE_HEADER_CASE,
                        title_case_headers: TITLE_CASE_HEADERS,
                    },
                ),
                Proxy::Attaching => (Proxy::Requesting, Action::SendRequest),
                Proxy::Requesting => (Proxy::Finished, Action::Finish { result: Ok(()) }),
                Proxy::Finished => (self, Action::Await),
            },
            Event::Failed { error } => match self {
                Proxy::Finished => (self, Action::Await),
                _ => (Proxy::Finished, Action::Finish { result: Err(error) }),
            },
            _ => (self, Action::Await),
        }
    }
}

/// Whether `r` starts the way of a request to a node, or refuses the request, as `expected` says.
pub open spec fn starts_as<E>(
    r: Result<(Proxy, ProxyAction<E>), Refusal>,
    expected: Result<NodeAddrView, Refusal>,
) -> bool {
    match (r, expected) {
        (Ok((session, action)), Ok(to)) => {
            &&& session == Proxy::Dialing
            &&& action@ == (ProxyAsked::<E>::Dial {
                to,
                alpn: Protocol::Tcp.spec_alpn(),
            })
        },
        (Err(refusal), Err(reason)) => refusal == reason,
        _ => false,
    }
}

/// Starts the way of a request to the node that its label was found to name.
pub fn dispatch<E>(node_addr: Result<NodeAddr, InvalidSubdomain>) -> (r: Result<
    (Proxy, ProxyAction<E>),
    Refusal,
>)
    ensures
        starts_as(
            r,
            match node_addr {
                Ok(addr) => Ok(addr@),
                Err(_) => Err(Refusal::InvalidSubdomain),
            },
        ),
        match node_addr {
            Ok(addr) => {
                &&& r matches Ok((session, action))
                &&& session == Proxy::Dialing
                &&& action matches Action::Dial { to, alpn }
                &&& to == addr
                &&& alpn@ == TCP_ALPN@
            },
            Err(_) => r == Err::<(Proxy, ProxyAction<E>), Refusal>(Refusal::InvalidSubdomain),
        },
{
    match node_addr {
        Err(_) => Err(Refusal::InvalidSubdomain),
        Ok(to) => Ok((Proxy::Dialing, Action::Dial { to, alpn: Protocol::Tcp.alpn() })),
    }
}

/// Starts the way of a request with these headers to the node that it is for, or refuses it.
pub fn proxy<E>(headers: &HeaderMap<HeaderValue>) -> (r: Result<(Proxy, ProxyAction<E>), Refusal>)
    ensures
        starts_as(r, route(header_fields(*headers))),
        r matches Ok((session, action)) ==> {
            &&& session == Proxy::Dialing
            &&& action matches Action::Dial { to, alpn }
            &&& route(header_fields(*headers)) matches Ok(node)
            &&& to.node_id.bytes@ == node.node_id
            &&& to.relay_url is None
            &&& to.direct_addresses@.len() == 0
            &&& alpn@ == TCP_ALPN@
        },
        r matches Err(refusal) ==> route(header_fields(*headers)) == Err::<NodeAddrView, Refusal>(
            refusal,
        ),
{
    match subdomain(headers) {
        Err(refusal) => Err(refusal),
        Ok(label) => dispatch(parse_subdomain(label)),
    }
}

/// Of several host headers the first one counts, and no other header does.
pub proof fn law_first_host_counts(
    before: Seq<(Seq<char>, Seq<u8>)>,
    value: Seq<u8>,
    after: Seq<(Seq<char>, Seq<u8>)>,
)
    requires
        forall|j: int| 0 <= j < before.len() ==> (#[trigger] before[j]).0 != "host"@,
    ensures
        route(before + seq![("host"@, value)] + after) == route(seq![("host"@, value)]),
{
    let all = before + seq![("host"@, value)] + after;
    let i = before.len() as int;
    assert(all[i] == ("host"@, value));
    assert forall|j: int| 0 <= j < i implies (#[trigger] all[j]).0 != "host"@ by {
        assert(all[j] == before[j]);
    }
    lemma_host_value_at(all, i);
    lemma_host_value_at(seq![("host"@, value)], 0);
}

/// Only the first label of the host name counts: whatever comes after the first dot, a domain or a
/// port, a request goes where its first label says.
pub proof fn law_first_label_counts(label: Seq<u8>, rest: Seq<u8>)
    requires
        is_text(label),
        is_text(rest),
        !text(label).contains('.'),
    ensures
        route(seq![("host"@, label.push(0x2e) + rest)]) == match node_of(text(label)) {
            Some(to) => Ok(to),
            None => Err(Refusal::InvalidSubdomain),
        },
        match node_id_from_text(Seq::new(label.len(), |j: int| label[j] as char)) {
            Some(id) => {
                &&& route(seq![("host"@, label.push(0x2e) + rest)]) matches Ok(to)
                &&& to.node_id == id
                &&& to.relay_url is None
                &&& to.direct_addresses.len() == 0
            },
            None => route(seq![("host"@, label.push(0x2e) + rest)]) == Err::<NodeAddrView, Refusal>(
                Refusal::InvalidSubdomain,
            ),
        },
{
    let value = label.push(0x2e) + rest;
    let host = text(value);
    let n = label.len() as int;
    lemma_host_value_at(seq![("host"@, value)], 0);
    assert(is_text(value)) by {
        assert forall|i: int| 0 <= i < value.len() implies is_visible(
            #[trigger] value[i],
        ) by {
            if i < n {
                assert(value[i] == label[i]);
            } else if i > n {
                assert(value[i] == rest[i - n - 1]);
            }
        }
    }
    host.index_of_first_ensures('.');
    assert(host[n] == '.');
    let k = host.index_of_first('.')->0;
    if k < n {
        assert(text(label)[k] == host[k]);
    }
    assert(k == n);
    assert(host.take(n) =~= text(label));
    assert(text(label) =~= Seq::new(label.len(), |j: int| label[j] as char));
}

/// A host name without a dot names no node, whatever it is.
pub proof fn law_single_label_is_refused(value: Seq<u8>)
    requires
        is_text(value),
        !text(value).contains('.'),
    ensures
        route(seq![("host"@, value)]) == Err::<NodeAddrView, Refusal>(Refusal::MissingSubdomain),
{
    lemma_host_value_at(seq![("host"@, value)], 0);
    text(value).index_of_first_ensures('.');
}

/// The proxy is the dialling end of a TCP tunnel: the greeting that it writes is the one that the
/// forwarding end waits for.
pub proof fn law_proxy_greets_as_a_tunnel<E>(addr: SocketAddress)
    ensures
        ({
            let written = Proxy::Opening.next::<E>(Event::Done).1;
            &&& written is WriteStream
            &&& (ForwardTcp { addr, phase: ForwardTcpPhase::Greeting }).next::<E>(
                Event::Data { data: written->WriteStream_data },
            ).1 == Action::<NodeAddrView, Seq<u8>, Outcome<E>>::ConnectTcp { addr }
        }),
{
}

/// A run of the way of a request.
pub open spec fn run_proxy<E>(start: Proxy, events: Seq<Event<Seq<u8>, E>>) -> (
    Proxy,
    Seq<ProxyAsked<E>>,
) {
    run(|s: Proxy, e: Event<Seq<u8>, E>| s.next(e), start, events)
}

/// The way of a request of which every step succeeds: a stream, the greeting, HTTP on the stream with
/// header names left as they are, the request, and a good end.
pub proof fn law_proxy_course<E>()
    ensures
        run_proxy::<E>(
            Proxy::Dialing,
            seq![Event::Done, Event::Done, Event::Done, Event::Done, Event::Done],
        ) == (
            Proxy::Finished,
            seq![
                ProxyAsked::<E>::OpenStream,
                Action::WriteStream { data: HANDSHAKE@ },
                Action::HttpHandshake { preserve_header_case: true, title_case_headers: true },
                Action::SendRequest,
                Action::Finish { result: Ok(()) },
            ],
        ),
{
    let next = |s: Proxy, e: Event<Seq<u8>, E>| s.next(e);
    let done: Event<Seq<u8>, E> = Event::Done;
    let first = seq![done, done, done, done];
    lemma_run_four(next, Proxy::Dialing, done, done, done, done);
    lemma_run_one(next, Proxy::Requesting, done);
    lemma_run_appended(next, Proxy::Dialing, first, seq![done]);
    assert(first + seq![done] =~= seq![done, done, done, done, done]);
    let (before, after) = (
        run(next, Proxy::Dialing, first).1,
        run(next, Proxy::Requesting, seq![done]).1,
    );
    assert(before + after =~= seq![
        ProxyAsked::<E>::OpenStream,
        Action::WriteStream { data: HANDSHAKE@ },
        Action::HttpHandshake { preserve_header_case: true, title_case_headers: true },
        Action::SendRequest,
        Action::Finish { result: Ok(()) },
    ]);
}

/// A step that fails ends the way of a request with that error, and a way that has ended asks for
/// nothing more.
pub proof fn law_proxy_failure<E>(session: Proxy, error: E, event: Event<Seq<u8>, E>)
    ensures
        !(session is Finished) ==> session.next(Event::Failed { error }) == (
            Proxy::Finished,
            ProxyAsked::<E>::Finish { result: Err(error) },
        ),
        Proxy::Finished.next(event) == (
            Proxy::Finished,
            ProxyAsked::<E>::Await,
        ),
{
}

proof fn lemma_first_dot(value: Seq<u8>, k: int)
    requires
        0 <= k < value.len(),
        value[k] == 0x2e,
        forall|j: int| 0 <= j < k ==> #[trigger] value[j] != 0x2e,
    ensures
        before_first(text(value), '.') == Some(Seq::new(k as nat, |j: int| value[j] as char)),
{
    let host = text(value);
    let label = Seq::new(k as nat, |j: int| value[j] as char);
    law_before_first(host, '.');
    assert(host[k] == '.');
    let head = before_first(host, '.')->0;
    let n = head.len() as int;
    if n < k {
        assert(host[n] == value[n] as char);
        assert(value[n] != 0x2e);
    } else if n > k {
        assert(head[k] == host[k]);
    }
    assert(head =~= label);
}

/// Where a request goes. The first field named `host` counts, and of its value what stands before the
/// first dot: if that label is the text of a node identifier, the request goes to exactly that node,
/// and to no relay or address that was not found by discovery; if not, it is refused.
pub proof fn law_request_goes_to_the_named_node(
    fields: Seq<(Seq<char>, Seq<u8>)>,
    i: int,
    k: int,
)
    requires
        0 <= i < fields.len(),
        fields[i].0 == "host"@,
        forall|j: int| 0 <= j < i ==> (#[trigger] fields[j]).0 != "host"@,
        forall|j: int|
            0 <= j < fields[i].1.len() ==> (32 <= #[trigger] fields[i].1[j] <= 126
                || fields[i].1[j] == 9),
        0 <= k < fields[i].1.len(),
        fields[i].1[k] == 0x2e,
        forall|j: int| 0 <= j < k ==> #[trigger] fields[i].1[j] != 0x2e,
    ensures
        ({
            let label = Seq::new(k as nat, |j: int| fields[i].1[j] as char);
            &&& subdomain_of(fields) == Ok::<Seq<char>, Refusal>(label)
            &&& match node_id_from_text(label) {
                Some(id) => {
                    &&& route(fields) matches Ok(to)
                    &&& to.node_id == id
                    &&& to.relay_url is None
                    &&& to.direct_addresses.len() == 0
                },
                None => route(fields) == Err::<NodeAddrView, Refusal>(Refusal::InvalidSubdomain),
            }
        }),
{
    lemma_host_value_at(fields, i);
    law_text_is_visible(fields[i].1);
    lemma_first_dot(fields[i].1, k);
}

/// A request with no field named `host` is refused for that.
pub proof fn law_request_without_host(fields: Seq<(Seq<char>, Seq<u8>)>)
    requires
        forall|j: int| 0 <= j < fields.len() ==> (#[trigger] fields[j]).0 != "host"@,
    ensures
        subdomain_of(fields) == Err::<Seq<char>, Refusal>(Refusal::MissingHost),
        route(fields) == Err::<NodeAddrView, Refusal>(Refusal::MissingHost),
{
    lemma_host_value_none(fields);
}

/// A request whose first field named `host` holds a byte that is not visible ASCII, a space or a tab
/// is refused for that.
pub proof fn law_request_with_host_not_ascii(fields: Seq<(Seq<char>, Seq<u8>)>, i: int, k: int)
    requires
        0 <= i < fields.len(),
        fields[i].0 == "host"@,
        forall|j: int| 0 <= j < i ==> (#[trigger] fields[j]).0 != "host"@,
        0 <= k < fields[i].1.len(),
        fields[i].1[k] != 9,
        fields[i].1[k] < 32 || fields[i].1[k] > 126,
    ensures
        subdomain_of(fields) == Err::<Seq<char>, Refusal>(Refusal::NotAscii),
        route(fields) == Err::<NodeAddrView, Refusal>(Refusal::NotAscii),
{
    lemma_host_value_at(fields, i);
    law_text_is_visible(fields[i].1);
    assert(!is_text(fields[i].1)) by {
        let b = fields[i].1[k];
        assert(!(32 <= b <= 126 || b == 9));
    }
}

/// A request whose first field named `host` is text without a dot is refused for that.
pub proof fn law_request_without_subdomain(fields: Seq<(Seq<char>, Seq<u8>)>, i: int)
    requires
        0 <= i < fields.len(),
        fields[i].0 == "host"@,
        forall|j: int| 0 <= j < i ==> (#[trigger] fields[j]).0 != "host"@,
        forall|j: int|
            0 <= j < fields[i].1.len() ==> (32 <= #[trigger] fields[i].1[j] <= 126
                || fields[i].1[j] == 9) && fields[i].1[j] != 0x2e,
    ensures
        subdomain_of(fields) == Err::<Seq<char>, Refusal>(Refusal::MissingSubdomain),
        route(fields) == Err::<NodeAddrView, Refusal>(Refusal::MissingSubdomain),
{
    let value = fields[i].1;
    lemma_host_value_at(fields, i);
    law_text_is_visible(value);
    law_before_first(text(value), '.');
    assert(!text(value).contains('.')) by {
        if text(value).contains('.') {
            let k = text(value).index_of('.');
            assert(value[k] as char == '.');
            assert(value[k] != 0x2e);
        }
    }
}

/// A label names the node of which it is the text, byte for byte, and no path to it; a label that is
/// no such text names none.
pub proof fn law_label_names_its_node(label: Seq<char>)
    ensures
        match node_id_from_text(label) {
            Some(id) => {
                &&& node_of(label) matches Some(to)
                &&& to.node_id == id
                &&& to.relay_url is None
                &&& to.direct_addresses.len() == 0
            },
            None => node_of(label) is None,
        },
{
}

/// What the start of a request dials is the node that the request goes to, byte for byte, and under
/// the name of a TCP tunnel; a request that goes nowhere is refused for the reason that was found.
pub proof fn law_start_of_a_request<E>(
    r: Result<(Proxy, ProxyAction<E>), Refusal>,
    expected: Result<NodeAddrView, Refusal>,
)
    requires
        starts_as(r, expected),
    ensures
        match expected {
            Ok(node) => {
                &&& r matches Ok((session, action))
                &&& session is Dialing
                &&& action matches Action::Dial { to, alpn }
                &&& to.node_id.bytes@ == node.node_id
                &&& to.relay_url is None <==> node.relay_url is None
                &&& to.relay_url is Some ==> node.relay_url == Some(to.relay_url->0@)
                &&& to.direct_addresses@ == node.direct_addresses
                &&& alpn@ == TCP_ALPN@
            },
            Err(refusal) => r == Err::<(Proxy, ProxyAction<E>), Refusal>(refusal),
        },
{
}

/// The start of a request whose host name has a dot, whatever the label before it: where that label is
/// the text of a node identifier, the node of that identifier is dialled, byte for byte, by no relay
/// and at no address known beforehand; where it is not, the request is refused.
pub proof fn law_proxy_dials_the_named_node<E>(
    r: Result<(Proxy, ProxyAction<E>), Refusal>,
    fields: Seq<(Seq<char>, Seq<u8>)>,
    i: int,
    k: int,
)
    requires
        starts_as(r, route(fields)),
        0 <= i < fields.len(),
        fields[i].0 == "host"@,
        forall|j: int| 0 <= j < i ==> (#[trigger] fields[j]).0 != "host"@,
        forall|j: int|
            0 <= j < fields[i].1.len() ==> (32 <= #[trigger] fields[i].1[j] <= 126
                || fields[i].1[j] == 9),
        0 <= k < fields[i].1.len(),
        fields[i].1[k] == 0x2e,
        forall|j: int| 0 <= j < k ==> #[trigger] fields[i].1[j] != 0x2e,
    ensures
        match node_id_from_text(Seq::new(k as nat, |j: int| fields[i].1[j] as char)) {
            Some(id) => {
                &&& r matches Ok((session, action))
                &&& session is Dialing
                &&& action matches Action::Dial { to, alpn }
                &&& to.node_id.bytes@ == id
                &&& to.relay_url is None
                &&& to.direct_addresses@.len() == 0
                &&& alpn@ == TCP_ALPN@
            },
            None => r == Err::<(Proxy, ProxyAction<E>), Refusal>(Refusal::InvalidSubdomain),
        },
{
    law_request_goes_to_the_named_node(fields, i, k);
    law_start_of_a_request(r, route(fields));
}

/// What is said of a refused request, for each reason.
pub proof fn law_reasons(refusal: Refusal)
    ensures
        match refusal {
            Refusal::MissingHost => refusal.reason() == "missing host header"@,
            Refusal::NotAscii => refusal.reason() == "invalid host header - not ascii"@,
            Refusal::MissingSubdomain => refusal.reason()
                == "invalid host header - missing subdomain"@,
            Refusal::InvalidSubdomain => refusal.reason()
                == "invalid host header - subdomain is neither a node id nor a ticket"@,
        },
{
}

/// An event that is no answer to what a request waits for changes nothing.
pub proof fn law_proxy_stray_events<E>(session: Proxy, event: Event<Seq<u8>, E>)
    requires
        event is Data || event is EndOfStream || event is Datagram,
    ensures
        session.next(event) == (session, ProxyAsked::<E>::Await),
{
}

} // verus!
