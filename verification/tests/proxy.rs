use http::header::{HeaderMap, HeaderValue};
use ihnet::headers::{find_host, is_host};
use ihnet::node::{NodeAddr, NodeId};
use ihnet::proxy::{
    bad_request, dispatch, named_node, parse_subdomain, proxy, subdomain, InvalidSubdomain, Proxy,
    ProxyAction, ProxyError, Refusal, Reply, BAD_REQUEST,
};
use ihnet::session::{Action, Event};

const HEX: &str = "ae58ff8833241ac82d6ff7611046ed67b5072d142c588d0063e942d9a75502b6";
const BASE32: &str = "vzmp7cbteqnmqllp65qrarxnm62qoliufrmi2add5fbntj2vak3a";
const ID: NodeId = NodeId {
    bytes: [
        0xae, 0x58, 0xff, 0x88, 0x33, 0x24, 0x1a, 0xc8, 0x2d, 0x6f, 0xf7, 0x61, 0x10, 0x46, 0xed,
        0x67, 0xb5, 0x07, 0x2d, 0x14, 0x2c, 0x58, 0x8d, 0x00, 0x63, 0xe9, 0x42, 0xd9, 0xa7, 0x55,
        0x02, 0xb6,
    ],
};

fn discovered(node_id: NodeId) -> NodeAddr {
    NodeAddr { node_id, relay_url: None, direct_addresses: vec![] }
}

fn with_host(value: &[u8]) -> HeaderMap {
    let mut headers: HeaderMap = HeaderMap::new();
    headers.insert("accept", HeaderValue::from_static("a.b"));
    headers.insert("host", HeaderValue::from_bytes(value).unwrap());
    headers
}

fn started(value: &[u8]) -> Result<(Proxy, ProxyAction<String>), Refusal> {
    proxy(&with_host(value))
}

fn dialling() -> Result<(Proxy, ProxyAction<String>), Refusal> {
    Ok((Proxy::Dialing, Action::Dial { to: discovered(ID), alpn: b"INETTCPV0".to_vec() }))
}

#[test]
fn request_goes_to_the_node_of_its_first_label() {
    assert_eq!(started(format!("{BASE32}.localhost:61608").as_bytes()), dialling());
    assert_eq!(started(format!("{BASE32}.example.org").as_bytes()), dialling());
    assert_eq!(started(format!("{BASE32}.").as_bytes()), dialling());
    assert_eq!(started(format!("{HEX}.localhost").as_bytes()), dialling());
    assert_eq!(started(format!("{}.localhost", BASE32.to_uppercase()).as_bytes()), dialling());
}

#[test]
fn request_without_host_is_an_error() {
    let mut headers: HeaderMap = HeaderMap::new();
    assert_eq!(proxy::<String>(&headers), Err(Refusal::MissingHost));
    headers.insert("x-host", HeaderValue::from_static("a.b"));
    assert_eq!(proxy::<String>(&headers), Err(Refusal::MissingHost));
    assert_eq!(
        Refusal::MissingHost.answer(),
        Err(ProxyError { status: 400, cause: String::from("missing host header") })
    );
}

#[test]
fn host_that_is_not_ascii_is_refused() {
    assert_eq!(started(b"caf\xc3\xa9.localhost"), Err(Refusal::NotAscii));
    assert_eq!(started(b"\xff"), Err(Refusal::NotAscii));
    assert_eq!(
        Refusal::NotAscii.answer(),
        Ok(Reply { status: 400, body: String::from("invalid host header - not ascii") })
    );
}

#[test]
fn host_without_subdomain_is_refused() {
    assert_eq!(started(b"localhost"), Err(Refusal::MissingSubdomain));
    assert_eq!(started(b""), Err(Refusal::MissingSubdomain));
    assert_eq!(started(BASE32.as_bytes()), Err(Refusal::MissingSubdomain));
    assert_eq!(
        Refusal::MissingSubdomain.answer(),
        Ok(Reply { status: 400, body: String::from("invalid host header - missing subdomain") })
    );
}

#[test]
fn host_with_another_subdomain_is_refused() {
    assert_eq!(started(b"www.example.org"), Err(Refusal::InvalidSubdomain));
    assert_eq!(started(b".localhost"), Err(Refusal::InvalidSubdomain));
    assert_eq!(started(b"a\tb.c d"), Err(Refusal::InvalidSubdomain));
    assert_eq!(started(format!("www.{BASE32}.org").as_bytes()), Err(Refusal::InvalidSubdomain));
    let upper_hex = HEX.to_uppercase();
    assert_eq!(
        started(format!("{upper_hex}.localhost").as_bytes()),
        Err(Refusal::InvalidSubdomain)
    );
    assert_eq!(
        Refusal::InvalidSubdomain.answer(),
        Ok(Reply {
            status: 400,
            body: String::from(
                "invalid host header - subdomain is neither a node id nor a ticket"
            ),
        })
    );
}

#[test]
fn first_host_header_counts() {
    let mut headers = with_host(format!("{BASE32}.localhost").as_bytes());
    headers.append("host", HeaderValue::from_static("localhost"));
    assert_eq!(proxy::<String>(&headers), dialling());
    let mut headers = with_host(b"localhost");
    headers.append("host", HeaderValue::from_static("a.localhost"));
    assert_eq!(proxy::<String>(&headers), Err(Refusal::MissingSubdomain));
}

#[test]
fn subdomain_of_a_request() {
    assert_eq!(subdomain(&with_host(b"a.b.c")), Ok("a"));
    assert_eq!(subdomain(&with_host(b" a .b")), Ok(" a "));
    assert_eq!(subdomain(&with_host(b"abc")), Err(Refusal::MissingSubdomain));
}

#[test]
fn host_field_is_found() {
    let list: Vec<(&str, u8)> = vec![("accept", 1), ("host", 2), ("host", 3)];
    assert_eq!(find_host(&list), Some(1));
    let list: Vec<(&str, u8)> = vec![("accept", 1), ("hostile", 2)];
    assert_eq!(find_host(&list), None);
    let list: Vec<(&str, u8)> = vec![];
    assert_eq!(find_host(&list), None);
    assert!(is_host("host"));
    assert!(!is_host("hos"));
    assert!(!is_host("Host"));
    assert!(!is_host("hosts"));
}

#[test]
fn subdomains_are_node_ids() {
    assert_eq!(parse_subdomain(HEX), Ok(discovered(ID)));
    assert_eq!(parse_subdomain(BASE32), Ok(discovered(ID)));
    assert_eq!(parse_subdomain("foobarbaz"), Err(InvalidSubdomain));
    assert_eq!(parse_subdomain(""), Err(InvalidSubdomain));
    assert_eq!(InvalidSubdomain.message(), "invalid subdomain");
}

#[test]
fn node_that_was_found() {
    assert_eq!(named_node(Some(ID)), Ok(discovered(ID)));
    assert_eq!(named_node(None), Err(InvalidSubdomain));
    assert_eq!(dispatch::<String>(Ok(discovered(ID))), dialling());
    assert_eq!(dispatch::<String>(Err(InvalidSubdomain)), Err(Refusal::InvalidSubdomain));
}

#[test]
fn bad_requests_say_why() {
    assert_eq!(bad_request("why"), Reply { status: BAD_REQUEST, body: String::from("why") });
    assert_eq!(BAD_REQUEST, http::StatusCode::BAD_REQUEST.as_u16());
}

#[test]
fn course_of_a_request() {
    let mut session = Proxy::Dialing;
    let mut asked: Vec<ProxyAction<String>> = vec![];
    for _ in 0..6 {
        let (next, action) = session.step(Event::Done);
        session = next;
        asked.push(action);
    }
    assert_eq!(
        asked,
        vec![
            Action::OpenStream,
            Action::WriteStream { data: b"wyll".to_vec() },
            Action::HttpHandshake { preserve_header_case: true, title_case_headers: true },
            Action::SendRequest,
            Action::Finish { result: Ok(()) },
            Action::Await,
        ]
    );
}

#[test]
fn failed_request_ends_with_the_error() {
    for session in [
        Proxy::Dialing,
        Proxy::Opening,
        Proxy::Greeting,
        Proxy::Attaching,
        Proxy::Requesting,
    ] {
        assert_eq!(
            session.step(Event::Failed { error: 5 }),
            (Proxy::Finished, Action::Finish { result: Err(5) })
        );
        assert_eq!(session.step::<u8>(Event::EndOfStream), (session, Action::Await));
    }
    assert_eq!(
        Proxy::Finished.step(Event::Failed { error: 5 }),
        (Proxy::Finished, Action::Await)
    );
}
