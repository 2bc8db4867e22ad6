//! What two nodes agree on before any payload flows: the protocol names that they
//! negotiate, and the greeting that opens every stream.
use vstd::prelude::*;

use crate::bytes::{bytes_equal, copy_bytes};

verus! {

/// The application protocol name of a TCP tunnel: `INETTCPV0`.
pub const TCP_ALPN: [u8; 9] = [0x49, 0x4e, 0x45, 0x54, 0x54, 0x43, 0x50, 0x56, 0x30];

/// The application protocol name of a UDP tunnel: `INETUDPV0`.
pub const UDP_ALPN: [u8; 9] = [0x49, 0x4e, 0x45, 0x54, 0x55, 0x44, 0x50, 0x56, 0x30];

/// The bytes that the dialling side sends first on every stream: `wyll`.
pub const HANDSHAKE: [u8; 4] = [0x77, 0x79, 0x6c, 0x6c];

/// What a tunnel carries.
#[derive(Clone, Copy, PartialEq, Eq, Debug, Structural)]
pub enum Protocol {
    Tcp,
    Udp,
}

impl Protocol {
    /// The name under which the protocol is negotiated.
    pub open spec fn spec_alpn(self) -> Seq<u8> {
        match self {
            Protocol::Tcp => TCP_ALPN@,
            Protocol::Udp => UDP_ALPN@,
        }
    }

    /// The name under which the protocol is negotiated.
    pub fn alpn(self) -> (r: Vec<u8>)
        ensures
            r@ == self.spec_alpn(),
            self is Tcp ==> r@ == TCP_ALPN@,
            self is Udp ==> r@ == UDP_ALPN@,
    {
        match self {
            Protocol::Tcp => copy_bytes(&TCP_ALPN),
            Protocol::Udp => copy_bytes(&UDP_ALPN),
        }
    }

    /// Whether `name` negotiates this protocol.
    pub fn is_named(self, name: &[u8]) -> (r: bool)
        ensures
            r == (name@ == self.spec_alpn()),
            self is Tcp ==> r == (name@ == TCP_ALPN@),
            self is Udp ==> r == (name@ == UDP_ALPN@),
    {
        match self {
            Protocol::Tcp => bytes_equal(name, &TCP_ALPN),
            Protocol::Udp => bytes_equal(name, &UDP_ALPN),
        }
    }
}

/// The greeting as bytes to send.
pub fn handshake() -> (r: Vec<u8>)
    ensures
        r@ == HANDSHAKE@,
{
    copy_bytes(&HANDSHAKE)
}

/// Whether the bytes that a peer sent first are the greeting.
pub fn is_handshake(received: &[u8]) -> (r: bool)
    ensures
        r == (received@ == HANDSHAKE@),
{
    bytes_equal(received, &HANDSHAKE)
}

/// The two protocol names differ, so a name negotiates at most one protocol.
pub proof fn law_alpns_differ(a: Protocol, b: Protocol)
    ensures
        a.spec_alpn() == b.spec_alpn() <==> a == b,
{
    assert(TCP_ALPN@[4] == 0x54u8);
    assert(UDP_ALPN@[4] == 0x55u8);
}

/// What is agreed on, byte for byte: the name of each protocol, `INETTCPV0` or `INETUDPV0`, and the
/// greeting, `wyll`.
pub proof fn law_agreed_bytes(protocol: Protocol)
    ensures
        protocol is Tcp ==> protocol.spec_alpn() == seq![
            0x49u8, 0x4e, 0x45, 0x54, 0x54, 0x43, 0x50, 0x56, 0x30,
        ],
        protocol is Udp ==> protocol.spec_alpn() == seq![
            0x49u8, 0x4e, 0x45, 0x54, 0x55, 0x44, 0x50, 0x56, 0x30,
        ],
        HANDSHAKE@ == seq![0x77u8, 0x79, 0x6c, 0x6c],
{
    assert(TCP_ALPN@ =~= seq![0x49u8, 0x4e, 0x45, 0x54, 0x54, 0x43, 0x50, 0x56, 0x30]);
    assert(UDP_ALPN@ =~= seq![0x49u8, 0x4e, 0x45, 0x54, 0x55, 0x44, 0x50, 0x56, 0x30]);
    assert(HANDSHAKE@ =~= seq![0x77u8, 0x79, 0x6c, 0x6c]);
}

} // verus!
