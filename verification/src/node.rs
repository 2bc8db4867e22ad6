//! Nodes of the peer-to-peer network, and how one is named and reached.
use iroh_base::KeyParsingError;
use std::str::FromStr;
use vstd::prelude::*;

use crate::address::SocketAddress;

verus! {

/// The identifier of a node: the bytes of its public key.
#[derive(Clone, Copy, PartialEq, Eq, Debug)]
pub struct NodeId {
    pub bytes: [u8; 32],
}

impl View for NodeId {
    type V = Seq<u8>;

    open spec fn view(&self) -> Seq<u8> {
        self.bytes@
    }
}

/// A node and the network paths to it that are known beforehand.
#[derive(PartialEq, Eq, Debug)]
pub struct NodeAddr {
    pub node_id: NodeId,
    pub relay_url: Option<String>,
    pub direct_addresses: Vec<SocketAddress>,
}

/// What a `NodeAddr` says.
pub struct NodeAddrView {
    pub node_id: Seq<u8>,
    pub relay_url: Option<Seq<char>>,
    pub direct_addresses: Seq<SocketAddress>,
}

impl NodeAddrView {
    /// The address of a node of which only the identifier is known, and which discovery has to
    /// find.
    pub open spec fn discovered(node_id: Seq<u8>) -> NodeAddrView {
        NodeAddrView { node_id, relay_url: None, direct_addresses: Seq::empty() }
    }
}

impl View for NodeAddr {
    type V = NodeAddrView;

    open spec fn view(&self) -> NodeAddrView {
        NodeAddrView {
            node_id: self.node_id@,
            relay_url: match self.relay_url {
                Some(url) => Some(url@),
                None => None,
            },
            direct_addresses: self.direct_addresses@,
        }
    }
}

impl NodeAddr {
    /// The address of a node of which only the identifier is known, and which discovery has to
    /// find.
    pub fn discovered(node_id: NodeId) -> (r: NodeAddr)
        ensures
            r@ == NodeAddrView::discovered(node_id@),
            r.node_id.bytes@ == node_id.bytes@,
            r.relay_url is None,
            r.direct_addresses@.len() == 0,
    {
        NodeAddr { node_id, relay_url: None, direct_addresses: Vec::new() }
    }
}

/// The error of `iroh_base::NodeId::from_str`.
#[verifier::external_type_specification]
#[verifier::external_body]
pub struct ExKeyParsingError(KeyParsingError);

/// The identifier that a text spells, where it spells one: 64 lower-case hexadecimal digits or
/// 52 base-32 digits, of bytes that are a point of the curve.
pub uninterp spec fn node_id_from_text(text: Seq<char>) -> Option<Seq<u8>>;

/// `iroh_base::NodeId::from_str` reads an identifier from its text. What it gives depends on the
/// text alone and is named here, not described.
#[verifier::external_body]
pub(crate) fn parse_node_id(text: &str) -> (r: Result<NodeId, KeyParsingError>)
    ensures
        match r {
            Ok(id) => node_id_from_text(text@) == Some(id@),
            Err(_) => node_id_from_text(text@) is None,
        },
{
    iroh_base::NodeId::from_str(text).map(|id| NodeId { bytes: *id.as_bytes() })
}

/// The address of a node that discovery has to find names that node, byte for byte, and no path to
/// it.
pub proof fn law_discovered_node_is_the_named_one(id: Seq<u8>)
    ensures
        NodeAddrView::discovered(id).node_id == id,
        NodeAddrView::discovered(id).relay_url is None,
        NodeAddrView::discovered(id).direct_addresses.len() == 0,
{
}

/// A node identifier says its bytes, and a node address says what it holds.
pub proof fn law_node_addr_says_what_it_holds(id: NodeId, addr: NodeAddr)
    ensures
        id@ == id.bytes@,
        addr@.node_id == addr.node_id.bytes@,
        addr@.relay_url is None <==> addr.relay_url is None,
        addr.relay_url is Some ==> addr@.relay_url == Some(addr.relay_url->0@),
        addr@.direct_addresses == addr.direct_addresses@,
{
}

} // verus!
