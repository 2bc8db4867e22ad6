//! Socket addresses.
use vstd::prelude::*;

verus! {

/// The IPv4 loopback address, 127.0.0.1.
pub const LOCALHOST_V4: u32 = 0x7f00_0001;

/// The IPv6 loopback address, ::1.
pub const LOCALHOST_V6: u128 = 1;

/// An IP address, as the number that its bytes spell in network order, with a port.
#[derive(Clone, Copy, PartialEq, Eq, Debug, Structural)]
pub enum SocketAddress {
    V4 { ipv4: u32, port: u16 },
    V6 { ipv6: u128, port: u16, flowinfo: u32, scope_id: u32 },
}

impl SocketAddress {
    /// Whether this is an IPv6 address.
    pub fn is_ipv6(self) -> (r: bool)
        ensures
            r == (self is V6),
    {
        match self {
            SocketAddress::V4 { .. } => false,
            SocketAddress::V6 { .. } => true,
        }
    }

    /// The loopback address of a family, at a port.
    pub open spec fn spec_loopback(ipv6: bool, port: u16) -> SocketAddress {
        if ipv6 {
            SocketAddress::V6 { ipv6: LOCALHOST_V6, port, flowinfo: 0, scope_id: 0 }
        } else {
            SocketAddress::V4 { ipv4: LOCALHOST_V4, port }
        }
    }

    /// The loopback address of a family, at a port.
    pub fn loopback(ipv6: bool, port: u16) -> (r: SocketAddress)
        ensures
            r == Self::spec_loopback(ipv6, port),
            match r {
                SocketAddress::V4 { ipv4, port: p } => !ipv6 && ipv4 == 0x7f00_0001 && p == port,
                SocketAddress::V6 { ipv6: ip, port: p, flowinfo, scope_id } => ipv6 && ip == 1 && p
                    == port && flowinfo == 0 && scope_id == 0,
            },
    {
        if ipv6 {
            SocketAddress::V6 { ipv6: LOCALHOST_V6, port, flowinfo: 0, scope_id: 0 }
        } else {
            SocketAddress::V4 { ipv4: LOCALHOST_V4, port }
        }
    }
}

/// A loopback address is of the family and at the port that were asked for, whatever they are, and
/// its IP address is 127.0.0.1 or ::1.
pub proof fn law_loopback(ipv6: bool, port: u16)
    ensures
        match SocketAddress::spec_loopback(ipv6, port) {
            SocketAddress::V4 { ipv4, port: p } => !ipv6 && ipv4 == 0x7f00_0001 && p == port,
            SocketAddress::V6 { ipv6: ip, port: p, flowinfo, scope_id } => ipv6 && ip == 1 && p
                == port && flowinfo == 0 && scope_id == 0,
        },
{
}

/// Loopback addresses differ where their families or ports do.
pub proof fn law_loopbacks_differ(ipv6: bool, port: u16, other_ipv6: bool, other_port: u16)
    ensures
        SocketAddress::spec_loopback(ipv6, port) == SocketAddress::spec_loopback(
            other_ipv6,
            other_port,
        ) <==> ipv6 == other_ipv6 && port == other_port,
{
}

} // verus!
