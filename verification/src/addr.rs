use vstd::prelude::*;

verus! {

/// The address of a remote UDP endpoint, held as plain values.
///
/// `V4` holds the IPv4 address as its 32-bit big-endian value; `V6` holds the
/// IPv6 address as its 128-bit value together with the flow information and
/// scope id that make part of an IPv6 socket address.
#[derive(Clone, Copy, Debug, PartialEq, Eq, Structural, Hash)]
pub enum PeerAddr {
    V4 { ip4: u32, port: u16 },
    V6 { ip6: u128, port: u16, flowinfo: u32, scope_id: u32 },
}

impl PeerAddr {
    /// Whether this is an IPv4 address.
    pub fn is_ipv4(&self) -> (r: bool)
        ensures
            r == (*self is V4),
    {
        match self {
            PeerAddr::V4 { .. } => true,
            PeerAddr::V6 { .. } => false,
        }
    }

    /// Whether this is an IPv6 address.
    pub fn is_ipv6(&self) -> (r: bool)
        ensures
            r == (*self is V6),
    {
        match self {
            PeerAddr::V4 { .. } => false,
            PeerAddr::V6 { .. } => true,
        }
    }

    /// The port number.
    pub fn port(&self) -> (r: u16)
        ensures
            r == self.port_spec(),
    {
        match self {
            PeerAddr::V4 { port, .. } => *port,
            PeerAddr::V6 { port, .. } => *port,
        }
    }

    pub open spec fn port_spec(&self) -> u16 {
        match self {
            PeerAddr::V4 { port, .. } => *port,
            PeerAddr::V6 { port, .. } => *port,
        }
    }
}

} // verus!
