//! Socket addresses as plain values.
//!
//! The engine works with native socket address structures; this layer only
//! ever reads one fact from a destination address — whether it is the
//! unspecified/wildcard address, which can never name a usable peer — so an
//! address is modelled here as the raw numeric form of its IP together with
//! its port.

use vstd::prelude::*;

verus! {

/// An IP address as its raw numeric value: the four octets of an IPv4
/// address or the sixteen octets of an IPv6 address, in big-endian order.
#[derive(Clone, Copy, Debug, PartialEq, Eq, Structural)]
pub enum IpAddress {
    V4(u32),
    V6(u128),
}

/// A socket address: an IP address and a port.
#[derive(Clone, Copy, Debug, PartialEq, Eq, Structural)]
pub struct SocketAddress {
    pub ip: IpAddress,
    pub port: u16,
}

impl SocketAddress {
    /// Whether the address is the unspecified/wildcard address
    /// (`0.0.0.0` or `::`), whatever its port.
    pub open spec fn is_unspecified_spec(&self) -> bool {
        match self.ip {
            IpAddress::V4(bits) => bits == 0,
            IpAddress::V6(bits) => bits == 0,
        }
    }

    /// Whether the address is the unspecified/wildcard address. A connection
    /// must never be created towards such an address; the caller checks this
    /// before asking the engine for one.
    pub fn is_unspecified(&self) -> (unspecified: bool)
        ensures
            unspecified == self.is_unspecified_spec(),
    {
        match self.ip {
            IpAddress::V4(bits) => bits == 0,
            IpAddress::V6(bits) => bits == 0,
        }
    }
}

} // verus!
