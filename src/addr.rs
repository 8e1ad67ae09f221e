//! Socket addresses as plain values.
use vstd::prelude::*;

verus! {

/// An IP address: IPv4 as its 32-bit value, IPv6 as its 128-bit value
/// (both in network order, most significant octet first).
#[derive(Clone, Copy, Debug, PartialEq, Eq, Structural)]
pub enum IpAddress {
    V4(u32),
    V6(u128),
}

/// The address family of a socket.
#[derive(Clone, Copy, Debug, PartialEq, Eq, Structural)]
pub enum AddressFamily {
    Inet4,
    Inet6,
}

/// An IP address together with a port.
#[derive(Clone, Copy, Debug, PartialEq, Eq, Structural)]
pub struct Endpoint {
    pub ip: IpAddress,
    pub port: u16,
}

/// The family an address belongs to.
pub open spec fn family_of(ip: IpAddress) -> AddressFamily {
    match ip {
        IpAddress::V4(_) => AddressFamily::Inet4,
        IpAddress::V6(_) => AddressFamily::Inet6,
    }
}

/// The local endpoint of a source-bound socket: the chosen address, with
/// port 0 so that the operating system assigns a free ephemeral port.
pub open spec fn source_endpoint(ip: IpAddress) -> Endpoint {
    Endpoint { ip, port: 0 }
}

impl IpAddress {
    /// The family of this address.
    pub fn family(&self) -> (r: AddressFamily)
        ensures
            r == family_of(*self),
    {
        match self {
            IpAddress::V4(_) => AddressFamily::Inet4,
            IpAddress::V6(_) => AddressFamily::Inet6,
        }
    }
}

impl Endpoint {
    pub fn new(ip: IpAddress, port: u16) -> (r: Endpoint)
        ensures
            r.ip == ip,
            r.port == port,
    {
        Endpoint { ip, port }
    }

    /// The endpoint a source-bound socket is bound to before it connects.
    pub fn ephemeral(ip: IpAddress) -> (r: Endpoint)
        ensures
            r == source_endpoint(ip),
    {
        Endpoint { ip, port: 0 }
    }

    /// The family of this endpoint's address.
    pub fn family(&self) -> (r: AddressFamily)
        ensures
            r == family_of(self.ip),
    {
        self.ip.family()
    }
}

} // verus!
