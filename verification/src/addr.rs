//! Plain-value models of IP addresses and socket addresses.
//!
//! A v4 address is its 32-bit value, a v6 address its 128-bit value, both
//! in the usual big-endian reading of the printed form.

use vstd::prelude::*;

verus! {

/// An IPv4 socket address: host address and port.
#[derive(Clone, Copy, Debug, PartialEq, Eq, Hash, Structural)]
pub struct SockV4 {
    pub ip: u32,
    pub port: u16,
}

/// An IPv6 socket address: host address and port.
#[derive(Clone, Copy, Debug, PartialEq, Eq, Hash, Structural)]
pub struct SockV6 {
    pub ip: u128,
    pub port: u16,
}

/// An IP address of either family.
#[derive(Clone, Copy, Debug, PartialEq, Eq, Hash, Structural)]
pub enum IpAddress {
    V4(u32),
    V6(u128),
}

/// A socket address of either family.
#[derive(Clone, Copy, Debug, PartialEq, Eq, Hash, Structural)]
pub enum SockAddr {
    V4(SockV4),
    V6(SockV6),
}

/// Whether two addresses belong to the same family.
pub open spec fn same_family(a: IpAddress, b: IpAddress) -> bool {
    (a is V4 && b is V4) || (a is V6 && b is V6)
}

pub open spec fn spec_sock_ip(sa: SockAddr) -> IpAddress {
    match sa {
        SockAddr::V4(s) => IpAddress::V4(s.ip),
        SockAddr::V6(s) => IpAddress::V6(s.ip),
    }
}

pub open spec fn spec_sock_port(sa: SockAddr) -> u16 {
    match sa {
        SockAddr::V4(s) => s.port,
        SockAddr::V6(s) => s.port,
    }
}

impl SockAddr {
    /// Pairs an IP address with a port.
    pub fn new(ip: IpAddress, port: u16) -> (r: SockAddr)
        ensures
            spec_sock_ip(r) == ip,
            spec_sock_port(r) == port,
    {
        match ip {
            IpAddress::V4(a) => SockAddr::V4(SockV4 { ip: a, port }),
            IpAddress::V6(a) => SockAddr::V6(SockV6 { ip: a, port }),
        }
    }

    /// The address part.
    pub fn ip(&self) -> (r: IpAddress)
        ensures
            r == spec_sock_ip(*self),
    {
        match self {
            SockAddr::V4(s) => IpAddress::V4(s.ip),
            SockAddr::V6(s) => IpAddress::V6(s.ip),
        }
    }

    /// The port part.
    pub fn port(&self) -> (r: u16)
        ensures
            r == spec_sock_port(*self),
    {
        match self {
            SockAddr::V4(s) => s.port,
            SockAddr::V6(s) => s.port,
        }
    }

    /// The same address with another port.
    pub fn with_port(&self, port: u16) -> (r: SockAddr)
        ensures
            spec_sock_ip(r) == spec_sock_ip(*self),
            spec_sock_port(r) == port,
    {
        SockAddr::new(self.ip(), port)
    }
}

impl IpAddress {
    /// Whether this is a v4 address.
    pub fn is_v4(&self) -> (r: bool)
        ensures
            r == (*self is V4),
    {
        match self {
            IpAddress::V4(_) => true,
            IpAddress::V6(_) => false,
        }
    }
}

} // verus!
