//! The source addresses an engine binds its sockets to: one optional
//! v4 and one optional v6 address, wildcard when unset.

use vstd::prelude::*;
use crate::addr::{IpAddress, SockAddr, SockV4, SockV6};

verus! {

/// Chosen source socket addresses, immutable once the engines start.
#[derive(Clone, Copy, Debug, PartialEq, Eq, Structural)]
pub struct Bind {
    pub sa4: Option<SockV4>,
    pub sa6: Option<SockV6>,
}

impl Default for Bind {
    /// No explicit source: both families bind to the wildcard.
    fn default() -> (r: Self)
        ensures
            r.sa4 is None,
            r.sa6 is None,
    {
        Bind { sa4: None, sa6: None }
    }
}

impl Bind {
    /// The v4 socket address to bind: the chosen one, or `0.0.0.0:0`.
    pub fn sa4(&self) -> (r: SockAddr)
        ensures
            r == match self.sa4 {
                Some(s) => SockAddr::V4(s),
                None => SockAddr::V4(SockV4 { ip: 0, port: 0 }),
            },
    {
        match self.sa4 {
            Some(s) => SockAddr::V4(s),
            None => SockAddr::V4(SockV4 { ip: 0, port: 0 }),
        }
    }

    /// The v6 socket address to bind: the chosen one, or `[::]:0`.
    pub fn sa6(&self) -> (r: SockAddr)
        ensures
            r == match self.sa6 {
                Some(s) => SockAddr::V6(s),
                None => SockAddr::V6(SockV6 { ip: 0, port: 0 }),
            },
    {
        match self.sa6 {
            Some(s) => SockAddr::V6(s),
            None => SockAddr::V6(SockV6 { ip: 0, port: 0 }),
        }
    }

    /// Selects the source for the address's family; the other family
    /// keeps its setting.
    pub fn set(&mut self, addr: IpAddress)
        ensures
            match addr {
                IpAddress::V4(ip) => final(self).sa4 == Some(SockV4 { ip, port: 0 })
                    && final(self).sa6 == old(self).sa6,
                IpAddress::V6(ip) => final(self).sa6 == Some(SockV6 { ip, port: 0 })
                    && final(self).sa4 == old(self).sa4,
            },
    {
        match addr {
            IpAddress::V4(ip) => self.sa4 = Some(SockV4 { ip, port: 0 }),
            IpAddress::V6(ip) => self.sa6 = Some(SockV6 { ip, port: 0 }),
        }
    }
}

} // verus!
