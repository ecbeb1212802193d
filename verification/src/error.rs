//! Errors reported by the probe codecs and constructors.

use vstd::prelude::*;

verus! {

/// What went wrong while building or decoding a probe packet.
#[derive(Clone, Copy, Debug, PartialEq, Eq, Structural)]
pub enum Error {
    /// A probe was given one IPv4 and one IPv6 endpoint.
    Mixed,
    /// The requested packet size cannot hold the headers.
    ShortBuffer,
    /// A packet or embedded citation ended before its headers did.
    InvalidSlice,
    /// An embedded citation carried a transport protocol no probe uses.
    Unsupported(u8),
}

impl Error {
    /// A short description, for callers that report failures as text.
    pub fn message(&self) -> &'static str {
        match self {
            Error::Mixed => "mixed IPv4 and IPv6 addresses",
            Error::ShortBuffer => "short buffer",
            Error::InvalidSlice => "invalid slice",
            Error::Unsupported(_) => "unsupported protocol",
        }
    }
}

} // verus!
