//! ICMPv6 message codec: echo request/reply, destination unreachable,
//! and time exceeded, discriminated on the (type, code) pair.
//!
//! ICMPv6 checksums are computed by the kernel (the sockets set a
//! checksum offset), so the encoder leaves the field zero.

use vstd::prelude::*;
use crate::bytes::be16;
use crate::error::Error;

verus! {

pub const HEADER_SIZE: usize = 8;

pub const UNREACHABLE: u8 = 1;
pub const TIME_EXCEEDED: u8 = 3;
pub const ECHO_REQUEST: u8 = 128;
pub const ECHO_REPLY: u8 = 129;

/// An echo request or reply body.
#[derive(Debug)]
pub struct Echo {
    pub id: u16,
    pub seq: u16,
    pub data: Vec<u8>,
}

/// A destination-unreachable message, by sub-code, carrying the cited
/// bytes of the offending packet.
#[derive(Debug)]
pub enum Unreachable {
    Address(Vec<u8>),
    Port(Vec<u8>),
    Other(u8, Vec<u8>),
}

/// An ICMPv6 message, as the receive loops see it.
#[derive(Debug)]
pub enum IcmpV6Packet {
    Unreachable(Unreachable),
    EchoRequest(Echo),
    EchoReply(Echo),
    HopLimitExceeded(Vec<u8>),
    ReassemblyTimeExceeded(Vec<u8>),
    Other(u8, u8, Vec<u8>),
}

/// `e` holds the echo fields of packet `s`.
pub open spec fn echo_parsed(s: Seq<u8>, e: Echo) -> bool {
    &&& e.id == be16(s[4], s[5])
    &&& e.seq == be16(s[6], s[7])
    &&& e.data@ == s.subrange(8, s.len() as int)
}

/// `u` is the unreachable variant packet `s` selects with its code byte.
pub open spec fn unreachable_parsed(s: Seq<u8>, u: Unreachable) -> bool {
    let cited = s.subrange(8, s.len() as int);
    match u {
        Unreachable::Address(d) => s[1] == 3 && d@ == cited,
        Unreachable::Port(d) => s[1] == 4 && d@ == cited,
        Unreachable::Other(c, d) => c == s[1] && s[1] != 3 && s[1] != 4 && d@ == cited,
    }
}

/// `p` is the message that packet `s` holds.
pub open spec fn icmp6_parsed(s: Seq<u8>, p: IcmpV6Packet) -> bool {
    &&& s.len() >= 8
    &&& match p {
        IcmpV6Packet::Unreachable(u) => s[0] == UNREACHABLE && unreachable_parsed(s, u),
        IcmpV6Packet::HopLimitExceeded(d) => s[0] == TIME_EXCEEDED && s[1] == 0 && d@
            == s.subrange(8, s.len() as int),
        IcmpV6Packet::ReassemblyTimeExceeded(d) => s[0] == TIME_EXCEEDED && s[1] == 1 && d@
            == s.subrange(8, s.len() as int),
        IcmpV6Packet::EchoRequest(e) => s[0] == ECHO_REQUEST && s[1] == 0 && echo_parsed(s, e),
        IcmpV6Packet::EchoReply(e) => s[0] == ECHO_REPLY && s[1] == 0 && echo_parsed(s, e),
        IcmpV6Packet::Other(kind, code, d) => {
            &&& kind == s[0]
            &&& code == s[1]
            &&& d@ == s.subrange(4, s.len() as int)
            &&& s[0] != UNREACHABLE
            &&& !(s[0] == TIME_EXCEEDED && (s[1] == 0 || s[1] == 1))
            &&& !(s[0] == ECHO_REQUEST && s[1] == 0)
            &&& !(s[0] == ECHO_REPLY && s[1] == 0)
        },
    }
}

/// Decodes an ICMPv6 message.
pub fn decode_icmp6(pkt: &[u8]) -> (r: Result<IcmpV6Packet, Error>)
    ensures
        match r {
            Ok(p) => icmp6_parsed(pkt@, p),
            Err(e) => pkt@.len() < 8 && e == Error::InvalidSlice,
        },
{
    let n = pkt.len();
    if n < HEADER_SIZE {
        return Err(Error::InvalidSlice);
    }
    let kind = *vstd::slice::slice_index_get(pkt, 0);
    let code = *vstd::slice::slice_index_get(pkt, 1);
    if kind == UNREACHABLE {
        let cited = vstd::slice::slice_to_vec(vstd::slice::slice_subrange(pkt, 8, n));
        Ok(IcmpV6Packet::Unreachable(
            if code == 3 {
                Unreachable::Address(cited)
            } else if code == 4 {
                Unreachable::Port(cited)
            } else {
                Unreachable::Other(code, cited)
            },
        ))
    } else if kind == TIME_EXCEEDED && code == 0 {
        let cited = vstd::slice::slice_to_vec(vstd::slice::slice_subrange(pkt, 8, n));
        Ok(IcmpV6Packet::HopLimitExceeded(cited))
    } else if kind == TIME_EXCEEDED && code == 1 {
        let cited = vstd::slice::slice_to_vec(vstd::slice::slice_subrange(pkt, 8, n));
        Ok(IcmpV6Packet::ReassemblyTimeExceeded(cited))
    } else if kind == ECHO_REQUEST && code == 0 {
        Ok(IcmpV6Packet::EchoRequest(decode_echo(pkt)))
    } else if kind == ECHO_REPLY && code == 0 {
        Ok(IcmpV6Packet::EchoReply(decode_echo(pkt)))
    } else {
        let rest = vstd::slice::slice_to_vec(vstd::slice::slice_subrange(pkt, 4, n));
        Ok(IcmpV6Packet::Other(kind, code, rest))
    }
}

/// Reads the echo body of a packet whose header was already checked.
fn decode_echo(pkt: &[u8]) -> (e: Echo)
    requires
        pkt@.len() >= 8,
    ensures
        echo_parsed(pkt@, e),
{
    let n = pkt.len();
    let id = crate::ip::read_u16_at(pkt, 4);
    let seq = crate::ip::read_u16_at(pkt, 6);
    let data = vstd::slice::slice_to_vec(vstd::slice::slice_subrange(pkt, 8, n));
    Echo { id, seq, data }
}

} // verus!
