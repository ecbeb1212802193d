//! ICMPv4 message codec: echo request/reply, destination unreachable,
//! and time exceeded, discriminated on the (type, code) pair.

use vstd::prelude::*;
use crate::bytes::{be16, u16_hi, u16_lo};
use crate::cksum::{checksum, checksum_of, with_checksum_at_2};
use crate::error::Error;

verus! {

pub const HEADER_SIZE: usize = 8;

pub const ECHO_REPLY: u8 = 0;
pub const UNREACHABLE: u8 = 3;
pub const ECHO_REQUEST: u8 = 8;
pub const TIME_EXCEEDED: u8 = 11;

/// An echo request or reply body: identifier, sequence number, and the
/// echoed data.
#[derive(Debug)]
pub struct Echo {
    pub id: u16,
    pub seq: u16,
    pub data: Vec<u8>,
}

/// A destination-unreachable message, by sub-code; each carries the
/// cited bytes of the offending packet.
#[derive(Debug)]
pub enum Unreachable {
    Net(Vec<u8>),
    Host(Vec<u8>),
    Protocol(Vec<u8>),
    Port(Vec<u8>),
    Other(u8, Vec<u8>),
}

/// An ICMPv4 message, as the receive loops see it.
#[derive(Debug)]
pub enum IcmpV4Packet {
    EchoRequest(Echo),
    EchoReply(Echo),
    Unreachable(Unreachable),
    TimeExceeded(Vec<u8>),
    Other(u8, u8, Vec<u8>),
}

/// `e` holds the echo fields of packet `s`: identifier and sequence in
/// big-endian at offsets 4 and 6, the echoed data after them.
pub open spec fn echo_parsed(s: Seq<u8>, e: Echo) -> bool {
    &&& e.id == be16(s[4], s[5])
    &&& e.seq == be16(s[6], s[7])
    &&& e.data@ == s.subrange(8, s.len() as int)
}

/// `u` is the unreachable variant packet `s` selects with its code byte,
/// carrying the citation that starts at offset 8.
pub open spec fn unreachable_parsed(s: Seq<u8>, u: Unreachable) -> bool {
    let cited = s.subrange(8, s.len() as int);
    match u {
        Unreachable::Net(d) => s[1] == 0 && d@ == cited,
        Unreachable::Host(d) => s[1] == 1 && d@ == cited,
        Unreachable::Protocol(d) => s[1] == 2 && d@ == cited,
        Unreachable::Port(d) => s[1] == 3 && d@ == cited,
        Unreachable::Other(c, d) => c == s[1] && s[1] > 3 && d@ == cited,
    }
}

/// `p` is the message that packet `s` holds.
pub open spec fn icmp4_parsed(s: Seq<u8>, p: IcmpV4Packet) -> bool {
    &&& s.len() >= 8
    &&& match p {
        IcmpV4Packet::EchoReply(e) => s[0] == ECHO_REPLY && s[1] == 0 && echo_parsed(s, e),
        IcmpV4Packet::Unreachable(u) => s[0] == UNREACHABLE && unreachable_parsed(s, u),
        IcmpV4Packet::EchoRequest(e) => s[0] == ECHO_REQUEST && s[1] == 0 && echo_parsed(s, e),
        IcmpV4Packet::TimeExceeded(d) => s[0] == TIME_EXCEEDED && d@ == s.subrange(
            8,
            s.len() as int,
        ),
        IcmpV4Packet::Other(kind, code, d) => {
            &&& kind == s[0]
            &&& code == s[1]
            &&& d@ == s.subrange(4, s.len() as int)
            &&& !(s[0] == ECHO_REPLY && s[1] == 0)
            &&& s[0] != UNREACHABLE
            &&& !(s[0] == ECHO_REQUEST && s[1] == 0)
            &&& s[0] != TIME_EXCEEDED
        },
    }
}

/// Decodes an ICMPv4 message.
pub fn decode_icmp4(pkt: &[u8]) -> (r: Result<IcmpV4Packet, Error>)
    ensures
        match r {
            Ok(p) => icmp4_parsed(pkt@, p),
            Err(e) => pkt@.len() < 8 && e == Error::InvalidSlice,
        },
{
    let n = pkt.len();
    if n < HEADER_SIZE {
        return Err(Error::InvalidSlice);
    }
    let kind = *vstd::slice::slice_index_get(pkt, 0);
    let code = *vstd::slice::slice_index_get(pkt, 1);
    if kind == ECHO_REPLY && code == 0 {
        Ok(IcmpV4Packet::EchoReply(decode_echo(pkt)))
    } else if kind == UNREACHABLE {
        let cited = vstd::slice::slice_to_vec(vstd::slice::slice_subrange(pkt, 8, n));
        Ok(IcmpV4Packet::Unreachable(
            if code == 0 {
                Unreachable::Net(cited)
            } else if code == 1 {
                Unreachable::Host(cited)
            } else if code == 2 {
                Unreachable::Protocol(cited)
            } else if code == 3 {
                Unreachable::Port(cited)
            } else {
                Unreachable::Other(code, cited)
            },
        ))
    } else if kind == ECHO_REQUEST && code == 0 {
        Ok(IcmpV4Packet::EchoRequest(decode_echo(pkt)))
    } else if kind == TIME_EXCEEDED {
        let cited = vstd::slice::slice_to_vec(vstd::slice::slice_subrange(pkt, 8, n));
        Ok(IcmpV4Packet::TimeExceeded(cited))
    } else {
        let rest = vstd::slice::slice_to_vec(vstd::slice::slice_subrange(pkt, 4, n));
        Ok(IcmpV4Packet::Other(kind, code, rest))
    }
}

/// Reads the echo body of a packet whose header was already checked.
fn decode_echo(pkt: &[u8]) -> (e: Echo)
    requires
        pkt@.len() >= 8,
    ensures
        echo_parsed(pkt@, e),
{
    let n = pkt.len();
    let id = crate::ip::read_u16_at(pkt, 4);
    let seq = crate::ip::read_u16_at(pkt, 6);
    let data = vstd::slice::slice_to_vec(vstd::slice::slice_subrange(pkt, 8, n));
    Echo { id, seq, data }
}

/// Writes a packet's own Internet checksum into its checksum field,
/// the step the v4 send path takes before handing bytes to the socket.
pub fn fill_checksum(pkt: &mut Vec<u8>)
    requires
        old(pkt)@.len() >= 4,
        old(pkt)@[2] == 0,
        old(pkt)@[3] == 0,
    ensures
        final(pkt)@ == with_checksum_at_2(old(pkt)@),
{
    let c = checksum(pkt.as_slice());
    pkt.set(2, (c / 256) as u8);
    pkt.set(3, (c % 256) as u8);
    proof {
        assert(pkt@ =~= with_checksum_at_2(old(pkt)@));
    }
}

/// An echo packet before its checksum is written: type byte, code 0,
/// checksum 0, then identifier, sequence, and data.
pub open spec fn echo_packet_zero(kind: u8, id: u16, seq: u16, data: Seq<u8>) -> Seq<u8> {
    seq![kind, 0u8, 0u8, 0u8, u16_hi(id), u16_lo(id), u16_hi(seq), u16_lo(seq)] + data
}

/// Every finished echo packet validates: its folded 16-bit word sum,
/// checksum field included, is 0xffff.
pub proof fn lemma_echo_packet_checksum(kind: u8, id: u16, seq: u16, data: Seq<u8>)
    ensures
        crate::cksum::fold16(
            crate::cksum::word_sum(with_checksum_at_2(echo_packet_zero(kind, id, seq, data))),
        ) == 0xffff,
{
    crate::cksum::lemma_with_checksum_at_2_balances(echo_packet_zero(kind, id, seq, data));
}

/// Builds an echo packet; with `fill_cksum` the Internet checksum is
/// written into bytes 2 and 3 (IPv4), without it the field stays zero
/// for the kernel to fill (IPv6).
pub fn encode_echo_packet(kind: u8, id: u16, seq: u16, data: &[u8], fill_cksum: bool) -> (r:
    Vec<u8>)
    ensures
        fill_cksum ==> r@ == with_checksum_at_2(echo_packet_zero(kind, id, seq, data@)),
        !fill_cksum ==> r@ == echo_packet_zero(kind, id, seq, data@),
        r@.len() == 8 + data@.len(),
{
    let mut p: Vec<u8> = Vec::new();
    p.push(kind);
    p.push(0);
    p.push(0);
    p.push(0);
    p.push((id / 256) as u8);
    p.push((id % 256) as u8);
    p.push((seq / 256) as u8);
    p.push((seq % 256) as u8);
    let mut i: usize = 0;
    let n = data.len();
    proof {
        assert(p@ =~= echo_packet_zero(kind, id, seq, data@.subrange(0, 0)));
    }
    while i < n
        invariant
            i <= n,
            n == data@.len(),
            p@ == echo_packet_zero(kind, id, seq, data@.subrange(0, i as int)),
        decreases n - i,
    {
        p.push(*vstd::slice::slice_index_get(data, i));
        proof {
            assert(p@ =~= echo_packet_zero(kind, id, seq, data@.subrange(0, i + 1)));
        }
        i = i + 1;
    }
    proof {
        assert(data@.subrange(0, n as int) =~= data@);
    }
    if fill_cksum {
        let c = checksum(p.as_slice());
        p.set(2, (c / 256) as u8);
        p.set(3, (c % 256) as u8);
        proof {
            assert(p@ =~= with_checksum_at_2(echo_packet_zero(kind, id, seq, data@)));
        }
    }
    p
}

} // verus!
