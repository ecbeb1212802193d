//! The knock probe: a TCP SYN to one port, answered (if the port is
//! open) by a SYN+ACK whose acknowledgment number is the probe's
//! sequence number plus one.

use vstd::prelude::*;
use crate::addr::{SockAddr, SockV4, SockV6};
use crate::error::Error;
use crate::ip::{parse_ipv4, PROTO_TCP};
use crate::tcp::{parse_tcp, tcp_syn_bytes, tcp_syn_packet4, TcpHead};

verus! {

/// The TTL of outgoing v4 knock packets.
pub const KNOCK_TTL: u8 = 64;

/// One knock request: target address and port, number of probes, and
/// the per-probe expiry in nanoseconds.
#[derive(Clone, Copy, Debug)]
pub struct Knock {
    pub addr: crate::addr::IpAddress,
    pub port: u16,
    pub count: usize,
    pub expiry: u64,
}

/// A v4 knock probe.
#[derive(Clone, Copy, Debug, PartialEq, Eq, Structural)]
pub struct ProbeV4 {
    pub src: SockV4,
    pub dst: SockV4,
    pub seq: u32,
}

/// A v6 knock probe.
#[derive(Clone, Copy, Debug, PartialEq, Eq, Structural)]
pub struct ProbeV6 {
    pub src: SockV6,
    pub dst: SockV6,
    pub seq: u32,
}

/// A knock probe of either family.
#[derive(Clone, Copy, Debug, PartialEq, Eq, Structural)]
pub enum Probe {
    V4(ProbeV4),
    V6(ProbeV6),
}

impl Probe {
    /// Pairs a source and destination into a probe; both must belong to
    /// one family.
    pub fn new(src: SockAddr, dst: SockAddr, seq: u32) -> (r: Result<Probe, Error>)
        ensures
            match r {
                Ok(p) => match p {
                    Probe::V4(v4) => src == SockAddr::V4(v4.src) && dst == SockAddr::V4(v4.dst)
                        && v4.seq == seq,
                    Probe::V6(v6) => src == SockAddr::V6(v6.src) && dst == SockAddr::V6(v6.dst)
                        && v6.seq == seq,
                },
                Err(e) => e == Error::Mixed && !((src is V4 && dst is V4) || (src is V6
                    && dst is V6)),
            },
            r is Ok <==> ((src is V4 && dst is V4) || (src is V6 && dst is V6)),
    {
        match (src, dst) {
            (SockAddr::V4(s), SockAddr::V4(d)) => Ok(Probe::V4(ProbeV4 { src: s, dst: d, seq })),
            (SockAddr::V6(s), SockAddr::V6(d)) => Ok(Probe::V6(ProbeV6 { src: s, dst: d, seq })),
            _ => Err(Error::Mixed),
        }
    }

    /// The probe's source socket address.
    pub fn src(&self) -> (r: SockAddr)
        ensures
            r == spec_src(*self),
    {
        match self {
            Probe::V4(v4) => SockAddr::V4(v4.src),
            Probe::V6(v6) => SockAddr::V6(v6.src),
        }
    }

    /// The probe's destination socket address.
    pub fn dst(&self) -> (r: SockAddr)
        ensures
            r == spec_dst(*self),
    {
        match self {
            Probe::V4(v4) => SockAddr::V4(v4.dst),
            Probe::V6(v6) => SockAddr::V6(v6.dst),
        }
    }

    /// The probe's TCP sequence number.
    pub fn seq(&self) -> (r: u32)
        ensures
            r == spec_seq(*self),
    {
        match self {
            Probe::V4(v4) => v4.seq,
            Probe::V6(v6) => v6.seq,
        }
    }
}

pub open spec fn spec_src(p: Probe) -> SockAddr {
    match p {
        Probe::V4(v4) => SockAddr::V4(v4.src),
        Probe::V6(v6) => SockAddr::V6(v6.src),
    }
}

pub open spec fn spec_dst(p: Probe) -> SockAddr {
    match p {
        Probe::V4(v4) => SockAddr::V4(v4.dst),
        Probe::V6(v6) => SockAddr::V6(v6.dst),
    }
}

pub open spec fn spec_seq(p: Probe) -> u32 {
    match p {
        Probe::V4(v4) => v4.seq,
        Probe::V6(v6) => v6.seq,
    }
}

impl ProbeV4 {
    /// The probe's wire bytes: IP header (TTL 64) plus checksummed SYN.
    pub fn encode(&self) -> (r: Vec<u8>)
        ensures
            r@ == tcp_syn_packet4(self.src, self.dst, self.seq, KNOCK_TTL),
            r@.len() == 40,
    {
        crate::tcp::encode_tcp_syn4(self.src, self.dst, self.seq, KNOCK_TTL)
    }
}

impl ProbeV6 {
    /// The probe's wire bytes: the SYN segment alone; the kernel builds
    /// the IP header and fills the checksum.
    pub fn encode(&self) -> (r: Vec<u8>)
        ensures
            r@ == tcp_syn_bytes(self.src.port, self.dst.port, self.seq, 0),
            r@.len() == 20,
    {
        crate::tcp::encode_tcp_syn6(self.src.port, self.dst.port, self.seq)
    }
}

/// What counts as the answer to a knock: SYN and ACK set, and the
/// acknowledgment number one past the probe's sequence number.
pub open spec fn spec_reply_matches(seq: u32, head: TcpHead) -> bool {
    head.syn && head.ack && head.ack_no == (seq + 1) as u32
}

/// Decides whether a received TCP header answers the probe with
/// sequence number `seq`.
pub fn reply_matches(seq: u32, head: &TcpHead) -> (r: bool)
    ensures
        r == spec_reply_matches(seq, *head),
{
    let expected: u32 = if seq == u32::MAX {
        proof {
            assert((seq + 1) as u32 == 0) by (bit_vector)
                requires
                    seq == u32::MAX,
            ;
        }
        0
    } else {
        seq + 1
    };
    head.syn && head.ack && head.ack_no == expected
}

/// What a v4 TCP packet on the knock socket means: the local and
/// remote socket addresses — the pair a waiter is registered under —
/// and the TCP header, for the reply match.
pub open spec fn spec_reply4(s: Seq<u8>) -> Option<(SockAddr, SockAddr, TcpHead)> {
    match parse_ipv4(s) {
        Option::None => Option::None,
        Option::Some((h, off)) => {
            if h.proto != PROTO_TCP {
                Option::None
            } else {
                match parse_tcp(s.subrange(off, s.len() as int)) {
                    Option::None => Option::None,
                    Option::Some(t) => Option::Some(
                        (
                            SockAddr::V4(SockV4 { ip: h.dst, port: t.dst_port }),
                            SockAddr::V4(SockV4 { ip: h.src, port: t.src_port }),
                            t,
                        ),
                    ),
                }
            }
        },
    }
}

/// The v6 counterpart; the kernel strips the IP header, so the remote
/// address and the packet-info destination come from the socket.
pub open spec fn spec_reply6(s: Seq<u8>, src: u128, dst: Option<u128>) -> Option<
    (SockAddr, SockAddr, TcpHead),
> {
    match (parse_tcp(s), dst) {
        (Option::Some(t), Option::Some(d)) => Option::Some(
            (
                SockAddr::V6(SockV6 { ip: d, port: t.dst_port }),
                SockAddr::V6(SockV6 { ip: src, port: t.src_port }),
                t,
            ),
        ),
        _ => Option::None,
    }
}

/// Reads a received v4 TCP packet into the waiter pair and header.
pub fn decode_reply4(pkt: &[u8]) -> (r: Option<(SockAddr, SockAddr, TcpHead)>)
    ensures
        r == spec_reply4(pkt@),
{
    proof {
        crate::bytes::lemma_slice_len_fits(pkt);
    }
    match crate::ip::decode_ipv4_header(pkt) {
        Err(_) => None,
        Ok((head, off)) => {
            if head.proto != PROTO_TCP {
                return None;
            }
            let tail = vstd::slice::slice_subrange(pkt, off, pkt.len());
            match crate::tcp::decode_tcp(tail) {
                Err(_) => None,
                Ok(t) => Some(
                    (
                        SockAddr::V4(SockV4 { ip: head.dst, port: t.dst_port }),
                        SockAddr::V4(SockV4 { ip: head.src, port: t.src_port }),
                        t,
                    ),
                ),
            }
        },
    }
}

/// Reads a received v6 TCP segment into the waiter pair and header.
pub fn decode_reply6(pkt: &[u8], src: u128, dst: Option<u128>) -> (r: Option<
    (SockAddr, SockAddr, TcpHead),
>)
    ensures
        r == spec_reply6(pkt@, src, dst),
{
    match (crate::tcp::decode_tcp(pkt), dst) {
        (Ok(t), Some(d)) => Some(
            (
                SockAddr::V6(SockV6 { ip: d, port: t.dst_port }),
                SockAddr::V6(SockV6 { ip: src, port: t.src_port }),
                t,
            ),
        ),
        _ => None,
    }
}

} // verus!
