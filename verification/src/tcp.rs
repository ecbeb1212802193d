//! TCP header codec. Probes are bare SYN segments: no options, window
//! 5840, sequence number chosen by the caller.
//!
//! For IPv4 the caller builds the whole packet, IP header and transport
//! checksum included; for IPv6 the checksum field stays zero because the
//! kernel fills it through the socket's checksum offset.

use vstd::prelude::*;
use crate::addr::SockV4;
use crate::bytes::{be16, be32, u16_hi, u16_lo, u32_byte};
use crate::cksum::{checksum, checksum_of};
use crate::error::Error;
use crate::ip::{ipv4_header_bytes, PROTO_TCP};

verus! {

/// The TCP header fields the receive paths read.
#[derive(Clone, Copy, Debug, PartialEq, Eq, Structural)]
pub struct TcpHead {
    pub src_port: u16,
    pub dst_port: u16,
    pub seq: u32,
    pub ack_no: u32,
    pub syn: bool,
    pub ack: bool,
    pub rst: bool,
}

/// Parses a TCP header: `None` when the bytes are too short or claim a
/// data offset below five words or past the end.
pub open spec fn parse_tcp(s: Seq<u8>) -> Option<TcpHead> {
    if s.len() < 20 {
        None
    } else if s[12] / 16 < 5 {
        None
    } else if s.len() < (s[12] / 16) * 4 {
        None
    } else {
        Some(TcpHead {
            src_port: be16(s[0], s[1]),
            dst_port: be16(s[2], s[3]),
            seq: be32(s[4], s[5], s[6], s[7]),
            ack_no: be32(s[8], s[9], s[10], s[11]),
            syn: (s[13] / 2) % 2 == 1,
            ack: (s[13] / 16) % 2 == 1,
            rst: (s[13] / 4) % 2 == 1,
        })
    }
}

/// A 20-byte SYN segment with the given checksum field.
pub open spec fn tcp_syn_bytes(src_port: u16, dst_port: u16, seq: u32, cksum: u16) -> Seq<u8> {
    seq![
        u16_hi(src_port), u16_lo(src_port), u16_hi(dst_port), u16_lo(dst_port),
        u32_byte(seq, 0), u32_byte(seq, 1), u32_byte(seq, 2), u32_byte(seq, 3),
        0u8, 0u8, 0u8, 0u8,
        0x50u8, 0x02u8, 0x16u8, 0xd0u8,
        u16_hi(cksum), u16_lo(cksum), 0u8, 0u8,
    ]
}

/// The IPv4 pseudo-header a transport checksum covers: both addresses,
/// a zero byte, the protocol, and the transport length.
pub open spec fn pseudo_header4(src: u32, dst: u32, proto: u8, tlen: u16) -> Seq<u8> {
    seq![
        u32_byte(src, 0), u32_byte(src, 1), u32_byte(src, 2), u32_byte(src, 3),
        u32_byte(dst, 0), u32_byte(dst, 1), u32_byte(dst, 2), u32_byte(dst, 3),
        0u8, proto, u16_hi(tlen), u16_lo(tlen),
    ]
}

/// The checksum of an IPv4 SYN segment.
pub open spec fn tcp4_cksum(src: SockV4, dst: SockV4, seq: u32) -> u16 {
    checksum_of(
        pseudo_header4(src.ip, dst.ip, PROTO_TCP, 20) + tcp_syn_bytes(
            src.port,
            dst.port,
            seq,
            0,
        ),
    )
}

/// A whole outgoing IPv4 SYN probe: IP header plus checksummed segment.
pub open spec fn tcp_syn_packet4(src: SockV4, dst: SockV4, seq: u32, ttl: u8) -> Seq<u8> {
    ipv4_header_bytes(20, ttl, PROTO_TCP, src.ip, dst.ip) + tcp_syn_bytes(
        src.port,
        dst.port,
        seq,
        tcp4_cksum(src, dst, seq),
    )
}

/// Appends a SYN segment with the given checksum field to `buf`.
fn push_tcp_syn(buf: &mut Vec<u8>, src_port: u16, dst_port: u16, seq: u32, cksum: u16)
    ensures
        final(buf)@ == old(buf)@ + tcp_syn_bytes(src_port, dst_port, seq, cksum),
{
    buf.push((src_port / 256) as u8);
    buf.push((src_port % 256) as u8);
    buf.push((dst_port / 256) as u8);
    buf.push((dst_port % 256) as u8);
    buf.push((seq / 0x1000000) as u8);
    buf.push(((seq / 0x10000) % 256) as u8);
    buf.push(((seq / 0x100) % 256) as u8);
    buf.push((seq % 256) as u8);
    buf.push(0);
    buf.push(0);
    buf.push(0);
    buf.push(0);
    buf.push(0x50);
    buf.push(0x02);
    buf.push(0x16);
    buf.push(0xd0);
    buf.push((cksum / 256) as u8);
    buf.push((cksum % 256) as u8);
    buf.push(0);
    buf.push(0);
    proof {
        assert(final(buf)@ =~= old(buf)@ + tcp_syn_bytes(src_port, dst_port, seq, cksum));
    }
}

/// Builds a whole IPv4 SYN probe packet.
pub fn encode_tcp_syn4(src: SockV4, dst: SockV4, seq: u32, ttl: u8) -> (r: Vec<u8>)
    ensures
        r@ == tcp_syn_packet4(src, dst, seq, ttl),
        r@.len() == 40,
{
    let mut pseudo: Vec<u8> = Vec::new();
    pseudo.push((src.ip / 0x1000000) as u8);
    pseudo.push(((src.ip / 0x10000) % 256) as u8);
    pseudo.push(((src.ip / 0x100) % 256) as u8);
    pseudo.push((src.ip % 256) as u8);
    pseudo.push((dst.ip / 0x1000000) as u8);
    pseudo.push(((dst.ip / 0x10000) % 256) as u8);
    pseudo.push(((dst.ip / 0x100) % 256) as u8);
    pseudo.push((dst.ip % 256) as u8);
    pseudo.push(0);
    pseudo.push(PROTO_TCP);
    pseudo.push(0);
    pseudo.push(20);
    proof {
        assert(pseudo@ =~= pseudo_header4(src.ip, dst.ip, PROTO_TCP, 20));
    }
    push_tcp_syn(&mut pseudo, src.port, dst.port, seq, 0);
    let c = checksum(pseudo.as_slice());
    let mut pkt = crate::ip::encode_ipv4_header(20, ttl, PROTO_TCP, src.ip, dst.ip);
    push_tcp_syn(&mut pkt, src.port, dst.port, seq, c);
    proof {
        assert(pkt@ =~= tcp_syn_packet4(src, dst, seq, ttl));
    }
    pkt
}

/// Builds a bare SYN segment for IPv6, checksum left to the kernel.
pub fn encode_tcp_syn6(src_port: u16, dst_port: u16, seq: u32) -> (r: Vec<u8>)
    ensures
        r@ == tcp_syn_bytes(src_port, dst_port, seq, 0),
        r@.len() == 20,
{
    let mut pkt: Vec<u8> = Vec::new();
    push_tcp_syn(&mut pkt, src_port, dst_port, seq, 0);
    proof {
        assert(pkt@ =~= tcp_syn_bytes(src_port, dst_port, seq, 0));
    }
    pkt
}

/// Decodes the TCP header fields off a received segment.
pub fn decode_tcp(s: &[u8]) -> (r: Result<TcpHead, Error>)
    ensures
        match r {
            Ok(head) => parse_tcp(s@) == Some(head),
            Err(e) => parse_tcp(s@) is None && e == Error::InvalidSlice,
        },
{
    proof {
        crate::bytes::lemma_slice_len_fits(s);
    }
    if s.len() < 20 {
        return Err(Error::InvalidSlice);
    }
    let doff = *vstd::slice::slice_index_get(s, 12) / 16;
    if doff < 5 {
        return Err(Error::InvalidSlice);
    }
    if s.len() < (doff as usize) * 4 {
        return Err(Error::InvalidSlice);
    }
    let flags = *vstd::slice::slice_index_get(s, 13);
    Ok(TcpHead {
        src_port: crate::ip::read_u16_at(s, 0),
        dst_port: crate::ip::read_u16_at(s, 2),
        seq: crate::ip::read_u32_at(s, 4),
        ack_no: crate::ip::read_u32_at(s, 8),
        syn: (flags / 2) % 2 == 1,
        ack: (flags / 16) % 2 == 1,
        rst: (flags / 4) % 2 == 1,
    })
}

} // verus!
