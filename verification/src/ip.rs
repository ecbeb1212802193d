//! IPv4 and IPv6 header codecs.
//!
//! Outgoing v4 probes carry a caller-built IP header (the raw sockets run
//! with `IP_HDRINCL`); v6 probes leave the IP header to the kernel, so
//! only parsing is needed there.

use vstd::prelude::*;
use crate::bytes::{be32, be_value, u16_hi, u16_lo, u32_byte, read_be_bytes};
use crate::cksum::{checksum, checksum_of};
use crate::error::Error;

verus! {

/// IP protocol numbers used by the probes.
pub const PROTO_ICMP: u8 = 1;
pub const PROTO_TCP: u8 = 6;
pub const PROTO_UDP: u8 = 17;
pub const PROTO_ICMP6: u8 = 58;

/// The fields of an IPv4 header that the receive paths read.
#[derive(Clone, Copy, Debug, PartialEq, Eq, Structural)]
pub struct Ipv4Head {
    pub ttl: u8,
    pub proto: u8,
    pub src: u32,
    pub dst: u32,
}

/// The fields of an IPv6 header that the receive paths read.
#[derive(Clone, Copy, Debug, PartialEq, Eq, Structural)]
pub struct Ipv6Head {
    pub next_header: u8,
    pub src: u128,
    pub dst: u128,
}

/// A 20-byte IPv4 header, checksum field still zero: version 4, header
/// length 5 words, total length `20 + payload_len`, identification 0,
/// don't-fragment set.
pub open spec fn ipv4_header_zero_cksum(
    payload_len: u16,
    ttl: u8,
    proto: u8,
    src: u32,
    dst: u32,
) -> Seq<u8> {
    let total = (20 + payload_len) as u16;
    seq![
        0x45u8, 0u8, u16_hi(total), u16_lo(total),
        0u8, 0u8, 0x40u8, 0u8,
        ttl, proto, 0u8, 0u8,
        u32_byte(src, 0), u32_byte(src, 1), u32_byte(src, 2), u32_byte(src, 3),
        u32_byte(dst, 0), u32_byte(dst, 1), u32_byte(dst, 2), u32_byte(dst, 3),
    ]
}

/// The finished IPv4 header, with its Internet checksum in bytes 10-11.
pub open spec fn ipv4_header_bytes(
    payload_len: u16,
    ttl: u8,
    proto: u8,
    src: u32,
    dst: u32,
) -> Seq<u8> {
    let z = ipv4_header_zero_cksum(payload_len, ttl, proto, src, dst);
    let c = checksum_of(z);
    z.update(10, u16_hi(c)).update(11, u16_lo(c))
}

/// Parses an IPv4 header: the fields read by the receive paths and the
/// offset of the payload. `None` when the bytes are no IPv4 header.
pub open spec fn parse_ipv4(s: Seq<u8>) -> Option<(Ipv4Head, int)> {
    if s.len() < 20 {
        None
    } else if s[0] / 16 != 4 {
        None
    } else if s[0] % 16 < 5 {
        None
    } else if s.len() < (s[0] % 16) * 4 {
        None
    } else {
        Some((
            Ipv4Head {
                ttl: s[8],
                proto: s[9],
                src: be32(s[12], s[13], s[14], s[15]),
                dst: be32(s[16], s[17], s[18], s[19]),
            },
            (s[0] % 16) * 4,
        ))
    }
}

/// Parses an IPv6 header; the payload always starts at offset 40.
pub open spec fn parse_ipv6(s: Seq<u8>) -> Option<Ipv6Head> {
    if s.len() < 40 {
        None
    } else if s[0] / 16 != 6 {
        None
    } else {
        Some(Ipv6Head {
            next_header: s[6],
            src: be_value(s.subrange(8, 24)) as u128,
            dst: be_value(s.subrange(24, 40)) as u128,
        })
    }
}

/// Builds the IPv4 header for an outgoing probe, checksum included.
pub fn encode_ipv4_header(payload_len: u16, ttl: u8, proto: u8, src: u32, dst: u32) -> (r: Vec<
    u8,
>)
    requires
        payload_len <= 65515,
    ensures
        r@ == ipv4_header_bytes(payload_len, ttl, proto, src, dst),
        r@.len() == 20,
{
    let total: u16 = 20 + payload_len;
    let mut h: Vec<u8> = Vec::new();
    h.push(0x45);
    h.push(0);
    h.push((total / 256) as u8);
    h.push((total % 256) as u8);
    h.push(0);
    h.push(0);
    h.push(0x40);
    h.push(0);
    h.push(ttl);
    h.push(proto);
    h.push(0);
    h.push(0);
    h.push((src / 0x1000000) as u8);
    h.push(((src / 0x10000) % 256) as u8);
    h.push(((src / 0x100) % 256) as u8);
    h.push((src % 256) as u8);
    h.push((dst / 0x1000000) as u8);
    h.push(((dst / 0x10000) % 256) as u8);
    h.push(((dst / 0x100) % 256) as u8);
    h.push((dst % 256) as u8);
    proof {
        assert(h@ =~= ipv4_header_zero_cksum(payload_len, ttl, proto, src, dst));
    }
    let c = checksum(h.as_slice());
    h.set(10, (c / 256) as u8);
    h.set(11, (c % 256) as u8);
    proof {
        assert(h@ =~= ipv4_header_bytes(payload_len, ttl, proto, src, dst));
    }
    h
}

/// Reads the IPv4 header off a received packet, handing back the fields
/// and the payload offset.
pub fn decode_ipv4_header(s: &[u8]) -> (r: Result<(Ipv4Head, usize), Error>)
    ensures
        match r {
            Ok((head, off)) => parse_ipv4(s@) == Some((head, off as int)) && off <= s@.len(),
            Err(e) => parse_ipv4(s@) is None && e == Error::InvalidSlice,
        },
{
    if s.len() < 20 {
        return Err(Error::InvalidSlice);
    }
    let b0 = *vstd::slice::slice_index_get(s, 0);
    if b0 / 16 != 4 {
        return Err(Error::InvalidSlice);
    }
    let ihl = b0 % 16;
    if ihl < 5 {
        return Err(Error::InvalidSlice);
    }
    let hdr_len: usize = (ihl as usize) * 4;
    if s.len() < hdr_len {
        return Err(Error::InvalidSlice);
    }
    let head = Ipv4Head {
        ttl: *vstd::slice::slice_index_get(s, 8),
        proto: *vstd::slice::slice_index_get(s, 9),
        src: read_u32_at(s, 12),
        dst: read_u32_at(s, 16),
    };
    Ok((head, hdr_len))
}

/// Reads the IPv6 header off an embedded citation.
pub fn decode_ipv6_header(s: &[u8]) -> (r: Result<Ipv6Head, Error>)
    ensures
        match r {
            Ok(head) => parse_ipv6(s@) == Some(head) && s@.len() >= 40,
            Err(e) => parse_ipv6(s@) is None && e == Error::InvalidSlice,
        },
{
    if s.len() < 40 {
        return Err(Error::InvalidSlice);
    }
    let b0 = *vstd::slice::slice_index_get(s, 0);
    if b0 / 16 != 6 {
        return Err(Error::InvalidSlice);
    }
    let src = read_be_bytes(s, 8, 16) as u128;
    let dst = read_be_bytes(s, 24, 16) as u128;
    Ok(Ipv6Head { next_header: *vstd::slice::slice_index_get(s, 6), src, dst })
}

/// Reads a 32-bit big-endian word at offset `i`.
pub fn read_u32_at(s: &[u8], i: usize) -> (r: u32)
    requires
        i + 4 <= s@.len(),
    ensures
        r == be32(s@[i as int], s@[i + 1], s@[i + 2], s@[i + 3]),
{
    proof {
        crate::bytes::lemma_slice_len_fits(s);
    }
    let b0 = *vstd::slice::slice_index_get(s, i);
    let b1 = *vstd::slice::slice_index_get(s, i + 1);
    let b2 = *vstd::slice::slice_index_get(s, i + 2);
    let b3 = *vstd::slice::slice_index_get(s, i + 3);
    (b0 as u32) * 0x1000000 + (b1 as u32) * 0x10000 + (b2 as u32) * 0x100 + (b3 as u32)
}

/// Reads a 16-bit big-endian word at offset `i`.
pub fn read_u16_at(s: &[u8], i: usize) -> (r: u16)
    requires
        i + 2 <= s@.len(),
    ensures
        r == crate::bytes::be16(s@[i as int], s@[i + 1]),
{
    proof {
        crate::bytes::lemma_slice_len_fits(s);
    }
    let b0 = *vstd::slice::slice_index_get(s, i);
    let b1 = *vstd::slice::slice_index_get(s, i + 1);
    (b0 as u16) * 256 + (b1 as u16)
}

} // verus!
