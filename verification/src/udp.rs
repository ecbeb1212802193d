//! UDP header codec. Probes carry no payload, so a probe is the 8-byte
//! header alone.
//!
//! For IPv4 the caller builds the whole packet with the transport
//! checksum (a zero result is sent as 0xffff, as UDP demands); for IPv6
//! the field stays zero for the kernel to fill.

use vstd::prelude::*;
use crate::addr::SockV4;
use crate::bytes::{be16, u16_hi, u16_lo};
use crate::cksum::{checksum, checksum_of};
use crate::error::Error;
use crate::ip::{ipv4_header_bytes, PROTO_UDP};
use crate::tcp::pseudo_header4;

verus! {

/// The UDP header fields the receive paths read.
#[derive(Clone, Copy, Debug, PartialEq, Eq, Structural)]
pub struct UdpHead {
    pub src_port: u16,
    pub dst_port: u16,
}

/// Parses a UDP header: `None` when the bytes are too short.
pub open spec fn parse_udp(s: Seq<u8>) -> Option<UdpHead> {
    if s.len() < 8 {
        None
    } else {
        Some(UdpHead { src_port: be16(s[0], s[1]), dst_port: be16(s[2], s[3]) })
    }
}

/// An 8-byte payload-free UDP header with the given checksum field.
pub open spec fn udp_header_bytes(src_port: u16, dst_port: u16, cksum: u16) -> Seq<u8> {
    seq![
        u16_hi(src_port), u16_lo(src_port), u16_hi(dst_port), u16_lo(dst_port),
        0u8, 8u8, u16_hi(cksum), u16_lo(cksum),
    ]
}

/// A computed UDP checksum of zero is transmitted as 0xffff, zero being
/// reserved to mean "no checksum".
pub open spec fn no_zero(c: u16) -> u16 {
    if c == 0 {
        0xffffu16
    } else {
        c
    }
}

/// The checksum of an IPv4 probe datagram.
pub open spec fn udp4_cksum(src: SockV4, dst: SockV4) -> u16 {
    no_zero(
        checksum_of(
            pseudo_header4(src.ip, dst.ip, PROTO_UDP, 8) + udp_header_bytes(
                src.port,
                dst.port,
                0,
            ),
        ),
    )
}

/// A whole outgoing IPv4 probe datagram: IP header plus checksummed
/// UDP header.
pub open spec fn udp_packet4(src: SockV4, dst: SockV4, ttl: u8) -> Seq<u8> {
    ipv4_header_bytes(8, ttl, PROTO_UDP, src.ip, dst.ip) + udp_header_bytes(
        src.port,
        dst.port,
        udp4_cksum(src, dst),
    )
}

/// Appends an 8-byte UDP header with the given checksum field to `buf`.
fn push_udp_header(buf: &mut Vec<u8>, src_port: u16, dst_port: u16, cksum: u16)
    ensures
        final(buf)@ == old(buf)@ + udp_header_bytes(src_port, dst_port, cksum),
{
    buf.push((src_port / 256) as u8);
    buf.push((src_port % 256) as u8);
    buf.push((dst_port / 256) as u8);
    buf.push((dst_port % 256) as u8);
    buf.push(0);
    buf.push(8);
    buf.push((cksum / 256) as u8);
    buf.push((cksum % 256) as u8);
    proof {
        assert(final(buf)@ =~= old(buf)@ + udp_header_bytes(src_port, dst_port, cksum));
    }
}

/// Builds a whole IPv4 probe datagram.
pub fn encode_udp4(src: SockV4, dst: SockV4, ttl: u8) -> (r: Vec<u8>)
    ensures
        r@ == udp_packet4(src, dst, ttl),
        r@.len() == 28,
{
    let mut pseudo: Vec<u8> = Vec::new();
    pseudo.push((src.ip / 0x1000000) as u8);
    pseudo.push(((src.ip / 0x10000) % 256) as u8);
    pseudo.push(((src.ip / 0x100) % 256) as u8);
    pseudo.push((src.ip % 256) as u8);
    pseudo.push((dst.ip / 0x1000000) as u8);
    pseudo.push(((dst.ip / 0x10000) % 256) as u8);
    pseudo.push(((dst.ip / 0x100) % 256) as u8);
    pseudo.push((dst.ip % 256) as u8);
    pseudo.push(0);
    pseudo.push(PROTO_UDP);
    pseudo.push(0);
    pseudo.push(8);
    proof {
        assert(pseudo@ =~= pseudo_header4(src.ip, dst.ip, PROTO_UDP, 8));
    }
    push_udp_header(&mut pseudo, src.port, dst.port, 0);
    let c0 = checksum(pseudo.as_slice());
    let c = if c0 == 0 {
        0xffffu16
    } else {
        c0
    };
    let mut pkt = crate::ip::encode_ipv4_header(8, ttl, PROTO_UDP, src.ip, dst.ip);
    push_udp_header(&mut pkt, src.port, dst.port, c);
    proof {
        assert(pkt@ =~= udp_packet4(src, dst, ttl));
    }
    pkt
}

/// Builds a bare UDP header for IPv6, checksum left to the kernel.
pub fn encode_udp6(src_port: u16, dst_port: u16) -> (r: Vec<u8>)
    ensures
        r@ == udp_header_bytes(src_port, dst_port, 0),
        r@.len() == 8,
{
    let mut pkt: Vec<u8> = Vec::new();
    push_udp_header(&mut pkt, src_port, dst_port, 0);
    proof {
        assert(pkt@ =~= udp_header_bytes(src_port, dst_port, 0));
    }
    pkt
}

/// Decodes the UDP header fields off a received datagram.
pub fn decode_udp(s: &[u8]) -> (r: Result<UdpHead, Error>)
    ensures
        match r {
            Ok(head) => parse_udp(s@) == Some(head),
            Err(e) => parse_udp(s@) is None && e == Error::InvalidSlice,
        },
{
    if s.len() < 8 {
        return Err(Error::InvalidSlice);
    }
    Ok(UdpHead {
        src_port: crate::ip::read_u16_at(s, 0),
        dst_port: crate::ip::read_u16_at(s, 2),
    })
}

} // verus!
