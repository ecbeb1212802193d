//! Decoding replies back to demux keys.
//!
//! Routers answer probes with ICMP errors that cite the first bytes of
//! the offending packet, IP header first. The decoder reads that cited
//! header, dispatches on the transport protocol, and rebuilds the key
//! the probe was reserved under. Direct answers (echo replies, TCP
//! responses) are mapped to keys from their own headers.

use vstd::prelude::*;
use crate::addr::{IpAddress, SockAddr, SockV4, SockV6};
use crate::bytes::be16;
use crate::error::Error;
use crate::ip::{parse_ipv4, parse_ipv6, PROTO_ICMP, PROTO_ICMP6, PROTO_TCP, PROTO_UDP};
use crate::tcp::parse_tcp;
use crate::udp::parse_udp;
use crate::trace::probe::{Key, Probe, ICMP, TCP, UDP};

verus! {

/// How many cited bytes the TCP reader works on.
pub const CITATION_LEN: usize = 64;

/// A TCP citation may be truncated below a header's 20 bytes: the
/// working buffer is the citation, cut to 64 bytes, padded with 0x50 —
/// a benign data-offset byte — so the header parse goes through and
/// only the leading fields are trusted.
pub open spec fn pad_citation(tail: Seq<u8>) -> Seq<u8> {
    if tail.len() >= CITATION_LEN {
        tail.subrange(0, CITATION_LEN as int)
    } else {
        tail + Seq::new((CITATION_LEN - tail.len()) as nat, |i: int| 0x50u8)
    }
}

/// The key of the probe cited inside a v4 ICMP error: the cited IPv4
/// header names source, destination and protocol; the transport bytes
/// after it carry the identifier or the ports.
pub open spec fn embedded_key4(s: Seq<u8>) -> Option<Key> {
    match parse_ipv4(s) {
        Option::None => Option::None,
        Option::Some((h, off)) => {
            let tail = s.subrange(off, s.len() as int);
            if h.proto == PROTO_ICMP {
                if tail.len() >= 8 {
                    Option::Some(
                        Key::ICMP(
                            IpAddress::V4(h.src),
                            IpAddress::V4(h.dst),
                            be16(tail[4], tail[5]),
                        ),
                    )
                } else {
                    Option::None
                }
            } else if h.proto == PROTO_TCP {
                match parse_tcp(pad_citation(tail)) {
                    Option::None => Option::None,
                    Option::Some(t) => Option::Some(
                        Key::TCP(
                            SockAddr::V4(SockV4 { ip: h.src, port: t.src_port }),
                            IpAddress::V4(h.dst),
                        ),
                    ),
                }
            } else if h.proto == PROTO_UDP {
                match parse_udp(tail) {
                    Option::None => Option::None,
                    Option::Some(u) => Option::Some(
                        Key::UDP(
                            SockAddr::V4(SockV4 { ip: h.src, port: u.src_port }),
                            IpAddress::V4(h.dst),
                        ),
                    ),
                }
            } else {
                Option::None
            }
        },
    }
}

/// The key of the probe cited inside a v6 ICMP error.
pub open spec fn embedded_key6(s: Seq<u8>) -> Option<Key> {
    match parse_ipv6(s) {
        Option::None => Option::None,
        Option::Some(h) => {
            let tail = s.subrange(40, s.len() as int);
            if h.next_header == PROTO_ICMP6 {
                if tail.len() >= 8 {
                    Option::Some(
                        Key::ICMP(
                            IpAddress::V6(h.src),
                            IpAddress::V6(h.dst),
                            be16(tail[4], tail[5]),
                        ),
                    )
                } else {
                    Option::None
                }
            } else if h.next_header == PROTO_TCP {
                match parse_tcp(pad_citation(tail)) {
                    Option::None => Option::None,
                    Option::Some(t) => Option::Some(
                        Key::TCP(
                            SockAddr::V6(SockV6 { ip: h.src, port: t.src_port }),
                            IpAddress::V6(h.dst),
                        ),
                    ),
                }
            } else if h.next_header == PROTO_UDP {
                match parse_udp(tail) {
                    Option::None => Option::None,
                    Option::Some(u) => Option::Some(
                        Key::UDP(
                            SockAddr::V6(SockV6 { ip: h.src, port: u.src_port }),
                            IpAddress::V6(h.dst),
                        ),
                    ),
                }
            } else {
                Option::None
            }
        },
    }
}

/// Builds the padded working buffer for a TCP citation.
fn pad_citation_buf(tail: &[u8]) -> (r: Vec<u8>)
    ensures
        r@ == pad_citation(tail@),
        r@.len() == CITATION_LEN,
{
    proof {
        crate::bytes::lemma_slice_len_fits(tail);
    }
    let n = if tail.len() >= CITATION_LEN {
        CITATION_LEN
    } else {
        tail.len()
    };
    let mut buf = vstd::slice::slice_to_vec(vstd::slice::slice_subrange(tail, 0, n));
    proof {
        assert(buf@.subrange(0, n as int) =~= tail@.subrange(0, n as int));
    }
    while buf.len() < CITATION_LEN
        invariant
            n <= CITATION_LEN,
            n <= tail@.len(),
            n <= buf@.len() <= CITATION_LEN,
            buf@.subrange(0, n as int) == tail@.subrange(0, n as int),
            forall|j: int| n <= j < buf@.len() ==> buf@[j] == 0x50u8,
        decreases CITATION_LEN - buf@.len(),
    {
        let ghost pre = buf@;
        buf.push(0x50);
        proof {
            assert(buf@.subrange(0, n as int) =~= pre.subrange(0, n as int));
        }
    }
    proof {
        assert forall|j: int| 0 <= j < n implies buf@[j] == tail@[j] by {
            assert(buf@.subrange(0, n as int)[j] == tail@.subrange(0, n as int)[j]);
        }
        assert(buf@ =~= pad_citation(tail@));
    }
    buf
}

/// The error a failed citation decode reports: a malformed or short
/// header, or a transport protocol no probe uses.
pub open spec fn embedded_err4(s: Seq<u8>) -> Error {
    match parse_ipv4(s) {
        Option::None => Error::InvalidSlice,
        Option::Some((h, _off)) => {
            if h.proto == PROTO_ICMP {
                Error::ShortBuffer
            } else if h.proto == PROTO_TCP || h.proto == PROTO_UDP {
                Error::InvalidSlice
            } else {
                Error::Unsupported(h.proto)
            }
        },
    }
}

/// The v6 counterpart of `embedded_err4`.
pub open spec fn embedded_err6(s: Seq<u8>) -> Error {
    match parse_ipv6(s) {
        Option::None => Error::InvalidSlice,
        Option::Some(h) => {
            if h.next_header == PROTO_ICMP6 {
                Error::ShortBuffer
            } else if h.next_header == PROTO_TCP || h.next_header == PROTO_UDP {
                Error::InvalidSlice
            } else {
                Error::Unsupported(h.next_header)
            }
        },
    }
}

impl Probe {
    /// Rebuilds the demux key of the probe cited in a v4 ICMP error.
    pub fn decode4(pkt: &[u8]) -> (r: Result<Key, Error>)
        ensures
            match r {
                Ok(k) => embedded_key4(pkt@) == Some(k),
                Err(e) => embedded_key4(pkt@) is None && e == embedded_err4(pkt@),
            },
    {
        proof {
            crate::bytes::lemma_slice_len_fits(pkt);
        }
        let (head, off) = match crate::ip::decode_ipv4_header(pkt) {
            Ok(parsed) => parsed,
            Err(e) => return Err(e),
        };
        let tail = vstd::slice::slice_subrange(pkt, off, pkt.len());
        if head.proto == PROTO_ICMP {
            if tail.len() < 8 {
                return Err(Error::ShortBuffer);
            }
            let id = crate::ip::read_u16_at(tail, 4);
            Ok(Key::ICMP(IpAddress::V4(head.src), IpAddress::V4(head.dst), id))
        } else if head.proto == PROTO_TCP {
            let padded = pad_citation_buf(tail);
            match crate::tcp::decode_tcp(padded.as_slice()) {
                Ok(t) => Ok(
                    Key::TCP(SockAddr::V4(SockV4 { ip: head.src, port: t.src_port }), IpAddress::V4(head.dst)),
                ),
                Err(e) => Err(e),
            }
        } else if head.proto == PROTO_UDP {
            match crate::udp::decode_udp(tail) {
                Ok(u) => Ok(
                    Key::UDP(SockAddr::V4(SockV4 { ip: head.src, port: u.src_port }), IpAddress::V4(head.dst)),
                ),
                Err(e) => Err(e),
            }
        } else {
            Err(Error::Unsupported(head.proto))
        }
    }

    /// Rebuilds the demux key of the probe cited in a v6 ICMP error.
    pub fn decode6(pkt: &[u8]) -> (r: Result<Key, Error>)
        ensures
            match r {
                Ok(k) => embedded_key6(pkt@) == Some(k),
                Err(e) => embedded_key6(pkt@) is None && e == embedded_err6(pkt@),
            },
    {
        proof {
            crate::bytes::lemma_slice_len_fits(pkt);
        }
        let head = match crate::ip::decode_ipv6_header(pkt) {
            Ok(parsed) => parsed,
            Err(e) => return Err(e),
        };
        let tail = vstd::slice::slice_subrange(pkt, 40, pkt.len());
        if head.next_header == PROTO_ICMP6 {
            if tail.len() < 8 {
                return Err(Error::ShortBuffer);
            }
            let id = crate::ip::read_u16_at(tail, 4);
            Ok(Key::ICMP(IpAddress::V6(head.src), IpAddress::V6(head.dst), id))
        } else if head.next_header == PROTO_TCP {
            let padded = pad_citation_buf(tail);
            match crate::tcp::decode_tcp(padded.as_slice()) {
                Ok(t) => Ok(
                    Key::TCP(SockAddr::V6(SockV6 { ip: head.src, port: t.src_port }), IpAddress::V6(head.dst)),
                ),
                Err(e) => Err(e),
            }
        } else if head.next_header == PROTO_UDP {
            match crate::udp::decode_udp(tail) {
                Ok(u) => Ok(
                    Key::UDP(SockAddr::V6(SockV6 { ip: head.src, port: u.src_port }), IpAddress::V6(head.dst)),
                ),
                Err(e) => Err(e),
            }
        } else {
            Err(Error::Unsupported(head.next_header))
        }
    }
}

/// Round trip for v4 probes: when a router cites a probe's packet whole
/// in an ICMP error, the decoder rebuilds exactly the key the probe was
/// reserved under, whatever the TTL was.
pub proof fn lemma_probe_round_trip4(p: crate::trace::probe::Probe, ttl: u8)
    requires
        crate::trace::probe::spec_is_v4(p),
    ensures
        embedded_key4(crate::trace::probe::spec_encode(p, ttl)) == Some(
            crate::trace::probe::spec_key(p),
        ),
{
    let s = crate::trace::probe::spec_encode(p, ttl);
    match p {
        Probe::ICMP(ICMP::V4(v4)) => {
            assert(s.subrange(0, 20) =~= crate::ip::ipv4_header_bytes(8, ttl, PROTO_ICMP, v4.src, v4.dst));
            lemma_ipv4_header_parses(8, ttl, PROTO_ICMP, v4.src, v4.dst, s);
            let tail = s.subrange(20, s.len() as int);
            let echo = crate::cksum::with_checksum_at_2(
                crate::icmp4::echo_packet_zero(crate::icmp4::ECHO_REQUEST, v4.id, v4.seq, Seq::empty()),
            );
            assert(tail =~= echo);
            crate::bytes::lemma_be16_round_trip(v4.id);
        },
        Probe::TCP(TCP::V4(v4)) => {
            assert(s.subrange(0, 20) =~= crate::ip::ipv4_header_bytes(20, ttl, PROTO_TCP, v4.src.ip, v4.dst.ip));
            lemma_ipv4_header_parses(20, ttl, PROTO_TCP, v4.src.ip, v4.dst.ip, s);
            let tail = s.subrange(20, s.len() as int);
            let seg = crate::tcp::tcp_syn_bytes(
                v4.src.port,
                v4.dst.port,
                v4.seq,
                crate::tcp::tcp4_cksum(v4.src, v4.dst, v4.seq),
            );
            assert(tail =~= seg);
            let padded = pad_citation(tail);
            assert(padded.len() == 64);
            assert(padded[12] == 0x50);
            assert(padded[0] == seg[0] && padded[1] == seg[1]);
            crate::bytes::lemma_be16_round_trip(v4.src.port);
        },
        Probe::UDP(UDP::V4(v4)) => {
            assert(s.subrange(0, 20) =~= crate::ip::ipv4_header_bytes(8, ttl, PROTO_UDP, v4.src.ip, v4.dst.ip));
            lemma_ipv4_header_parses(8, ttl, PROTO_UDP, v4.src.ip, v4.dst.ip, s);
            let tail = s.subrange(20, s.len() as int);
            let dgram = crate::udp::udp_header_bytes(
                v4.src.port,
                v4.dst.port,
                crate::udp::udp4_cksum(v4.src, v4.dst),
            );
            assert(tail =~= dgram);
            crate::bytes::lemma_be16_round_trip(v4.src.port);
        },
        _ => {},
    }
}

/// Round trip for v6 probes: the library emits the transport bytes and
/// the kernel prepends the IPv6 header, so the claim holds for any
/// 40-byte header naming the probe's protocol and endpoints.
pub proof fn lemma_probe_round_trip6(p: crate::trace::probe::Probe, pre: Seq<u8>, ttl: u8)
    requires
        !crate::trace::probe::spec_is_v4(p),
        pre.len() == 40,
        parse_ipv6(pre) matches Some(h) && h.next_header == crate::trace::probe::spec_proto_num(p)
            && IpAddress::V6(h.src) == crate::trace::probe::spec_src_ip(p) && IpAddress::V6(h.dst)
            == crate::trace::probe::spec_dst_ip(p),
    ensures
        embedded_key6(pre + crate::trace::probe::spec_encode(p, ttl)) == Some(
            crate::trace::probe::spec_key(p),
        ),
{
    let body = crate::trace::probe::spec_encode(p, ttl);
    let s = pre + body;
    assert(parse_ipv6(s) == parse_ipv6(pre)) by {
        assert(s.len() >= 40);
        assert(s[0] == pre[0]);
        assert(s.subrange(8, 24) =~= pre.subrange(8, 24));
        assert(s.subrange(24, 40) =~= pre.subrange(24, 40));
        assert(s[6] == pre[6]);
    }
    let tail = s.subrange(40, s.len() as int);
    assert(tail =~= body);
    match p {
        Probe::ICMP(ICMP::V6(v6)) => {
            crate::bytes::lemma_be16_round_trip(v6.id);
        },
        Probe::TCP(TCP::V6(v6)) => {
            let seg = crate::tcp::tcp_syn_bytes(v6.src.port, v6.dst.port, v6.seq, 0);
            let padded = pad_citation(tail);
            assert(padded.len() == 64);
            assert(padded[12] == 0x50);
            assert(padded[0] == seg[0] && padded[1] == seg[1]);
            crate::bytes::lemma_be16_round_trip(v6.src.port);
        },
        Probe::UDP(UDP::V6(v6)) => {
            crate::bytes::lemma_be16_round_trip(v6.src.port);
        },
        _ => {},
    }
}

/// The v4 header of an encoded probe parses back to its own fields.
proof fn lemma_ipv4_header_parses(payload_len: u16, ttl: u8, proto: u8, src: u32, dst: u32, s: Seq<u8>)
    requires
        payload_len <= 65515,
        s.len() >= 20,
        s.subrange(0, 20) == crate::ip::ipv4_header_bytes(payload_len, ttl, proto, src, dst),
    ensures
        parse_ipv4(s) matches Some((h, off)) && off == 20 && h.proto == proto && h.src == src
            && h.dst == dst && h.ttl == ttl,
{
    let hdr = crate::ip::ipv4_header_bytes(payload_len, ttl, proto, src, dst);
    assert(s[0] == hdr[0] && s[8] == hdr[8] && s[9] == hdr[9]);
    assert(s[12] == hdr[12] && s[13] == hdr[13] && s[14] == hdr[14] && s[15] == hdr[15]);
    assert(s[16] == hdr[16] && s[17] == hdr[17] && s[18] == hdr[18] && s[19] == hdr[19]);
    assert(hdr[0] == 0x45);
    crate::bytes::lemma_be32_round_trip(src);
    crate::bytes::lemma_be32_round_trip(dst);
}

/// What a v4 ICMP packet means to the trace engine: the key to route it
/// to and whether it is terminal. Time-exceeded errors are not terminal
/// (the probe died en route), unreachable errors are (the destination
/// answered with unreachability), echo replies are (the target spoke).
pub open spec fn spec_classify_icmp4(s: Seq<u8>) -> Option<(Key, bool)> {
    match parse_ipv4(s) {
        Option::None => Option::None,
        Option::Some((h, off)) => {
            let tail = s.subrange(off, s.len() as int);
            if h.proto != PROTO_ICMP || tail.len() < 8 {
                Option::None
            } else {
                let inner = tail.subrange(8, tail.len() as int);
                if tail[0] == crate::icmp4::TIME_EXCEEDED {
                    match embedded_key4(inner) {
                        Option::Some(k) => Option::Some((k, false)),
                        Option::None => Option::None,
                    }
                } else if tail[0] == crate::icmp4::UNREACHABLE {
                    match embedded_key4(inner) {
                        Option::Some(k) => Option::Some((k, true)),
                        Option::None => Option::None,
                    }
                } else if tail[0] == crate::icmp4::ECHO_REPLY && tail[1] == 0 {
                    Option::Some(
                        (
                            Key::ICMP(
                                IpAddress::V4(h.dst),
                                IpAddress::V4(h.src),
                                be16(tail[4], tail[5]),
                            ),
                            true,
                        ),
                    )
                } else {
                    Option::None
                }
            }
        },
    }
}

/// What a v6 ICMP packet means to the trace engine. The kernel strips
/// the IP header, so the packet starts at the ICMPv6 header; `src` is
/// the sender and `dst` the local address the packet-info ancillary
/// data reported, which an echo-reply key needs.
pub open spec fn spec_classify_icmp6(s: Seq<u8>, src: u128, dst: Option<u128>) -> Option<
    (Key, bool),
> {
    if s.len() < 8 {
        Option::None
    } else {
        let inner = s.subrange(8, s.len() as int);
        if s[0] == crate::icmp6::TIME_EXCEEDED && s[1] == 0 {
            match embedded_key6(inner) {
                Option::Some(k) => Option::Some((k, false)),
                Option::None => Option::None,
            }
        } else if s[0] == crate::icmp6::UNREACHABLE {
            match embedded_key6(inner) {
                Option::Some(k) => Option::Some((k, true)),
                Option::None => Option::None,
            }
        } else if s[0] == crate::icmp6::ECHO_REPLY && s[1] == 0 {
            match dst {
                Option::Some(d) => Option::Some(
                    (
                        Key::ICMP(IpAddress::V6(d), IpAddress::V6(src), be16(s[4], s[5])),
                        true,
                    ),
                ),
                Option::None => Option::None,
            }
        } else {
            Option::None
        }
    }
}

/// A direct TCP answer to a v4 trace probe: any segment back to the
/// ephemeral port means the target itself responded, so it is terminal.
pub open spec fn spec_classify_tcp4(s: Seq<u8>) -> Option<(Key, bool)> {
    match parse_ipv4(s) {
        Option::None => Option::None,
        Option::Some((h, off)) => {
            if h.proto != PROTO_TCP {
                Option::None
            } else {
                match parse_tcp(s.subrange(off, s.len() as int)) {
                    Option::None => Option::None,
                    Option::Some(t) => Option::Some(
                        (
                            Key::TCP(
                                SockAddr::V4(SockV4 { ip: h.dst, port: t.dst_port }),
                                IpAddress::V4(h.src),
                            ),
                            true,
                        ),
                    ),
                }
            }
        },
    }
}

/// A direct TCP answer to a v6 trace probe; the kernel strips the IP
/// header, so source and local destination come from the socket.
pub open spec fn spec_classify_tcp6(s: Seq<u8>, src: u128, dst: Option<u128>) -> Option<
    (Key, bool),
> {
    match (parse_tcp(s), dst) {
        (Option::Some(t), Option::Some(d)) => Option::Some(
            (
                Key::TCP(SockAddr::V6(SockV6 { ip: d, port: t.dst_port }), IpAddress::V6(src)),
                true,
            ),
        ),
        _ => Option::None,
    }
}

/// A v4 destination-unreachable error citing one of this library's
/// probe packets whole routes to that probe's own key, and is terminal.
pub proof fn lemma_unreachable_is_terminal(o: Seq<u8>, p: Probe, ttl: u8)
    requires
        crate::trace::probe::spec_is_v4(p),
        parse_ipv4(o) is Some,
        parse_ipv4(o)->Some_0.0.proto == PROTO_ICMP,
        o.subrange(parse_ipv4(o)->Some_0.1, o.len() as int).len() >= 8,
        o.subrange(parse_ipv4(o)->Some_0.1, o.len() as int)[0] == crate::icmp4::UNREACHABLE,
        o.subrange(parse_ipv4(o)->Some_0.1, o.len() as int).subrange(
            8,
            o.subrange(parse_ipv4(o)->Some_0.1, o.len() as int).len() as int,
        ) == crate::trace::probe::spec_encode(p, ttl),
    ensures
        spec_classify_icmp4(o) == Some((crate::trace::probe::spec_key(p), true)),
{
    lemma_probe_round_trip4(p, ttl);
}

/// Routes a received v4 ICMP packet: the key of the waiter it belongs
/// to and whether the answer is terminal.
pub fn classify_icmp4(pkt: &[u8]) -> (r: Option<(Key, bool)>)
    ensures
        r == spec_classify_icmp4(pkt@),
{
    proof {
        crate::bytes::lemma_slice_len_fits(pkt);
    }
    let parsed = crate::ip::decode_ipv4_header(pkt);
    match parsed {
        Err(_) => None,
        Ok((head, off)) => {
            let tail = vstd::slice::slice_subrange(pkt, off, pkt.len());
            if head.proto != PROTO_ICMP || tail.len() < 8 {
                return None;
            }
            let kind = *vstd::slice::slice_index_get(tail, 0);
            let code = *vstd::slice::slice_index_get(tail, 1);
            let inner = vstd::slice::slice_subrange(tail, 8, tail.len());
            if kind == crate::icmp4::TIME_EXCEEDED {
                match Probe::decode4(inner) {
                    Ok(k) => Some((k, false)),
                    Err(_) => None,
                }
            } else if kind == crate::icmp4::UNREACHABLE {
                match Probe::decode4(inner) {
                    Ok(k) => Some((k, true)),
                    Err(_) => None,
                }
            } else if kind == crate::icmp4::ECHO_REPLY && code == 0 {
                let id = crate::ip::read_u16_at(tail, 4);
                Some((Key::ICMP(IpAddress::V4(head.dst), IpAddress::V4(head.src), id), true))
            } else {
                None
            }
        },
    }
}

/// Routes a received v6 ICMP packet.
pub fn classify_icmp6(pkt: &[u8], src: u128, dst: Option<u128>) -> (r: Option<(Key, bool)>)
    ensures
        r == spec_classify_icmp6(pkt@, src, dst),
{
    proof {
        crate::bytes::lemma_slice_len_fits(pkt);
    }
    if pkt.len() < 8 {
        return None;
    }
    let kind = *vstd::slice::slice_index_get(pkt, 0);
    let code = *vstd::slice::slice_index_get(pkt, 1);
    let inner = vstd::slice::slice_subrange(pkt, 8, pkt.len());
    if kind == crate::icmp6::TIME_EXCEEDED && code == 0 {
        match Probe::decode6(inner) {
            Ok(k) => Some((k, false)),
            Err(_) => None,
        }
    } else if kind == crate::icmp6::UNREACHABLE {
        match Probe::decode6(inner) {
            Ok(k) => Some((k, true)),
            Err(_) => None,
        }
    } else if kind == crate::icmp6::ECHO_REPLY && code == 0 {
        match dst {
            Some(d) => {
                let id = crate::ip::read_u16_at(pkt, 4);
                Some((Key::ICMP(IpAddress::V6(d), IpAddress::V6(src), id), true))
            },
            None => None,
        }
    } else {
        None
    }
}

/// Routes a received v4 TCP segment for the trace engine.
pub fn classify_tcp4(pkt: &[u8]) -> (r: Option<(Key, bool)>)
    ensures
        r == spec_classify_tcp4(pkt@),
{
    proof {
        crate::bytes::lemma_slice_len_fits(pkt);
    }
    let parsed = crate::ip::decode_ipv4_header(pkt);
    match parsed {
        Err(_) => None,
        Ok((head, off)) => {
            if head.proto != PROTO_TCP {
                return None;
            }
            let tail = vstd::slice::slice_subrange(pkt, off, pkt.len());
            match crate::tcp::decode_tcp(tail) {
                Err(_) => None,
                Ok(t) => Some(
                    (
                        Key::TCP(
                            SockAddr::V4(SockV4 { ip: head.dst, port: t.dst_port }),
                            IpAddress::V4(head.src),
                        ),
                        true,
                    ),
                ),
            }
        },
    }
}

/// Routes a received v6 TCP segment for the trace engine.
pub fn classify_tcp6(pkt: &[u8], src: u128, dst: Option<u128>) -> (r: Option<(Key, bool)>)
    ensures
        r == spec_classify_tcp6(pkt@, src, dst),
{
    match (crate::tcp::decode_tcp(pkt), dst) {
        (Ok(t), Some(d)) => Some(
            (
                Key::TCP(SockAddr::V6(SockV6 { ip: d, port: t.dst_port }), IpAddress::V6(src)),
                true,
            ),
        ),
        _ => None,
    }
}

} // verus!
