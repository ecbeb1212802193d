//! Trace probes: one per protocol and family, each with the fields that
//! identify it when a router returns it inside an ICMP error.

pub use crate::rng::PORT_MAX;
pub use crate::rng::PORT_MIN;

use vstd::prelude::*;
use crate::addr::{IpAddress, SockAddr, SockV4, SockV6};
use crate::error::Error;
use crate::cksum::with_checksum_at_2;
use crate::icmp4::{echo_packet_zero, encode_echo_packet};
use crate::ip::{encode_ipv4_header, ipv4_header_bytes, PROTO_ICMP};
use crate::tcp::{tcp_syn_bytes, tcp_syn_packet4};
use crate::udp::{udp_header_bytes, udp_packet4};

verus! {

/// The probe protocol a trace runs over; TCP and UDP carry the
/// destination port to aim at.
#[derive(Clone, Copy, Debug, PartialEq, Eq, Structural)]
pub enum Protocol {
    ICMP,
    TCP(u16),
    UDP(u16),
}

impl Default for Protocol {
    /// The traceroute convention: UDP to the base of the port window.
    fn default() -> (r: Self)
        ensures
            r == Protocol::UDP(PORT_MIN),
    {
        Protocol::UDP(PORT_MIN)
    }
}

/// An ICMP echo probe over IPv4.
#[derive(Clone, Copy, Debug, PartialEq, Eq, Structural)]
pub struct ICMPv4 {
    pub src: u32,
    pub dst: u32,
    pub id: u16,
    pub seq: u16,
}

/// An ICMP echo probe over IPv6.
#[derive(Clone, Copy, Debug, PartialEq, Eq, Structural)]
pub struct ICMPv6 {
    pub src: u128,
    pub dst: u128,
    pub id: u16,
    pub seq: u16,
}

/// A TCP SYN probe over IPv4.
#[derive(Clone, Copy, Debug, PartialEq, Eq, Structural)]
pub struct TCPv4 {
    pub src: SockV4,
    pub dst: SockV4,
    pub seq: u32,
}

/// A TCP SYN probe over IPv6.
#[derive(Clone, Copy, Debug, PartialEq, Eq, Structural)]
pub struct TCPv6 {
    pub src: SockV6,
    pub dst: SockV6,
    pub seq: u32,
}

/// A UDP probe over IPv4.
#[derive(Clone, Copy, Debug, PartialEq, Eq, Structural)]
pub struct UDPv4 {
    pub src: SockV4,
    pub dst: SockV4,
}

/// A UDP probe over IPv6.
#[derive(Clone, Copy, Debug, PartialEq, Eq, Structural)]
pub struct UDPv6 {
    pub src: SockV6,
    pub dst: SockV6,
}

#[derive(Clone, Copy, Debug, PartialEq, Eq, Structural)]
pub enum ICMP {
    V4(ICMPv4),
    V6(ICMPv6),
}

#[derive(Clone, Copy, Debug, PartialEq, Eq, Structural)]
pub enum TCP {
    V4(TCPv4),
    V6(TCPv6),
}

#[derive(Clone, Copy, Debug, PartialEq, Eq, Structural)]
pub enum UDP {
    V4(UDPv4),
    V6(UDPv6),
}

/// A trace probe of any protocol and family.
#[derive(Clone, Copy, Debug, PartialEq, Eq, Structural)]
pub enum Probe {
    ICMP(ICMP),
    TCP(TCP),
    UDP(UDP),
}

/// The tuple that identifies an outstanding probe in the demux map:
/// source, destination, and — for ICMP — the echo identifier.
#[derive(Clone, Copy, Debug, PartialEq, Eq, Hash, Structural)]
pub enum Key {
    ICMP(IpAddress, IpAddress, u16),
    TCP(SockAddr, IpAddress),
    UDP(SockAddr, IpAddress),
}

/// The demux key a probe's replies carry.
pub open spec fn spec_key(p: Probe) -> Key {
    match p {
        Probe::ICMP(ICMP::V4(v4)) => Key::ICMP(
            IpAddress::V4(v4.src),
            IpAddress::V4(v4.dst),
            v4.id,
        ),
        Probe::ICMP(ICMP::V6(v6)) => Key::ICMP(
            IpAddress::V6(v6.src),
            IpAddress::V6(v6.dst),
            v6.id,
        ),
        Probe::TCP(TCP::V4(v4)) => Key::TCP(SockAddr::V4(v4.src), IpAddress::V4(v4.dst.ip)),
        Probe::TCP(TCP::V6(v6)) => Key::TCP(SockAddr::V6(v6.src), IpAddress::V6(v6.dst.ip)),
        Probe::UDP(UDP::V4(v4)) => Key::UDP(SockAddr::V4(v4.src), IpAddress::V4(v4.dst.ip)),
        Probe::UDP(UDP::V6(v6)) => Key::UDP(SockAddr::V6(v6.src), IpAddress::V6(v6.dst.ip)),
    }
}

/// A probe after one advance: TCP and ICMP step their sequence number,
/// UDP steps its destination port, so that each emitted packet has a
/// distinct identity.
pub open spec fn spec_increment(p: Probe) -> Probe {
    match p {
        Probe::ICMP(ICMP::V4(v4)) => Probe::ICMP(
            ICMP::V4(ICMPv4 { seq: (v4.seq + 1) as u16, ..v4 }),
        ),
        Probe::ICMP(ICMP::V6(v6)) => Probe::ICMP(
            ICMP::V6(ICMPv6 { seq: (v6.seq + 1) as u16, ..v6 }),
        ),
        Probe::TCP(TCP::V4(v4)) => Probe::TCP(TCP::V4(TCPv4 { seq: (v4.seq + 1) as u32, ..v4 })),
        Probe::TCP(TCP::V6(v6)) => Probe::TCP(TCP::V6(TCPv6 { seq: (v6.seq + 1) as u32, ..v6 })),
        Probe::UDP(UDP::V4(v4)) => Probe::UDP(
            UDP::V4(UDPv4 { dst: SockV4 { ip: v4.dst.ip, port: (v4.dst.port + 1) as u16 }, ..v4 }),
        ),
        Probe::UDP(UDP::V6(v6)) => Probe::UDP(
            UDP::V6(UDPv6 { dst: SockV6 { ip: v6.dst.ip, port: (v6.dst.port + 1) as u16 }, ..v6 }),
        ),
    }
}

/// A probe's wire bytes at a given TTL. For v4 the whole IP packet; for
/// v6 the transport part alone — the hop limit travels as ancillary
/// data and the kernel fills transport checksums.
pub open spec fn spec_encode(p: Probe, ttl: u8) -> Seq<u8> {
    match p {
        Probe::ICMP(ICMP::V4(v4)) => ipv4_header_bytes(8, ttl, PROTO_ICMP, v4.src, v4.dst)
            + with_checksum_at_2(
            echo_packet_zero(crate::icmp4::ECHO_REQUEST, v4.id, v4.seq, Seq::empty()),
        ),
        Probe::ICMP(ICMP::V6(v6)) => echo_packet_zero(
            crate::icmp6::ECHO_REQUEST,
            v6.id,
            v6.seq,
            Seq::empty(),
        ),
        Probe::TCP(TCP::V4(v4)) => tcp_syn_packet4(v4.src, v4.dst, v4.seq, ttl),
        Probe::TCP(TCP::V6(v6)) => tcp_syn_bytes(v6.src.port, v6.dst.port, v6.seq, 0),
        Probe::UDP(UDP::V4(v4)) => udp_packet4(v4.src, v4.dst, ttl),
        Probe::UDP(UDP::V6(v6)) => udp_header_bytes(v6.src.port, v6.dst.port, 0),
    }
}

/// The probe's source address.
pub open spec fn spec_src_ip(p: Probe) -> IpAddress {
    match p {
        Probe::ICMP(ICMP::V4(v4)) => IpAddress::V4(v4.src),
        Probe::ICMP(ICMP::V6(v6)) => IpAddress::V6(v6.src),
        Probe::TCP(TCP::V4(v4)) => IpAddress::V4(v4.src.ip),
        Probe::TCP(TCP::V6(v6)) => IpAddress::V6(v6.src.ip),
        Probe::UDP(UDP::V4(v4)) => IpAddress::V4(v4.src.ip),
        Probe::UDP(UDP::V6(v6)) => IpAddress::V6(v6.src.ip),
    }
}

/// The probe's destination address.
pub open spec fn spec_dst_ip(p: Probe) -> IpAddress {
    match p {
        Probe::ICMP(ICMP::V4(v4)) => IpAddress::V4(v4.dst),
        Probe::ICMP(ICMP::V6(v6)) => IpAddress::V6(v6.dst),
        Probe::TCP(TCP::V4(v4)) => IpAddress::V4(v4.dst.ip),
        Probe::TCP(TCP::V6(v6)) => IpAddress::V6(v6.dst.ip),
        Probe::UDP(UDP::V4(v4)) => IpAddress::V4(v4.dst.ip),
        Probe::UDP(UDP::V6(v6)) => IpAddress::V6(v6.dst.ip),
    }
}

/// The IP protocol number of the probe's packets.
pub open spec fn spec_proto_num(p: Probe) -> u8 {
    match p {
        Probe::ICMP(ICMP::V4(_)) => crate::ip::PROTO_ICMP,
        Probe::ICMP(ICMP::V6(_)) => crate::ip::PROTO_ICMP6,
        Probe::TCP(_) => crate::ip::PROTO_TCP,
        Probe::UDP(_) => crate::ip::PROTO_UDP,
    }
}

/// Whether a probe belongs to the v4 family.
pub open spec fn spec_is_v4(p: Probe) -> bool {
    match p {
        Probe::ICMP(ICMP::V4(_)) => true,
        Probe::TCP(TCP::V4(_)) => true,
        Probe::UDP(UDP::V4(_)) => true,
        _ => false,
    }
}

/// Where a probe's packets are sent: the destination socket address,
/// port 0 for ICMP.
pub open spec fn spec_dst(p: Probe) -> SockAddr {
    match p {
        Probe::ICMP(ICMP::V4(v4)) => SockAddr::V4(SockV4 { ip: v4.dst, port: 0 }),
        Probe::ICMP(ICMP::V6(v6)) => SockAddr::V6(SockV6 { ip: v6.dst, port: 0 }),
        Probe::TCP(TCP::V4(v4)) => SockAddr::V4(v4.dst),
        Probe::TCP(TCP::V6(v6)) => SockAddr::V6(v6.dst),
        Probe::UDP(UDP::V4(v4)) => SockAddr::V4(v4.dst),
        Probe::UDP(UDP::V6(v6)) => SockAddr::V6(v6.dst),
    }
}

impl Probe {
    /// The probe's demux key.
    pub fn key(&self) -> (k: Key)
        ensures
            k == spec_key(*self),
    {
        match self {
            Probe::ICMP(ICMP::V4(v4)) => Key::ICMP(
                IpAddress::V4(v4.src),
                IpAddress::V4(v4.dst),
                v4.id,
            ),
            Probe::ICMP(ICMP::V6(v6)) => Key::ICMP(
                IpAddress::V6(v6.src),
                IpAddress::V6(v6.dst),
                v6.id,
            ),
            Probe::TCP(TCP::V4(v4)) => Key::TCP(SockAddr::V4(v4.src), IpAddress::V4(v4.dst.ip)),
            Probe::TCP(TCP::V6(v6)) => Key::TCP(SockAddr::V6(v6.src), IpAddress::V6(v6.dst.ip)),
            Probe::UDP(UDP::V4(v4)) => Key::UDP(SockAddr::V4(v4.src), IpAddress::V4(v4.dst.ip)),
            Probe::UDP(UDP::V6(v6)) => Key::UDP(SockAddr::V6(v6.src), IpAddress::V6(v6.dst.ip)),
        }
    }

    /// The destination to hand to the socket.
    pub fn dst(&self) -> (r: SockAddr)
        ensures
            r == spec_dst(*self),
    {
        match self {
            Probe::ICMP(ICMP::V4(v4)) => SockAddr::V4(SockV4 { ip: v4.dst, port: 0 }),
            Probe::ICMP(ICMP::V6(v6)) => SockAddr::V6(SockV6 { ip: v6.dst, port: 0 }),
            Probe::TCP(TCP::V4(v4)) => SockAddr::V4(v4.dst),
            Probe::TCP(TCP::V6(v6)) => SockAddr::V6(v6.dst),
            Probe::UDP(UDP::V4(v4)) => SockAddr::V4(v4.dst),
            Probe::UDP(UDP::V6(v6)) => SockAddr::V6(v6.dst),
        }
    }

    /// Advances the field that distinguishes successive packets.
    pub fn increment(&mut self)
        ensures
            *final(self) == spec_increment(*old(self)),
    {
        match self {
            Probe::ICMP(ICMP::V4(v4)) => v4.seq = wrap_inc16(v4.seq),
            Probe::ICMP(ICMP::V6(v6)) => v6.seq = wrap_inc16(v6.seq),
            Probe::TCP(TCP::V4(v4)) => v4.seq = wrap_inc32(v4.seq),
            Probe::TCP(TCP::V6(v6)) => v6.seq = wrap_inc32(v6.seq),
            Probe::UDP(UDP::V4(v4)) => v4.dst.port = wrap_inc16(v4.dst.port),
            Probe::UDP(UDP::V6(v6)) => v6.dst.port = wrap_inc16(v6.dst.port),
        }
    }

    /// Builds the probe's wire bytes for one TTL.
    pub fn encode(&self, ttl: u8) -> (r: Vec<u8>)
        ensures
            r@ == spec_encode(*self, ttl),
    {
        match self {
            Probe::ICMP(ICMP::V4(v4)) => {
                let mut pkt = encode_ipv4_header(8, ttl, PROTO_ICMP, v4.src, v4.dst);
                let none: Vec<u8> = Vec::new();
                let mut echo = encode_echo_packet(
                    crate::icmp4::ECHO_REQUEST,
                    v4.id,
                    v4.seq,
                    none.as_slice(),
                    true,
                );
                pkt.append(&mut echo);
                pkt
            },
            Probe::ICMP(ICMP::V6(v6)) => {
                let none: Vec<u8> = Vec::new();
                encode_echo_packet(crate::icmp6::ECHO_REQUEST, v6.id, v6.seq, none.as_slice(), false)
            },
            Probe::TCP(TCP::V4(v4)) => crate::tcp::encode_tcp_syn4(v4.src, v4.dst, v4.seq, ttl),
            Probe::TCP(TCP::V6(v6)) => crate::tcp::encode_tcp_syn6(
                v6.src.port,
                v6.dst.port,
                v6.seq,
            ),
            Probe::UDP(UDP::V4(v4)) => crate::udp::encode_udp4(v4.src, v4.dst, ttl),
            Probe::UDP(UDP::V6(v6)) => crate::udp::encode_udp6(v6.src.port, v6.dst.port),
        }
    }
}

/// The parameters a reservation fixes: protocol, source (with the drawn
/// port where the protocol has one), destination, and the drawn value.
#[derive(Clone, Copy, Debug, PartialEq, Eq, Structural)]
pub struct Probes {
    pub proto: Protocol,
    pub src: SockAddr,
    pub dst: IpAddress,
    pub value: u16,
}

/// The reservation built from a drawn value: for ICMP the value is the
/// echo identifier and the source port stays 0; for TCP and UDP it is
/// the ephemeral source port.
pub open spec fn spec_probes_new(
    proto: Protocol,
    src: IpAddress,
    dst: IpAddress,
    value: u16,
) -> Probes {
    let port = match proto {
        Protocol::ICMP => 0u16,
        Protocol::TCP(_) => value,
        Protocol::UDP(_) => value,
    };
    Probes { proto, src: spec_sock_with(src, port), dst, value }
}

pub open spec fn spec_sock_with(ip: IpAddress, port: u16) -> SockAddr {
    match ip {
        IpAddress::V4(a) => SockAddr::V4(SockV4 { ip: a, port }),
        IpAddress::V6(a) => SockAddr::V6(SockV6 { ip: a, port }),
    }
}

/// The demux key a reservation claims.
pub open spec fn spec_probes_key(ps: Probes) -> Key {
    match ps.proto {
        Protocol::ICMP => Key::ICMP(crate::addr::spec_sock_ip(ps.src), ps.dst, ps.value),
        Protocol::TCP(_) => Key::TCP(ps.src, ps.dst),
        Protocol::UDP(_) => Key::UDP(ps.src, ps.dst),
    }
}

/// The first probe of a reservation: ICMP starts at sequence 0 with the
/// drawn identifier, TCP starts at sequence 1, UDP aims at the
/// protocol's port. `None` when source and destination families differ.
pub open spec fn spec_probes_probe(ps: Probes) -> Option<Probe> {
    match (ps.src, ps.dst) {
        (SockAddr::V4(s), IpAddress::V4(d)) => Some(
            match ps.proto {
                Protocol::ICMP => Probe::ICMP(
                    ICMP::V4(ICMPv4 { src: s.ip, dst: d, id: ps.value, seq: 0 }),
                ),
                Protocol::TCP(port) => Probe::TCP(
                    TCP::V4(TCPv4 { src: s, dst: SockV4 { ip: d, port }, seq: 1 }),
                ),
                Protocol::UDP(port) => Probe::UDP(
                    UDP::V4(UDPv4 { src: s, dst: SockV4 { ip: d, port } }),
                ),
            },
        ),
        (SockAddr::V6(s), IpAddress::V6(d)) => Some(
            match ps.proto {
                Protocol::ICMP => Probe::ICMP(
                    ICMP::V6(ICMPv6 { src: s.ip, dst: d, id: ps.value, seq: 0 }),
                ),
                Protocol::TCP(port) => Probe::TCP(
                    TCP::V6(TCPv6 { src: s, dst: SockV6 { ip: d, port }, seq: 1 }),
                ),
                Protocol::UDP(port) => Probe::UDP(
                    UDP::V6(UDPv6 { src: s, dst: SockV6 { ip: d, port } }),
                ),
            },
        ),
        _ => None,
    }
}

impl Probes {
    /// Fixes the reservation parameters for a drawn value.
    pub fn new(proto: Protocol, src: IpAddress, dst: IpAddress, value: u16) -> (r: Probes)
        ensures
            r == spec_probes_new(proto, src, dst, value),
    {
        let port = match proto {
            Protocol::ICMP => 0u16,
            Protocol::TCP(_) => value,
            Protocol::UDP(_) => value,
        };
        Probes { proto, src: SockAddr::new(src, port), dst, value }
    }

    /// The key this reservation claims.
    pub fn key(&self) -> (k: Key)
        ensures
            k == spec_probes_key(*self),
    {
        match self.proto {
            Protocol::ICMP => Key::ICMP(self.src.ip(), self.dst, self.value),
            Protocol::TCP(_) => Key::TCP(self.src, self.dst),
            Protocol::UDP(_) => Key::UDP(self.src, self.dst),
        }
    }

    /// The first probe under this reservation.
    pub fn probe(&self) -> (r: Result<Probe, Error>)
        ensures
            match r {
                Ok(p) => spec_probes_probe(*self) == Some(p),
                Err(e) => spec_probes_probe(*self) is None && e == Error::Mixed,
            },
    {
        match (self.src, self.dst) {
            (SockAddr::V4(s), IpAddress::V4(d)) => Ok(
                match self.proto {
                    Protocol::ICMP => Probe::ICMP(
                        ICMP::V4(ICMPv4 { src: s.ip, dst: d, id: self.value, seq: 0 }),
                    ),
                    Protocol::TCP(port) => Probe::TCP(
                        TCP::V4(TCPv4 { src: s, dst: SockV4 { ip: d, port }, seq: 1 }),
                    ),
                    Protocol::UDP(port) => Probe::UDP(
                        UDP::V4(UDPv4 { src: s, dst: SockV4 { ip: d, port } }),
                    ),
                },
            ),
            (SockAddr::V6(s), IpAddress::V6(d)) => Ok(
                match self.proto {
                    Protocol::ICMP => Probe::ICMP(
                        ICMP::V6(ICMPv6 { src: s.ip, dst: d, id: self.value, seq: 0 }),
                    ),
                    Protocol::TCP(port) => Probe::TCP(
                        TCP::V6(TCPv6 { src: s, dst: SockV6 { ip: d, port }, seq: 1 }),
                    ),
                    Protocol::UDP(port) => Probe::UDP(
                        UDP::V6(UDPv6 { src: s, dst: SockV6 { ip: d, port } }),
                    ),
                },
            ),
            _ => Err(Error::Mixed),
        }
    }
}

/// A reservation's first probe answers to the reservation's own key, so
/// replies reach the waiter that made it.
pub proof fn lemma_probe_key_consistent(ps: Probes)
    requires
        spec_probes_probe(ps) is Some,
    ensures
        spec_key(spec_probes_probe(ps)->Some_0) == spec_probes_key(ps),
{
}

fn wrap_inc16(v: u16) -> (r: u16)
    ensures
        r == (v + 1) as u16,
{
    if v == u16::MAX {
        proof {
            assert((v + 1) as u16 == 0) by (bit_vector)
                requires
                    v == u16::MAX,
            ;
        }
        0
    } else {
        v + 1
    }
}

fn wrap_inc32(v: u32) -> (r: u32)
    ensures
        r == (v + 1) as u32,
{
    if v == u32::MAX {
        proof {
            assert((v + 1) as u32 == 0) by (bit_vector)
                requires
                    v == u32::MAX,
            ;
        }
        0
    } else {
        v + 1
    }
}

} // verus!
