//! The ping probe: an ICMP echo request carrying a random 128-bit token
//! at the start of its echo data. Receivers match replies on that token
//! alone; the identifier and sequence ride along for diagnostics.

use vstd::prelude::*;
use crate::addr::IpAddress;
use crate::bytes::{be_value, be_bytes_of, pow256, read_be_bytes};
use crate::cksum::with_checksum_at_2;
use crate::error::Error;
use crate::icmp4::{echo_packet_zero, encode_echo_packet};
use crate::rng::random_token;

verus! {

/// The token and the echo header before it.
pub const TOKEN_SIZE: usize = 16;

pub const MIN_PACKET: usize = 24;

/// One ping request: target, number of echoes, per-echo expiry in
/// nanoseconds, and the packet size to send.
#[derive(Clone, Copy, Debug)]
pub struct Ping {
    pub addr: IpAddress,
    pub count: usize,
    pub expiry: u64,
    pub size: usize,
}

/// The 16 random bytes that identify one outstanding echo probe, read
/// as one big-endian value.
#[derive(Clone, Copy, Debug, PartialEq, Eq, Hash, Structural)]
pub struct Token {
    pub bits: u128,
}

/// One echo probe: target, echoed identifier and sequence, total packet
/// size, and the matching token.
#[derive(Clone, Copy, Debug)]
pub struct Probe {
    pub addr: IpAddress,
    pub id: u16,
    pub seq: u16,
    pub size: usize,
    pub token: Token,
}

/// The echo request type byte for the probe's address family.
pub open spec fn ping_kind(addr: IpAddress) -> u8 {
    if addr is V4 {
        crate::icmp4::ECHO_REQUEST
    } else {
        crate::icmp6::ECHO_REQUEST
    }
}

/// The echo data of a probe: the token's bytes, zero-padded so that the
/// whole packet reaches `size` bytes.
pub open spec fn ping_data(token: Token, size: nat) -> Seq<u8> {
    be_bytes_of(token.bits as nat, 16) + Seq::new((size - MIN_PACKET) as nat, |i: int| 0u8)
}

/// A probe's packet, checksum field still zero.
pub open spec fn ping_packet_bytes(p: Probe) -> Seq<u8> {
    echo_packet_zero(ping_kind(p.addr), p.id, p.seq, ping_data(p.token, p.size as nat))
}

/// The token at the start of some echo data, when there is room for one.
pub open spec fn spec_token_prefix(data: Seq<u8>) -> Option<Token> {
    if data.len() >= TOKEN_SIZE {
        Some(Token { bits: be_value(data.subrange(0, TOKEN_SIZE as int)) as u128 })
    } else {
        None
    }
}

impl Probe {
    /// A fresh probe with a random token.
    pub fn new(addr: IpAddress, id: u16, seq: u16, size: usize) -> (p: Probe)
        ensures
            p.addr == addr,
            p.id == id,
            p.seq == seq,
            p.size == size,
    {
        Probe { addr, id, seq, size, token: random_token() }
    }

    /// Builds the probe's packet, checksum field zero: the v6 socket
    /// leaves the checksum to the kernel, the v4 send path fills it
    /// with `crate::icmp4::fill_checksum`.
    pub fn encode(&self) -> (r: Result<Vec<u8>, Error>)
        ensures
            match r {
                Ok(v) => self.size >= MIN_PACKET && v@ == ping_packet_bytes(*self) && v@.len()
                    == self.size,
                Err(e) => self.size < MIN_PACKET && e == Error::ShortBuffer,
            },
    {
        if self.size < MIN_PACKET {
            return Err(Error::ShortBuffer);
        }
        let mut data: Vec<u8> = Vec::new();
        crate::bytes::append_be_bytes(&mut data, self.token.bits, 16);
        proof {
            crate::bytes::lemma_be_bytes_of_len(self.token.bits as nat, 16);
            assert(data@ =~= ping_data(self.token, self.size as nat).subrange(0, 16));
        }
        let pad = self.size - MIN_PACKET;
        let mut k: usize = 0;
        while k < pad
            invariant
                k <= pad,
                pad == self.size - MIN_PACKET,
                self.size >= MIN_PACKET,
                data@ == ping_data(self.token, self.size as nat).subrange(0, 16 + k),
            decreases pad - k,
        {
            data.push(0);
            proof {
                crate::bytes::lemma_be_bytes_of_len(self.token.bits as nat, 16);
                assert(data@ =~= ping_data(self.token, self.size as nat).subrange(
                    0,
                    16 + k + 1,
                ));
            }
            k = k + 1;
        }
        proof {
            crate::bytes::lemma_be_bytes_of_len(self.token.bits as nat, 16);
            assert(data@ =~= ping_data(self.token, self.size as nat));
        }
        let kind = if self.addr.is_v4() {
            crate::icmp4::ECHO_REQUEST
        } else {
            crate::icmp6::ECHO_REQUEST
        };
        Ok(encode_echo_packet(kind, self.id, self.seq, data.as_slice(), false))
    }
}

/// Reads the token off the start of received echo data; `None` when the
/// data is too short to hold one.
pub fn token_prefix(data: &[u8]) -> (r: Option<Token>)
    ensures
        r == spec_token_prefix(data@),
{
    if data.len() < TOKEN_SIZE {
        return None;
    }
    let bits = read_be_bytes(data, 0, TOKEN_SIZE);
    Some(Token { bits })
}

/// The round-trip time between a send and an arrival on the monotonic
/// clock, saturating so that it is never negative.
pub fn rtt_nanos(sent: u64, arrival: u64) -> (r: u64)
    ensures
        r == if arrival >= sent {
            arrival - sent
        } else {
            0
        },
{
    if arrival >= sent {
        arrival - sent
    } else {
        0
    }
}

/// An ICMPv4 message that carries a v4 probe's own packet (as an echo
/// reply would) parses to an echo whose data yields the probe's token.
pub proof fn lemma_ping_token_round_trip4(p: Probe, pkt: crate::icmp4::IcmpV4Packet)
    requires
        p.size >= MIN_PACKET,
        p.addr is V4,
        crate::icmp4::icmp4_parsed(with_checksum_at_2(ping_packet_bytes(p)), pkt),
    ensures
        pkt matches crate::icmp4::IcmpV4Packet::EchoRequest(e) && e.id == p.id && e.seq == p.seq
            && spec_token_prefix(e.data@) == Some(p.token),
{
    let z = ping_packet_bytes(p);
    let s = with_checksum_at_2(z);
    lemma_token_in_data(p, s);
}

/// The corresponding fact for a v6 probe, whose checksum field stays
/// zero in the library.
pub proof fn lemma_ping_token_round_trip6(p: Probe, pkt: crate::icmp6::IcmpV6Packet)
    requires
        p.size >= MIN_PACKET,
        p.addr is V6,
        crate::icmp6::icmp6_parsed(ping_packet_bytes(p), pkt),
    ensures
        pkt matches crate::icmp6::IcmpV6Packet::EchoRequest(e) && e.id == p.id && e.seq == p.seq
            && spec_token_prefix(e.data@) == Some(p.token),
{
    lemma_token_in_data(p, ping_packet_bytes(p));
}

/// The shared argument: any packet agreeing with the probe's bytes from
/// offset 4 on carries the token at offset 8.
proof fn lemma_token_in_data(p: Probe, s: Seq<u8>)
    requires
        p.size >= MIN_PACKET,
        s.len() == ping_packet_bytes(p).len(),
        forall|k: int| 4 <= k < s.len() ==> s[k] == ping_packet_bytes(p)[k],
    ensures
        crate::bytes::be16(s[4], s[5]) == p.id,
        crate::bytes::be16(s[6], s[7]) == p.seq,
        spec_token_prefix(s.subrange(8, s.len() as int)) == Some(p.token),
{
    let z = ping_packet_bytes(p);
    let data = ping_data(p.token, p.size as nat);
    crate::bytes::lemma_be_bytes_of_len(p.token.bits as nat, 16);
    assert(z.len() == 8 + data.len());
    crate::bytes::lemma_be16_round_trip(p.id);
    crate::bytes::lemma_be16_round_trip(p.seq);
    let echoed = s.subrange(8, s.len() as int);
    assert(echoed =~= data);
    assert(data.subrange(0, 16) =~= be_bytes_of(p.token.bits as nat, 16));
    assert(pow256(16) == 0x100000000000000000000000000000000) by {
        reveal_with_fuel(pow256, 17);
    }
    crate::bytes::lemma_be_round_trip(p.token.bits as nat, 16);
}

} // verus!
