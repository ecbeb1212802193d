//! The ICMP message decoders: variant selection on the (type, code)
//! pair, and the big-endian byte helpers under them.

use netdiag::bytes::{append_be_bytes, read_be_bytes};
use netdiag::error::Error;
use netdiag::icmp4::{decode_icmp4, IcmpV4Packet, Unreachable};
use netdiag::icmp6::{decode_icmp6, IcmpV6Packet};

fn msg(kind: u8, code: u8, rest: &[u8]) -> Vec<u8> {
    let mut pkt = vec![kind, code, 0, 0, 0, 0, 0, 0];
    pkt.extend_from_slice(rest);
    pkt
}

#[test]
fn icmp4_variants() {
    match decode_icmp4(&msg(0, 0, &[0xaa; 20])).unwrap() {
        IcmpV4Packet::EchoReply(e) => {
            assert_eq!(e.id, 0);
            assert_eq!(e.data.len(), 20);
        },
        other => panic!("wrong variant: {:?}", other),
    }
    match decode_icmp4(&msg(11, 0, &[1, 2, 3])).unwrap() {
        IcmpV4Packet::TimeExceeded(d) => assert_eq!(d, vec![1, 2, 3]),
        other => panic!("wrong variant: {:?}", other),
    }
    match decode_icmp4(&msg(3, 3, &[9])).unwrap() {
        IcmpV4Packet::Unreachable(Unreachable::Port(d)) => assert_eq!(d, vec![9]),
        other => panic!("wrong variant: {:?}", other),
    }
    match decode_icmp4(&msg(3, 7, &[])).unwrap() {
        IcmpV4Packet::Unreachable(Unreachable::Other(7, d)) => assert!(d.is_empty()),
        other => panic!("wrong variant: {:?}", other),
    }
    match decode_icmp4(&msg(12, 1, &[5])).unwrap() {
        IcmpV4Packet::Other(12, 1, d) => assert_eq!(d, vec![0, 0, 0, 0, 5]),
        other => panic!("wrong variant: {:?}", other),
    }
    assert_eq!(decode_icmp4(&[0; 7]).unwrap_err(), Error::InvalidSlice);
}

#[test]
fn icmp6_variants() {
    match decode_icmp6(&msg(129, 0, &[0x55; 16])).unwrap() {
        IcmpV6Packet::EchoReply(e) => assert_eq!(e.data.len(), 16),
        other => panic!("wrong variant: {:?}", other),
    }
    match decode_icmp6(&msg(3, 0, &[8])).unwrap() {
        IcmpV6Packet::HopLimitExceeded(d) => assert_eq!(d, vec![8]),
        other => panic!("wrong variant: {:?}", other),
    }
    match decode_icmp6(&msg(3, 1, &[])).unwrap() {
        IcmpV6Packet::ReassemblyTimeExceeded(d) => assert!(d.is_empty()),
        other => panic!("wrong variant: {:?}", other),
    }
    match decode_icmp6(&msg(1, 4, &[2])).unwrap() {
        IcmpV6Packet::Unreachable(netdiag::icmp6::Unreachable::Port(d)) => {
            assert_eq!(d, vec![2])
        },
        other => panic!("wrong variant: {:?}", other),
    }
    assert_eq!(decode_icmp6(&[0; 3]).unwrap_err(), Error::InvalidSlice);
}

#[test]
fn big_endian_round_trip() {
    let value: u128 = 0x0102_0304_0506_0708_090a_0b0c_0d0e_0f10;
    let mut buf = Vec::new();
    append_be_bytes(&mut buf, value, 16);
    assert_eq!(buf, value.to_be_bytes());
    assert_eq!(read_be_bytes(&buf, 0, 16), value);

    let mut buf = Vec::new();
    append_be_bytes(&mut buf, 0xbeef, 2);
    assert_eq!(buf, vec![0xbe, 0xef]);
    assert_eq!(read_be_bytes(&buf, 0, 2), 0xbeef);
}
