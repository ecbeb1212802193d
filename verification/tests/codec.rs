//! Byte-level checks of the packet codecs, including comparisons with
//! an independent packet library.

use netdiag::addr::SockV4;
use netdiag::cksum::checksum;
use netdiag::icmp4::fill_checksum;
use netdiag::ip::encode_ipv4_header;
use netdiag::ping;
use netdiag::tcp::encode_tcp_syn4;
use netdiag::udp::encode_udp4;

fn fold_sum(pkt: &[u8]) -> u32 {
    let mut sum: u32 = 0;
    for chunk in pkt.chunks(2) {
        let word = match *chunk {
            [x, y] => u16::from_be_bytes([x, y]),
            [x] => u16::from_be_bytes([x, 0]),
            _ => unreachable!(),
        };
        sum += word as u32;
        while sum >> 16 > 0 {
            sum = (sum & 0xffff) + (sum >> 16);
        }
    }
    sum
}

#[test]
fn checksum_known_vectors() {
    assert_eq!(checksum(&[]), 0xffff);
    assert_eq!(checksum(&[0x00, 0x01]), 0xfffe);
    assert_eq!(checksum(&[0x01]), 0xfeff);
    assert_eq!(checksum(&[0xff, 0xff]), 0x0000);
    assert_eq!(checksum(&[0xff, 0xff, 0xff, 0xff]), 0x0000);
}

#[test]
fn checksum_matches_independent_fold() {
    let data = [0x45u8, 0x00, 0x00, 0x54, 0x1c, 0x46, 0x40, 0x00, 0x40, 0x01, 0x00, 0x00, 0xc0,
        0xa8, 0x00, 0x01, 0xc0, 0xa8, 0x00, 0xc7];
    assert_eq!(checksum(&data), !(fold_sum(&data) as u16));
}

#[test]
fn filled_packet_sums_to_ffff() {
    let mut pkt = vec![8u8, 0, 0, 0, 0x12, 0x34, 0x00, 0x07];
    pkt.extend_from_slice(&[0xde; 16]);
    fill_checksum(&mut pkt);
    assert_eq!(fold_sum(&pkt), 0xffff);
}

#[test]
fn ipv4_header_matches_etherparse() {
    let src = [10u8, 0, 0, 1];
    let dst = [192u8, 0, 2, 7];
    let reference = etherparse::Ipv4Header::new(28, 3, etherparse::IpNumber::UDP, src, dst)
        .unwrap();
    let mut expected = Vec::new();
    reference.write(&mut expected).unwrap();
    let got = encode_ipv4_header(28, 3, 17, u32::from_be_bytes(src), u32::from_be_bytes(dst));
    assert_eq!(got, expected);
}

#[test]
fn tcp_syn_packet_matches_etherparse() {
    let src = [10u8, 1, 2, 3];
    let dst = [198u8, 51, 100, 9];
    let builder = etherparse::PacketBuilder::ipv4(src, dst, 7)
        .tcp(40001, 443, 0xdeadbeef, 5840)
        .syn();
    let mut expected = Vec::with_capacity(builder.size(0));
    builder.write(&mut expected, &[]).unwrap();
    let got = encode_tcp_syn4(
        SockV4 { ip: u32::from_be_bytes(src), port: 40001 },
        SockV4 { ip: u32::from_be_bytes(dst), port: 443 },
        0xdeadbeef,
        7,
    );
    assert_eq!(got, expected);
}

#[test]
fn udp_packet_matches_etherparse() {
    let src = [172u8, 16, 0, 4];
    let dst = [203u8, 0, 113, 77];
    let builder = etherparse::PacketBuilder::ipv4(src, dst, 11).udp(33501, 33434);
    let mut expected = Vec::with_capacity(builder.size(0));
    builder.write(&mut expected, &[]).unwrap();
    let got = encode_udp4(
        SockV4 { ip: u32::from_be_bytes(src), port: 33501 },
        SockV4 { ip: u32::from_be_bytes(dst), port: 33434 },
        11,
    );
    assert_eq!(got, expected);
}

#[test]
fn icmp_echo_matches_etherparse() {
    let echo = etherparse::IcmpEchoHeader { id: 0x0102, seq: 9 };
    let head = etherparse::Icmpv4Header::with_checksum(
        etherparse::Icmpv4Type::EchoRequest(echo),
        &[],
    );
    let mut expected = Vec::new();
    head.write(&mut expected).unwrap();
    let mut got = netdiag::icmp4::encode_echo_packet(8, 0x0102, 9, &[], true);
    assert_eq!(got, expected);
    // without the checksum fill the field stays zero
    got = netdiag::icmp4::encode_echo_packet(8, 0x0102, 9, &[], false);
    assert_eq!(&got[2..4], &[0, 0]);
}

#[test]
fn ping_packet_layout_and_checksum() {
    let probe = ping::Probe::new(netdiag::addr::IpAddress::V4(0x7f000001), 77, 3, 64);
    let mut pkt = probe.encode().unwrap();
    assert_eq!(pkt.len(), 64);
    assert_eq!(pkt[0], 8);
    assert_eq!(pkt[1], 0);
    assert_eq!(&pkt[2..4], &[0, 0]);
    assert_eq!(u16::from_be_bytes([pkt[4], pkt[5]]), 77);
    assert_eq!(u16::from_be_bytes([pkt[6], pkt[7]]), 3);
    assert_eq!(&pkt[8..24], &probe.token.bits.to_be_bytes());
    assert!(pkt[24..].iter().all(|b| *b == 0));

    fill_checksum(&mut pkt);
    assert_eq!(fold_sum(&pkt), 0xffff);

    let echo = etherparse::IcmpEchoHeader { id: 77, seq: 3 };
    let head = etherparse::Icmpv4Header::with_checksum(
        etherparse::Icmpv4Type::EchoRequest(echo),
        &pkt[8..],
    );
    let mut expected = Vec::new();
    head.write(&mut expected).unwrap();
    expected.extend_from_slice(&pkt[8..]);
    assert_eq!(pkt, expected);
}

#[test]
fn ping_encode_rejects_short_sizes() {
    let probe = ping::Probe::new(netdiag::addr::IpAddress::V4(1), 1, 1, 23);
    assert_eq!(probe.encode().unwrap_err(), netdiag::error::Error::ShortBuffer);
    let probe = ping::Probe::new(netdiag::addr::IpAddress::V6(1), 1, 1, 24);
    assert_eq!(probe.encode().unwrap().len(), 24);
}

#[test]
fn ping_v6_uses_icmpv6_type() {
    let probe = ping::Probe::new(netdiag::addr::IpAddress::V6(0x1), 5, 6, 32);
    let pkt = probe.encode().unwrap();
    assert_eq!(pkt[0], 128);
    assert_eq!(pkt.len(), 32);
}

#[test]
fn token_prefix_reads_first_sixteen_bytes() {
    let probe = ping::Probe::new(netdiag::addr::IpAddress::V4(9), 1, 2, 40);
    let pkt = probe.encode().unwrap();
    let token = ping::token_prefix(&pkt[8..]).unwrap();
    assert_eq!(token, probe.token);
    assert_eq!(ping::token_prefix(&pkt[8..23]), None);
}

#[test]
fn rtt_saturates() {
    assert_eq!(ping::rtt_nanos(100, 250), 150);
    assert_eq!(ping::rtt_nanos(250, 100), 0);
    assert_eq!(ping::rtt_nanos(7, 7), 0);
}
