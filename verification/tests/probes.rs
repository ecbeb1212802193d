//! Probe identities: keys, increments, embedded-citation decoding, and
//! reply classification.

use netdiag::addr::{IpAddress, SockAddr, SockV4, SockV6};
use netdiag::error::Error;
use netdiag::knock;
use netdiag::trace::decode;
use netdiag::trace::probe::{Key, Probe, Probes, Protocol, ICMP, ICMPv4, ICMPv6, TCP, TCPv4,
    TCPv6, UDP, UDPv4, UDPv6};

fn sock4(ip: u32, port: u16) -> SockV4 {
    SockV4 { ip, port }
}

fn sock6(ip: u128, port: u16) -> SockV6 {
    SockV6 { ip, port }
}

fn ipv6_prefix(next_header: u8, src: u128, dst: u128) -> Vec<u8> {
    let head = etherparse::Ipv6Header {
        traffic_class: 0,
        flow_label: Default::default(),
        payload_length: 0,
        next_header: etherparse::IpNumber(next_header),
        hop_limit: 17,
        source: src.to_be_bytes(),
        destination: dst.to_be_bytes(),
    };
    let mut bytes = Vec::new();
    head.write(&mut bytes).unwrap();
    bytes
}

#[test]
fn embedded_round_trip_icmp4() {
    let probe = Probe::ICMP(ICMP::V4(ICMPv4 { src: 0x0a000001, dst: 0xc0000207, id: 40123, seq: 2 }));
    let pkt = probe.encode(5);
    assert_eq!(Probe::decode4(&pkt).unwrap(), probe.key());
}

#[test]
fn embedded_round_trip_tcp4() {
    let probe = Probe::TCP(TCP::V4(TCPv4 { src: sock4(0x0a000001, 40001), dst: sock4(0xc6336409, 443), seq: 7 }));
    let pkt = probe.encode(3);
    assert_eq!(Probe::decode4(&pkt).unwrap(), probe.key());
}

#[test]
fn embedded_round_trip_tcp4_truncated_citation() {
    // routers may cite only the IP header plus eight transport bytes
    let probe = Probe::TCP(TCP::V4(TCPv4 { src: sock4(0x0a000001, 40001), dst: sock4(0xc6336409, 443), seq: 7 }));
    let pkt = probe.encode(3);
    assert_eq!(Probe::decode4(&pkt[..28]).unwrap(), probe.key());
}

#[test]
fn embedded_round_trip_udp4() {
    let probe = Probe::UDP(UDP::V4(UDPv4 { src: sock4(0xac100004, 33501), dst: sock4(0xcb00714d, 33434) }));
    let pkt = probe.encode(9);
    assert_eq!(Probe::decode4(&pkt).unwrap(), probe.key());
}

#[test]
fn embedded_round_trip_v6() {
    let src: u128 = 0x2001_0db8_0000_0000_0000_0000_0000_0001;
    let dst: u128 = 0x2001_0db8_0000_0000_0000_0000_0000_0099;

    let icmp = Probe::ICMP(ICMP::V6(ICMPv6 { src, dst, id: 40555, seq: 1 }));
    let mut pkt = ipv6_prefix(58, src, dst);
    pkt.extend_from_slice(&icmp.encode(1));
    assert_eq!(Probe::decode6(&pkt).unwrap(), icmp.key());

    let tcp = Probe::TCP(TCP::V6(TCPv6 { src: sock6(src, 40100), dst: sock6(dst, 80), seq: 3 }));
    let mut pkt = ipv6_prefix(6, src, dst);
    pkt.extend_from_slice(&tcp.encode(1));
    assert_eq!(Probe::decode6(&pkt).unwrap(), tcp.key());

    let udp = Probe::UDP(UDP::V6(UDPv6 { src: sock6(src, 40200), dst: sock6(dst, 33434) }));
    let mut pkt = ipv6_prefix(17, src, dst);
    pkt.extend_from_slice(&udp.encode(1));
    assert_eq!(Probe::decode6(&pkt).unwrap(), udp.key());
}

#[test]
fn decode4_rejects_unknown_protocol() {
    let pkt = netdiag::ip::encode_ipv4_header(0, 1, 47, 1, 2);
    assert_eq!(Probe::decode4(&pkt).unwrap_err(), Error::Unsupported(47));
    assert_eq!(Probe::decode4(&[0u8; 6]).unwrap_err(), Error::InvalidSlice);
    // an ICMP citation cut before its identifier is a short buffer
    let pkt = netdiag::ip::encode_ipv4_header(8, 1, 1, 1, 2);
    assert_eq!(Probe::decode4(&pkt).unwrap_err(), Error::ShortBuffer);
}

#[test]
fn unreachable_port_is_terminal() {
    // a synthetic destination-unreachable (port) citing an outstanding
    // UDP probe routes to that probe's key as terminal
    let probe = Probe::UDP(UDP::V4(UDPv4 { src: sock4(0x0a000001, 33501), dst: sock4(0x7f000001, 33434) }));
    let cited = probe.encode(4);
    let mut outer = netdiag::ip::encode_ipv4_header((8 + cited.len()) as u16, 64, 1, 0x7f000001, 0x0a000001);
    outer.extend_from_slice(&[3, 3, 0, 0, 0, 0, 0, 0]);
    outer.extend_from_slice(&cited);
    let (key, terminal) = decode::classify_icmp4(&outer).unwrap();
    assert_eq!(key, probe.key());
    assert!(terminal);
}

#[test]
fn time_exceeded_is_not_terminal() {
    let probe = Probe::UDP(UDP::V4(UDPv4 { src: sock4(0x0a000001, 33501), dst: sock4(0x08080808, 33434) }));
    let cited = probe.encode(1);
    let mut outer = netdiag::ip::encode_ipv4_header((8 + cited.len()) as u16, 63, 1, 0x0a000101, 0x0a000001);
    outer.extend_from_slice(&[11, 0, 0, 0, 0, 0, 0, 0]);
    outer.extend_from_slice(&cited);
    let (key, terminal) = decode::classify_icmp4(&outer).unwrap();
    assert_eq!(key, probe.key());
    assert!(!terminal);
}

#[test]
fn echo_reply_keys_on_swapped_addresses() {
    // an echo reply from the target: source is the target, destination
    // is this host; the key uses (local, target, id)
    let reply_icmp = netdiag::icmp4::encode_echo_packet(0, 40444, 6, &[], true);
    let mut pkt = netdiag::ip::encode_ipv4_header(reply_icmp.len() as u16, 64, 1, 0x7f000001, 0x0a000001);
    pkt.extend_from_slice(&reply_icmp);
    let (key, terminal) = decode::classify_icmp4(&pkt).unwrap();
    assert_eq!(
        key,
        Key::ICMP(IpAddress::V4(0x0a000001), IpAddress::V4(0x7f000001), 40444)
    );
    assert!(terminal);
}

#[test]
fn classify_tcp_response_is_terminal() {
    // any TCP segment back to the ephemeral port means the target spoke
    let seg = netdiag::tcp::encode_tcp_syn4(sock4(0x7f000001, 443), sock4(0x0a000001, 40001), 99, 64);
    let (key, terminal) = decode::classify_tcp4(&seg).unwrap();
    assert_eq!(
        key,
        Key::TCP(SockAddr::V4(sock4(0x0a000001, 40001)), IpAddress::V4(0x7f000001))
    );
    assert!(terminal);
}

#[test]
fn increment_gives_each_packet_a_new_identity() {
    let mut p = Probe::ICMP(ICMP::V4(ICMPv4 { src: 1, dst: 2, id: 3, seq: 0 }));
    p.increment();
    assert_eq!(p, Probe::ICMP(ICMP::V4(ICMPv4 { src: 1, dst: 2, id: 3, seq: 1 })));

    let mut p = Probe::UDP(UDP::V4(UDPv4 { src: sock4(1, 33501), dst: sock4(2, 33434) }));
    p.increment();
    assert_eq!(p, Probe::UDP(UDP::V4(UDPv4 { src: sock4(1, 33501), dst: sock4(2, 33435) })));

    let mut p = Probe::TCP(TCP::V4(TCPv4 { src: sock4(1, 2), dst: sock4(3, 4), seq: u32::MAX }));
    p.increment();
    assert_eq!(p, Probe::TCP(TCP::V4(TCPv4 { src: sock4(1, 2), dst: sock4(3, 4), seq: 0 })));
}

#[test]
fn probes_fix_key_and_first_probe() {
    let ps = Probes::new(Protocol::UDP(33434), IpAddress::V4(0x0a000001), IpAddress::V4(0x7f000001), 33999);
    assert_eq!(ps.key(), Key::UDP(SockAddr::V4(sock4(0x0a000001, 33999)), IpAddress::V4(0x7f000001)));
    let probe = ps.probe().unwrap();
    assert_eq!(probe.key(), ps.key());

    let ps = Probes::new(Protocol::ICMP, IpAddress::V4(0x0a000001), IpAddress::V4(0x7f000001), 40001);
    assert_eq!(ps.key(), Key::ICMP(IpAddress::V4(0x0a000001), IpAddress::V4(0x7f000001), 40001));
    assert_eq!(ps.probe().unwrap().key(), ps.key());
}

#[test]
fn mixed_families_are_rejected() {
    let ps = Probes::new(Protocol::ICMP, IpAddress::V4(1), IpAddress::V6(2), 40001);
    let err = ps.probe().unwrap_err();
    assert_eq!(err, Error::Mixed);
    assert_eq!(err.message(), "mixed IPv4 and IPv6 addresses");

    let src = SockAddr::V4(sock4(1, 2));
    let dst = SockAddr::V6(sock6(3, 4));
    assert_eq!(knock::Probe::new(src, dst, 1).unwrap_err(), Error::Mixed);
}

#[test]
fn knock_reply_matching() {
    let head = netdiag::tcp::TcpHead {
        src_port: 443,
        dst_port: 40001,
        seq: 500,
        ack_no: 1001,
        syn: true,
        ack: true,
        rst: false,
    };
    assert!(knock::reply_matches(1000, &head));
    assert!(!knock::reply_matches(1001, &head));
    let rst = netdiag::tcp::TcpHead { syn: false, ..head };
    assert!(!knock::reply_matches(1000, &rst));
    // the sequence space wraps
    let head = netdiag::tcp::TcpHead { ack_no: 0, ..head };
    assert!(knock::reply_matches(u32::MAX, &head));
}

#[test]
fn knock_reply_decoding() {
    let seg = netdiag::tcp::encode_tcp_syn4(sock4(0x7f000001, 443), sock4(0x0a000001, 40001), 99, 64);
    let (local, remote, head) = knock::decode_reply4(&seg).unwrap();
    assert_eq!(local, SockAddr::V4(sock4(0x0a000001, 40001)));
    assert_eq!(remote, SockAddr::V4(sock4(0x7f000001, 443)));
    assert_eq!(head.src_port, 443);
    assert_eq!(head.seq, 99);
    assert!(head.syn && !head.ack);
    assert_eq!(knock::decode_reply4(&seg[..19]), None);
}

#[test]
fn knock_probe_accessors() {
    let src = SockAddr::V4(sock4(0x0a000001, 40001));
    let dst = SockAddr::V4(sock4(0x7f000001, 22));
    let p = knock::Probe::new(src, dst, 31337).unwrap();
    assert_eq!(p.src(), src);
    assert_eq!(p.dst(), dst);
    assert_eq!(p.seq(), 31337);
    let pkt = match p {
        knock::Probe::V4(v4) => v4.encode(),
        knock::Probe::V6(_) => unreachable!(),
    };
    // the packet parses as TCP from our port to theirs
    let parsed = etherparse::Ipv4HeaderSlice::from_slice(&pkt).unwrap();
    assert_eq!(parsed.protocol(), etherparse::IpNumber::TCP);
    let tcp = etherparse::TcpHeaderSlice::from_slice(&pkt[20..]).unwrap();
    assert_eq!(tcp.source_port(), 40001);
    assert_eq!(tcp.destination_port(), 22);
    assert!(tcp.syn());
    assert_eq!(tcp.window_size(), 5840);
}
