//! The demux state: one entry per key, reservations that never
//! collide, and leases whose release clears their key at once.

use netdiag::addr::{IpAddress, SockAddr, SockV4};
use netdiag::demux::{DemuxKey, DemuxMap};
use netdiag::ping::Token;
use netdiag::rng::{PORT_MAX, PORT_MIN};
use netdiag::trace::probe::Protocol;

fn dst() -> SockAddr {
    SockAddr::V4(SockV4 { ip: 0x7f000001, port: 22 })
}

#[test]
fn lookup_finds_what_insert_put() {
    let mut map = DemuxMap::new();
    let key = DemuxKey::Ping(Token { bits: 42 });
    assert_eq!(map.lookup(&key), None);
    map.insert(key, 7);
    assert_eq!(map.lookup(&key), Some(7));
    assert!(map.contains(&key));
}

#[test]
fn insert_displaces_earlier_waiter() {
    let mut map = DemuxMap::new();
    let key = DemuxKey::Ping(Token { bits: 9 });
    map.insert(key, 1);
    map.insert(key, 2);
    assert_eq!(map.lookup(&key), Some(2));
    assert_eq!(map.remove(&key), Some(2));
    assert_eq!(map.remove(&key), None);
}

#[test]
fn concurrent_reservations_get_distinct_keys() {
    let mut map = DemuxMap::new();
    let src = IpAddress::V4(0x0a000001);
    let mut keys = Vec::new();
    for chan in 0..32u64 {
        let (sock, lease) = map.reserve_knock(src, dst(), chan).unwrap();
        let port = match sock {
            SockAddr::V4(s) => s.port,
            SockAddr::V6(s) => s.port,
        };
        assert!((PORT_MIN..=PORT_MAX).contains(&port));
        assert!(!keys.contains(&lease.key));
        keys.push(lease.key);
    }
}

#[test]
fn released_lease_clears_its_key() {
    let mut map = DemuxMap::new();
    let src = IpAddress::V4(0x0a000001);
    let (_sock, lease) = map.reserve_knock(src, dst(), 5).unwrap();
    let key = lease.key;
    assert_eq!(map.lookup(&key), Some(5));
    assert_eq!(map.release(lease), Some(5));
    assert_eq!(map.lookup(&key), None);
}

#[test]
fn trace_reservation_matches_its_probe() {
    let mut map = DemuxMap::new();
    let src = IpAddress::V4(0x0a000001);
    let target = IpAddress::V4(0x08080808);
    let (ps, lease) = map.reserve_trace(Protocol::UDP(33434), src, target, 3).unwrap();
    assert_eq!(lease.key, DemuxKey::Trace(ps.key()));
    assert_eq!(map.lookup(&lease.key), Some(3));
    let probe = ps.probe().unwrap();
    assert_eq!(probe.key(), ps.key());
    map.release(lease);
}

#[test]
fn trace_reservations_by_identifier_do_not_collide() {
    let mut map = DemuxMap::new();
    let src = IpAddress::V4(0x0a000001);
    let target = IpAddress::V4(0x08080808);
    let mut ids = Vec::new();
    for chan in 0..16u64 {
        let (ps, _lease) = map.reserve_trace(Protocol::ICMP, src, target, chan).unwrap();
        assert!(!ids.contains(&ps.value));
        ids.push(ps.value);
    }
}
