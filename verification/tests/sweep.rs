//! The TTL sweep: rows are collected in order, timeouts keep the sweep
//! going, and the first terminal row is the last one.

use netdiag::addr::IpAddress;
use netdiag::bind::Bind;
use netdiag::trace::sweep::{row_terminal, Node, Sweep};

fn target() -> IpAddress {
    IpAddress::V4(0x7f000001)
}

fn hop(ip: u32, done: bool) -> Node {
    Node::Node(1, IpAddress::V4(ip), 1_000_000, done)
}

#[test]
fn timeouts_are_never_terminal() {
    let row = vec![Node::Timeout(1), Node::Timeout(1), Node::Timeout(1)];
    assert!(!row_terminal(&row, target()));
}

#[test]
fn reaching_the_target_is_terminal() {
    let row = vec![Node::Timeout(1), hop(0x7f000001, false)];
    assert!(row_terminal(&row, target()));
    let row = vec![hop(0x0a000001, false)];
    assert!(!row_terminal(&row, target()));
    let row = vec![hop(0x0a000001, true)];
    assert!(row_terminal(&row, target()));
}

#[test]
fn sweep_keeps_boundary_row_and_stops() {
    let mut sweep = Sweep::new(30);
    assert!(sweep.should_probe());
    assert_eq!(sweep.current_ttl(), 1);

    // a row of timeouts: the sweep continues to the next TTL
    sweep.record(&vec![Node::Timeout(1)], target());
    assert!(sweep.should_probe());
    assert_eq!(sweep.current_ttl(), 2);

    // an intermediate hop answers: still not terminal
    sweep.record(&vec![hop(0x0a000001, false)], target());
    assert!(sweep.should_probe());

    // the target answers: this row is kept, but no further row comes
    sweep.record(&vec![hop(0x7f000001, false)], target());
    assert!(!sweep.should_probe());
    assert_eq!(sweep.next_ttl, 4);
}

#[test]
fn sweep_honours_the_hop_limit() {
    let mut sweep = Sweep::new(2);
    sweep.record(&vec![Node::Timeout(1)], target());
    assert!(sweep.should_probe());
    sweep.record(&vec![Node::Timeout(2)], target());
    assert!(!sweep.should_probe());
}

#[test]
fn bind_defaults_to_wildcards() {
    let bind = Bind::default();
    assert_eq!(bind.sa4(), netdiag::addr::SockAddr::V4(netdiag::addr::SockV4 { ip: 0, port: 0 }));
    assert_eq!(bind.sa6(), netdiag::addr::SockAddr::V6(netdiag::addr::SockV6 { ip: 0, port: 0 }));

    let mut bind = Bind::default();
    bind.set(IpAddress::V4(0x0a000001));
    assert_eq!(
        bind.sa4(),
        netdiag::addr::SockAddr::V4(netdiag::addr::SockV4 { ip: 0x0a000001, port: 0 })
    );
    // the other family keeps its wildcard
    assert_eq!(bind.sa6(), netdiag::addr::SockAddr::V6(netdiag::addr::SockV6 { ip: 0, port: 0 }));
}
