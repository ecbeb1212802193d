//! One hop of trace output, and the bookkeeping of a TTL sweep: rows of
//! nodes are collected for TTL 1, 2, … until a row holds a terminal
//! node or the hop limit is reached; the terminal row itself is kept.

use vstd::prelude::*;
use crate::addr::IpAddress;

verus! {

/// One trace request: probe protocol, target, probes per TTL, hop
/// limit, and per-probe expiry in nanoseconds.
#[derive(Clone, Copy, Debug)]
pub struct Trace {
    pub proto: crate::trace::probe::Protocol,
    pub addr: IpAddress,
    pub probes: usize,
    pub limit: usize,
    pub expiry: u64,
}

/// What one probe at one TTL produced: a responding hop with its
/// round-trip time in nanoseconds and whether it was terminal, or
/// nothing before the expiry.
#[derive(Clone, Copy, Debug, PartialEq, Eq, Structural)]
pub enum Node {
    Node(u8, IpAddress, u64, bool),
    Timeout(u8),
}

/// Whether a node ends the sweep: it reported itself terminal, or the
/// responding hop is the target.
pub open spec fn spec_node_terminal(n: Node, target: IpAddress) -> bool {
    match n {
        Node::Node(_ttl, ip, _rtt, done) => done || ip == target,
        Node::Timeout(_) => false,
    }
}

/// Whether any node of a row ends the sweep.
pub open spec fn spec_row_terminal(row: Seq<Node>, target: IpAddress) -> bool {
    exists|i: int| 0 <= i < row.len() && spec_node_terminal(row[i], target)
}

/// Decides whether a node ends the sweep.
pub fn node_terminal(n: &Node, target: IpAddress) -> (r: bool)
    ensures
        r == spec_node_terminal(*n, target),
{
    match n {
        Node::Node(_ttl, ip, _rtt, done) => *done || *ip == target,
        Node::Timeout(_) => false,
    }
}

/// Decides whether a row of nodes ends the sweep.
pub fn row_terminal(row: &Vec<Node>, target: IpAddress) -> (r: bool)
    ensures
        r == spec_row_terminal(row@, target),
{
    let mut i: usize = 0;
    let n = row.len();
    while i < n
        invariant
            i <= n,
            n == row@.len(),
            forall|j: int| 0 <= j < i ==> !spec_node_terminal(row@[j], target),
        decreases n - i,
    {
        if node_terminal(&row[i], target) {
            return true;
        }
        i = i + 1;
    }
    false
}

/// The running state of one route sweep.
#[derive(Clone, Copy, Debug, PartialEq, Eq, Structural)]
pub struct Sweep {
    /// The greatest TTL the sweep may reach.
    pub limit: usize,
    /// The TTL of the next row to probe, starting at 1.
    pub next_ttl: usize,
    /// Whether an already recorded row was terminal.
    pub done: bool,
}

impl Sweep {
    /// A sweep about to probe TTL 1.
    pub fn new(limit: usize) -> (s: Sweep)
        ensures
            s.limit == limit,
            s.next_ttl == 1,
            !s.done,
    {
        Sweep { limit, next_ttl: 1, done: false }
    }

    /// Whether another row is owed: no terminal row yet, and the hop
    /// limit (and the TTL field's own range) not yet passed.
    pub fn should_probe(&self) -> (r: bool)
        ensures
            r == (!self.done && self.next_ttl <= self.limit && self.next_ttl <= 255),
    {
        !self.done && self.next_ttl <= self.limit && self.next_ttl <= 255
    }

    /// The TTL to put in the next row's packets.
    pub fn current_ttl(&self) -> (r: u8)
        requires
            self.next_ttl <= 255,
    ensures
            r == self.next_ttl,
    {
        self.next_ttl as u8
    }

    /// Accounts one finished row: the sweep moves to the next TTL and
    /// stops once the row held a terminal node — the boundary row is
    /// kept, rows after it are not probed.
    pub fn record(&mut self, row: &Vec<Node>, target: IpAddress)
        requires
            old(self).next_ttl < usize::MAX,
        ensures
            final(self).limit == old(self).limit,
            final(self).next_ttl == old(self).next_ttl + 1,
            final(self).done == (old(self).done || spec_row_terminal(row@, target)),
    {
        self.done = self.done || row_terminal(row, target);
        self.next_ttl = self.next_ttl + 1;
    }
}

} // verus!
