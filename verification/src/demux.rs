//! The demultiplexing state shared by an engine and its receive loops:
//! a mapping from probe keys to waiter channels, holding at most one
//! entry per key.
//!
//! The channel endpoints themselves are asynchronous runtime objects
//! and live with the engines; the map stores a numeric channel handle
//! that the engine ties to the real sender.

use vstd::prelude::*;
use crate::addr::{IpAddress, SockAddr};
use crate::ping::Token;
use crate::rng::{random_port, PORT_MAX, PORT_MIN};
use crate::trace::probe::{spec_probes_key, spec_probes_new, Key, Probes, Protocol};

verus! {

/// A key in some engine's demux map: the trace key, the knock pair of
/// socket addresses, or the ping token.
#[derive(Clone, Copy, Debug, PartialEq, Eq, Structural)]
pub enum DemuxKey {
    Trace(Key),
    Knock(SockAddr, SockAddr),
    Ping(Token),
}

/// The map from outstanding keys to waiter channel handles.
pub struct DemuxMap {
    entries: Vec<(DemuxKey, u64)>,
}

/// The mathematical content of an entry list.
pub open spec fn as_map(s: Seq<(DemuxKey, u64)>) -> Map<DemuxKey, u64>
    decreases s.len(),
{
    if s.len() == 0 {
        Map::empty()
    } else {
        as_map(s.drop_last()).insert(s.last().0, s.last().1)
    }
}

/// No key occurs twice.
pub open spec fn keys_distinct(s: Seq<(DemuxKey, u64)>) -> bool {
    forall|i: int, j: int| 0 <= i < j < s.len() ==> s[i].0 != s[j].0
}

proof fn lemma_as_map_contains(s: Seq<(DemuxKey, u64)>, k: DemuxKey)
    ensures
        as_map(s).contains_key(k) <==> exists|i: int| 0 <= i < s.len() && s[i].0 == k,
    decreases s.len(),
{
    if s.len() > 0 {
        lemma_as_map_contains(s.drop_last(), k);
        if as_map(s).contains_key(k) {
            if s.last().0 == k {
                assert(s[s.len() - 1].0 == k);
            } else {
                let i = choose|i: int| 0 <= i < s.drop_last().len() && s.drop_last()[i].0 == k;
                assert(s[i].0 == k);
            }
        }
        if exists|i: int| 0 <= i < s.len() && s[i].0 == k {
            let i = choose|i: int| 0 <= i < s.len() && s[i].0 == k;
            if i < s.len() - 1 {
                assert(s.drop_last()[i].0 == k);
            }
        }
    }
}

proof fn lemma_as_map_index(s: Seq<(DemuxKey, u64)>, i: int)
    requires
        keys_distinct(s),
        0 <= i < s.len(),
    ensures
        as_map(s).contains_key(s[i].0),
        as_map(s)[s[i].0] == s[i].1,
    decreases s.len(),
{
    if i == s.len() - 1 {
        assert(s.last() == s[i]);
    } else {
        assert(keys_distinct(s.drop_last()));
        lemma_as_map_index(s.drop_last(), i);
        assert(s.drop_last()[i] == s[i]);
        assert(s.last().0 != s[i].0);
    }
}

impl DemuxMap {
    /// The map this state holds.
    pub closed spec fn view(&self) -> Map<DemuxKey, u64> {
        as_map(self.entries@)
    }

    /// The one-entry-per-key invariant.
    pub closed spec fn wf(&self) -> bool {
        keys_distinct(self.entries@)
    }

    /// An empty map.
    pub fn new() -> (s: DemuxMap)
        ensures
            s.wf(),
            s.view() == Map::<DemuxKey, u64>::empty(),
    {
        DemuxMap { entries: Vec::new() }
    }

    /// The channel handle registered for a key, if a waiter holds it.
    pub fn lookup(&self, k: &DemuxKey) -> (r: Option<u64>)
        requires
            self.wf(),
        ensures
            r == if self.view().contains_key(*k) {
                Some(self.view()[*k])
            } else {
                Option::<u64>::None
            },
    {
        let n = self.entries.len();
        let mut i: usize = 0;
        while i < n
            invariant
                i <= n,
                n == self.entries@.len(),
                self.wf(),
                forall|j: int| 0 <= j < i ==> self.entries@[j].0 != *k,
            decreases n - i,
        {
            if self.entries[i].0 == *k {
                proof {
                    lemma_as_map_index(self.entries@, i as int);
                }
                return Some(self.entries[i].1);
            }
            i = i + 1;
        }
        proof {
            lemma_as_map_contains(self.entries@, *k);
        }
        None
    }

    /// Whether a waiter holds the key.
    pub fn contains(&self, k: &DemuxKey) -> (r: bool)
        requires
            self.wf(),
        ensures
            r == self.view().contains_key(*k),
    {
        self.lookup(k).is_some()
    }

    /// Registers a waiter under a vacant key.
    pub fn insert_vacant(&mut self, k: DemuxKey, chan: u64)
        requires
            old(self).wf(),
            !old(self).view().contains_key(k),
        ensures
            final(self).wf(),
            final(self).view() == old(self).view().insert(k, chan),
    {
        proof {
            lemma_as_map_contains(self.entries@, k);
        }
        self.entries.push((k, chan));
        proof {
            assert(self.entries@.drop_last() =~= old(self).entries@);
        }
    }

    /// Registers a waiter under a key, displacing any earlier waiter —
    /// the ping path, whose 128-bit tokens collide with probability
    /// too small to care for.
    pub fn insert(&mut self, k: DemuxKey, chan: u64)
        requires
            old(self).wf(),
        ensures
            final(self).wf(),
            final(self).view() == old(self).view().insert(k, chan),
    {
        let _ = self.remove(&k);
        self.insert_vacant(k, chan);
        proof {
            assert(old(self).view().remove(k).insert(k, chan) =~= old(self).view().insert(
                k,
                chan,
            ));
        }
    }

    /// Evicts a key, handing back its channel handle if one was there.
    pub fn remove(&mut self, k: &DemuxKey) -> (r: Option<u64>)
        requires
            old(self).wf(),
        ensures
            final(self).wf(),
            final(self).view() == old(self).view().remove(*k),
            r == if old(self).view().contains_key(*k) {
                Some(old(self).view()[*k])
            } else {
                Option::<u64>::None
            },
    {
        let n = self.entries.len();
        let mut i: usize = 0;
        while i < n
            invariant
                i <= n,
                n == self.entries@.len(),
                self.wf(),
                self == old(self),
                forall|j: int| 0 <= j < i ==> self.entries@[j].0 != *k,
        decreases n - i,
        {
            if self.entries[i].0 == *k {
                proof {
                    lemma_as_map_index(self.entries@, i as int);
                }
                let ghost before = self.entries@;
                let (_, chan) = self.entries.remove(i);
                proof {
                    lemma_removed_entry(before, i as int);
                }
                return Some(chan);
            }
            i = i + 1;
        }
        proof {
            lemma_as_map_contains(self.entries@, *k);
            assert(self.view().remove(*k) =~= self.view());
        }
        None
    }
}

/// How many random draws a reservation makes before it falls back to
/// scanning the window in order.
pub const RANDOM_TRIES: usize = 8;

/// A held reservation: its key and the waiter channel registered under
/// it. Dropping the engine-side wrapper hands it back to `release`.
pub struct Lease {
    pub key: DemuxKey,
    pub chan: u64,
}

impl DemuxMap {
    /// Reserves a trace key: draws identifiers from the ephemeral
    /// window until the key is vacant, scanning the whole window if
    /// random draws keep colliding, and registers the waiter. `None`
    /// only when every value of the window is taken.
    pub fn reserve_trace(
        &mut self,
        proto: Protocol,
        src: IpAddress,
        dst: IpAddress,
        chan: u64,
    ) -> (r: Option<(Probes, Lease)>)
        requires
            old(self).wf(),
        ensures
            final(self).wf(),
            match r {
                Some(pair) => {
                    &&& pair.0 == spec_probes_new(proto, src, dst, pair.0.value)
                    &&& PORT_MIN <= pair.0.value <= PORT_MAX
                    &&& pair.1.key == DemuxKey::Trace(spec_probes_key(pair.0))
                    &&& pair.1.chan == chan
                    &&& !old(self).view().contains_key(pair.1.key)
                    &&& final(self).view() == old(self).view().insert(pair.1.key, chan)
                },
                None => {
                    &&& final(self).view() == old(self).view()
                    &&& forall|v: u16|
                        PORT_MIN <= v <= PORT_MAX ==> old(self).view().contains_key(
                            DemuxKey::Trace(spec_probes_key(spec_probes_new(proto, src, dst, v))),
                        )
                },
            },
    {
        let mut t: usize = 0;
        while t < RANDOM_TRIES
            invariant
                old(self).wf(),
                self == old(self),
            decreases RANDOM_TRIES - t,
        {
            let value = random_port();
            let ps = Probes::new(proto, src, dst, value);
            let key = DemuxKey::Trace(ps.key());
            if !self.contains(&key) {
                self.insert_vacant(key, chan);
                return Some((ps, Lease { key, chan }));
            }
            t = t + 1;
        }
        let mut v: u32 = PORT_MIN as u32;
        while v <= PORT_MAX as u32
            invariant
                old(self).wf(),
                self == old(self),
                PORT_MIN <= v <= PORT_MAX + 1,
                forall|w: u16|
                    PORT_MIN <= w < v ==> old(self).view().contains_key(
                        DemuxKey::Trace(spec_probes_key(spec_probes_new(proto, src, dst, w))),
                    ),
            decreases PORT_MAX + 1 - v,
        {
            let value = v as u16;
            let ps = Probes::new(proto, src, dst, value);
            let key = DemuxKey::Trace(ps.key());
            if !self.contains(&key) {
                self.insert_vacant(key, chan);
                return Some((ps, Lease { key, chan }));
            }
            v = v + 1;
        }
        None
    }

    /// Reserves a knock key: an ephemeral source port paired with the
    /// fixed destination, by the same draw-then-scan walk.
    pub fn reserve_knock(&mut self, src: IpAddress, dst: SockAddr, chan: u64) -> (r: Option<
        (SockAddr, Lease),
    >)
        requires
            old(self).wf(),
        ensures
            final(self).wf(),
            match r {
                Some(pair) => {
                    &&& crate::addr::spec_sock_ip(pair.0) == src
                    &&& PORT_MIN <= crate::addr::spec_sock_port(pair.0) <= PORT_MAX
                    &&& pair.1.key == DemuxKey::Knock(pair.0, dst)
                    &&& pair.1.chan == chan
                    &&& !old(self).view().contains_key(pair.1.key)
                    &&& final(self).view() == old(self).view().insert(pair.1.key, chan)
                },
                None => {
                    &&& final(self).view() == old(self).view()
                    &&& forall|w: u16|
                        PORT_MIN <= w <= PORT_MAX ==> old(self).view().contains_key(
                            DemuxKey::Knock(crate::trace::probe::spec_sock_with(src, w), dst),
                        )
                },
            },
    {
        let mut t: usize = 0;
        while t < RANDOM_TRIES
            invariant
                old(self).wf(),
                self == old(self),
            decreases RANDOM_TRIES - t,
        {
            let port = random_port();
            let sock = SockAddr::new(src, port);
            let key = DemuxKey::Knock(sock, dst);
            if !self.contains(&key) {
                self.insert_vacant(key, chan);
                return Some((sock, Lease { key, chan }));
            }
            t = t + 1;
        }
        let mut v: u32 = PORT_MIN as u32;
        while v <= PORT_MAX as u32
            invariant
                old(self).wf(),
                self == old(self),
                PORT_MIN <= v <= PORT_MAX + 1,
                forall|w: u16|
                    PORT_MIN <= w < v ==> old(self).view().contains_key(
                        DemuxKey::Knock(crate::trace::probe::spec_sock_with(src, w), dst),
                    ),
            decreases PORT_MAX + 1 - v,
        {
            let port = v as u16;
            let sock = SockAddr::new(src, port);
            let key = DemuxKey::Knock(sock, dst);
            if !self.contains(&key) {
                self.insert_vacant(key, chan);
                return Some((sock, Lease { key, chan }));
            }
            v = v + 1;
        }
        None
    }

    /// Gives a reservation back: its key leaves the map at once, so no
    /// later reply can reach the stale waiter.
    pub fn release(&mut self, lease: Lease) -> (r: Option<u64>)
        requires
            old(self).wf(),
        ensures
            final(self).wf(),
            final(self).view() == old(self).view().remove(lease.key),
            !final(self).view().contains_key(lease.key),
    {
        self.remove(&lease.key)
    }
}

/// Removing the only entry with a key removes exactly that key from the
/// map content.
proof fn lemma_removed_entry(s: Seq<(DemuxKey, u64)>, i: int)
    requires
        keys_distinct(s),
        0 <= i < s.len(),
    ensures
        keys_distinct(s.remove(i)),
        as_map(s.remove(i)) == as_map(s).remove(s[i].0),
    decreases s.len(),
{
    let t = s.remove(i);
    assert forall|a: int, b: int| 0 <= a < b < t.len() implies t[a].0 != t[b].0 by {
        if b < i {
            assert(t[a] == s[a] && t[b] == s[b]);
        } else if a < i {
            assert(t[a] == s[a] && t[b] == s[b + 1]);
        } else {
            assert(t[a] == s[a + 1] && t[b] == s[b + 1]);
        }
    }
    if i == s.len() - 1 {
        assert(t =~= s.drop_last());
        lemma_as_map_contains(s.drop_last(), s[i].0);
        assert(!as_map(s.drop_last()).contains_key(s[i].0));
        assert(as_map(t) =~= as_map(s).remove(s[i].0));
    } else {
        lemma_removed_entry(s.drop_last(), i);
        assert(t.drop_last() =~= s.drop_last().remove(i));
        assert(t.last() == s.last());
        assert(as_map(t) == as_map(s.drop_last().remove(i)).insert(s.last().0, s.last().1));
        assert(as_map(t) =~= as_map(s).remove(s[i].0));
    }
}

/// After a key is released, no sender can be found for it: looking it
/// up in the map that remains yields nothing.
pub proof fn lemma_release_clears(m: Map<DemuxKey, u64>, k: DemuxKey)
    ensures
        !m.remove(k).contains_key(k),
{
}

/// Reservations never collide: a second reservation only settles on a
/// key the map does not hold, and the first one's key is in the map
/// from the moment it is granted, so the two keys differ.
pub proof fn lemma_reserved_keys_distinct(
    m: Map<DemuxKey, u64>,
    first: DemuxKey,
    chan: u64,
    second: DemuxKey,
)
    requires
        !m.contains_key(first),
        !m.insert(first, chan).contains_key(second),
    ensures
        first != second,
{
}

} // verus!
