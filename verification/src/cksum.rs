//! The Internet checksum: a one's-complement sum over 16-bit big-endian
//! words with carry fold, finally complemented.

use vstd::prelude::*;
use crate::bytes::{u16_hi, u16_lo};

verus! {

/// The plain sum of the 16-bit big-endian words of a byte string; an odd
/// trailing byte counts as the high half of a word.
pub open spec fn word_sum(s: Seq<u8>) -> nat
    decreases s.len(),
{
    if s.len() == 0 {
        0
    } else if s.len() == 1 {
        (s[0] as nat) * 256
    } else {
        (s[0] as nat) * 256 + (s[1] as nat) + word_sum(s.skip(2))
    }
}

/// One's-complement carry fold of a sum into 16 bits.
pub open spec fn fold16(n: nat) -> nat {
    if n == 0 {
        0
    } else {
        1 + (((n - 1) as nat) % 0xffff)
    }
}

/// The Internet checksum of a byte string.
pub open spec fn checksum_of(s: Seq<u8>) -> u16 {
    (0xffff - fold16(word_sum(s))) as u16
}

pub proof fn lemma_fold16_bound(n: nat)
    ensures
        fold16(n) <= 0xffff,
{
    if n > 0 {
        vstd::arithmetic::div_mod::lemma_mod_bound((n - 1) as int, 0xffff);
    }
}

/// On sums that already fit in 16 bits the fold is the identity.
pub proof fn lemma_fold16_small(n: nat)
    requires
        n <= 0xffff,
    ensures
        fold16(n) == n,
{
    if n > 0 {
        vstd::arithmetic::div_mod::lemma_small_mod((n - 1) as nat, 0xffff);
    }
}

/// One fold step: a sum of two folded values loses exactly 0xffff.
pub proof fn lemma_fold16_carry(n: nat)
    requires
        0xffff < n <= 0x1fffe,
    ensures
        fold16(n) == n - 0xffff,
{
    vstd::arithmetic::div_mod::lemma_mod_sub_multiples_vanish((n - 1) as int, 0xffff);
    vstd::arithmetic::div_mod::lemma_small_mod((n - 1 - 0xffff) as nat, 0xffff);
}

/// Folding may be done incrementally: folding a partial sum first does
/// not change the result.
pub proof fn lemma_fold16_add(a: nat, b: nat)
    ensures
        fold16(a + b) == fold16((fold16(a) + b) as nat),
{
    if a > 0 {
        let m: int = 0xffff;
        vstd::arithmetic::div_mod::lemma_add_mod_noop((a - 1) as int, b as int, m);
        vstd::arithmetic::div_mod::lemma_add_mod_noop(((a - 1) % m), b as int, m);
        vstd::arithmetic::div_mod::lemma_mod_twice((a - 1) as int, m);
    }
}

pub proof fn lemma_word_sum_single(s: Seq<u8>)
    requires
        s.len() == 1,
    ensures
        word_sum(s) == (s[0] as nat) * 256,
{
}

pub proof fn lemma_word_sum_pair(s: Seq<u8>)
    requires
        s.len() == 2,
    ensures
        word_sum(s) == (s[0] as nat) * 256 + (s[1] as nat),
{
    assert(s.skip(2) =~= Seq::<u8>::empty());
    assert(word_sum(Seq::<u8>::empty()) == 0);
}

/// Splitting a byte string at an even offset splits its word sum.
pub proof fn lemma_word_sum_append(x: Seq<u8>, y: Seq<u8>)
    requires
        x.len() % 2 == 0,
    ensures
        word_sum(x + y) == word_sum(x) + word_sum(y),
    decreases x.len(),
{
    if x.len() == 0 {
        assert(x + y =~= y);
    } else {
        lemma_word_sum_append(x.skip(2), y);
        assert((x + y).skip(2) =~= x.skip(2) + y);
    }
}

/// A word sum together with its own complemented fold folds to 0xffff.
pub proof fn lemma_checksum_balances(s: Seq<u8>)
    ensures
        fold16(word_sum(s) + (checksum_of(s) as nat)) == 0xffff,
{
    let sum = word_sum(s);
    lemma_fold16_bound(sum);
    lemma_fold16_add(sum, (0xffff - fold16(sum)) as nat);
    lemma_fold16_small(0xffff);
}

/// Writing the Internet checksum of a packet (computed with the checksum
/// field zero) into bytes 2 and 3 makes the whole packet's folded word
/// sum 0xffff.
pub proof fn lemma_patched_packet_folds_to_ffff(z: Seq<u8>, p: Seq<u8>)
    requires
        z.len() >= 4,
        p.len() == z.len(),
        z[2] == 0,
        z[3] == 0,
        p[2] == u16_hi(checksum_of(z)),
        p[3] == u16_lo(checksum_of(z)),
        forall|k: int| 0 <= k < z.len() && k != 2 && k != 3 ==> p[k] == z[k],
    ensures
        fold16(word_sum(p)) == 0xffff,
{
    let c = checksum_of(z) as nat;
    lemma_word_sum_append(z.subrange(0, 2), z.subrange(2, 4));
    assert(z.subrange(0, 2) + z.subrange(2, 4) =~= z.subrange(0, 4));
    lemma_word_sum_pair(z.subrange(0, 2));
    lemma_word_sum_pair(z.subrange(2, 4));
    assert(word_sum(z.subrange(0, 4)) == (z[0] as nat) * 256 + (z[1] as nat));
    lemma_word_sum_append(p.subrange(0, 2), p.subrange(2, 4));
    assert(p.subrange(0, 2) + p.subrange(2, 4) =~= p.subrange(0, 4));
    lemma_word_sum_pair(p.subrange(0, 2));
    lemma_word_sum_pair(p.subrange(2, 4));
    vstd::arithmetic::div_mod::lemma_fundamental_div_mod(checksum_of(z) as int, 256);
    assert(word_sum(p.subrange(0, 4)) == (z[0] as nat) * 256 + (z[1] as nat) + c);
    lemma_word_sum_append(z.subrange(0, 4), z.subrange(4, z.len() as int));
    assert(z.subrange(0, 4) + z.subrange(4, z.len() as int) =~= z);
    lemma_word_sum_append(p.subrange(0, 4), p.subrange(4, p.len() as int));
    assert(p.subrange(0, 4) + p.subrange(4, p.len() as int) =~= p);
    assert(p.subrange(4, p.len() as int) =~= z.subrange(4, z.len() as int));
    assert(word_sum(p) == word_sum(z) + c);
    lemma_checksum_balances(z);
}

/// A packet with its own Internet checksum (computed while the field was
/// zero) written into bytes 2 and 3 — the layout ICMP uses.
pub open spec fn with_checksum_at_2(z: Seq<u8>) -> Seq<u8> {
    z.update(2, u16_hi(checksum_of(z))).update(3, u16_lo(checksum_of(z)))
}

/// Any ICMP packet finished by `with_checksum_at_2` has a folded word
/// sum of 0xffff, which is how receivers validate it.
pub proof fn lemma_with_checksum_at_2_balances(z: Seq<u8>)
    requires
        z.len() >= 4,
        z[2] == 0,
        z[3] == 0,
    ensures
        fold16(word_sum(with_checksum_at_2(z))) == 0xffff,
{
    lemma_patched_packet_folds_to_ffff(z, with_checksum_at_2(z));
}

/// Computes the Internet checksum of a packet.
pub fn checksum(pkt: &[u8]) -> (r: u16)
    ensures
        r == checksum_of(pkt@),
{
    let len: usize = pkt.len();
    let mut acc: u32 = 0;
    let mut i: usize = 0;
    proof {
        assert(pkt@.subrange(0, 0) =~= Seq::<u8>::empty());
    }
    while i < len
        invariant
            i <= len,
            len == pkt@.len(),
            i % 2 == 0 || i == len,
            acc <= 0xffff,
            acc as nat == fold16(word_sum(pkt@.subrange(0, i as int))),
        decreases len - i,
    {
        let ghost prefix = pkt@.subrange(0, i as int);
        let word: u32;
        let next: usize;
        if i + 1 < len {
            let hi = *vstd::slice::slice_index_get(pkt, i);
            let lo = *vstd::slice::slice_index_get(pkt, i + 1);
            word = (hi as u32) * 256 + (lo as u32);
            next = i + 2;
            proof {
                let pair = pkt@.subrange(i as int, i + 2);
                lemma_word_sum_pair(pair);
                lemma_word_sum_append(prefix, pair);
                assert(prefix + pair =~= pkt@.subrange(0, i + 2));
            }
        } else {
            let hi = *vstd::slice::slice_index_get(pkt, i);
            word = (hi as u32) * 256;
            next = i + 1;
            proof {
                let tail = pkt@.subrange(i as int, i + 1);
                lemma_word_sum_single(tail);
                lemma_word_sum_append(prefix, tail);
                assert(prefix + tail =~= pkt@.subrange(0, i + 1));
            }
        }
        proof {
            let ghost grown = pkt@.subrange(0, next as int);
            lemma_fold16_add(word_sum(prefix), word as nat);
            if acc + word > 0xffff {
                lemma_fold16_carry((acc + word) as nat);
            } else {
                lemma_fold16_small((acc + word) as nat);
            }
        }
        acc = acc + word;
        if acc > 0xffff {
            acc = acc - 0xffff;
        }
        i = next;
    }
    proof {
        assert(pkt@.subrange(0, len as int) =~= pkt@);
        lemma_fold16_bound(word_sum(pkt@));
    }
    (0xffff - acc) as u16
}

} // verus!
