//! Big-endian byte-string encodings of unsigned integers, used by all
//! packet codecs in this crate.

use vstd::prelude::*;

verus! {

/// The `n`-byte big-endian encoding of `v` (of `v mod 256^n` when `v` is
/// too large to fit).
pub open spec fn be_bytes_of(v: nat, n: nat) -> Seq<u8>
    decreases n,
{
    if n == 0 {
        Seq::empty()
    } else {
        be_bytes_of(v / 256, (n - 1) as nat) + seq![(v % 256) as u8]
    }
}

/// The value of a byte string read as a big-endian integer.
pub open spec fn be_value(s: Seq<u8>) -> nat
    decreases s.len(),
{
    if s.len() == 0 {
        0
    } else {
        be_value(s.drop_last()) * 256 + (s.last() as nat)
    }
}

/// 256 raised to the power `n`.
pub open spec fn pow256(n: nat) -> nat
    decreases n,
{
    if n == 0 {
        1
    } else {
        256 * pow256((n - 1) as nat)
    }
}

/// The high byte of a 16-bit word.
pub open spec fn u16_hi(v: u16) -> u8 {
    (v / 256) as u8
}

/// The low byte of a 16-bit word.
pub open spec fn u16_lo(v: u16) -> u8 {
    (v % 256) as u8
}

/// A 16-bit word read from two big-endian bytes.
pub open spec fn be16(b0: u8, b1: u8) -> u16 {
    (b0 as nat * 256 + b1 as nat) as u16
}

/// A 32-bit word read from four big-endian bytes.
pub open spec fn be32(b0: u8, b1: u8, b2: u8, b3: u8) -> u32 {
    (b0 as nat * 0x1000000 + b1 as nat * 0x10000 + b2 as nat * 0x100 + b3 as nat) as u32
}

/// The four big-endian bytes of a 32-bit word, most significant first.
pub open spec fn u32_byte(v: u32, i: int) -> u8 {
    if i == 0 {
        (v / 0x1000000) as u8
    } else if i == 1 {
        ((v / 0x10000) % 256) as u8
    } else if i == 2 {
        ((v / 0x100) % 256) as u8
    } else {
        (v % 256) as u8
    }
}

pub proof fn lemma_be16_round_trip(v: u16)
    ensures
        be16(u16_hi(v), u16_lo(v)) == v,
{
    vstd::arithmetic::div_mod::lemma_fundamental_div_mod(v as int, 256);
}

pub proof fn lemma_be32_round_trip(v: u32)
    ensures
        be32(u32_byte(v, 0), u32_byte(v, 1), u32_byte(v, 2), u32_byte(v, 3)) == v,
{
    vstd::arithmetic::div_mod::lemma_fundamental_div_mod(v as int, 0x100);
    vstd::arithmetic::div_mod::lemma_fundamental_div_mod(v as int / 0x100, 0x100);
    vstd::arithmetic::div_mod::lemma_fundamental_div_mod(v as int / 0x10000, 0x100);
}

pub proof fn lemma_be_bytes_of_len(v: nat, n: nat)
    ensures
        be_bytes_of(v, n).len() == n,
    decreases n,
{
    if n > 0 {
        lemma_be_bytes_of_len(v / 256, (n - 1) as nat);
    }
}

pub proof fn lemma_be_value_bound(s: Seq<u8>)
    ensures
        be_value(s) < pow256(s.len()),
    decreases s.len(),
{
    if s.len() > 0 {
        let head = s.drop_last();
        lemma_be_value_bound(head);
        vstd::arithmetic::mul::lemma_mul_inequality(
            be_value(head) as int,
            pow256(head.len()) as int - 1,
            256,
        );
    }
}

/// Encoding then decoding a value that fits in `n` bytes gives it back.
pub proof fn lemma_be_round_trip(v: nat, n: nat)
    requires
        v < pow256(n),
    ensures
        be_value(be_bytes_of(v, n)) == v,
    decreases n,
{
    if n > 0 {
        let m = (n - 1) as nat;
        if v / 256 >= pow256(m) {
            vstd::arithmetic::mul::lemma_mul_inequality(
                pow256(m) as int,
                (v / 256) as int,
                256,
            );
            vstd::arithmetic::div_mod::lemma_fundamental_div_mod(v as int, 256);
            assert(false);
        }
        lemma_be_round_trip(v / 256, m);
        lemma_be_bytes_of_len(v / 256, m);
        assert(be_bytes_of(v, n).drop_last() =~= be_bytes_of(v / 256, m));
        vstd::arithmetic::div_mod::lemma_fundamental_div_mod(v as int, 256);
    }
}

/// Appends the `n`-byte big-endian encoding of `v` to `buf`.
pub fn append_be_bytes(buf: &mut Vec<u8>, v: u128, n: usize)
    ensures
        final(buf)@ == old(buf)@ + be_bytes_of(v as nat, n as nat),
    decreases n,
{
    if n == 0 {
        proof {
            assert(old(buf)@ + be_bytes_of(v as nat, 0) =~= old(buf)@);
        }
    } else {
        append_be_bytes(buf, v / 256, n - 1);
        buf.push((v % 256) as u8);
        proof {
            assert(final(buf)@ =~= old(buf)@ + be_bytes_of(v as nat, n as nat));
        }
    }
}

/// Reads `n` bytes starting at `i` as a big-endian integer.
pub fn read_be_bytes(s: &[u8], i: usize, n: usize) -> (r: u128)
    requires
        i + n <= s@.len(),
        n <= 16,
    ensures
        r as nat == be_value(s@.subrange(i as int, i + n)),
{
    let slen: usize = s.len();
    let mut acc: u128 = 0;
    let mut j: usize = 0;
    proof {
        assert(s@.subrange(i as int, i as int) =~= Seq::<u8>::empty());
    }
    while j < n
        invariant
            j <= n,
            n <= 16,
            i + n <= s@.len(),
            s@.len() == slen,
            acc as nat == be_value(s@.subrange(i as int, i + j)),
        decreases n - j,
    {
        let b = *vstd::slice::slice_index_get(s, i + j);
        proof {
            let prefix = s@.subrange(i as int, i + j);
            let next = s@.subrange(i as int, i + j + 1);
            assert(next.drop_last() =~= prefix);
            lemma_be_value_bound(prefix);
            lemma_pow256_increases(j as nat, 15);
            assert(pow256(16) == 0x100000000000000000000000000000000) by {
                reveal_with_fuel(pow256, 17);
            }
            vstd::arithmetic::mul::lemma_mul_inequality(
                acc as int,
                pow256(15) as int - 1,
                256,
            );
        }
        acc = acc * 256 + (b as u128);
        j = j + 1;
    }
    acc
}

/// A slice's length fits in `usize`.
pub proof fn lemma_slice_len_fits(s: &[u8])
    ensures
        s@.len() <= usize::MAX,
{
    let len = s.len();
}

pub proof fn lemma_pow256_pos(n: nat)
    ensures
        pow256(n) >= 1,
    decreases n,
{
    if n > 0 {
        lemma_pow256_pos((n - 1) as nat);
    }
}

pub proof fn lemma_pow256_increases(a: nat, b: nat)
    requires
        a <= b,
    ensures
        pow256(a) <= pow256(b),
    decreases b,
{
    if a < b {
        lemma_pow256_increases(a, (b - 1) as nat);
        lemma_pow256_pos((b - 1) as nat);
        vstd::arithmetic::mul::lemma_mul_increases(pow256((b - 1) as nat) as int, 256);
    }
}

} // verus!
