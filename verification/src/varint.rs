//! Sizes on the wire: little-endian groups of seven bits, the high bit of
//! each byte saying that another group follows. At most ten groups are
//! written or read, which covers 64 bits.

use vstd::prelude::*;
use crate::val::{after, front, ByteQue};

verus! {

/// The most groups a size takes.
pub const MAX_GROUPS: usize = 10;

/// The groups of `n`, the first of them being group number `i`.
pub open spec fn groups_from(n: u64, i: nat) -> Seq<u8>
    decreases MAX_GROUPS - i,
{
    if i >= MAX_GROUPS {
        Seq::empty()
    } else if n <= 0x7f {
        seq![n as u8]
    } else {
        seq![((n & 0x7f) as u8) | 0x80u8] + groups_from(n >> 7, i + 1)
    }
}

/// The bytes that stand for the size `n`.
pub open spec fn varint_encoding(n: u64) -> Seq<u8> {
    groups_from(n, 0)
}

/// Whether `b`, read as group number `i`, is the last group of its size.
pub open spec fn ends_size(b: u8, i: nat) -> bool {
    b <= 0x7f || i + 1 >= MAX_GROUPS
}

/// What `b` contributes to a size as its group number `i`.
pub open spec fn group_value(b: u8, i: nat) -> u64 {
    ((b & 0x7f) as u64) << ((7 * i) as u64)
}

/// The value of the groups at the front of `bytes`, the first of them being
/// group number `i`. Bytes past the end of `bytes` read as zero.
pub open spec fn value_from(bytes: Seq<u8>, i: nat) -> u64
    decreases MAX_GROUPS - i,
{
    let b = front(bytes, 1)[0];
    if ends_size(b, i) {
        group_value(b, i)
    } else {
        group_value(b, i) | value_from(after(bytes, 1), i + 1)
    }
}

/// How many groups the size at the front of `bytes` has, the first of them
/// being group number `i`.
pub open spec fn width_from(bytes: Seq<u8>, i: nat) -> nat
    decreases MAX_GROUPS - i,
{
    if ends_size(front(bytes, 1)[0], i) {
        1
    } else {
        1 + width_from(after(bytes, 1), i + 1)
    }
}

/// The size that a decoder reads at the front of `bytes`.
pub open spec fn varint_value(bytes: Seq<u8>) -> u64 {
    value_from(bytes, 0)
}

/// The number of bytes that the size at the front of `bytes` takes, the
/// bytes that are not there included.
pub open spec fn varint_width(bytes: Seq<u8>) -> nat {
    width_from(bytes, 0)
}

/// Reading `a` bytes and then `b` bytes leaves what reading `a + b` leaves.
pub proof fn lemma_after_after(s: Seq<u8>, a: nat, b: nat)
    ensures
        after(after(s, a), b) == after(s, a + b),
{
    if a + b <= s.len() {
        assert(s.skip(a as int).skip(b as int) =~= s.skip((a + b) as int));
    }
}

/// A size has between one and ten groups.
pub proof fn lemma_width_bounds(bytes: Seq<u8>, i: nat)
    requires
        i < MAX_GROUPS,
    ensures
        1 <= width_from(bytes, i) <= MAX_GROUPS - i,
    decreases MAX_GROUPS - i,
{
    if !ends_size(front(bytes, 1)[0], i) {
        lemma_width_bounds(after(bytes, 1), i + 1);
    }
}

/// Decoding what was encoded gives the size back, and stops where the
/// encoding stops.
pub proof fn lemma_groups_round_trip(n: u64, i: nat, rest: Seq<u8>)
    requires
        i < MAX_GROUPS,
        n <= u64::MAX >> ((7 * i) as u64),
    ensures
        value_from(groups_from(n, i) + rest, i) == n << ((7 * i) as u64),
        width_from(groups_from(n, i) + rest, i) == groups_from(n, i).len(),
    decreases MAX_GROUPS - i,
{
    let k = (7 * i) as u64;
    let bytes = groups_from(n, i) + rest;
    if n <= 0x7f {
        let b = n as u8;
        assert(bytes[0] == b);
        assert(b <= 0x7f && ((b & 0x7f) as u64) == n) by (bit_vector)
            requires
                n <= 0x7f,
                b == n as u8,
        ;
    } else {
        let b = ((n & 0x7f) as u8) | 0x80u8;
        let tail = groups_from(n >> 7, i + 1);
        assert(k <= 56) by (bit_vector)
            requires
                k <= 63,
                n > 0x7f,
                n <= u64::MAX >> k,
        ;
        assert(i + 1 < MAX_GROUPS);
        assert(bytes[0] == b);
        assert(after(bytes, 1) =~= tail + rest);
        assert(b > 0x7f && ((b & 0x7f) as u64) == n & 0x7f) by (bit_vector)
            requires
                b == ((n & 0x7f) as u8) | 0x80u8,
        ;
        let k7 = (7 * (i + 1)) as u64;
        assert((n >> 7) <= u64::MAX >> k7) by (bit_vector)
            requires
                k <= 56,
                k7 == k + 7,
                n <= u64::MAX >> k,
        ;
        lemma_groups_round_trip(n >> 7, i + 1, rest);
        assert(((n & 0x7f) << k) | ((n >> 7) << k7) == n << k) by (bit_vector)
            requires
                k <= 56,
                k7 == k + 7,
                n <= u64::MAX >> k,
        ;
    }
}

/// Every size survives encoding and decoding.
pub proof fn lemma_varint_round_trip(n: u64, rest: Seq<u8>)
    ensures
        varint_value(varint_encoding(n) + rest) == n,
        varint_width(varint_encoding(n) + rest) == varint_encoding(n).len(),
        after(varint_encoding(n) + rest, varint_width(varint_encoding(n) + rest)) == rest,
        1 <= varint_encoding(n).len() <= MAX_GROUPS,
{
    assert(n <= u64::MAX >> 0u64) by (bit_vector);
    lemma_groups_round_trip(n, 0, rest);
    assert(n << 0u64 == n) by (bit_vector);
    lemma_width_bounds(varint_encoding(n) + rest, 0);
    assert((varint_encoding(n) + rest).skip(varint_encoding(n).len() as int) =~= rest);
}

/// A size that ends within `x` is the same size whatever follows `x`.
pub proof fn lemma_size_prefix(x: Seq<u8>, y: Seq<u8>, i: nat)
    requires
        i < MAX_GROUPS,
        width_from(x, i) <= x.len(),
    ensures
        width_from(x + y, i) == width_from(x, i),
        value_from(x + y, i) == value_from(x, i),
    decreases MAX_GROUPS - i,
{
    lemma_width_bounds(x, i);
    assert((x + y)[0] == x[0]);
    if !ends_size(x[0], i) {
        assert(after(x + y, 1) =~= after(x, 1) + y);
        lemma_size_prefix(after(x, 1), y, i + 1);
    }
}

/// Reads the size at the front of `bytes`, where all of its groups are
/// there: how many they are, and the size. Nothing where `bytes` ends
/// before the size does.
pub(crate) fn scan_varint(bytes: &[u8]) -> (found: Option<(usize, u64)>)
    ensures
        match found {
            Some((width, value)) => {
                &&& width == varint_width(bytes@)
                &&& width <= bytes@.len()
                &&& value == varint_value(bytes@)
            },
            None => varint_width(bytes@) > bytes@.len(),
        },
{
    let mut s: u64 = 0;
    let mut x: usize = 0;
    proof {
        let whole = varint_value(bytes@);
        assert(0u64 | whole == whole) by (bit_vector);
        assert(bytes@.skip(0) =~= bytes@);
    }
    while x < bytes.len()
        invariant
            x <= bytes@.len(),
            x < MAX_GROUPS,
            varint_value(bytes@) == s | value_from(bytes@.skip(x as int), x as nat),
            varint_width(bytes@) == x + width_from(bytes@.skip(x as int), x as nat),
        decreases bytes@.len() - x,
    {
        let v = bytes[x];
        let low = ((v & 0x7f) as u64) << (7 * x as u64);
        proof {
            let cur = bytes@.skip(x as int);
            assert(cur[0] == v);
            assert(after(cur, 1) =~= bytes@.skip(x + 1));
            let rest = value_from(after(cur, 1), (x + 1) as nat);
            assert(s | (low | rest) == (s | low) | rest) by (bit_vector);
        }
        s = s | low;
        if v <= 0x7f || x + 1 >= MAX_GROUPS {
            return Some((x + 1, s));
        }
        x += 1;
    }
    proof {
        lemma_width_bounds(bytes@.skip(x as int), x as nat);
    }
    None
}

/// Appends the groups of `n` to `out`.
pub(crate) fn write_varint(n: u64, out: &mut Vec<u8>)
    ensures
        final(out)@ == old(out)@ + varint_encoding(n),
{
    let mut s = n;
    let mut i: usize = 0;
    while i < MAX_GROUPS
        invariant
            i <= MAX_GROUPS,
            out@ + groups_from(s, i as nat) == old(out)@ + varint_encoding(n),
        decreases MAX_GROUPS - i,
    {
        if s <= 0x7f {
            out.push(s as u8);
            assert(out@ =~= old(out)@ + varint_encoding(n));
            return ;
        }
        let low = s & 0x7f;
        assert(low <= 0x7f) by (bit_vector)
            requires
                low == s & 0x7f,
        ;
        let ghost before = out@;
        out.push((low as u8) | 0x80);
        s = s >> 7;
        i += 1;
        assert(out@ + groups_from(s, i as nat) =~= before + (seq![(low as u8) | 0x80u8]
            + groups_from(s, i as nat)));
    }
    assert(out@ + groups_from(s, i as nat) =~= out@);
}

/// Removes the size at the head of `q`.
pub(crate) fn read_varint(q: &mut ByteQue) -> (n: u64)
    ensures
        n == varint_value(old(q)@),
        final(q)@ == after(old(q)@, varint_width(old(q)@)),
{
    let mut s: u64 = 0;
    let mut i: usize = 0;
    let ghost mut read: nat = 0;
    proof {
        let whole = varint_value(q@);
        assert(0u64 | whole == whole) by (bit_vector);
    }
    loop
        invariant
            i < MAX_GROUPS,
            read == i,
            q@ == after(old(q)@, read),
            varint_value(old(q)@) == s | value_from(q@, i as nat),
            varint_width(old(q)@) == read + width_from(q@, i as nat),
        decreases MAX_GROUPS - i,
    {
        let ghost cur = q@;
        let v = q.pop();
        let low = ((v & 0x7f) as u64) << (7 * i as u64);
        proof {
            lemma_after_after(old(q)@, read, 1);
            let rest = value_from(after(cur, 1), (i + 1) as nat);
            assert(s | (low | rest) == (s | low) | rest) by (bit_vector);
        }
        s = s | low;
        if v <= 0x7f || i + 1 >= MAX_GROUPS {
            return s;
        }
        i += 1;
        proof {
            read = read + 1;
        }
    }
}

} // verus!
