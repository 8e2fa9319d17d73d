//! Numbers of a fixed width on the wire: their bytes, least significant
//! first, whatever the host's byte order.

use vstd::prelude::*;
use crate::val::{after, front, ByteQue};

verus! {

/// The widest number that is stored, in bytes.
pub const MAX_WIDTH: usize = 16;

/// Byte number `i` of `x`, counted from the least significant.
pub open spec fn le_byte(x: u128, i: nat) -> u8 {
    ((x >> ((8 * i) as u128)) & 0xff) as u8
}

/// The `width` low bytes of `x`, least significant first.
pub open spec fn le_bytes(x: u128, width: nat) -> Seq<u8> {
    Seq::new(width, |i: int| le_byte(x, i as nat))
}

/// The number whose `width` low bytes are the first `width` bytes of
/// `bytes`, least significant first.
pub open spec fn le_value(bytes: Seq<u8>, width: nat) -> u128
    decreases width,
{
    if width == 0 {
        0
    } else {
        le_value(bytes, (width - 1) as nat) | ((bytes[width - 1] as u128) << ((8 * (width
            - 1)) as u128))
    }
}

/// The `width` low bytes of `x` as a number.
pub open spec fn low_bytes(x: u128, width: nat) -> u128 {
    if width >= MAX_WIDTH {
        x
    } else {
        x & (((1u128 << ((8 * width) as u128)) - 1) as u128)
    }
}

/// The first `k` bytes of `x` make up the `k` low bytes of `x`.
pub proof fn lemma_le_partial(x: u128, width: nat, k: nat)
    requires
        k <= width <= MAX_WIDTH,
    ensures
        le_value(le_bytes(x, width), k) == low_bytes(x, k),
    decreases k,
{
    if k == 0 {
        assert(x & (((1u128 << 0u128) - 1) as u128) == 0) by (bit_vector);
    } else {
        let j = (k - 1) as nat;
        lemma_le_partial(x, width, j);
        let s = (8 * j) as u128;
        let b = le_byte(x, j);
        assert(le_bytes(x, width)[j as int] == b);
        let low = low_bytes(x, j);
        if k < MAX_WIDTH {
            let s8 = (8 * k) as u128;
            assert((x & (((1u128 << s) - 1) as u128)) | (((((x >> s) & 0xff) as u8) as u128) << s)
                == x & (((1u128 << s8) - 1) as u128)) by (bit_vector)
                requires
                    s <= 112,
                    s8 == s + 8,
            ;
        } else {
            assert((x & (((1u128 << s) - 1) as u128)) | (((((x >> s) & 0xff) as u8) as u128) << s)
                == x) by (bit_vector)
                requires
                    s == 120,
            ;
        }
    }
}

/// A number that fits in `width` bytes survives encoding and decoding.
pub proof fn lemma_le_round_trip(x: u128, width: nat, rest: Seq<u8>)
    requires
        width <= MAX_WIDTH,
        low_bytes(x, width) == x,
    ensures
        le_value(front(le_bytes(x, width) + rest, width), width) == x,
        after(le_bytes(x, width) + rest, width) == rest,
{
    let bytes = le_bytes(x, width) + rest;
    assert(front(bytes, width) =~= le_bytes(x, width));
    assert(after(bytes, width) =~= rest);
    lemma_le_partial(x, width, width);
}

/// Appends the `width` low bytes of `x`, least significant first.
pub(crate) fn put_le(q: &mut ByteQue, x: u128, width: usize)
    requires
        width <= MAX_WIDTH,
    ensures
        final(q)@ == old(q)@ + le_bytes(x, width as nat),
{
    let mut i: usize = 0;
    while i < width
        invariant
            i <= width <= MAX_WIDTH,
            q@ == old(q)@ + le_bytes(x, i as nat),
        decreases width - i,
    {
        let y = (x >> (8 * i as u128)) & 0xff;
        assert(y <= 0xff) by (bit_vector)
            requires
                y == (x >> (8 * i as u128)) & 0xff,
        ;
        q.push(y as u8);
        i += 1;
        assert(q@ =~= old(q)@ + le_bytes(x, i as nat));
    }
}

/// Removes `width` bytes and reads them as a number, least significant
/// byte first. Bytes that are not there read as zero.
pub(crate) fn get_le(q: &mut ByteQue, width: usize) -> (x: u128)
    requires
        width <= MAX_WIDTH,
    ensures
        x == le_value(front(old(q)@, width as nat), width as nat),
        final(q)@ == after(old(q)@, width as nat),
{
    let s = q.pop_slice(width);
    let mut x: u128 = 0;
    let mut i: usize = 0;
    while i < width
        invariant
            i <= width <= MAX_WIDTH,
            s@.len() == width,
            x == le_value(s@, i as nat),
        decreases width - i,
    {
        x = x | ((s[i] as u128) << (8 * i as u128));
        i += 1;
    }
    x
}

} // verus!
