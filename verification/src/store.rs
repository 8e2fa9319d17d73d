//! The codec: what each type looks like on the wire, and that decoding
//! gives back what was encoded.

use vstd::prelude::*;
use vstd::utf8::is_scalar;
use crate::fixed::{get_le, le_bytes, le_value, lemma_le_round_trip, put_le};
use crate::val::{after, front, ByteQue};
use crate::varint::{
    lemma_varint_round_trip,
    read_varint,
    varint_encoding,
    varint_value,
    varint_width,
    write_varint,
};

verus! {

/// A type with a wire form. `store` appends the value's bytes to a queue and
/// `restore` consumes them again; which type is expected at a position is
/// known to both sides, the bytes carry no tag.
///
/// An implementation states its wire form by `model`, `encoding` and
/// `parse`, and says by `obeys_store_spec` that `store` and `restore` keep
/// to it. One that states nothing promises nothing.
pub trait Store: Sized {
    /// The mathematical value that a stored value stands for.
    type Model;

    /// Whether `store` and `restore` keep to the wire form stated. It holds
    /// of every type of this library that has no map in it; a map keeps to
    /// it where its keys hash and compare as the model of a hash map asks.
    open spec fn obeys_store_spec() -> bool {
        false
    }

    /// The value of `self`.
    open spec fn model(&self) -> Self::Model {
        arbitrary()
    }

    /// The bytes that `store` appends for `self`.
    open spec fn encoding(&self) -> Seq<u8> {
        arbitrary()
    }

    /// What `restore` makes of `bytes`: the value at their front, and the
    /// bytes that are left. Bytes that are not there read as zero.
    open spec fn parse(bytes: Seq<u8>) -> (Self::Model, Seq<u8>) {
        arbitrary()
    }

    fn store(&self, q: &mut ByteQue)
        ensures
            Self::obeys_store_spec() ==> final(q)@ == old(q)@ + self.encoding(),
    ;

    fn restore(q: &mut ByteQue) -> (r: Self)
        ensures
            Self::obeys_store_spec() ==> (r.model(), final(q)@) == Self::parse(old(q)@),
    ;
}

/// A wire form that loses nothing: what was encoded is what is decoded.
pub trait RoundTrip: Store {
    /// Whether each count written inside the encoding of `self` is the
    /// count of what it counts, and at most the number of bytes that follow
    /// it when `rest` follows the encoding. A decoder takes a larger count
    /// for damage and yields an empty value.
    spec fn counts_fit(&self, rest: Seq<u8>) -> bool;

    /// Decoding the encoding of a value gives the value, and leaves what
    /// followed the encoding.
    proof fn lemma_round_trip(&self, rest: Seq<u8>)
        requires
            self.counts_fit(rest),
        ensures
            Self::parse(self.encoding() + rest) == (self.model(), rest),
    ;
}

/// The first byte of `bytes` and what follows it.
pub open spec fn parse_byte(bytes: Seq<u8>) -> (u8, Seq<u8>) {
    (front(bytes, 1)[0], after(bytes, 1))
}

/// The number in the first `width` bytes of `bytes` and what follows them.
pub open spec fn parse_le(bytes: Seq<u8>, width: nat) -> (u128, Seq<u8>) {
    (le_value(front(bytes, width), width), after(bytes, width))
}

proof fn lemma_byte_round_trip(b: u8, rest: Seq<u8>)
    ensures
        parse_byte(seq![b] + rest) == (b, rest),
{
    assert(after(seq![b] + rest, 1) =~= rest);
}

proof fn lemma_fits_2(x: u16)
    ensures
        crate::fixed::low_bytes(x as u128, 2) == x as u128,
{
    let y = x as u128;
    assert(y & (((1u128 << 16u128) - 1) as u128) == y) by (bit_vector)
        requires
            y <= 0xffff,
    ;
}

proof fn lemma_fits_4(x: u32)
    ensures
        crate::fixed::low_bytes(x as u128, 4) == x as u128,
{
    let y = x as u128;
    assert(y & (((1u128 << 32u128) - 1) as u128) == y) by (bit_vector)
        requires
            y <= 0xffff_ffff,
    ;
}

proof fn lemma_fits_8(x: u64)
    ensures
        crate::fixed::low_bytes(x as u128, 8) == x as u128,
{
    let y = x as u128;
    assert(y & (((1u128 << 64u128) - 1) as u128) == y) by (bit_vector)
        requires
            y <= 0xffff_ffff_ffff_ffff,
    ;
}

/// A size: its groups of seven bits.
impl Store for usize {
    type Model = usize;

    open spec fn obeys_store_spec() -> bool {
        true
    }

    open spec fn model(&self) -> usize {
        *self
    }

    open spec fn encoding(&self) -> Seq<u8> {
        varint_encoding(*self as u64)
    }

    open spec fn parse(bytes: Seq<u8>) -> (usize, Seq<u8>) {
        (varint_value(bytes) as usize, after(bytes, varint_width(bytes)))
    }

    fn store(&self, q: &mut ByteQue) {
        let mut groups: Vec<u8> = Vec::new();
        write_varint(*self as u64, &mut groups);
        q.push_slice(groups.as_slice());
    }

    fn restore(q: &mut ByteQue) -> (r: Self) {
        read_varint(q) as usize
    }
}

impl RoundTrip for usize {
    open spec fn counts_fit(&self, rest: Seq<u8>) -> bool {
        true
    }

    proof fn lemma_round_trip(&self, rest: Seq<u8>) {
        lemma_varint_round_trip(*self as u64, rest);
    }
}

/// One byte, 1 for true; any byte but 0 reads as true.
impl Store for bool {
    type Model = bool;

    open spec fn obeys_store_spec() -> bool {
        true
    }

    open spec fn model(&self) -> bool {
        *self
    }

    open spec fn encoding(&self) -> Seq<u8> {
        seq![if *self { 1u8 } else { 0u8 }]
    }

    open spec fn parse(bytes: Seq<u8>) -> (bool, Seq<u8>) {
        (parse_byte(bytes).0 != 0, parse_byte(bytes).1)
    }

    fn store(&self, q: &mut ByteQue) {
        q.push(if *self { 1u8 } else { 0u8 });
    }

    fn restore(q: &mut ByteQue) -> (r: Self) {
        q.pop() != 0
    }
}

impl RoundTrip for bool {
    open spec fn counts_fit(&self, rest: Seq<u8>) -> bool {
        true
    }

    proof fn lemma_round_trip(&self, rest: Seq<u8>) {
        lemma_byte_round_trip(if *self { 1u8 } else { 0u8 }, rest);
    }
}

impl Store for u8 {
    type Model = u8;

    open spec fn obeys_store_spec() -> bool {
        true
    }

    open spec fn model(&self) -> u8 {
        *self
    }

    open spec fn encoding(&self) -> Seq<u8> {
        seq![*self]
    }

    open spec fn parse(bytes: Seq<u8>) -> (u8, Seq<u8>) {
        parse_byte(bytes)
    }

    fn store(&self, q: &mut ByteQue) {
        q.push(*self);
    }

    fn restore(q: &mut ByteQue) -> (r: Self) {
        q.pop()
    }
}

impl RoundTrip for u8 {
    open spec fn counts_fit(&self, rest: Seq<u8>) -> bool {
        true
    }

    proof fn lemma_round_trip(&self, rest: Seq<u8>) {
        lemma_byte_round_trip(*self, rest);
    }
}

/// One byte, the bit pattern of the number.
impl Store for i8 {
    type Model = i8;

    open spec fn obeys_store_spec() -> bool {
        true
    }

    open spec fn model(&self) -> i8 {
        *self
    }

    open spec fn encoding(&self) -> Seq<u8> {
        seq![*self as u8]
    }

    open spec fn parse(bytes: Seq<u8>) -> (i8, Seq<u8>) {
        (parse_byte(bytes).0 as i8, parse_byte(bytes).1)
    }

    fn store(&self, q: &mut ByteQue) {
        q.push(*self as u8);
    }

    fn restore(q: &mut ByteQue) -> (r: Self) {
        q.pop() as i8
    }
}

impl RoundTrip for i8 {
    open spec fn counts_fit(&self, rest: Seq<u8>) -> bool {
        true
    }

    proof fn lemma_round_trip(&self, rest: Seq<u8>) {
        let x = *self;
        lemma_byte_round_trip(x as u8, rest);
        assert((x as u8) as i8 == x) by (bit_vector);
    }
}

impl Store for u16 {
    type Model = u16;

    open spec fn obeys_store_spec() -> bool {
        true
    }

    open spec fn model(&self) -> u16 {
        *self
    }

    open spec fn encoding(&self) -> Seq<u8> {
        le_bytes(*self as u128, 2)
    }

    open spec fn parse(bytes: Seq<u8>) -> (u16, Seq<u8>) {
        (parse_le(bytes, 2).0 as u16, parse_le(bytes, 2).1)
    }

    fn store(&self, q: &mut ByteQue) {
        put_le(q, *self as u128, 2);
    }

    fn restore(q: &mut ByteQue) -> (r: Self) {
        get_le(q, 2) as u16
    }
}

impl RoundTrip for u16 {
    open spec fn counts_fit(&self, rest: Seq<u8>) -> bool {
        true
    }

    proof fn lemma_round_trip(&self, rest: Seq<u8>) {
        lemma_fits_2(*self);
        lemma_le_round_trip(*self as u128, 2, rest);
    }
}

/// Two bytes, the bit pattern of the number.
impl Store for i16 {
    type Model = i16;

    open spec fn obeys_store_spec() -> bool {
        true
    }

    open spec fn model(&self) -> i16 {
        *self
    }

    open spec fn encoding(&self) -> Seq<u8> {
        (*self as u16).encoding()
    }

    open spec fn parse(bytes: Seq<u8>) -> (i16, Seq<u8>) {
        (u16::parse(bytes).0 as i16, u16::parse(bytes).1)
    }

    fn store(&self, q: &mut ByteQue) {
        (*self as u16).store(q);
    }

    fn restore(q: &mut ByteQue) -> (r: Self) {
        u16::restore(q) as i16
    }
}

impl RoundTrip for i16 {
    open spec fn counts_fit(&self, rest: Seq<u8>) -> bool {
        true
    }

    proof fn lemma_round_trip(&self, rest: Seq<u8>) {
        let x = *self;
        (x as u16).lemma_round_trip(rest);
        assert((x as u16) as i16 == x) by (bit_vector);
    }
}

impl Store for u32 {
    type Model = u32;

    open spec fn obeys_store_spec() -> bool {
        true
    }

    open spec fn model(&self) -> u32 {
        *self
    }

    open spec fn encoding(&self) -> Seq<u8> {
        le_bytes(*self as u128, 4)
    }

    open spec fn parse(bytes: Seq<u8>) -> (u32, Seq<u8>) {
        (parse_le(bytes, 4).0 as u32, parse_le(bytes, 4).1)
    }

    fn store(&self, q: &mut ByteQue) {
        put_le(q, *self as u128, 4);
    }

    fn restore(q: &mut ByteQue) -> (r: Self) {
        get_le(q, 4) as u32
    }
}

impl RoundTrip for u32 {
    open spec fn counts_fit(&self, rest: Seq<u8>) -> bool {
        true
    }

    proof fn lemma_round_trip(&self, rest: Seq<u8>) {
        lemma_fits_4(*self);
        lemma_le_round_trip(*self as u128, 4, rest);
    }
}

/// Four bytes, the bit pattern of the number.
impl Store for i32 {
    type Model = i32;

    open spec fn obeys_store_spec() -> bool {
        true
    }

    open spec fn model(&self) -> i32 {
        *self
    }

    open spec fn encoding(&self) -> Seq<u8> {
        (*self as u32).encoding()
    }

    open spec fn parse(bytes: Seq<u8>) -> (i32, Seq<u8>) {
        (u32::parse(bytes).0 as i32, u32::parse(bytes).1)
    }

    fn store(&self, q: &mut ByteQue) {
        (*self as u32).store(q);
    }

    fn restore(q: &mut ByteQue) -> (r: Self) {
        u32::restore(q) as i32
    }
}

impl RoundTrip for i32 {
    open spec fn counts_fit(&self, rest: Seq<u8>) -> bool {
        true
    }

    proof fn lemma_round_trip(&self, rest: Seq<u8>) {
        let x = *self;
        (x as u32).lemma_round_trip(rest);
        assert((x as u32) as i32 == x) by (bit_vector);
    }
}

impl Store for u64 {
    type Model = u64;

    open spec fn obeys_store_spec() -> bool {
        true
    }

    open spec fn model(&self) -> u64 {
        *self
    }

    open spec fn encoding(&self) -> Seq<u8> {
        le_bytes(*self as u128, 8)
    }

    open spec fn parse(bytes: Seq<u8>) -> (u64, Seq<u8>) {
        (parse_le(bytes, 8).0 as u64, parse_le(bytes, 8).1)
    }

    fn store(&self, q: &mut ByteQue) {
        put_le(q, *self as u128, 8);
    }

    fn restore(q: &mut ByteQue) -> (r: Self) {
        get_le(q, 8) as u64
    }
}

impl RoundTrip for u64 {
    open spec fn counts_fit(&self, rest: Seq<u8>) -> bool {
        true
    }

    proof fn lemma_round_trip(&self, rest: Seq<u8>) {
        lemma_fits_8(*self);
        lemma_le_round_trip(*self as u128, 8, rest);
    }
}

/// Eight bytes, the bit pattern of the number.
impl Store for i64 {
    type Model = i64;

    open spec fn obeys_store_spec() -> bool {
        true
    }

    open spec fn model(&self) -> i64 {
        *self
    }

    open spec fn encoding(&self) -> Seq<u8> {
        (*self as u64).encoding()
    }

    open spec fn parse(bytes: Seq<u8>) -> (i64, Seq<u8>) {
        (u64::parse(bytes).0 as i64, u64::parse(bytes).1)
    }

    fn store(&self, q: &mut ByteQue) {
        (*self as u64).store(q);
    }

    fn restore(q: &mut ByteQue) -> (r: Self) {
        u64::restore(q) as i64
    }
}

impl RoundTrip for i64 {
    open spec fn counts_fit(&self, rest: Seq<u8>) -> bool {
        true
    }

    proof fn lemma_round_trip(&self, rest: Seq<u8>) {
        let x = *self;
        (x as u64).lemma_round_trip(rest);
        assert((x as u64) as i64 == x) by (bit_vector);
    }
}

impl Store for u128 {
    type Model = u128;

    open spec fn obeys_store_spec() -> bool {
        true
    }

    open spec fn model(&self) -> u128 {
        *self
    }

    open spec fn encoding(&self) -> Seq<u8> {
        le_bytes(*self, 16)
    }

    open spec fn parse(bytes: Seq<u8>) -> (u128, Seq<u8>) {
        parse_le(bytes, 16)
    }

    fn store(&self, q: &mut ByteQue) {
        put_le(q, *self, 16);
    }

    fn restore(q: &mut ByteQue) -> (r: Self) {
        get_le(q, 16)
    }
}

impl RoundTrip for u128 {
    open spec fn counts_fit(&self, rest: Seq<u8>) -> bool {
        true
    }

    proof fn lemma_round_trip(&self, rest: Seq<u8>) {
        lemma_le_round_trip(*self, 16, rest);
    }
}

/// Sixteen bytes, the bit pattern of the number.
impl Store for i128 {
    type Model = i128;

    open spec fn obeys_store_spec() -> bool {
        true
    }

    open spec fn model(&self) -> i128 {
        *self
    }

    open spec fn encoding(&self) -> Seq<u8> {
        (*self as u128).encoding()
    }

    open spec fn parse(bytes: Seq<u8>) -> (i128, Seq<u8>) {
        (u128::parse(bytes).0 as i128, u128::parse(bytes).1)
    }

    fn store(&self, q: &mut ByteQue) {
        (*self as u128).store(q);
    }

    fn restore(q: &mut ByteQue) -> (r: Self) {
        u128::restore(q) as i128
    }
}

impl RoundTrip for i128 {
    open spec fn counts_fit(&self, rest: Seq<u8>) -> bool {
        true
    }

    proof fn lemma_round_trip(&self, rest: Seq<u8>) {
        let x = *self;
        (x as u128).lemma_round_trip(rest);
        assert((x as u128) as i128 == x) by (bit_vector);
    }
}

/// `char::from_u32` of std: the character with the scalar value `i`, and
/// nothing where `i` is a surrogate or lies above the last code point.
pub assume_specification[ char::from_u32 ](i: u32) -> (c: Option<char>)
    ensures
        is_scalar(i) ==> c is Some && c->0 as u32 == i,
        !is_scalar(i) ==> c is None,
;

/// The character with the scalar value `v`; the null character where there
/// is none.
pub open spec fn char_of(v: u32) -> char {
    if is_scalar(v) {
        v as char
    } else {
        '\0'
    }
}

/// Four bytes, the scalar value of the character. Four bytes that are no
/// scalar value read as the null character.
impl Store for char {
    type Model = char;

    open spec fn obeys_store_spec() -> bool {
        true
    }

    open spec fn model(&self) -> char {
        *self
    }

    open spec fn encoding(&self) -> Seq<u8> {
        (*self as u32).encoding()
    }

    open spec fn parse(bytes: Seq<u8>) -> (char, Seq<u8>) {
        (char_of(u32::parse(bytes).0), u32::parse(bytes).1)
    }

    fn store(&self, q: &mut ByteQue) {
        (*self as u32).store(q);
    }

    fn restore(q: &mut ByteQue) -> (r: Self) {
        let v = u32::restore(q);
        match char::from_u32(v) {
            Some(c) => {
                proof {
                    vstd::utf8::char_u32_cast(c, v);
                }
                c
            },
            None => '\0',
        }
    }
}

impl RoundTrip for char {
    open spec fn counts_fit(&self, rest: Seq<u8>) -> bool {
        true
    }

    proof fn lemma_round_trip(&self, rest: Seq<u8>) {
        let c = *self;
        (c as u32).lemma_round_trip(rest);
        vstd::utf8::char_is_scalar(c);
        vstd::utf8::char_u32_cast(c, c as u32);
    }
}

/// No bytes at all.
impl Store for () {
    type Model = ();

    open spec fn obeys_store_spec() -> bool {
        true
    }

    open spec fn model(&self) -> () {
        ()
    }

    open spec fn encoding(&self) -> Seq<u8> {
        Seq::empty()
    }

    open spec fn parse(bytes: Seq<u8>) -> ((), Seq<u8>) {
        ((), bytes)
    }

    fn store(&self, q: &mut ByteQue) {
        assert(q@ + Seq::<u8>::empty() =~= q@);
    }

    fn restore(q: &mut ByteQue) -> (r: Self) {
        ()
    }
}

impl RoundTrip for () {
    open spec fn counts_fit(&self, rest: Seq<u8>) -> bool {
        true
    }

    proof fn lemma_round_trip(&self, rest: Seq<u8>) {
        assert(Seq::<u8>::empty() + rest =~= rest);
    }
}

} // verus!
