//! Text on the wire: the number of bytes, then the bytes of its UTF-8 form.

use vstd::prelude::*;
use vstd::slice::slice_to_vec;
use vstd::utf8::{decode_utf8, encode_utf8, valid_utf8};
use crate::store::{RoundTrip, Store};
use crate::val::{after, ByteQue};

verus! {

/// `String::from_utf8` of std: the text that `bytes` spell in UTF-8, and
/// nothing where they are not well-formed UTF-8.
#[verifier::external_body]
fn string_from_utf8(bytes: Vec<u8>) -> (text: Option<String>)
    ensures
        valid_utf8(bytes@) ==> text is Some && text->0@ == decode_utf8(bytes@),
        !valid_utf8(bytes@) ==> text is None,
{
    String::from_utf8(bytes).ok()
}

/// The wire form of the text `chars`.
pub open spec fn text_encoding(chars: Seq<char>) -> Seq<u8> {
    (encode_utf8(chars).len() as usize).encoding() + encode_utf8(chars)
}

/// The text that `bytes` spell; none where they are not well-formed.
pub open spec fn text_of(bytes: Seq<u8>) -> Seq<char> {
    if valid_utf8(bytes) {
        decode_utf8(bytes)
    } else {
        Seq::empty()
    }
}

/// A count of bytes and the text's UTF-8 form. A count that exceeds the
/// bytes left, or bytes that are not well-formed, read as the empty text.
///
/// The count fits where the length of the UTF-8 form is a `usize`, as it is
/// for every text in memory.
impl Store for String {
    type Model = Seq<char>;

    open spec fn obeys_store_spec() -> bool {
        true
    }

    open spec fn model(&self) -> Seq<char> {
        self@
    }

    open spec fn encoding(&self) -> Seq<u8> {
        text_encoding(self@)
    }

    open spec fn parse(bytes: Seq<u8>) -> (Seq<char>, Seq<u8>) {
        let (count, rest) = usize::parse(bytes);
        if count <= rest.len() {
            (text_of(rest.take(count as int)), rest.skip(count as int))
        } else {
            (Seq::empty(), rest)
        }
    }

    fn store(&self, q: &mut ByteQue) {
        let v = self.as_str().as_bytes();
        v.len().store(q);
        q.push_slice(v);
        assert(q@ =~= old(q)@ + self.encoding());
    }

    fn restore(q: &mut ByteQue) -> (r: Self) {
        let s = usize::restore(q);
        if s <= q.len() {
            let v = slice_to_vec(q.pop_slice(s));
            if let Some(text) = string_from_utf8(v) {
                return text;
            }
        }
        String::new()
    }
}

impl RoundTrip for String {
    open spec fn counts_fit(&self, rest: Seq<u8>) -> bool {
        encode_utf8(self@).len() <= usize::MAX
    }

    proof fn lemma_round_trip(&self, rest: Seq<u8>) {
        let text = encode_utf8(self@);
        let count = text.len() as usize;
        count.lemma_round_trip(text + rest);
        assert(self.encoding() + rest =~= count.encoding() + (text + rest));
        assert((text + rest).take(count as int) =~= text);
        assert((text + rest).skip(count as int) =~= rest);
        vstd::utf8::encode_utf8_valid_utf8(self@);
        vstd::utf8::encode_utf8_decode_utf8(self@);
    }
}

/// A text whose count exceeds the bytes that follow it reads as the empty
/// text, and nothing after the count is consumed.
pub proof fn lemma_truncated_text(bytes: Seq<u8>)
    requires
        usize::parse(bytes).0 > usize::parse(bytes).1.len(),
    ensures
        String::parse(bytes) == (Seq::<char>::empty(), usize::parse(bytes).1),
{
}

} // verus!
