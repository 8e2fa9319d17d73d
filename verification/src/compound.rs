//! Values made of other values: optional values, boxes, sequences and
//! results.

use vstd::prelude::*;
use crate::store::{RoundTrip, Store};
use crate::val::ByteQue;

verus! {

/// A presence byte, and the value where there is one.
impl<T: Store> Store for Option<T> {
    type Model = Option<T::Model>;

    open spec fn obeys_store_spec() -> bool {
        T::obeys_store_spec()
    }

    open spec fn model(&self) -> Option<T::Model> {
        match self {
            Some(t) => Some(t.model()),
            None => None,
        }
    }

    open spec fn encoding(&self) -> Seq<u8> {
        match self {
            Some(t) => true.encoding() + t.encoding(),
            None => false.encoding(),
        }
    }

    open spec fn parse(bytes: Seq<u8>) -> (Option<T::Model>, Seq<u8>) {
        let (present, rest) = bool::parse(bytes);
        if present {
            (Some(T::parse(rest).0), T::parse(rest).1)
        } else {
            (None, rest)
        }
    }

    fn store(&self, q: &mut ByteQue) {
        match self {
            Some(t) => {
                true.store(q);
                t.store(q);
                assert(T::obeys_store_spec() ==> q@ =~= old(q)@ + self.encoding());
            },
            None => false.store(q),
        }
    }

    fn restore(q: &mut ByteQue) -> (r: Self) {
        if bool::restore(q) {
            return Some(T::restore(q));
        }
        None
    }
}

impl<T: RoundTrip> RoundTrip for Option<T> {
    open spec fn counts_fit(&self, rest: Seq<u8>) -> bool {
        match self {
            Some(t) => t.counts_fit(rest),
            None => true,
        }
    }

    proof fn lemma_round_trip(&self, rest: Seq<u8>) {
        match self {
            Some(t) => {
                true.lemma_round_trip(t.encoding() + rest);
                t.lemma_round_trip(rest);
                assert(self.encoding() + rest =~= true.encoding() + (t.encoding() + rest));
            },
            None => {
                false.lemma_round_trip(rest);
            },
        }
    }
}

/// The bytes of the value in the box, and no others.
impl<T: Store> Store for Box<T> {
    type Model = T::Model;

    open spec fn obeys_store_spec() -> bool {
        T::obeys_store_spec()
    }

    open spec fn model(&self) -> T::Model {
        (**self).model()
    }

    open spec fn encoding(&self) -> Seq<u8> {
        (**self).encoding()
    }

    open spec fn parse(bytes: Seq<u8>) -> (T::Model, Seq<u8>) {
        T::parse(bytes)
    }

    fn store(&self, q: &mut ByteQue) {
        (**self).store(q);
    }

    fn restore(q: &mut ByteQue) -> (r: Self) {
        Box::new(T::restore(q))
    }
}

impl<T: RoundTrip> RoundTrip for Box<T> {
    open spec fn counts_fit(&self, rest: Seq<u8>) -> bool {
        (**self).counts_fit(rest)
    }

    proof fn lemma_round_trip(&self, rest: Seq<u8>) {
        (**self).lemma_round_trip(rest);
    }
}

/// A status byte, 0 for success, then the value or the failure's message.
impl<T: Store> Store for Result<T, String> {
    type Model = Result<T::Model, Seq<char>>;

    open spec fn obeys_store_spec() -> bool {
        T::obeys_store_spec()
    }

    open spec fn model(&self) -> Result<T::Model, Seq<char>> {
        match self {
            Ok(t) => Ok(t.model()),
            Err(e) => Err(e.model()),
        }
    }

    open spec fn encoding(&self) -> Seq<u8> {
        match self {
            Ok(t) => false.encoding() + t.encoding(),
            Err(e) => true.encoding() + e.encoding(),
        }
    }

    open spec fn parse(bytes: Seq<u8>) -> (Result<T::Model, Seq<char>>, Seq<u8>) {
        let (failed, rest) = bool::parse(bytes);
        if failed {
            (Err(String::parse(rest).0), String::parse(rest).1)
        } else {
            (Ok(T::parse(rest).0), T::parse(rest).1)
        }
    }

    fn store(&self, q: &mut ByteQue) {
        match self {
            Ok(t) => {
                false.store(q);
                t.store(q);
                assert(T::obeys_store_spec() ==> q@ =~= old(q)@ + self.encoding());
            },
            Err(e) => {
                true.store(q);
                e.store(q);
                assert(T::obeys_store_spec() ==> q@ =~= old(q)@ + self.encoding());
            },
        }
    }

    fn restore(q: &mut ByteQue) -> (r: Self) {
        if bool::restore(q) {
            return Err(String::restore(q));
        }
        Ok(T::restore(q))
    }
}

impl<T: RoundTrip> RoundTrip for Result<T, String> {
    open spec fn counts_fit(&self, rest: Seq<u8>) -> bool {
        match self {
            Ok(t) => t.counts_fit(rest),
            Err(e) => e.counts_fit(rest),
        }
    }

    proof fn lemma_round_trip(&self, rest: Seq<u8>) {
        match self {
            Ok(t) => {
                false.lemma_round_trip(t.encoding() + rest);
                t.lemma_round_trip(rest);
                assert(self.encoding() + rest =~= false.encoding() + (t.encoding() + rest));
            },
            Err(e) => {
                true.lemma_round_trip(e.encoding() + rest);
                e.lemma_round_trip(rest);
                assert(self.encoding() + rest =~= true.encoding() + (e.encoding() + rest));
            },
        }
    }
}

/// The values of the items of `s`, in order.
pub open spec fn models<T: Store>(s: Seq<T>) -> Seq<T::Model> {
    s.map_values(|t: T| t.model())
}

/// The encodings of the items of `s`, one after the other.
pub open spec fn seq_encoding<T: Store>(s: Seq<T>) -> Seq<u8>
    decreases s.len(),
{
    if s.len() == 0 {
        Seq::empty()
    } else {
        s[0].encoding() + seq_encoding(s.skip(1))
    }
}

/// What a decoder makes of `bytes` when it reads `n` items one after the
/// other: their values, and the bytes that are left.
pub open spec fn parse_many<T: Store>(bytes: Seq<u8>, n: nat) -> (Seq<T::Model>, Seq<u8>)
    decreases n,
{
    if n == 0 {
        (Seq::empty(), bytes)
    } else {
        let (first, rest) = T::parse(bytes);
        let (others, left) = parse_many::<T>(rest, (n - 1) as nat);
        (seq![first] + others, left)
    }
}

/// Whether the counts fit in each item of `s`, when the items are encoded
/// one after the other and `rest` follows the last.
pub open spec fn seq_counts_fit<T: RoundTrip>(s: Seq<T>, rest: Seq<u8>) -> bool
    decreases s.len(),
{
    if s.len() == 0 {
        true
    } else {
        s[0].counts_fit(seq_encoding(s.skip(1)) + rest) && seq_counts_fit(s.skip(1), rest)
    }
}

/// One more item at the end adds its encoding at the end.
pub proof fn lemma_seq_encoding_push<T: Store>(s: Seq<T>, t: T)
    ensures
        seq_encoding(s.push(t)) == seq_encoding(s) + t.encoding(),
    decreases s.len(),
{
    if s.len() == 0 {
        assert(s.push(t).skip(1) =~= Seq::<T>::empty());
        assert(seq_encoding(s.push(t)) =~= t.encoding() + seq_encoding(Seq::<T>::empty()));
    } else {
        assert(s.push(t).skip(1) =~= s.skip(1).push(t));
        lemma_seq_encoding_push(s.skip(1), t);
        assert(seq_encoding(s.push(t)) =~= seq_encoding(s) + t.encoding());
    }
}

/// Reading one item after `n` items is reading `n + 1` items.
pub proof fn lemma_parse_many_push<T: Store>(bytes: Seq<u8>, n: nat)
    ensures
        parse_many::<T>(bytes, n + 1) == (
            parse_many::<T>(bytes, n).0.push(T::parse(parse_many::<T>(bytes, n).1).0),
            T::parse(parse_many::<T>(bytes, n).1).1,
        ),
    decreases n,
{
    if n == 0 {
        assert(parse_many::<T>(T::parse(bytes).1, 0).0 =~= Seq::empty());
        assert(seq![T::parse(bytes).0] + Seq::<T::Model>::empty() =~= Seq::<T::Model>::empty().push(
            T::parse(bytes).0,
        ));
    } else {
        let (first, rest) = T::parse(bytes);
        lemma_parse_many_push::<T>(rest, (n - 1) as nat);
        let shorter = parse_many::<T>(rest, (n - 1) as nat);
        let last = T::parse(shorter.1);
        assert(seq![first] + shorter.0.push(last.0) =~= (seq![first] + shorter.0).push(last.0));
    }
}

/// Reading as many items as were encoded gives their values, and leaves
/// what followed the last.
pub proof fn lemma_seq_round_trip<T: RoundTrip>(s: Seq<T>, rest: Seq<u8>)
    requires
        seq_counts_fit(s, rest),
    ensures
        parse_many::<T>(seq_encoding(s) + rest, s.len()) == (models(s), rest),
    decreases s.len(),
{
    if s.len() == 0 {
        assert(seq_encoding(s) + rest =~= rest);
        assert(models(s) =~= Seq::empty());
    } else {
        let tail = s.skip(1);
        s[0].lemma_round_trip(seq_encoding(tail) + rest);
        assert(seq_encoding(s) + rest =~= s[0].encoding() + (seq_encoding(tail) + rest));
        lemma_seq_round_trip(tail, rest);
        assert(seq![s[0].model()] + models(tail) =~= models(s));
    }
}

/// A count of items and the items in order. A count that exceeds the bytes
/// left reads as the empty sequence.
impl<T: Store> Store for Vec<T> {
    type Model = Seq<T::Model>;

    open spec fn obeys_store_spec() -> bool {
        T::obeys_store_spec()
    }

    open spec fn model(&self) -> Seq<T::Model> {
        models(self@)
    }

    open spec fn encoding(&self) -> Seq<u8> {
        self.len().encoding() + seq_encoding(self@)
    }

    open spec fn parse(bytes: Seq<u8>) -> (Seq<T::Model>, Seq<u8>) {
        let (count, rest) = usize::parse(bytes);
        if count <= rest.len() {
            parse_many::<T>(rest, count as nat)
        } else {
            (Seq::empty(), rest)
        }
    }

    fn store(&self, q: &mut ByteQue) {
        let s = self.len();
        s.store(q);
        let start = q.len();
        let mut i: usize = 0;
        while i < s
            invariant
                i <= s,
                s == self.len(),
                T::obeys_store_spec() ==> q@ == old(q)@ + s.encoding() + seq_encoding(
                    self@.take(i as int),
                ),
            decreases s - i,
        {
            self[i].store(q);
            if i == 0 && s > 1 {
                if let Some(more) = q.len().saturating_sub(start).checked_mul(s - 1) {
                    q.reserve(more);
                }
            }
            proof {
                lemma_seq_encoding_push(self@.take(i as int), self@[i as int]);
                assert(self@.take(i as int).push(self@[i as int]) =~= self@.take(i + 1));
            }
            i += 1;
            assert(T::obeys_store_spec() ==> q@ =~= old(q)@ + s.encoding() + seq_encoding(
                self@.take(i as int),
            ));
        }
        assert(self@.take(s as int) =~= self@);
        assert(T::obeys_store_spec() ==> q@ =~= old(q)@ + self.encoding());
    }

    fn restore(q: &mut ByteQue) -> (r: Self) {
        let s = usize::restore(q);
        if s <= q.len() {
            let ghost start = q@;
            let mut v: Vec<T> = Vec::new();
            let _ = v.try_reserve(s);
            let mut i: usize = 0;
            while i < s
                invariant
                    i <= s,
                    T::obeys_store_spec() ==> (models(v@), q@) == parse_many::<T>(start, i as nat),
                decreases s - i,
            {
                proof {
                    lemma_parse_many_push::<T>(start, i as nat);
                }
                let item = T::restore(q);
                let ghost before = v@;
                v.push(item);
                assert(models(v@) =~= models(before).push(item.model()));
                i += 1;
            }
            return v;
        }
        let v: Vec<T> = Vec::new();
        assert(models(v@) =~= Seq::empty());
        v
    }
}

impl<T: RoundTrip> RoundTrip for Vec<T> {
    open spec fn counts_fit(&self, rest: Seq<u8>) -> bool {
        &&& self.len() <= seq_encoding(self@).len() + rest.len()
        &&& seq_counts_fit(self@, rest)
    }

    proof fn lemma_round_trip(&self, rest: Seq<u8>) {
        let items = seq_encoding(self@);
        self.len().lemma_round_trip(items + rest);
        assert(self.encoding() + rest =~= self.len().encoding() + (items + rest));
        lemma_seq_round_trip(self@, rest);
    }
}

/// A sequence whose count exceeds the bytes that follow it reads as the
/// empty sequence, and nothing after the count is consumed.
pub proof fn lemma_truncated_seq<T: Store>(bytes: Seq<u8>)
    requires
        usize::parse(bytes).0 > usize::parse(bytes).1.len(),
    ensures
        Vec::<T>::parse(bytes) == (Seq::<T::Model>::empty(), usize::parse(bytes).1),
{
}

} // verus!
