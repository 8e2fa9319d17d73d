//! Maps on the wire: the number of entries, then each entry as its key and
//! its value, in the order in which the map is walked.

use vstd::prelude::*;
use vstd::std_specs::hash::{obeys_key_model, spec_hash_map_iter};
use vstd::std_specs::iter::{IteratorSpec, VerusForLoopWrapper};
use crate::compound::{
    lemma_parse_many_push,
    lemma_seq_encoding_push,
    lemma_seq_round_trip,
    models,
    parse_many,
    seq_counts_fit,
    seq_encoding,
};
use crate::store::{RoundTrip, Store};
use crate::val::ByteQue;

verus! {

/// The entries of `m` in the order in which the map is walked.
pub open spec fn walk<K, V>(m: &std::collections::HashMap<K, V>) -> Seq<(K, V)> {
    vstd::std_specs::hash::into_iter(spec_hash_map_iter(m))
}

/// Keys that differ have values that differ.
pub open spec fn distinct_models<K: Store>() -> bool {
    forall|a: K, b: K| #[trigger] a.model() == #[trigger] b.model() ==> a == b
}

/// The map of the values of the keys of `m` to the values of what they map
/// to.
pub open spec fn map_model<K: Store, V: Store>(m: Map<K, V>) -> Map<K::Model, V::Model> {
    Map::new(
        |km: K::Model| exists|k: K| m.contains_key(k) && #[trigger] k.model() == km,
        |km: K::Model| m[choose|k: K| m.contains_key(k) && #[trigger] k.model() == km].model(),
    )
}

/// The map that holds the entries of `s`; of two entries with one key, the
/// later.
pub open spec fn map_of<A, B>(s: Seq<(A, B)>) -> Map<A, B>
    decreases s.len(),
{
    if s.len() == 0 {
        Map::empty()
    } else {
        map_of(s.drop_last()).insert(s.last().0, s.last().1)
    }
}

/// One more entry in a map is one more entry in its model.
pub proof fn lemma_map_model_insert<K: Store, V: Store>(m: Map<K, V>, k: K, v: V)
    requires
        distinct_models::<K>(),
    ensures
        map_model(m.insert(k, v)) == map_model(m).insert(k.model(), v.model()),
{
    let grown = m.insert(k, v);
    let left = map_model(grown);
    let right = map_model(m).insert(k.model(), v.model());
    assert forall|km: K::Model| left.contains_key(km) <==> right.contains_key(km) by {
        if left.contains_key(km) {
            let w = choose|w: K| grown.contains_key(w) && #[trigger] w.model() == km;
            if w != k {
                assert(m.contains_key(w) && w.model() == km);
            }
        }
        if right.contains_key(km) {
            if km == k.model() {
                assert(grown.contains_key(k) && k.model() == km);
            } else {
                let w = choose|w: K| m.contains_key(w) && #[trigger] w.model() == km;
                assert(grown.contains_key(w) && w.model() == km);
            }
        }
    }
    assert forall|km: K::Model| left.contains_key(km) implies left[km] == right[km] by {
        let w = choose|w: K| grown.contains_key(w) && #[trigger] w.model() == km;
        if km == k.model() {
            assert(w == k);
        } else {
            assert(m.contains_key(w) && w.model() == km);
            let u = choose|u: K| m.contains_key(u) && #[trigger] u.model() == km;
            assert(u == w);
        }
    }
    assert(left =~= right);
}

/// The part of `m` under the keys of the first `n` entries of `walked`.
spec fn met<K, V>(m: Map<K, V>, walked: Seq<(K, V)>, n: int) -> Map<K, V> {
    Map::new(|k: K| exists|i: int| 0 <= i < n && #[trigger] walked[i].0 == k, |k: K| m[k])
}

proof fn lemma_met<K: Store, V: Store>(m: Map<K, V>, walked: Seq<(K, V)>, n: int)
    requires
        distinct_models::<K>(),
        0 <= n <= walked.len(),
        forall|i: int|
            0 <= i < walked.len() ==> m.contains_key(#[trigger] walked[i].0) && m[walked[i].0]
                == walked[i].1,
    ensures
        map_of(models::<(K, V)>(walked.take(n))) == map_model(met(m, walked, n)),
    decreases n,
{
    if n == 0 {
        assert(map_model(met(m, walked, 0)) =~= Map::empty());
        assert(models::<(K, V)>(walked.take(0)) =~= Seq::empty());
    } else {
        let (k, v) = walked[n - 1];
        lemma_met(m, walked, n - 1);
        assert(walked[n - 1].0 == k);
        assert(met(m, walked, n) =~= met(m, walked, n - 1).insert(k, v));
        lemma_map_model_insert(met(m, walked, n - 1), k, v);
        let now = models::<(K, V)>(walked.take(n));
        assert(now.drop_last() =~= models::<(K, V)>(walked.take(n - 1)));
        assert(now.last() == (k.model(), v.model()));
    }
}

/// Entries that are entries of `m`, and among which each key of `m` is,
/// make up `m`.
pub proof fn lemma_walk_covers<K: Store, V: Store>(m: Map<K, V>, walked: Seq<(K, V)>)
    requires
        distinct_models::<K>(),
        forall|i: int|
            0 <= i < walked.len() ==> m.contains_key(#[trigger] walked[i].0) && m[walked[i].0]
                == walked[i].1,
        forall|k: K|
            m.contains_key(k) ==> exists|i: int|
                0 <= i < walked.len() && #[trigger] walked[i].0 == k,
    ensures
        map_of(models::<(K, V)>(walked)) == map_model(m),
{
    lemma_met(m, walked, walked.len() as int);
    assert(walked.take(walked.len() as int) =~= walked);
    assert(met(m, walked, walked.len() as int) =~= m);
}

/// Whether walking `m` meets each of its entries: as many as the map has,
/// and together what the map holds.
pub open spec fn walk_covers<K: Store, V: Store>(m: &std::collections::HashMap<K, V>) -> bool {
    &&& walk(m).len() == m.len()
    &&& map_of(models::<(K, V)>(walk(m))) == map_model(m@)
}

/// A count of entries and the entries as they are walked, each as its key
/// and its value. A count that exceeds the bytes left reads as the empty
/// map.
impl<K: Store + Eq + core::hash::Hash, V: Store> Store for std::collections::HashMap<K, V> {
    type Model = Map<K::Model, V::Model>;

    open spec fn obeys_store_spec() -> bool {
        &&& K::obeys_store_spec()
        &&& V::obeys_store_spec()
        &&& obeys_key_model::<K>()
        &&& distinct_models::<K>()
    }

    open spec fn model(&self) -> Map<K::Model, V::Model> {
        map_model(self@)
    }

    open spec fn encoding(&self) -> Seq<u8> {
        self.len().encoding() + seq_encoding::<(K, V)>(walk(self))
    }

    open spec fn parse(bytes: Seq<u8>) -> (Map<K::Model, V::Model>, Seq<u8>) {
        let (count, rest) = usize::parse(bytes);
        if count <= rest.len() {
            let (entries, left) = parse_many::<(K, V)>(rest, count as nat);
            (map_of(entries), left)
        } else {
            (Map::empty(), rest)
        }
    }

    /// Storing a map walks it, and the walk meets each entry of the map.
    fn store(&self, q: &mut ByteQue)
        ensures
            Self::obeys_store_spec() ==> walk_covers(self),
    {
        broadcast use vstd::std_specs::hash::group_hash_axioms;

        let s = self.len();
        s.store(q);
        let start = q.len();
        let mut it = VerusForLoopWrapper::new(self.iter(), Ghost(None));
        proof {
            if Self::obeys_store_spec() {
                let seen = it.seq();
                assert forall|k: K| self@.contains_key(k) implies exists|i: int|
                    0 <= i < walk(self).len() && #[trigger] walk(self)[i].0 == k by {
                    let i = choose|i: int| 0 <= i < seen.len() && seen[i] == (&k, &self@[k]);
                    assert(walk(self)[i].0 == k);
                }
                lemma_walk_covers(self@, walk(self));
            }
        }
        let mut i: usize = 0;
        while i < s
            invariant
                i <= s,
                it.wf(),
                Self::obeys_store_spec() ==> {
                    &&& it.seq().len() == s
                    &&& it.seq().unref() == walk(self)
                    &&& it.index() == i
                    &&& q@ == old(q)@ + s.encoding() + seq_encoding::<(K, V)>(
                        walk(self).take(i as int),
                    )
                },
            decreases s - i,
        {
            match it.next() {
                Some((k, v)) => {
                    k.store(q);
                    v.store(q);
                    if i == 0 && s > 1 {
                        if let Some(more) = q.len().saturating_sub(start).checked_mul(s - 1) {
                            q.reserve(more);
                        }
                    }
                    proof {
                        if Self::obeys_store_spec() {
                            let done = walk(self).take(i as int);
                            let entry = walk(self)[i as int];
                            assert(entry == (*k, *v));
                            lemma_seq_encoding_push::<(K, V)>(done, entry);
                            assert(done.push(entry) =~= walk(self).take(i + 1));
                            assert(q@ =~= old(q)@ + s.encoding() + seq_encoding::<(K, V)>(
                                walk(self).take(i + 1),
                            ));
                        }
                    }
                },
                None => {
                    assert(!Self::obeys_store_spec());
                    return ;
                },
            }
            i += 1;
        }
        assert(Self::obeys_store_spec() ==> walk(self).take(s as int) =~= walk(self));
    }

    fn restore(q: &mut ByteQue) -> (r: Self) {
        broadcast use vstd::std_specs::hash::group_hash_axioms;

        let s = usize::restore(q);
        if s <= q.len() {
            let ghost start = q@;
            let mut m: std::collections::HashMap<K, V> = std::collections::HashMap::new();
            let mut i: usize = 0;
            assert(map_model(m@) =~= map_of(parse_many::<(K, V)>(start, 0).0));
            while i < s
                invariant
                    i <= s,
                    Self::obeys_store_spec() ==> (map_model(m@), q@) == (
                        map_of(parse_many::<(K, V)>(start, i as nat).0),
                        parse_many::<(K, V)>(start, i as nat).1,
                    ),
                decreases s - i,
            {
                let ghost before = m@;
                let k = K::restore(q);
                let v = V::restore(q);
                proof {
                    if Self::obeys_store_spec() {
                        lemma_parse_many_push::<(K, V)>(start, i as nat);
                        lemma_map_model_insert(before, k, v);
                        let read = parse_many::<(K, V)>(start, i as nat).0;
                        assert(read.push((k.model(), v.model())).drop_last() =~= read);
                    }
                }
                m.insert(k, v);
                i += 1;
            }
            return m;
        }
        let m: std::collections::HashMap<K, V> = std::collections::HashMap::new();
        assert(map_model(m@) =~= Map::empty());
        m
    }
}

impl<K: RoundTrip + Eq + core::hash::Hash, V: RoundTrip> RoundTrip for std::collections::HashMap<
    K,
    V,
> {
    open spec fn counts_fit(&self, rest: Seq<u8>) -> bool {
        &&& walk_covers(self)
        &&& self.len() <= seq_encoding::<(K, V)>(walk(self)).len() + rest.len()
        &&& seq_counts_fit::<(K, V)>(walk(self), rest)
    }

    proof fn lemma_round_trip(&self, rest: Seq<u8>) {
        let entries = seq_encoding::<(K, V)>(walk(self));
        self.len().lemma_round_trip(entries + rest);
        assert(self.encoding() + rest =~= self.len().encoding() + (entries + rest));
        lemma_seq_round_trip::<(K, V)>(walk(self), rest);
    }
}

/// A map whose count exceeds the bytes that follow it reads as the empty
/// map, and nothing after the count is consumed.
pub proof fn lemma_truncated_map<K: Store + Eq + core::hash::Hash, V: Store>(bytes: Seq<u8>)
    requires
        usize::parse(bytes).0 > usize::parse(bytes).1.len(),
    ensures
        std::collections::HashMap::<K, V>::parse(bytes) == (
            Map::<K::Model, V::Model>::empty(),
            usize::parse(bytes).1,
        ),
{
}

} // verus!
