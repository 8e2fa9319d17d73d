//! Tuples on the wire: the components one after the other, in their order,
//! with no count before them.

use vstd::prelude::*;
use crate::store::{RoundTrip, Store};
use crate::val::ByteQue;

verus! {

impl<A: Store> Store for (A,) {
    type Model = (A::Model,);

    open spec fn obeys_store_spec() -> bool {
        A::obeys_store_spec()
    }

    open spec fn model(&self) -> (A::Model,) {
        (self.0.model(),)
    }

    open spec fn encoding(&self) -> Seq<u8> {
        self.0.encoding()
    }

    open spec fn parse(bytes: Seq<u8>) -> ((A::Model,), Seq<u8>) {
        let (a, bytes) = A::parse(bytes);
        ((a,), bytes)
    }

    fn store(&self, queue: &mut ByteQue) {
        self.0.store(queue);
    }

    fn restore(queue: &mut ByteQue) -> (r: Self) {
        let a = A::restore(queue);
        (a,)
    }
}

impl<A: RoundTrip> RoundTrip for (A,) {
    open spec fn counts_fit(&self, rest: Seq<u8>) -> bool {
        self.0.counts_fit(rest)
    }

    proof fn lemma_round_trip(&self, rest: Seq<u8>) {
        self.0.lemma_round_trip(rest);
    }
}

impl<A: Store, B: Store> Store for (A, B) {
    type Model = (A::Model, B::Model);

    open spec fn obeys_store_spec() -> bool {
        &&& A::obeys_store_spec()
        &&& B::obeys_store_spec()
    }

    open spec fn model(&self) -> (A::Model, B::Model) {
        (self.0.model(), self.1.model())
    }

    open spec fn encoding(&self) -> Seq<u8> {
        self.0.encoding() + self.1.encoding()
    }

    open spec fn parse(bytes: Seq<u8>) -> ((A::Model, B::Model), Seq<u8>) {
        let (a, bytes) = A::parse(bytes);
        let (b, bytes) = B::parse(bytes);
        ((a, b), bytes)
    }

    fn store(&self, queue: &mut ByteQue) {
        self.0.store(queue);
        self.1.store(queue);
        assert(Self::obeys_store_spec() ==> queue@ =~= old(queue)@ + self.encoding());
    }

    fn restore(queue: &mut ByteQue) -> (r: Self) {
        let a = A::restore(queue);
        let b = B::restore(queue);
        (a, b)
    }
}

impl<A: RoundTrip, B: RoundTrip> RoundTrip for (A, B) {
    open spec fn counts_fit(&self, rest: Seq<u8>) -> bool {
        &&& self.0.counts_fit(self.1.encoding() + rest)
        &&& self.1.counts_fit(rest)
    }

    proof fn lemma_round_trip(&self, rest: Seq<u8>) {
        self.0.lemma_round_trip(self.1.encoding() + rest);
        self.1.lemma_round_trip(rest);
        assert(self.encoding() + rest =~= self.0.encoding() + (self.1.encoding() + rest));
    }
}

impl<A: Store, B: Store, C: Store> Store for (A, B, C) {
    type Model = (A::Model, B::Model, C::Model);

    open spec fn obeys_store_spec() -> bool {
        &&& A::obeys_store_spec()
        &&& B::obeys_store_spec()
        &&& C::obeys_store_spec()
    }

    open spec fn model(&self) -> (A::Model, B::Model, C::Model) {
        (self.0.model(), self.1.model(), self.2.model())
    }

    open spec fn encoding(&self) -> Seq<u8> {
        self.0.encoding() + self.1.encoding() + self.2.encoding()
    }

    open spec fn parse(bytes: Seq<u8>) -> ((A::Model, B::Model, C::Model), Seq<u8>) {
        let (a, bytes) = A::parse(bytes);
        let (b, bytes) = B::parse(bytes);
        let (c, bytes) = C::parse(bytes);
        ((a, b, c), bytes)
    }

    fn store(&self, queue: &mut ByteQue) {
        self.0.store(queue);
        self.1.store(queue);
        self.2.store(queue);
        assert(Self::obeys_store_spec() ==> queue@ =~= old(queue)@ + self.encoding());
    }

    fn restore(queue: &mut ByteQue) -> (r: Self) {
        let a = A::restore(queue);
        let b = B::restore(queue);
        let c = C::restore(queue);
        (a, b, c)
    }
}

impl<A: RoundTrip, B: RoundTrip, C: RoundTrip> RoundTrip for (A, B, C) {
    open spec fn counts_fit(&self, rest: Seq<u8>) -> bool {
        &&& self.0.counts_fit(self.1.encoding() + (self.2.encoding() + rest))
        &&& self.1.counts_fit(self.2.encoding() + rest)
        &&& self.2.counts_fit(rest)
    }

    proof fn lemma_round_trip(&self, rest: Seq<u8>) {
        let front = (self.0, self.1);
        front.lemma_round_trip(self.2.encoding() + rest);
        self.2.lemma_round_trip(rest);
        assert(self.encoding() + rest =~= front.encoding() + (self.2.encoding() + rest));
    }
}

impl<A: Store, B: Store, C: Store, D: Store> Store for (A, B, C, D) {
    type Model = (A::Model, B::Model, C::Model, D::Model);

    open spec fn obeys_store_spec() -> bool {
        &&& A::obeys_store_spec()
        &&& B::obeys_store_spec()
        &&& C::obeys_store_spec()
        &&& D::obeys_store_spec()
    }

    open spec fn model(&self) -> (A::Model, B::Model, C::Model, D::Model) {
        (self.0.model(), self.1.model(), self.2.model(), self.3.model())
    }

    open spec fn encoding(&self) -> Seq<u8> {
        self.0.encoding() + self.1.encoding() + self.2.encoding() + self.3.encoding()
    }

    open spec fn parse(bytes: Seq<u8>) -> ((A::Model, B::Model, C::Model, D::Model), Seq<u8>) {
        let (a, bytes) = A::parse(bytes);
        let (b, bytes) = B::parse(bytes);
        let (c, bytes) = C::parse(bytes);
        let (d, bytes) = D::parse(bytes);
        ((a, b, c, d), bytes)
    }

    fn store(&self, queue: &mut ByteQue) {
        self.0.store(queue);
        self.1.store(queue);
        self.2.store(queue);
        self.3.store(queue);
        assert(Self::obeys_store_spec() ==> queue@ =~= old(queue)@ + self.encoding());
    }

    fn restore(queue: &mut ByteQue) -> (r: Self) {
        let a = A::restore(queue);
        let b = B::restore(queue);
        let c = C::restore(queue);
        let d = D::restore(queue);
        (a, b, c, d)
    }
}

impl<A: RoundTrip, B: RoundTrip, C: RoundTrip, D: RoundTrip> RoundTrip for (A, B, C, D) {
    open spec fn counts_fit(&self, rest: Seq<u8>) -> bool {
        &&& self.0.counts_fit(self.1.encoding() + (self.2.encoding() + (self.3.encoding() + rest)))
        &&& self.1.counts_fit(self.2.encoding() + (self.3.encoding() + rest))
        &&& self.2.counts_fit(self.3.encoding() + rest)
        &&& self.3.counts_fit(rest)
    }

    proof fn lemma_round_trip(&self, rest: Seq<u8>) {
        let front = (self.0, self.1, self.2);
        front.lemma_round_trip(self.3.encoding() + rest);
        self.3.lemma_round_trip(rest);
        assert(self.encoding() + rest =~= front.encoding() + (self.3.encoding() + rest));
    }
}

impl<A: Store, B: Store, C: Store, D: Store, E: Store> Store for (A, B, C, D, E) {
    type Model = (A::Model, B::Model, C::Model, D::Model, E::Model);

    open spec fn obeys_store_spec() -> bool {
        &&& A::obeys_store_spec()
        &&& B::obeys_store_spec()
        &&& C::obeys_store_spec()
        &&& D::obeys_store_spec()
        &&& E::obeys_store_spec()
    }

    open spec fn model(&self) -> (A::Model, B::Model, C::Model, D::Model, E::Model) {
        (self.0.model(), self.1.model(), self.2.model(), self.3.model(), self.4.model())
    }

    open spec fn encoding(&self) -> Seq<u8> {
        self.0.encoding()
            + self.1.encoding()
            + self.2.encoding()
            + self.3.encoding()
            + self.4.encoding()
    }

    open spec fn parse(bytes: Seq<u8>) -> (
        (
            A::Model,
            B::Model,
            C::Model,
            D::Model,
            E::Model,
        ),
        Seq<u8>,
    ) {
        let (a, bytes) = A::parse(bytes);
        let (b, bytes) = B::parse(bytes);
        let (c, bytes) = C::parse(bytes);
        let (d, bytes) = D::parse(bytes);
        let (e, bytes) = E::parse(bytes);
        ((a, b, c, d, e), bytes)
    }

    fn store(&self, queue: &mut ByteQue) {
        self.0.store(queue);
        self.1.store(queue);
        self.2.store(queue);
        self.3.store(queue);
        self.4.store(queue);
        assert(Self::obeys_store_spec() ==> queue@ =~= old(queue)@ + self.encoding());
    }

    fn restore(queue: &mut ByteQue) -> (r: Self) {
        let a = A::restore(queue);
        let b = B::restore(queue);
        let c = C::restore(queue);
        let d = D::restore(queue);
        let e = E::restore(queue);
        (a, b, c, d, e)
    }
}

impl<
    A: RoundTrip,
    B: RoundTrip,
    C: RoundTrip,
    D: RoundTrip,
    E: RoundTrip,
> RoundTrip for (A, B, C, D, E) {
    open spec fn counts_fit(&self, rest: Seq<u8>) -> bool {
        &&& self.0.counts_fit(
            self.1.encoding() + (
            self.2.encoding() + (
            self.3.encoding() + (
            self.4.encoding() + rest))),
        )
        &&& self.1.counts_fit(self.2.encoding() + (self.3.encoding() + (self.4.encoding() + rest)))
        &&& self.2.counts_fit(self.3.encoding() + (self.4.encoding() + rest))
        &&& self.3.counts_fit(self.4.encoding() + rest)
        &&& self.4.counts_fit(rest)
    }

    proof fn lemma_round_trip(&self, rest: Seq<u8>) {
        let front = (self.0, self.1, self.2, self.3);
        front.lemma_round_trip(self.4.encoding() + rest);
        self.4.lemma_round_trip(rest);
        assert(self.encoding() + rest =~= front.encoding() + (self.4.encoding() + rest));
    }
}

impl<A: Store, B: Store, C: Store, D: Store, E: Store, F: Store> Store for (A, B, C, D, E, F) {
    type Model = (A::Model, B::Model, C::Model, D::Model, E::Model, F::Model);

    open spec fn obeys_store_spec() -> bool {
        &&& A::obeys_store_spec()
        &&& B::obeys_store_spec()
        &&& C::obeys_store_spec()
        &&& D::obeys_store_spec()
        &&& E::obeys_store_spec()
        &&& F::obeys_store_spec()
    }

    open spec fn model(&self) -> (A::Model, B::Model, C::Model, D::Model, E::Model, F::Model) {
        (
            self.0.model(),
            self.1.model(),
            self.2.model(),
            self.3.model(),
            self.4.model(),
            self.5.model(),
        )
    }

    open spec fn encoding(&self) -> Seq<u8> {
        self.0.encoding()
            + self.1.encoding()
            + self.2.encoding()
            + self.3.encoding()
            + self.4.encoding()
            + self.5.encoding()
    }

    open spec fn parse(bytes: Seq<u8>) -> (
        (
            A::Model,
            B::Model,
            C::Model,
            D::Model,
            E::Model,
            F::Model,
        ),
        Seq<u8>,
    ) {
        let (a, bytes) = A::parse(bytes);
        let (b, bytes) = B::parse(bytes);
        let (c, bytes) = C::parse(bytes);
        let (d, bytes) = D::parse(bytes);
        let (e, bytes) = E::parse(bytes);
        let (f, bytes) = F::parse(bytes);
        ((a, b, c, d, e, f), bytes)
    }

    fn store(&self, queue: &mut ByteQue) {
        self.0.store(queue);
        self.1.store(queue);
        self.2.store(queue);
        self.3.store(queue);
        self.4.store(queue);
        self.5.store(queue);
        assert(Self::obeys_store_spec() ==> queue@ =~= old(queue)@ + self.encoding());
    }

    fn restore(queue: &mut ByteQue) -> (r: Self) {
        let a = A::restore(queue);
        let b = B::restore(queue);
        let c = C::restore(queue);
        let d = D::restore(queue);
        let e = E::restore(queue);
        let f = F::restore(queue);
        (a, b, c, d, e, f)
    }
}

impl<
    A: RoundTrip,
    B: RoundTrip,
    C: RoundTrip,
    D: RoundTrip,
    E: RoundTrip,
    F: RoundTrip,
> RoundTrip for (A, B, C, D, E, F) {
    open spec fn counts_fit(&self, rest: Seq<u8>) -> bool {
        &&& self.0.counts_fit(
            self.1.encoding() + (
            self.2.encoding() + (
            self.3.encoding() + (
            self.4.encoding() + (
            self.5.encoding() + rest)))),
        )
        &&& self.1.counts_fit(
            self.2.encoding() + (
            self.3.encoding() + (
            self.4.encoding() + (
            self.5.encoding() + rest))),
        )
        &&& self.2.counts_fit(self.3.encoding() + (self.4.encoding() + (self.5.encoding() + rest)))
        &&& self.3.counts_fit(self.4.encoding() + (self.5.encoding() + rest))
        &&& self.4.counts_fit(self.5.encoding() + rest)
        &&& self.5.counts_fit(rest)
    }

    proof fn lemma_round_trip(&self, rest: Seq<u8>) {
        let front = (self.0, self.1, self.2, self.3, self.4);
        front.lemma_round_trip(self.5.encoding() + rest);
        self.5.lemma_round_trip(rest);
        assert(self.encoding() + rest =~= front.encoding() + (self.5.encoding() + rest));
    }
}

impl<
    A: Store,
    B: Store,
    C: Store,
    D: Store,
    E: Store,
    F: Store,
    G: Store,
> Store for (A, B, C, D, E, F, G) {
    type Model = (A::Model, B::Model, C::Model, D::Model, E::Model, F::Model, G::Model);

    open spec fn obeys_store_spec() -> bool {
        &&& A::obeys_store_spec()
        &&& B::obeys_store_spec()
        &&& C::obeys_store_spec()
        &&& D::obeys_store_spec()
        &&& E::obeys_store_spec()
        &&& F::obeys_store_spec()
        &&& G::obeys_store_spec()
    }

    open spec fn model(&self) -> (
        A::Model,
        B::Model,
        C::Model,
        D::Model,
        E::Model,
        F::Model,
        G::Model,
    ) {
        (
            self.0.model(),
            self.1.model(),
            self.2.model(),
            self.3.model(),
            self.4.model(),
            self.5.model(),
            self.6.model(),
        )
    }

    open spec fn encoding(&self) -> Seq<u8> {
        self.0.encoding()
            + self.1.encoding()
            + self.2.encoding()
            + self.3.encoding()
            + self.4.encoding()
            + self.5.encoding()
            + self.6.encoding()
    }

    open spec fn parse(bytes: Seq<u8>) -> (
        (
            A::Model,
            B::Model,
            C::Model,
            D::Model,
            E::Model,
            F::Model,
            G::Model,
        ),
        Seq<u8>,
    ) {
        let (a, bytes) = A::parse(bytes);
        let (b, bytes) = B::parse(bytes);
        let (c, bytes) = C::parse(bytes);
        let (d, bytes) = D::parse(bytes);
        let (e, bytes) = E::parse(bytes);
        let (f, bytes) = F::parse(bytes);
        let (g, bytes) = G::parse(bytes);
        ((a, b, c, d, e, f, g), bytes)
    }

    fn store(&self, queue: &mut ByteQue) {
        self.0.store(queue);
        self.1.store(queue);
        self.2.store(queue);
        self.3.store(queue);
        self.4.store(queue);
        self.5.store(queue);
        self.6.store(queue);
        assert(Self::obeys_store_spec() ==> queue@ =~= old(queue)@ + self.encoding());
    }

    fn restore(queue: &mut ByteQue) -> (r: Self) {
        let a = A::restore(queue);
        let b = B::restore(queue);
        let c = C::restore(queue);
        let d = D::restore(queue);
        let e = E::restore(queue);
        let f = F::restore(queue);
        let g = G::restore(queue);
        (a, b, c, d, e, f, g)
    }
}

impl<
    A: RoundTrip,
    B: RoundTrip,
    C: RoundTrip,
    D: RoundTrip,
    E: RoundTrip,
    F: RoundTrip,
    G: RoundTrip,
> RoundTrip for (A, B, C, D, E, F, G) {
    open spec fn counts_fit(&self, rest: Seq<u8>) -> bool {
        &&& self.0.counts_fit(
            self.1.encoding() + (
            self.2.encoding() + (
            self.3.encoding() + (
            self.4.encoding() + (
            self.5.encoding() + (
            self.6.encoding() + rest))))),
        )
        &&& self.1.counts_fit(
            self.2.encoding() + (
            self.3.encoding() + (
            self.4.encoding() + (
            self.5.encoding() + (
            self.6.encoding() + rest)))),
        )
        &&& self.2.counts_fit(
            self.3.encoding() + (
            self.4.encoding() + (
            self.5.encoding() + (
            self.6.encoding() + rest))),
        )
        &&& self.3.counts_fit(self.4.encoding() + (self.5.encoding() + (self.6.encoding() + rest)))
        &&& self.4.counts_fit(self.5.encoding() + (self.6.encoding() + rest))
        &&& self.5.counts_fit(self.6.encoding() + rest)
        &&& self.6.counts_fit(rest)
    }

    proof fn lemma_round_trip(&self, rest: Seq<u8>) {
        let front = (self.0, self.1, self.2, self.3, self.4, self.5);
        front.lemma_round_trip(self.6.encoding() + rest);
        self.6.lemma_round_trip(rest);
        assert(self.encoding() + rest =~= front.encoding() + (self.6.encoding() + rest));
    }
}

impl<
    A: Store,
    B: Store,
    C: Store,
    D: Store,
    E: Store,
    F: Store,
    G: Store,
    H: Store,
> Store for (A, B, C, D, E, F, G, H) {
    type Model = (A::Model, B::Model, C::Model, D::Model, E::Model, F::Model, G::Model, H::Model);

    open spec fn obeys_store_spec() -> bool {
        &&& A::obeys_store_spec()
        &&& B::obeys_store_spec()
        &&& C::obeys_store_spec()
        &&& D::obeys_store_spec()
        &&& E::obeys_store_spec()
        &&& F::obeys_store_spec()
        &&& G::obeys_store_spec()
        &&& H::obeys_store_spec()
    }

    open spec fn model(&self) -> (
        A::Model,
        B::Model,
        C::Model,
        D::Model,
        E::Model,
        F::Model,
        G::Model,
        H::Model,
    ) {
        (
            self.0.model(),
            self.1.model(),
            self.2.model(),
            self.3.model(),
            self.4.model(),
            self.5.model(),
            self.6.model(),
            self.7.model(),
        )
    }

    open spec fn encoding(&self) -> Seq<u8> {
        self.0.encoding()
            + self.1.encoding()
            + self.2.encoding()
            + self.3.encoding()
            + self.4.encoding()
            + self.5.encoding()
            + self.6.encoding()
            + self.7.encoding()
    }

    open spec fn parse(bytes: Seq<u8>) -> (
        (
            A::Model,
            B::Model,
            C::Model,
            D::Model,
            E::Model,
            F::Model,
            G::Model,
            H::Model,
        ),
        Seq<u8>,
    ) {
        let (a, bytes) = A::parse(bytes);
        let (b, bytes) = B::parse(bytes);
        let (c, bytes) = C::parse(bytes);
        let (d, bytes) = D::parse(bytes);
        let (e, bytes) = E::parse(bytes);
        let (f, bytes) = F::parse(bytes);
        let (g, bytes) = G::parse(bytes);
        let (h, bytes) = H::parse(bytes);
        ((a, b, c, d, e, f, g, h), bytes)
    }

    fn store(&self, queue: &mut ByteQue) {
        self.0.store(queue);
        self.1.store(queue);
        self.2.store(queue);
        self.3.store(queue);
        self.4.store(queue);
        self.5.store(queue);
        self.6.store(queue);
        self.7.store(queue);
        assert(Self::obeys_store_spec() ==> queue@ =~= old(queue)@ + self.encoding());
    }

    fn restore(queue: &mut ByteQue) -> (r: Self) {
        let a = A::restore(queue);
        let b = B::restore(queue);
        let c = C::restore(queue);
        let d = D::restore(queue);
        let e = E::restore(queue);
        let f = F::restore(queue);
        let g = G::restore(queue);
        let h = H::restore(queue);
        (a, b, c, d, e, f, g, h)
    }
}

impl<
    A: RoundTrip,
    B: RoundTrip,
    C: RoundTrip,
    D: RoundTrip,
    E: RoundTrip,
    F: RoundTrip,
    G: RoundTrip,
    H: RoundTrip,
> RoundTrip for (A, B, C, D, E, F, G, H) {
    open spec fn counts_fit(&self, rest: Seq<u8>) -> bool {
        &&& self.0.counts_fit(
            self.1.encoding() + (
            self.2.encoding() + (
            self.3.encoding() + (
            self.4.encoding() + (
            self.5.encoding() + (
            self.6.encoding() + (
            self.7.encoding() + rest)))))),
        )
        &&& self.1.counts_fit(
            self.2.encoding() + (
            self.3.encoding() + (
            self.4.encoding() + (
            self.5.encoding() + (
            self.6.encoding() + (
            self.7.encoding() + rest))))),
        )
        &&& self.2.counts_fit(
            self.3.encoding() + (
            self.4.encoding() + (
            self.5.encoding() + (
            self.6.encoding() + (
            self.7.encoding() + rest)))),
        )
        &&& self.3.counts_fit(
            self.4.encoding() + (
            self.5.encoding() + (
            self.6.encoding() + (
            self.7.encoding() + rest))),
        )
        &&& self.4.counts_fit(self.5.encoding() + (self.6.encoding() + (self.7.encoding() + rest)))
        &&& self.5.counts_fit(self.6.encoding() + (self.7.encoding() + rest))
        &&& self.6.counts_fit(self.7.encoding() + rest)
        &&& self.7.counts_fit(rest)
    }

    proof fn lemma_round_trip(&self, rest: Seq<u8>) {
        let front = (self.0, self.1, self.2, self.3, self.4, self.5, self.6);
        front.lemma_round_trip(self.7.encoding() + rest);
        self.7.lemma_round_trip(rest);
        assert(self.encoding() + rest =~= front.encoding() + (self.7.encoding() + rest));
    }
}

impl<
    A: Store,
    B: Store,
    C: Store,
    D: Store,
    E: Store,
    F: Store,
    G: Store,
    H: Store,
    I: Store,
> Store for (A, B, C, D, E, F, G, H, I) {
    type Model = (
        A::Model,
        B::Model,
        C::Model,
        D::Model,
        E::Model,
        F::Model,
        G::Model,
        H::Model,
        I::Model,
    );

    open spec fn obeys_store_spec() -> bool {
        &&& A::obeys_store_spec()
        &&& B::obeys_store_spec()
        &&& C::obeys_store_spec()
        &&& D::obeys_store_spec()
        &&& E::obeys_store_spec()
        &&& F::obeys_store_spec()
        &&& G::obeys_store_spec()
        &&& H::obeys_store_spec()
        &&& I::obeys_store_spec()
    }

    open spec fn model(&self) -> (
        A::Model,
        B::Model,
        C::Model,
        D::Model,
        E::Model,
        F::Model,
        G::Model,
        H::Model,
        I::Model,
    ) {
        (
            self.0.model(),
            self.1.model(),
            self.2.model(),
            self.3.model(),
            self.4.model(),
            self.5.model(),
            self.6.model(),
            self.7.model(),
            self.8.model(),
        )
    }

    open spec fn encoding(&self) -> Seq<u8> {
        self.0.encoding()
            + self.1.encoding()
            + self.2.encoding()
            + self.3.encoding()
            + self.4.encoding()
            + self.5.encoding()
            + self.6.encoding()
            + self.7.encoding()
            + self.8.encoding()
    }

    open spec fn parse(bytes: Seq<u8>) -> (
        (
            A::Model,
            B::Model,
            C::Model,
            D::Model,
            E::Model,
            F::Model,
            G::Model,
            H::Model,
            I::Model,
        ),
        Seq<u8>,
    ) {
        let (a, bytes) = A::parse(bytes);
        let (b, bytes) = B::parse(bytes);
        let (c, bytes) = C::parse(bytes);
        let (d, bytes) = D::parse(bytes);
        let (e, bytes) = E::parse(bytes);
        let (f, bytes) = F::parse(bytes);
        let (g, bytes) = G::parse(bytes);
        let (h, bytes) = H::parse(bytes);
        let (i, bytes) = I::parse(bytes);
        ((a, b, c, d, e, f, g, h, i), bytes)
    }

    fn store(&self, queue: &mut ByteQue) {
        self.0.store(queue);
        self.1.store(queue);
        self.2.store(queue);
        self.3.store(queue);
        self.4.store(queue);
        self.5.store(queue);
        self.6.store(queue);
        self.7.store(queue);
        self.8.store(queue);
        assert(Self::obeys_store_spec() ==> queue@ =~= old(queue)@ + self.encoding());
    }

    fn restore(queue: &mut ByteQue) -> (r: Self) {
        let a = A::restore(queue);
        let b = B::restore(queue);
        let c = C::restore(queue);
        let d = D::restore(queue);
        let e = E::restore(queue);
        let f = F::restore(queue);
        let g = G::restore(queue);
        let h = H::restore(queue);
        let i = I::restore(queue);
        (a, b, c, d, e, f, g, h, i)
    }
}

impl<
    A: RoundTrip,
    B: RoundTrip,
    C: RoundTrip,
    D: RoundTrip,
    E: RoundTrip,
    F: RoundTrip,
    G: RoundTrip,
    H: RoundTrip,
    I: RoundTrip,
> RoundTrip for (A, B, C, D, E, F, G, H, I) {
    open spec fn counts_fit(&self, rest: Seq<u8>) -> bool {
        &&& self.0.counts_fit(
            self.1.encoding() + (
            self.2.encoding() + (
            self.3.encoding() + (
            self.4.encoding() + (
            self.5.encoding() + (
            self.6.encoding() + (
            self.7.encoding() + (
            self.8.encoding() + rest))))))),
        )
        &&& self.1.counts_fit(
            self.2.encoding() + (
            self.3.encoding() + (
            self.4.encoding() + (
            self.5.encoding() + (
            self.6.encoding() + (
            self.7.encoding() + (
            self.8.encoding() + rest)))))),
        )
        &&& self.2.counts_fit(
            self.3.encoding() + (
            self.4.encoding() + (
            self.5.encoding() + (
            self.6.encoding() + (
            self.7.encoding() + (
            self.8.encoding() + rest))))),
        )
        &&& self.3.counts_fit(
            self.4.encoding() + (
            self.5.encoding() + (
            self.6.encoding() + (
            self.7.encoding() + (
            self.8.encoding() + rest)))),
        )
        &&& self.4.counts_fit(
            self.5.encoding() + (
            self.6.encoding() + (
            self.7.encoding() + (
            self.8.encoding() + rest))),
        )
        &&& self.5.counts_fit(self.6.encoding() + (self.7.encoding() + (self.8.encoding() + rest)))
        &&& self.6.counts_fit(self.7.encoding() + (self.8.encoding() + rest))
        &&& self.7.counts_fit(self.8.encoding() + rest)
        &&& self.8.counts_fit(rest)
    }

    proof fn lemma_round_trip(&self, rest: Seq<u8>) {
        let front = (self.0, self.1, self.2, self.3, self.4, self.5, self.6, self.7);
        front.lemma_round_trip(self.8.encoding() + rest);
        self.8.lemma_round_trip(rest);
        assert(self.encoding() + rest =~= front.encoding() + (self.8.encoding() + rest));
    }
}

impl<
    A: Store,
    B: Store,
    C: Store,
    D: Store,
    E: Store,
    F: Store,
    G: Store,
    H: Store,
    I: Store,
    J: Store,
> Store for (A, B, C, D, E, F, G, H, I, J) {
    type Model = (
        A::Model,
        B::Model,
        C::Model,
        D::Model,
        E::Model,
        F::Model,
        G::Model,
        H::Model,
        I::Model,
        J::Model,
    );

    open spec fn obeys_store_spec() -> bool {
        &&& A::obeys_store_spec()
        &&& B::obeys_store_spec()
        &&& C::obeys_store_spec()
        &&& D::obeys_store_spec()
        &&& E::obeys_store_spec()
        &&& F::obeys_store_spec()
        &&& G::obeys_store_spec()
        &&& H::obeys_store_spec()
        &&& I::obeys_store_spec()
        &&& J::obeys_store_spec()
    }

    open spec fn model(&self) -> (
        A::Model,
        B::Model,
        C::Model,
        D::Model,
        E::Model,
        F::Model,
        G::Model,
        H::Model,
        I::Model,
        J::Model,
    ) {
        (
            self.0.model(),
            self.1.model(),
            self.2.model(),
            self.3.model(),
            self.4.model(),
            self.5.model(),
            self.6.model(),
            self.7.model(),
            self.8.model(),
            self.9.model(),
        )
    }

    open spec fn encoding(&self) -> Seq<u8> {
        self.0.encoding()
            + self.1.encoding()
            + self.2.encoding()
            + self.3.encoding()
            + self.4.encoding()
            + self.5.encoding()
            + self.6.encoding()
            + self.7.encoding()
            + self.8.encoding()
            + self.9.encoding()
    }

    open spec fn parse(bytes: Seq<u8>) -> (
        (
            A::Model,
            B::Model,
            C::Model,
            D::Model,
            E::Model,
            F::Model,
            G::Model,
            H::Model,
            I::Model,
            J::Model,
        ),
        Seq<u8>,
    ) {
        let (a, bytes) = A::parse(bytes);
        let (b, bytes) = B::parse(bytes);
        let (c, bytes) = C::parse(bytes);
        let (d, bytes) = D::parse(bytes);
        let (e, bytes) = E::parse(bytes);
        let (f, bytes) = F::parse(bytes);
        let (g, bytes) = G::parse(bytes);
        let (h, bytes) = H::parse(bytes);
        let (i, bytes) = I::parse(bytes);
        let (j, bytes) = J::parse(bytes);
        ((a, b, c, d, e, f, g, h, i, j), bytes)
    }

    fn store(&self, queue: &mut ByteQue) {
        self.0.store(queue);
        self.1.store(queue);
        self.2.store(queue);
        self.3.store(queue);
        self.4.store(queue);
        self.5.store(queue);
        self.6.store(queue);
        self.7.store(queue);
        self.8.store(queue);
        self.9.store(queue);
        assert(Self::obeys_store_spec() ==> queue@ =~= old(queue)@ + self.encoding());
    }

    fn restore(queue: &mut ByteQue) -> (r: Self) {
        let a = A::restore(queue);
        let b = B::restore(queue);
        let c = C::restore(queue);
        let d = D::restore(queue);
        let e = E::restore(queue);
        let f = F::restore(queue);
        let g = G::restore(queue);
        let h = H::restore(queue);
        let i = I::restore(queue);
        let j = J::restore(queue);
        (a, b, c, d, e, f, g, h, i, j)
    }
}

impl<
    A: RoundTrip,
    B: RoundTrip,
    C: RoundTrip,
    D: RoundTrip,
    E: RoundTrip,
    F: RoundTrip,
    G: RoundTrip,
    H: RoundTrip,
    I: RoundTrip,
    J: RoundTrip,
> RoundTrip for (A, B, C, D, E, F, G, H, I, J) {
    open spec fn counts_fit(&self, rest: Seq<u8>) -> bool {
        &&& self.0.counts_fit(
            self.1.encoding() + (
            self.2.encoding() + (
            self.3.encoding() + (
            self.4.encoding() + (
            self.5.encoding() + (
            self.6.encoding() + (
            self.7.encoding() + (
            self.8.encoding() + (
            self.9.encoding() + rest)))))))),
        )
        &&& self.1.counts_fit(
            self.2.encoding() + (
            self.3.encoding() + (
            self.4.encoding() + (
            self.5.encoding() + (
            self.6.encoding() + (
            self.7.encoding() + (
            self.8.encoding() + (
            self.9.encoding() + rest))))))),
        )
        &&& self.2.counts_fit(
            self.3.encoding() + (
            self.4.encoding() + (
            self.5.encoding() + (
            self.6.encoding() + (
            self.7.encoding() + (
            self.8.encoding() + (
            self.9.encoding() + rest)))))),
        )
        &&& self.3.counts_fit(
            self.4.encoding() + (
            self.5.encoding() + (
            self.6.encoding() + (
            self.7.encoding() + (
            self.8.encoding() + (
            self.9.encoding() + rest))))),
        )
        &&& self.4.counts_fit(
            self.5.encoding() + (
            self.6.encoding() + (
            self.7.encoding() + (
            self.8.encoding() + (
            self.9.encoding() + rest)))),
        )
        &&& self.5.counts_fit(
            self.6.encoding() + (
            self.7.encoding() + (
            self.8.encoding() + (
            self.9.encoding() + rest))),
        )
        &&& self.6.counts_fit(self.7.encoding() + (self.8.encoding() + (self.9.encoding() + rest)))
        &&& self.7.counts_fit(self.8.encoding() + (self.9.encoding() + rest))
        &&& self.8.counts_fit(self.9.encoding() + rest)
        &&& self.9.counts_fit(rest)
    }

    proof fn lemma_round_trip(&self, rest: Seq<u8>) {
        let front = (self.0, self.1, self.2, self.3, self.4, self.5, self.6, self.7, self.8);
        front.lemma_round_trip(self.9.encoding() + rest);
        self.9.lemma_round_trip(rest);
        assert(self.encoding() + rest =~= front.encoding() + (self.9.encoding() + rest));
    }
}

impl<
    A: Store,
    B: Store,
    C: Store,
    D: Store,
    E: Store,
    F: Store,
    G: Store,
    H: Store,
    I: Store,
    J: Store,
    K: Store,
> Store for (A, B, C, D, E, F, G, H, I, J, K) {
    type Model = (
        A::Model,
        B::Model,
        C::Model,
        D::Model,
        E::Model,
        F::Model,
        G::Model,
        H::Model,
        I::Model,
        J::Model,
        K::Model,
    );

    open spec fn obeys_store_spec() -> bool {
        &&& A::obeys_store_spec()
        &&& B::obeys_store_spec()
        &&& C::obeys_store_spec()
        &&& D::obeys_store_spec()
        &&& E::obeys_store_spec()
        &&& F::obeys_store_spec()
        &&& G::obeys_store_spec()
        &&& H::obeys_store_spec()
        &&& I::obeys_store_spec()
        &&& J::obeys_store_spec()
        &&& K::obeys_store_spec()
    }

    open spec fn model(&self) -> (
        A::Model,
        B::Model,
        C::Model,
        D::Model,
        E::Model,
        F::Model,
        G::Model,
        H::Model,
        I::Model,
        J::Model,
        K::Model,
    ) {
        (
            self.0.model(),
            self.1.model(),
            self.2.model(),
            self.3.model(),
            self.4.model(),
            self.5.model(),
            self.6.model(),
            self.7.model(),
            self.8.model(),
            self.9.model(),
            self.10.model(),
        )
    }

    open spec fn encoding(&self) -> Seq<u8> {
        self.0.encoding()
            + self.1.encoding()
            + self.2.encoding()
            + self.3.encoding()
            + self.4.encoding()
            + self.5.encoding()
            + self.6.encoding()
            + self.7.encoding()
            + self.8.encoding()
            + self.9.encoding()
            + self.10.encoding()
    }

    open spec fn parse(bytes: Seq<u8>) -> (
        (
            A::Model,
            B::Model,
            C::Model,
            D::Model,
            E::Model,
            F::Model,
            G::Model,
            H::Model,
            I::Model,
            J::Model,
            K::Model,
        ),
        Seq<u8>,
    ) {
        let (a, bytes) = A::parse(bytes);
        let (b, bytes) = B::parse(bytes);
        let (c, bytes) = C::parse(bytes);
        let (d, bytes) = D::parse(bytes);
        let (e, bytes) = E::parse(bytes);
        let (f, bytes) = F::parse(bytes);
        let (g, bytes) = G::parse(bytes);
        let (h, bytes) = H::parse(bytes);
        let (i, bytes) = I::parse(bytes);
        let (j, bytes) = J::parse(bytes);
        let (k, bytes) = K::parse(bytes);
        ((a, b, c, d, e, f, g, h, i, j, k), bytes)
    }

    fn store(&self, queue: &mut ByteQue) {
        self.0.store(queue);
        self.1.store(queue);
        self.2.store(queue);
        self.3.store(queue);
        self.4.store(queue);
        self.5.store(queue);
        self.6.store(queue);
        self.7.store(queue);
        self.8.store(queue);
        self.9.store(queue);
        self.10.store(queue);
        assert(Self::obeys_store_spec() ==> queue@ =~= old(queue)@ + self.encoding());
    }

    fn restore(queue: &mut ByteQue) -> (r: Self) {
        let a = A::restore(queue);
        let b = B::restore(queue);
        let c = C::restore(queue);
        let d = D::restore(queue);
        let e = E::restore(queue);
        let f = F::restore(queue);
        let g = G::restore(queue);
        let h = H::restore(queue);
        let i = I::restore(queue);
        let j = J::restore(queue);
        let k = K::restore(queue);
        (a, b, c, d, e, f, g, h, i, j, k)
    }
}

impl<
    A: RoundTrip,
    B: RoundTrip,
    C: RoundTrip,
    D: RoundTrip,
    E: RoundTrip,
    F: RoundTrip,
    G: RoundTrip,
    H: RoundTrip,
    I: RoundTrip,
    J: RoundTrip,
    K: RoundTrip,
> RoundTrip for (A, B, C, D, E, F, G, H, I, J, K) {
    open spec fn counts_fit(&self, rest: Seq<u8>) -> bool {
        &&& self.0.counts_fit(
            self.1.encoding() + (
            self.2.encoding() + (
            self.3.encoding() + (
            self.4.encoding() + (
            self.5.encoding() + (
            self.6.encoding() + (
            self.7.encoding() + (
            self.8.encoding() + (
            self.9.encoding() + (
            self.10.encoding() + rest))))))))),
        )
        &&& self.1.counts_fit(
            self.2.encoding() + (
            self.3.encoding() + (
            self.4.encoding() + (
            self.5.encoding() + (
            self.6.encoding() + (
            self.7.encoding() + (
            self.8.encoding() + (
            self.9.encoding() + (
            self.10.encoding() + rest)))))))),
        )
        &&& self.2.counts_fit(
            self.3.encoding() + (
            self.4.encoding() + (
            self.5.encoding() + (
            self.6.encoding() + (
            self.7.encoding() + (
            self.8.encoding() + (
            self.9.encoding() + (
            self.10.encoding() + rest))))))),
        )
        &&& self.3.counts_fit(
            self.4.encoding() + (
            self.5.encoding() + (
            self.6.encoding() + (
            self.7.encoding() + (
            self.8.encoding() + (
            self.9.encoding() + (
            self.10.encoding() + rest)))))),
        )
        &&& self.4.counts_fit(
            self.5.encoding() + (
            self.6.encoding() + (
            self.7.encoding() + (
            self.8.encoding() + (
            self.9.encoding() + (
            self.10.encoding() + rest))))),
        )
        &&& self.5.counts_fit(
            self.6.encoding() + (
            self.7.encoding() + (
            self.8.encoding() + (
            self.9.encoding() + (
            self.10.encoding() + rest)))),
        )
        &&& self.6.counts_fit(
            self.7.encoding() + (
            self.8.encoding() + (
            self.9.encoding() + (
            self.10.encoding() + rest))),
        )
        &&& self.7.counts_fit(self.8.encoding() + (self.9.encoding() + (self.10.encoding() + rest)))
        &&& self.8.counts_fit(self.9.encoding() + (self.10.encoding() + rest))
        &&& self.9.counts_fit(self.10.encoding() + rest)
        &&& self.10.counts_fit(rest)
    }

    proof fn lemma_round_trip(&self, rest: Seq<u8>) {
        let front = (
            self.0,
            self.1,
            self.2,
            self.3,
            self.4,
            self.5,
            self.6,
            self.7,
            self.8,
            self.9,
        );
        front.lemma_round_trip(self.10.encoding() + rest);
        self.10.lemma_round_trip(rest);
        assert(self.encoding() + rest =~= front.encoding() + (self.10.encoding() + rest));
    }
}

impl<
    A: Store,
    B: Store,
    C: Store,
    D: Store,
    E: Store,
    F: Store,
    G: Store,
    H: Store,
    I: Store,
    J: Store,
    K: Store,
    L: Store,
> Store for (A, B, C, D, E, F, G, H, I, J, K, L) {
    type Model = (
        A::Model,
        B::Model,
        C::Model,
        D::Model,
        E::Model,
        F::Model,
        G::Model,
        H::Model,
        I::Model,
        J::Model,
        K::Model,
        L::Model,
    );

    open spec fn obeys_store_spec() -> bool {
        &&& A::obeys_store_spec()
        &&& B::obeys_store_spec()
        &&& C::obeys_store_spec()
        &&& D::obeys_store_spec()
        &&& E::obeys_store_spec()
        &&& F::obeys_store_spec()
        &&& G::obeys_store_spec()
        &&& H::obeys_store_spec()
        &&& I::obeys_store_spec()
        &&& J::obeys_store_spec()
        &&& K::obeys_store_spec()
        &&& L::obeys_store_spec()
    }

    open spec fn model(&self) -> (
        A::Model,
        B::Model,
        C::Model,
        D::Model,
        E::Model,
        F::Model,
        G::Model,
        H::Model,
        I::Model,
        J::Model,
        K::Model,
        L::Model,
    ) {
        (
            self.0.model(),
            self.1.model(),
            self.2.model(),
            self.3.model(),
            self.4.model(),
            self.5.model(),
            self.6.model(),
            self.7.model(),
            self.8.model(),
            self.9.model(),
            self.10.model(),
            self.11.model(),
        )
    }

    open spec fn encoding(&self) -> Seq<u8> {
        self.0.encoding()
            + self.1.encoding()
            + self.2.encoding()
            + self.3.encoding()
            + self.4.encoding()
            + self.5.encoding()
            + self.6.encoding()
            + self.7.encoding()
            + self.8.encoding()
            + self.9.encoding()
            + self.10.encoding()
            + self.11.encoding()
    }

    open spec fn parse(bytes: Seq<u8>) -> (
        (
            A::Model,
            B::Model,
            C::Model,
            D::Model,
            E::Model,
            F::Model,
            G::Model,
            H::Model,
            I::Model,
            J::Model,
            K::Model,
            L::Model,
        ),
        Seq<u8>,
    ) {
        let (a, bytes) = A::parse(bytes);
        let (b, bytes) = B::parse(bytes);
        let (c, bytes) = C::parse(bytes);
        let (d, bytes) = D::parse(bytes);
        let (e, bytes) = E::parse(bytes);
        let (f, bytes) = F::parse(bytes);
        let (g, bytes) = G::parse(bytes);
        let (h, bytes) = H::parse(bytes);
        let (i, bytes) = I::parse(bytes);
        let (j, bytes) = J::parse(bytes);
        let (k, bytes) = K::parse(bytes);
        let (l, bytes) = L::parse(bytes);
        ((a, b, c, d, e, f, g, h, i, j, k, l), bytes)
    }

    fn store(&self, queue: &mut ByteQue) {
        self.0.store(queue);
        self.1.store(queue);
        self.2.store(queue);
        self.3.store(queue);
        self.4.store(queue);
        self.5.store(queue);
        self.6.store(queue);
        self.7.store(queue);
        self.8.store(queue);
        self.9.store(queue);
        self.10.store(queue);
        self.11.store(queue);
        assert(Self::obeys_store_spec() ==> queue@ =~= old(queue)@ + self.encoding());
    }

    fn restore(queue: &mut ByteQue) -> (r: Self) {
        let a = A::restore(queue);
        let b = B::restore(queue);
        let c = C::restore(queue);
        let d = D::restore(queue);
        let e = E::restore(queue);
        let f = F::restore(queue);
        let g = G::restore(queue);
        let h = H::restore(queue);
        let i = I::restore(queue);
        let j = J::restore(queue);
        let k = K::restore(queue);
        let l = L::restore(queue);
        (a, b, c, d, e, f, g, h, i, j, k, l)
    }
}

impl<
    A: RoundTrip,
    B: RoundTrip,
    C: RoundTrip,
    D: RoundTrip,
    E: RoundTrip,
    F: RoundTrip,
    G: RoundTrip,
    H: RoundTrip,
    I: RoundTrip,
    J: RoundTrip,
    K: RoundTrip,
    L: RoundTrip,
> RoundTrip for (A, B, C, D, E, F, G, H, I, J, K, L) {
    open spec fn counts_fit(&self, rest: Seq<u8>) -> bool {
        &&& self.0.counts_fit(
            self.1.encoding() + (
            self.2.encoding() + (
            self.3.encoding() + (
            self.4.encoding() + (
            self.5.encoding() + (
            self.6.encoding() + (
            self.7.encoding() + (
            self.8.encoding() + (
            self.9.encoding() + (
            self.10.encoding() + (
            self.11.encoding() + rest)))))))))),
        )
        &&& self.1.counts_fit(
            self.2.encoding() + (
            self.3.encoding() + (
            self.4.encoding() + (
            self.5.encoding() + (
            self.6.encoding() + (
            self.7.encoding() + (
            self.8.encoding() + (
            self.9.encoding() + (
            self.10.encoding() + (
            self.11.encoding() + rest))))))))),
        )
        &&& self.2.counts_fit(
            self.3.encoding() + (
            self.4.encoding() + (
            self.5.encoding() + (
            self.6.encoding() + (
            self.7.encoding() + (
            self.8.encoding() + (
            self.9.encoding() + (
            self.10.encoding() + (
            self.11.encoding() + rest)))))))),
        )
        &&& self.3.counts_fit(
            self.4.encoding() + (
            self.5.encoding() + (
            self.6.encoding() + (
            self.7.encoding() + (
            self.8.encoding() + (
            self.9.encoding() + (
            self.10.encoding() + (
            self.11.encoding() + rest))))))),
        )
        &&& self.4.counts_fit(
            self.5.encoding() + (
            self.6.encoding() + (
            self.7.encoding() + (
            self.8.encoding() + (
            self.9.encoding() + (
            self.10.encoding() + (
            self.11.encoding() + rest)))))),
        )
        &&& self.5.counts_fit(
            self.6.encoding() + (
            self.7.encoding() + (
            self.8.encoding() + (
            self.9.encoding() + (
            self.10.encoding() + (
            self.11.encoding() + rest))))),
        )
        &&& self.6.counts_fit(
            self.7.encoding() + (
            self.8.encoding() + (
            self.9.encoding() + (
            self.10.encoding() + (
            self.11.encoding() + rest)))),
        )
        &&& self.7.counts_fit(
            self.8.encoding() + (
            self.9.encoding() + (
            self.10.encoding() + (
            self.11.encoding() + rest))),
        )
        &&& self.8.counts_fit(
            self.9.encoding() + (
            self.10.encoding() + (
            self.11.encoding() + rest)),
        )
        &&& self.9.counts_fit(self.10.encoding() + (self.11.encoding() + rest))
        &&& self.10.counts_fit(self.11.encoding() + rest)
        &&& self.11.counts_fit(rest)
    }

    proof fn lemma_round_trip(&self, rest: Seq<u8>) {
        let front = (
            self.0,
            self.1,
            self.2,
            self.3,
            self.4,
            self.5,
            self.6,
            self.7,
            self.8,
            self.9,
            self.10,
        );
        front.lemma_round_trip(self.11.encoding() + rest);
        self.11.lemma_round_trip(rest);
        assert(self.encoding() + rest =~= front.encoding() + (self.11.encoding() + rest));
    }
}

impl<
    A: Store,
    B: Store,
    C: Store,
    D: Store,
    E: Store,
    F: Store,
    G: Store,
    H: Store,
    I: Store,
    J: Store,
    K: Store,
    L: Store,
    M: Store,
> Store for (A, B, C, D, E, F, G, H, I, J, K, L, M) {
    type Model = (
        A::Model,
        B::Model,
        C::Model,
        D::Model,
        E::Model,
        F::Model,
        G::Model,
        H::Model,
        I::Model,
        J::Model,
        K::Model,
        L::Model,
        M::Model,
    );

    open spec fn obeys_store_spec() -> bool {
        &&& A::obeys_store_spec()
        &&& B::obeys_store_spec()
        &&& C::obeys_store_spec()
        &&& D::obeys_store_spec()
        &&& E::obeys_store_spec()
        &&& F::obeys_store_spec()
        &&& G::obeys_store_spec()
        &&& H::obeys_store_spec()
        &&& I::obeys_store_spec()
        &&& J::obeys_store_spec()
        &&& K::obeys_store_spec()
        &&& L::obeys_store_spec()
        &&& M::obeys_store_spec()
    }

    open spec fn model(&self) -> (
        A::Model,
        B::Model,
        C::Model,
        D::Model,
        E::Model,
        F::Model,
        G::Model,
        H::Model,
        I::Model,
        J::Model,
        K::Model,
        L::Model,
        M::Model,
    ) {
        (
            self.0.model(),
            self.1.model(),
            self.2.model(),
            self.3.model(),
            self.4.model(),
            self.5.model(),
            self.6.model(),
            self.7.model(),
            self.8.model(),
            self.9.model(),
            self.10.model(),
            self.11.model(),
            self.12.model(),
        )
    }

    open spec fn encoding(&self) -> Seq<u8> {
        self.0.encoding()
            + self.1.encoding()
            + self.2.encoding()
            + self.3.encoding()
            + self.4.encoding()
            + self.5.encoding()
            + self.6.encoding()
            + self.7.encoding()
            + self.8.encoding()
            + self.9.encoding()
            + self.10.encoding()
            + self.11.encoding()
            + self.12.encoding()
    }

    open spec fn parse(bytes: Seq<u8>) -> (
        (
            A::Model,
            B::Model,
            C::Model,
            D::Model,
            E::Model,
            F::Model,
            G::Model,
            H::Model,
            I::Model,
            J::Model,
            K::Model,
            L::Model,
            M::Model,
        ),
        Seq<u8>,
    ) {
        let (a, bytes) = A::parse(bytes);
        let (b, bytes) = B::parse(bytes);
        let (c, bytes) = C::parse(bytes);
        let (d, bytes) = D::parse(bytes);
        let (e, bytes) = E::parse(bytes);
        let (f, bytes) = F::parse(bytes);
        let (g, bytes) = G::parse(bytes);
        let (h, bytes) = H::parse(bytes);
        let (i, bytes) = I::parse(bytes);
        let (j, bytes) = J::parse(bytes);
        let (k, bytes) = K::parse(bytes);
        let (l, bytes) = L::parse(bytes);
        let (m, bytes) = M::parse(bytes);
        ((a, b, c, d, e, f, g, h, i, j, k, l, m), bytes)
    }

    fn store(&self, queue: &mut ByteQue) {
        self.0.store(queue);
        self.1.store(queue);
        self.2.store(queue);
        self.3.store(queue);
        self.4.store(queue);
        self.5.store(queue);
        self.6.store(queue);
        self.7.store(queue);
        self.8.store(queue);
        self.9.store(queue);
        self.10.store(queue);
        self.11.store(queue);
        self.12.store(queue);
        assert(Self::obeys_store_spec() ==> queue@ =~= old(queue)@ + self.encoding());
    }

    fn restore(queue: &mut ByteQue) -> (r: Self) {
        let a = A::restore(queue);
        let b = B::restore(queue);
        let c = C::restore(queue);
        let d = D::restore(queue);
        let e = E::restore(queue);
        let f = F::restore(queue);
        let g = G::restore(queue);
        let h = H::restore(queue);
        let i = I::restore(queue);
        let j = J::restore(queue);
        let k = K::restore(queue);
        let l = L::restore(queue);
        let m = M::restore(queue);
        (a, b, c, d, e, f, g, h, i, j, k, l, m)
    }
}

impl<
    A: RoundTrip,
    B: RoundTrip,
    C: RoundTrip,
    D: RoundTrip,
    E: RoundTrip,
    F: RoundTrip,
    G: RoundTrip,
    H: RoundTrip,
    I: RoundTrip,
    J: RoundTrip,
    K: RoundTrip,
    L: RoundTrip,
    M: RoundTrip,
> RoundTrip for (A, B, C, D, E, F, G, H, I, J, K, L, M) {
    open spec fn counts_fit(&self, rest: Seq<u8>) -> bool {
        &&& self.0.counts_fit(
            self.1.encoding() + (
            self.2.encoding() + (
            self.3.encoding() + (
            self.4.encoding() + (
            self.5.encoding() + (
            self.6.encoding() + (
            self.7.encoding() + (
            self.8.encoding() + (
            self.9.encoding() + (
            self.10.encoding() + (
            self.11.encoding() + (
            self.12.encoding() + rest))))))))))),
        )
        &&& self.1.counts_fit(
            self.2.encoding() + (
            self.3.encoding() + (
            self.4.encoding() + (
            self.5.encoding() + (
            self.6.encoding() + (
            self.7.encoding() + (
            self.8.encoding() + (
            self.9.encoding() + (
            self.10.encoding() + (
            self.11.encoding() + (
            self.12.encoding() + rest)))))))))),
        )
        &&& self.2.counts_fit(
            self.3.encoding() + (
            self.4.encoding() + (
            self.5.encoding() + (
            self.6.encoding() + (
            self.7.encoding() + (
            self.8.encoding() + (
            self.9.encoding() + (
            self.10.encoding() + (
            self.11.encoding() + (
            self.12.encoding() + rest))))))))),
        )
        &&& self.3.counts_fit(
            self.4.encoding() + (
            self.5.encoding() + (
            self.6.encoding() + (
            self.7.encoding() + (
            self.8.encoding() + (
            self.9.encoding() + (
            self.10.encoding() + (
            self.11.encoding() + (
            self.12.encoding() + rest)))))))),
        )
        &&& self.4.counts_fit(
            self.5.encoding() + (
            self.6.encoding() + (
            self.7.encoding() + (
            self.8.encoding() + (
            self.9.encoding() + (
            self.10.encoding() + (
            self.11.encoding() + (
            self.12.encoding() + rest))))))),
        )
        &&& self.5.counts_fit(
            self.6.encoding() + (
            self.7.encoding() + (
            self.8.encoding() + (
            self.9.encoding() + (
            self.10.encoding() + (
            self.11.encoding() + (
            self.12.encoding() + rest)))))),
        )
        &&& self.6.counts_fit(
            self.7.encoding() + (
            self.8.encoding() + (
            self.9.encoding() + (
            self.10.encoding() + (
            self.11.encoding() + (
            self.12.encoding() + rest))))),
        )
        &&& self.7.counts_fit(
            self.8.encoding() + (
            self.9.encoding() + (
            self.10.encoding() + (
            self.11.encoding() + (
            self.12.encoding() + rest)))),
        )
        &&& self.8.counts_fit(
            self.9.encoding() + (
            self.10.encoding() + (
            self.11.encoding() + (
            self.12.encoding() + rest))),
        )
        &&& self.9.counts_fit(
            self.10.encoding() + (
            self.11.encoding() + (
            self.12.encoding() + rest)),
        )
        &&& self.10.counts_fit(self.11.encoding() + (self.12.encoding() + rest))
        &&& self.11.counts_fit(self.12.encoding() + rest)
        &&& self.12.counts_fit(rest)
    }

    proof fn lemma_round_trip(&self, rest: Seq<u8>) {
        let front = (
            self.0,
            self.1,
            self.2,
            self.3,
            self.4,
            self.5,
            self.6,
            self.7,
            self.8,
            self.9,
            self.10,
            self.11,
        );
        front.lemma_round_trip(self.12.encoding() + rest);
        self.12.lemma_round_trip(rest);
        assert(self.encoding() + rest =~= front.encoding() + (self.12.encoding() + rest));
    }
}

impl<
    A: Store,
    B: Store,
    C: Store,
    D: Store,
    E: Store,
    F: Store,
    G: Store,
    H: Store,
    I: Store,
    J: Store,
    K: Store,
    L: Store,
    M: Store,
    N: Store,
> Store for (A, B, C, D, E, F, G, H, I, J, K, L, M, N) {
    type Model = (
        A::Model,
        B::Model,
        C::Model,
        D::Model,
        E::Model,
        F::Model,
        G::Model,
        H::Model,
        I::Model,
        J::Model,
        K::Model,
        L::Model,
        M::Model,
        N::Model,
    );

    open spec fn obeys_store_spec() -> bool {
        &&& A::obeys_store_spec()
        &&& B::obeys_store_spec()
        &&& C::obeys_store_spec()
        &&& D::obeys_store_spec()
        &&& E::obeys_store_spec()
        &&& F::obeys_store_spec()
        &&& G::obeys_store_spec()
        &&& H::obeys_store_spec()
        &&& I::obeys_store_spec()
        &&& J::obeys_store_spec()
        &&& K::obeys_store_spec()
        &&& L::obeys_store_spec()
        &&& M::obeys_store_spec()
        &&& N::obeys_store_spec()
    }

    open spec fn model(&self) -> (
        A::Model,
        B::Model,
        C::Model,
        D::Model,
        E::Model,
        F::Model,
        G::Model,
        H::Model,
        I::Model,
        J::Model,
        K::Model,
        L::Model,
        M::Model,
        N::Model,
    ) {
        (
            self.0.model(),
            self.1.model(),
            self.2.model(),
            self.3.model(),
            self.4.model(),
            self.5.model(),
            self.6.model(),
            self.7.model(),
            self.8.model(),
            self.9.model(),
            self.10.model(),
            self.11.model(),
            self.12.model(),
            self.13.model(),
        )
    }

    open spec fn encoding(&self) -> Seq<u8> {
        self.0.encoding()
            + self.1.encoding()
            + self.2.encoding()
            + self.3.encoding()
            + self.4.encoding()
            + self.5.encoding()
            + self.6.encoding()
            + self.7.encoding()
            + self.8.encoding()
            + self.9.encoding()
            + self.10.encoding()
            + self.11.encoding()
            + self.12.encoding()
            + self.13.encoding()
    }

    open spec fn parse(bytes: Seq<u8>) -> (
        (
            A::Model,
            B::Model,
            C::Model,
            D::Model,
            E::Model,
            F::Model,
            G::Model,
            H::Model,
            I::Model,
            J::Model,
            K::Model,
            L::Model,
            M::Model,
            N::Model,
        ),
        Seq<u8>,
    ) {
        let (a, bytes) = A::parse(bytes);
        let (b, bytes) = B::parse(bytes);
        let (c, bytes) = C::parse(bytes);
        let (d, bytes) = D::parse(bytes);
        let (e, bytes) = E::parse(bytes);
        let (f, bytes) = F::parse(bytes);
        let (g, bytes) = G::parse(bytes);
        let (h, bytes) = H::parse(bytes);
        let (i, bytes) = I::parse(bytes);
        let (j, bytes) = J::parse(bytes);
        let (k, bytes) = K::parse(bytes);
        let (l, bytes) = L::parse(bytes);
        let (m, bytes) = M::parse(bytes);
        let (n, bytes) = N::parse(bytes);
        ((a, b, c, d, e, f, g, h, i, j, k, l, m, n), bytes)
    }

    fn store(&self, queue: &mut ByteQue) {
        self.0.store(queue);
        self.1.store(queue);
        self.2.store(queue);
        self.3.store(queue);
        self.4.store(queue);
        self.5.store(queue);
        self.6.store(queue);
        self.7.store(queue);
        self.8.store(queue);
        self.9.store(queue);
        self.10.store(queue);
        self.11.store(queue);
        self.12.store(queue);
        self.13.store(queue);
        assert(Self::obeys_store_spec() ==> queue@ =~= old(queue)@ + self.encoding());
    }

    fn restore(queue: &mut ByteQue) -> (r: Self) {
        let a = A::restore(queue);
        let b = B::restore(queue);
        let c = C::restore(queue);
        let d = D::restore(queue);
        let e = E::restore(queue);
        let f = F::restore(queue);
        let g = G::restore(queue);
        let h = H::restore(queue);
        let i = I::restore(queue);
        let j = J::restore(queue);
        let k = K::restore(queue);
        let l = L::restore(queue);
        let m = M::restore(queue);
        let n = N::restore(queue);
        (a, b, c, d, e, f, g, h, i, j, k, l, m, n)
    }
}

impl<
    A: RoundTrip,
    B: RoundTrip,
    C: RoundTrip,
    D: RoundTrip,
    E: RoundTrip,
    F: RoundTrip,
    G: RoundTrip,
    H: RoundTrip,
    I: RoundTrip,
    J: RoundTrip,
    K: RoundTrip,
    L: RoundTrip,
    M: RoundTrip,
    N: RoundTrip,
> RoundTrip for (A, B, C, D, E, F, G, H, I, J, K, L, M, N) {
    open spec fn counts_fit(&self, rest: Seq<u8>) -> bool {
        &&& self.0.counts_fit(
            self.1.encoding() + (
            self.2.encoding() + (
            self.3.encoding() + (
            self.4.encoding() + (
            self.5.encoding() + (
            self.6.encoding() + (
            self.7.encoding() + (
            self.8.encoding() + (
            self.9.encoding() + (
            self.10.encoding() + (
            self.11.encoding() + (
            self.12.encoding() + (
            self.13.encoding() + rest)))))))))))),
        )
        &&& self.1.counts_fit(
            self.2.encoding() + (
            self.3.encoding() + (
            self.4.encoding() + (
            self.5.encoding() + (
            self.6.encoding() + (
            self.7.encoding() + (
            self.8.encoding() + (
            self.9.encoding() + (
            self.10.encoding() + (
            self.11.encoding() + (
            self.12.encoding() + (
            self.13.encoding() + rest))))))))))),
        )
        &&& self.2.counts_fit(
            self.3.encoding() + (
            self.4.encoding() + (
            self.5.encoding() + (
            self.6.encoding() + (
            self.7.encoding() + (
            self.8.encoding() + (
            self.9.encoding() + (
            self.10.encoding() + (
            self.11.encoding() + (
            self.12.encoding() + (
            self.13.encoding() + rest)))))))))),
        )
        &&& self.3.counts_fit(
            self.4.encoding() + (
            self.5.encoding() + (
            self.6.encoding() + (
            self.7.encoding() + (
            self.8.encoding() + (
            self.9.encoding() + (
            self.10.encoding() + (
            self.11.encoding() + (
            self.12.encoding() + (
            self.13.encoding() + rest))))))))),
        )
        &&& self.4.counts_fit(
            self.5.encoding() + (
            self.6.encoding() + (
            self.7.encoding() + (
            self.8.encoding() + (
            self.9.encoding() + (
            self.10.encoding() + (
            self.11.encoding() + (
            self.12.encoding() + (
            self.13.encoding() + rest)))))))),
        )
        &&& self.5.counts_fit(
            self.6.encoding() + (
            self.7.encoding() + (
            self.8.encoding() + (
            self.9.encoding() + (
            self.10.encoding() + (
            self.11.encoding() + (
            self.12.encoding() + (
            self.13.encoding() + rest))))))),
        )
        &&& self.6.counts_fit(
            self.7.encoding() + (
            self.8.encoding() + (
            self.9.encoding() + (
            self.10.encoding() + (
            self.11.encoding() + (
            self.12.encoding() + (
            self.13.encoding() + rest)))))),
        )
        &&& self.7.counts_fit(
            self.8.encoding() + (
            self.9.encoding() + (
            self.10.encoding() + (
            self.11.encoding() + (
            self.12.encoding() + (
            self.13.encoding() + rest))))),
        )
        &&& self.8.counts_fit(
            self.9.encoding() + (
            self.10.encoding() + (
            self.11.encoding() + (
            self.12.encoding() + (
            self.13.encoding() + rest)))),
        )
        &&& self.9.counts_fit(
            self.10.encoding() + (
            self.11.encoding() + (
            self.12.encoding() + (
            self.13.encoding() + rest))),
        )
        &&& self.10.counts_fit(
            self.11.encoding() + (
            self.12.encoding() + (
            self.13.encoding() + rest)),
        )
        &&& self.11.counts_fit(self.12.encoding() + (self.13.encoding() + rest))
        &&& self.12.counts_fit(self.13.encoding() + rest)
        &&& self.13.counts_fit(rest)
    }

    proof fn lemma_round_trip(&self, rest: Seq<u8>) {
        let front = (
            self.0,
            self.1,
            self.2,
            self.3,
            self.4,
            self.5,
            self.6,
            self.7,
            self.8,
            self.9,
            self.10,
            self.11,
            self.12,
        );
        front.lemma_round_trip(self.13.encoding() + rest);
        self.13.lemma_round_trip(rest);
        assert(self.encoding() + rest =~= front.encoding() + (self.13.encoding() + rest));
    }
}

impl<
    A: Store,
    B: Store,
    C: Store,
    D: Store,
    E: Store,
    F: Store,
    G: Store,
    H: Store,
    I: Store,
    J: Store,
    K: Store,
    L: Store,
    M: Store,
    N: Store,
    O: Store,
> Store for (A, B, C, D, E, F, G, H, I, J, K, L, M, N, O) {
    type Model = (
        A::Model,
        B::Model,
        C::Model,
        D::Model,
        E::Model,
        F::Model,
        G::Model,
        H::Model,
        I::Model,
        J::Model,
        K::Model,
        L::Model,
        M::Model,
        N::Model,
        O::Model,
    );

    open spec fn obeys_store_spec() -> bool {
        &&& A::obeys_store_spec()
        &&& B::obeys_store_spec()
        &&& C::obeys_store_spec()
        &&& D::obeys_store_spec()
        &&& E::obeys_store_spec()
        &&& F::obeys_store_spec()
        &&& G::obeys_store_spec()
        &&& H::obeys_store_spec()
        &&& I::obeys_store_spec()
        &&& J::obeys_store_spec()
        &&& K::obeys_store_spec()
        &&& L::obeys_store_spec()
        &&& M::obeys_store_spec()
        &&& N::obeys_store_spec()
        &&& O::obeys_store_spec()
    }

    open spec fn model(&self) -> (
        A::Model,
        B::Model,
        C::Model,
        D::Model,
        E::Model,
        F::Model,
        G::Model,
        H::Model,
        I::Model,
        J::Model,
        K::Model,
        L::Model,
        M::Model,
        N::Model,
        O::Model,
    ) {
        (
            self.0.model(),
            self.1.model(),
            self.2.model(),
            self.3.model(),
            self.4.model(),
            self.5.model(),
            self.6.model(),
            self.7.model(),
            self.8.model(),
            self.9.model(),
            self.10.model(),
            self.11.model(),
            self.12.model(),
            self.13.model(),
            self.14.model(),
        )
    }

    open spec fn encoding(&self) -> Seq<u8> {
        self.0.encoding()
            + self.1.encoding()
            + self.2.encoding()
            + self.3.encoding()
            + self.4.encoding()
            + self.5.encoding()
            + self.6.encoding()
            + self.7.encoding()
            + self.8.encoding()
            + self.9.encoding()
            + self.10.encoding()
            + self.11.encoding()
            + self.12.encoding()
            + self.13.encoding()
            + self.14.encoding()
    }

    open spec fn parse(bytes: Seq<u8>) -> (
        (
            A::Model,
            B::Model,
            C::Model,
            D::Model,
            E::Model,
            F::Model,
            G::Model,
            H::Model,
            I::Model,
            J::Model,
            K::Model,
            L::Model,
            M::Model,
            N::Model,
            O::Model,
        ),
        Seq<u8>,
    ) {
        let (a, bytes) = A::parse(bytes);
        let (b, bytes) = B::parse(bytes);
        let (c, bytes) = C::parse(bytes);
        let (d, bytes) = D::parse(bytes);
        let (e, bytes) = E::parse(bytes);
        let (f, bytes) = F::parse(bytes);
        let (g, bytes) = G::parse(bytes);
        let (h, bytes) = H::parse(bytes);
        let (i, bytes) = I::parse(bytes);
        let (j, bytes) = J::parse(bytes);
        let (k, bytes) = K::parse(bytes);
        let (l, bytes) = L::parse(bytes);
        let (m, bytes) = M::parse(bytes);
        let (n, bytes) = N::parse(bytes);
        let (o, bytes) = O::parse(bytes);
        ((a, b, c, d, e, f, g, h, i, j, k, l, m, n, o), bytes)
    }

    fn store(&self, queue: &mut ByteQue) {
        self.0.store(queue);
        self.1.store(queue);
        self.2.store(queue);
        self.3.store(queue);
        self.4.store(queue);
        self.5.store(queue);
        self.6.store(queue);
        self.7.store(queue);
        self.8.store(queue);
        self.9.store(queue);
        self.10.store(queue);
        self.11.store(queue);
        self.12.store(queue);
        self.13.store(queue);
        self.14.store(queue);
        assert(Self::obeys_store_spec() ==> queue@ =~= old(queue)@ + self.encoding());
    }

    fn restore(queue: &mut ByteQue) -> (r: Self) {
        let a = A::restore(queue);
        let b = B::restore(queue);
        let c = C::restore(queue);
        let d = D::restore(queue);
        let e = E::restore(queue);
        let f = F::restore(queue);
        let g = G::restore(queue);
        let h = H::restore(queue);
        let i = I::restore(queue);
        let j = J::restore(queue);
        let k = K::restore(queue);
        let l = L::restore(queue);
        let m = M::restore(queue);
        let n = N::restore(queue);
        let o = O::restore(queue);
        (a, b, c, d, e, f, g, h, i, j, k, l, m, n, o)
    }
}

impl<
    A: RoundTrip,
    B: RoundTrip,
    C: RoundTrip,
    D: RoundTrip,
    E: RoundTrip,
    F: RoundTrip,
    G: RoundTrip,
    H: RoundTrip,
    I: RoundTrip,
    J: RoundTrip,
    K: RoundTrip,
    L: RoundTrip,
    M: RoundTrip,
    N: RoundTrip,
    O: RoundTrip,
> RoundTrip for (A, B, C, D, E, F, G, H, I, J, K, L, M, N, O) {
    open spec fn counts_fit(&self, rest: Seq<u8>) -> bool {
        &&& self.0.counts_fit(
            self.1.encoding() + (
            self.2.encoding() + (
            self.3.encoding() + (
            self.4.encoding() + (
            self.5.encoding() + (
            self.6.encoding() + (
            self.7.encoding() + (
            self.8.encoding() + (
            self.9.encoding() + (
            self.10.encoding() + (
            self.11.encoding() + (
            self.12.encoding() + (
            self.13.encoding() + (
            self.14.encoding() + rest))))))))))))),
        )
        &&& self.1.counts_fit(
            self.2.encoding() + (
            self.3.encoding() + (
            self.4.encoding() + (
            self.5.encoding() + (
            self.6.encoding() + (
            self.7.encoding() + (
            self.8.encoding() + (
            self.9.encoding() + (
            self.10.encoding() + (
            self.11.encoding() + (
            self.12.encoding() + (
            self.13.encoding() + (
            self.14.encoding() + rest)))))))))))),
        )
        &&& self.2.counts_fit(
            self.3.encoding() + (
            self.4.encoding() + (
            self.5.encoding() + (
            self.6.encoding() + (
            self.7.encoding() + (
            self.8.encoding() + (
            self.9.encoding() + (
            self.10.encoding() + (
            self.11.encoding() + (
            self.12.encoding() + (
            self.13.encoding() + (
            self.14.encoding() + rest))))))))))),
        )
        &&& self.3.counts_fit(
            self.4.encoding() + (
            self.5.encoding() + (
            self.6.encoding() + (
            self.7.encoding() + (
            self.8.encoding() + (
            self.9.encoding() + (
            self.10.encoding() + (
            self.11.encoding() + (
            self.12.encoding() + (
            self.13.encoding() + (
            self.14.encoding() + rest)))))))))),
        )
        &&& self.4.counts_fit(
            self.5.encoding() + (
            self.6.encoding() + (
            self.7.encoding() + (
            self.8.encoding() + (
            self.9.encoding() + (
            self.10.encoding() + (
            self.11.encoding() + (
            self.12.encoding() + (
            self.13.encoding() + (
            self.14.encoding() + rest))))))))),
        )
        &&& self.5.counts_fit(
            self.6.encoding() + (
            self.7.encoding() + (
            self.8.encoding() + (
            self.9.encoding() + (
            self.10.encoding() + (
            self.11.encoding() + (
            self.12.encoding() + (
            self.13.encoding() + (
            self.14.encoding() + rest)))))))),
        )
        &&& self.6.counts_fit(
            self.7.encoding() + (
            self.8.encoding() + (
            self.9.encoding() + (
            self.10.encoding() + (
            self.11.encoding() + (
            self.12.encoding() + (
            self.13.encoding() + (
            self.14.encoding() + rest))))))),
        )
        &&& self.7.counts_fit(
            self.8.encoding() + (
            self.9.encoding() + (
            self.10.encoding() + (
            self.11.encoding() + (
            self.12.encoding() + (
            self.13.encoding() + (
            self.14.encoding() + rest)))))),
        )
        &&& self.8.counts_fit(
            self.9.encoding() + (
            self.10.encoding() + (
            self.11.encoding() + (
            self.12.encoding() + (
            self.13.encoding() + (
            self.14.encoding() + rest))))),
        )
        &&& self.9.counts_fit(
            self.10.encoding() + (
            self.11.encoding() + (
            self.12.encoding() + (
            self.13.encoding() + (
            self.14.encoding() + rest)))),
        )
        &&& self.10.counts_fit(
            self.11.encoding() + (
            self.12.encoding() + (
            self.13.encoding() + (
            self.14.encoding() + rest))),
        )
        &&& self.11.counts_fit(
            self.12.encoding() + (
            self.13.encoding() + (
            self.14.encoding() + rest)),
        )
        &&& self.12.counts_fit(self.13.encoding() + (self.14.encoding() + rest))
        &&& self.13.counts_fit(self.14.encoding() + rest)
        &&& self.14.counts_fit(rest)
    }

    proof fn lemma_round_trip(&self, rest: Seq<u8>) {
        let front = (
            self.0,
            self.1,
            self.2,
            self.3,
            self.4,
            self.5,
            self.6,
            self.7,
            self.8,
            self.9,
            self.10,
            self.11,
            self.12,
            self.13,
        );
        front.lemma_round_trip(self.14.encoding() + rest);
        self.14.lemma_round_trip(rest);
        assert(self.encoding() + rest =~= front.encoding() + (self.14.encoding() + rest));
    }
}

impl<
    A: Store,
    B: Store,
    C: Store,
    D: Store,
    E: Store,
    F: Store,
    G: Store,
    H: Store,
    I: Store,
    J: Store,
    K: Store,
    L: Store,
    M: Store,
    N: Store,
    O: Store,
    P: Store,
> Store for (A, B, C, D, E, F, G, H, I, J, K, L, M, N, O, P) {
    type Model = (
        A::Model,
        B::Model,
        C::Model,
        D::Model,
        E::Model,
        F::Model,
        G::Model,
        H::Model,
        I::Model,
        J::Model,
        K::Model,
        L::Model,
        M::Model,
        N::Model,
        O::Model,
        P::Model,
    );

    open spec fn obeys_store_spec() -> bool {
        &&& A::obeys_store_spec()
        &&& B::obeys_store_spec()
        &&& C::obeys_store_spec()
        &&& D::obeys_store_spec()
        &&& E::obeys_store_spec()
        &&& F::obeys_store_spec()
        &&& G::obeys_store_spec()
        &&& H::obeys_store_spec()
        &&& I::obeys_store_spec()
        &&& J::obeys_store_spec()
        &&& K::obeys_store_spec()
        &&& L::obeys_store_spec()
        &&& M::obeys_store_spec()
        &&& N::obeys_store_spec()
        &&& O::obeys_store_spec()
        &&& P::obeys_store_spec()
    }

    open spec fn model(&self) -> (
        A::Model,
        B::Model,
        C::Model,
        D::Model,
        E::Model,
        F::Model,
        G::Model,
        H::Model,
        I::Model,
        J::Model,
        K::Model,
        L::Model,
        M::Model,
        N::Model,
        O::Model,
        P::Model,
    ) {
        (
            self.0.model(),
            self.1.model(),
            self.2.model(),
            self.3.model(),
            self.4.model(),
            self.5.model(),
            self.6.model(),
            self.7.model(),
            self.8.model(),
            self.9.model(),
            self.10.model(),
            self.11.model(),
            self.12.model(),
            self.13.model(),
            self.14.model(),
            self.15.model(),
        )
    }

    open spec fn encoding(&self) -> Seq<u8> {
        self.0.encoding()
            + self.1.encoding()
            + self.2.encoding()
            + self.3.encoding()
            + self.4.encoding()
            + self.5.encoding()
            + self.6.encoding()
            + self.7.encoding()
            + self.8.encoding()
            + self.9.encoding()
            + self.10.encoding()
            + self.11.encoding()
            + self.12.encoding()
            + self.13.encoding()
            + self.14.encoding()
            + self.15.encoding()
    }

    open spec fn parse(bytes: Seq<u8>) -> (
        (
            A::Model,
            B::Model,
            C::Model,
            D::Model,
            E::Model,
            F::Model,
            G::Model,
            H::Model,
            I::Model,
            J::Model,
            K::Model,
            L::Model,
            M::Model,
            N::Model,
            O::Model,
            P::Model,
        ),
        Seq<u8>,
    ) {
        let (a, bytes) = A::parse(bytes);
        let (b, bytes) = B::parse(bytes);
        let (c, bytes) = C::parse(bytes);
        let (d, bytes) = D::parse(bytes);
        let (e, bytes) = E::parse(bytes);
        let (f, bytes) = F::parse(bytes);
        let (g, bytes) = G::parse(bytes);
        let (h, bytes) = H::parse(bytes);
        let (i, bytes) = I::parse(bytes);
        let (j, bytes) = J::parse(bytes);
        let (k, bytes) = K::parse(bytes);
        let (l, bytes) = L::parse(bytes);
        let (m, bytes) = M::parse(bytes);
        let (n, bytes) = N::parse(bytes);
        let (o, bytes) = O::parse(bytes);
        let (p, bytes) = P::parse(bytes);
        ((a, b, c, d, e, f, g, h, i, j, k, l, m, n, o, p), bytes)
    }

    fn store(&self, queue: &mut ByteQue) {
        self.0.store(queue);
        self.1.store(queue);
        self.2.store(queue);
        self.3.store(queue);
        self.4.store(queue);
        self.5.store(queue);
        self.6.store(queue);
        self.7.store(queue);
        self.8.store(queue);
        self.9.store(queue);
        self.10.store(queue);
        self.11.store(queue);
        self.12.store(queue);
        self.13.store(queue);
        self.14.store(queue);
        self.15.store(queue);
        assert(Self::obeys_store_spec() ==> queue@ =~= old(queue)@ + self.encoding());
    }

    fn restore(queue: &mut ByteQue) -> (r: Self) {
        let a = A::restore(queue);
        let b = B::restore(queue);
        let c = C::restore(queue);
        let d = D::restore(queue);
        let e = E::restore(queue);
        let f = F::restore(queue);
        let g = G::restore(queue);
        let h = H::restore(queue);
        let i = I::restore(queue);
        let j = J::restore(queue);
        let k = K::restore(queue);
        let l = L::restore(queue);
        let m = M::restore(queue);
        let n = N::restore(queue);
        let o = O::restore(queue);
        let p = P::restore(queue);
        (a, b, c, d, e, f, g, h, i, j, k, l, m, n, o, p)
    }
}

impl<
    A: RoundTrip,
    B: RoundTrip,
    C: RoundTrip,
    D: RoundTrip,
    E: RoundTrip,
    F: RoundTrip,
    G: RoundTrip,
    H: RoundTrip,
    I: RoundTrip,
    J: RoundTrip,
    K: RoundTrip,
    L: RoundTrip,
    M: RoundTrip,
    N: RoundTrip,
    O: RoundTrip,
    P: RoundTrip,
> RoundTrip for (A, B, C, D, E, F, G, H, I, J, K, L, M, N, O, P) {
    open spec fn counts_fit(&self, rest: Seq<u8>) -> bool {
        &&& self.0.counts_fit(
            self.1.encoding() + (
            self.2.encoding() + (
            self.3.encoding() + (
            self.4.encoding() + (
            self.5.encoding() + (
            self.6.encoding() + (
            self.7.encoding() + (
            self.8.encoding() + (
            self.9.encoding() + (
            self.10.encoding() + (
            self.11.encoding() + (
            self.12.encoding() + (
            self.13.encoding() + (
            self.14.encoding() + (
            self.15.encoding() + rest)))))))))))))),
        )
        &&& self.1.counts_fit(
            self.2.encoding() + (
            self.3.encoding() + (
            self.4.encoding() + (
            self.5.encoding() + (
            self.6.encoding() + (
            self.7.encoding() + (
            self.8.encoding() + (
            self.9.encoding() + (
            self.10.encoding() + (
            self.11.encoding() + (
            self.12.encoding() + (
            self.13.encoding() + (
            self.14.encoding() + (
            self.15.encoding() + rest))))))))))))),
        )
        &&& self.2.counts_fit(
            self.3.encoding() + (
            self.4.encoding() + (
            self.5.encoding() + (
            self.6.encoding() + (
            self.7.encoding() + (
            self.8.encoding() + (
            self.9.encoding() + (
            self.10.encoding() + (
            self.11.encoding() + (
            self.12.encoding() + (
            self.13.encoding() + (
            self.14.encoding() + (
            self.15.encoding() + rest)))))))))))),
        )
        &&& self.3.counts_fit(
            self.4.encoding() + (
            self.5.encoding() + (
            self.6.encoding() + (
            self.7.encoding() + (
            self.8.encoding() + (
            self.9.encoding() + (
            self.10.encoding() + (
            self.11.encoding() + (
            self.12.encoding() + (
            self.13.encoding() + (
            self.14.encoding() + (
            self.15.encoding() + rest))))))))))),
        )
        &&& self.4.counts_fit(
            self.5.encoding() + (
            self.6.encoding() + (
            self.7.encoding() + (
            self.8.encoding() + (
            self.9.encoding() + (
            self.10.encoding() + (
            self.11.encoding() + (
            self.12.encoding() + (
            self.13.encoding() + (
            self.14.encoding() + (
            self.15.encoding() + rest)))))))))),
        )
        &&& self.5.counts_fit(
            self.6.encoding() + (
            self.7.encoding() + (
            self.8.encoding() + (
            self.9.encoding() + (
            self.10.encoding() + (
            self.11.encoding() + (
            self.12.encoding() + (
            self.13.encoding() + (
            self.14.encoding() + (
            self.15.encoding() + rest))))))))),
        )
        &&& self.6.counts_fit(
            self.7.encoding() + (
            self.8.encoding() + (
            self.9.encoding() + (
            self.10.encoding() + (
            self.11.encoding() + (
            self.12.encoding() + (
            self.13.encoding() + (
            self.14.encoding() + (
            self.15.encoding() + rest)))))))),
        )
        &&& self.7.counts_fit(
            self.8.encoding() + (
            self.9.encoding() + (
            self.10.encoding() + (
            self.11.encoding() + (
            self.12.encoding() + (
            self.13.encoding() + (
            self.14.encoding() + (
            self.15.encoding() + rest))))))),
        )
        &&& self.8.counts_fit(
            self.9.encoding() + (
            self.10.encoding() + (
            self.11.encoding() + (
            self.12.encoding() + (
            self.13.encoding() + (
            self.14.encoding() + (
            self.15.encoding() + rest)))))),
        )
        &&& self.9.counts_fit(
            self.10.encoding() + (
            self.11.encoding() + (
            self.12.encoding() + (
            self.13.encoding() + (
            self.14.encoding() + (
            self.15.encoding() + rest))))),
        )
        &&& self.10.counts_fit(
            self.11.encoding() + (
            self.12.encoding() + (
            self.13.encoding() + (
            self.14.encoding() + (
            self.15.encoding() + rest)))),
        )
        &&& self.11.counts_fit(
            self.12.encoding() + (
            self.13.encoding() + (
            self.14.encoding() + (
            self.15.encoding() + rest))),
        )
        &&& self.12.counts_fit(
            self.13.encoding() + (
            self.14.encoding() + (
            self.15.encoding() + rest)),
        )
        &&& self.13.counts_fit(self.14.encoding() + (self.15.encoding() + rest))
        &&& self.14.counts_fit(self.15.encoding() + rest)
        &&& self.15.counts_fit(rest)
    }

    proof fn lemma_round_trip(&self, rest: Seq<u8>) {
        let front = (
            self.0,
            self.1,
            self.2,
            self.3,
            self.4,
            self.5,
            self.6,
            self.7,
            self.8,
            self.9,
            self.10,
            self.11,
            self.12,
            self.13,
            self.14,
        );
        front.lemma_round_trip(self.15.encoding() + rest);
        self.15.lemma_round_trip(rest);
        assert(self.encoding() + rest =~= front.encoding() + (self.15.encoding() + rest));
    }
}

impl<
    A: Store,
    B: Store,
    C: Store,
    D: Store,
    E: Store,
    F: Store,
    G: Store,
    H: Store,
    I: Store,
    J: Store,
    K: Store,
    L: Store,
    M: Store,
    N: Store,
    O: Store,
    P: Store,
    Q: Store,
> Store for (A, B, C, D, E, F, G, H, I, J, K, L, M, N, O, P, Q) {
    type Model = (
        A::Model,
        B::Model,
        C::Model,
        D::Model,
        E::Model,
        F::Model,
        G::Model,
        H::Model,
        I::Model,
        J::Model,
        K::Model,
        L::Model,
        M::Model,
        N::Model,
        O::Model,
        P::Model,
        Q::Model,
    );

    open spec fn obeys_store_spec() -> bool {
        &&& A::obeys_store_spec()
        &&& B::obeys_store_spec()
        &&& C::obeys_store_spec()
        &&& D::obeys_store_spec()
        &&& E::obeys_store_spec()
        &&& F::obeys_store_spec()
        &&& G::obeys_store_spec()
        &&& H::obeys_store_spec()
        &&& I::obeys_store_spec()
        &&& J::obeys_store_spec()
        &&& K::obeys_store_spec()
        &&& L::obeys_store_spec()
        &&& M::obeys_store_spec()
        &&& N::obeys_store_spec()
        &&& O::obeys_store_spec()
        &&& P::obeys_store_spec()
        &&& Q::obeys_store_spec()
    }

    open spec fn model(&self) -> (
        A::Model,
        B::Model,
        C::Model,
        D::Model,
        E::Model,
        F::Model,
        G::Model,
        H::Model,
        I::Model,
        J::Model,
        K::Model,
        L::Model,
        M::Model,
        N::Model,
        O::Model,
        P::Model,
        Q::Model,
    ) {
        (
            self.0.model(),
            self.1.model(),
            self.2.model(),
            self.3.model(),
            self.4.model(),
            self.5.model(),
            self.6.model(),
            self.7.model(),
            self.8.model(),
            self.9.model(),
            self.10.model(),
            self.11.model(),
            self.12.model(),
            self.13.model(),
            self.14.model(),
            self.15.model(),
            self.16.model(),
        )
    }

    open spec fn encoding(&self) -> Seq<u8> {
        self.0.encoding()
            + self.1.encoding()
            + self.2.encoding()
            + self.3.encoding()
            + self.4.encoding()
            + self.5.encoding()
            + self.6.encoding()
            + self.7.encoding()
            + self.8.encoding()
            + self.9.encoding()
            + self.10.encoding()
            + self.11.encoding()
            + self.12.encoding()
            + self.13.encoding()
            + self.14.encoding()
            + self.15.encoding()
            + self.16.encoding()
    }

    open spec fn parse(bytes: Seq<u8>) -> (
        (
            A::Model,
            B::Model,
            C::Model,
            D::Model,
            E::Model,
            F::Model,
            G::Model,
            H::Model,
            I::Model,
            J::Model,
            K::Model,
            L::Model,
            M::Model,
            N::Model,
            O::Model,
            P::Model,
            Q::Model,
        ),
        Seq<u8>,
    ) {
        let (a, bytes) = A::parse(bytes);
        let (b, bytes) = B::parse(bytes);
        let (c, bytes) = C::parse(bytes);
        let (d, bytes) = D::parse(bytes);
        let (e, bytes) = E::parse(bytes);
        let (f, bytes) = F::parse(bytes);
        let (g, bytes) = G::parse(bytes);
        let (h, bytes) = H::parse(bytes);
        let (i, bytes) = I::parse(bytes);
        let (j, bytes) = J::parse(bytes);
        let (k, bytes) = K::parse(bytes);
        let (l, bytes) = L::parse(bytes);
        let (m, bytes) = M::parse(bytes);
        let (n, bytes) = N::parse(bytes);
        let (o, bytes) = O::parse(bytes);
        let (p, bytes) = P::parse(bytes);
        let (q, bytes) = Q::parse(bytes);
        ((a, b, c, d, e, f, g, h, i, j, k, l, m, n, o, p, q), bytes)
    }

    fn store(&self, queue: &mut ByteQue) {
        self.0.store(queue);
        self.1.store(queue);
        self.2.store(queue);
        self.3.store(queue);
        self.4.store(queue);
        self.5.store(queue);
        self.6.store(queue);
        self.7.store(queue);
        self.8.store(queue);
        self.9.store(queue);
        self.10.store(queue);
        self.11.store(queue);
        self.12.store(queue);
        self.13.store(queue);
        self.14.store(queue);
        self.15.store(queue);
        self.16.store(queue);
        assert(Self::obeys_store_spec() ==> queue@ =~= old(queue)@ + self.encoding());
    }

    fn restore(queue: &mut ByteQue) -> (r: Self) {
        let a = A::restore(queue);
        let b = B::restore(queue);
        let c = C::restore(queue);
        let d = D::restore(queue);
        let e = E::restore(queue);
        let f = F::restore(queue);
        let g = G::restore(queue);
        let h = H::restore(queue);
        let i = I::restore(queue);
        let j = J::restore(queue);
        let k = K::restore(queue);
        let l = L::restore(queue);
        let m = M::restore(queue);
        let n = N::restore(queue);
        let o = O::restore(queue);
        let p = P::restore(queue);
        let q = Q::restore(queue);
        (a, b, c, d, e, f, g, h, i, j, k, l, m, n, o, p, q)
    }
}

impl<
    A: RoundTrip,
    B: RoundTrip,
    C: RoundTrip,
    D: RoundTrip,
    E: RoundTrip,
    F: RoundTrip,
    G: RoundTrip,
    H: RoundTrip,
    I: RoundTrip,
    J: RoundTrip,
    K: RoundTrip,
    L: RoundTrip,
    M: RoundTrip,
    N: RoundTrip,
    O: RoundTrip,
    P: RoundTrip,
    Q: RoundTrip,
> RoundTrip for (A, B, C, D, E, F, G, H, I, J, K, L, M, N, O, P, Q) {
    open spec fn counts_fit(&self, rest: Seq<u8>) -> bool {
        &&& self.0.counts_fit(
            self.1.encoding() + (
            self.2.encoding() + (
            self.3.encoding() + (
            self.4.encoding() + (
            self.5.encoding() + (
            self.6.encoding() + (
            self.7.encoding() + (
            self.8.encoding() + (
            self.9.encoding() + (
            self.10.encoding() + (
            self.11.encoding() + (
            self.12.encoding() + (
            self.13.encoding() + (
            self.14.encoding() + (
            self.15.encoding() + (
            self.16.encoding() + rest))))))))))))))),
        )
        &&& self.1.counts_fit(
            self.2.encoding() + (
            self.3.encoding() + (
            self.4.encoding() + (
            self.5.encoding() + (
            self.6.encoding() + (
            self.7.encoding() + (
            self.8.encoding() + (
            self.9.encoding() + (
            self.10.encoding() + (
            self.11.encoding() + (
            self.12.encoding() + (
            self.13.encoding() + (
            self.14.encoding() + (
            self.15.encoding() + (
            self.16.encoding() + rest)))))))))))))),
        )
        &&& self.2.counts_fit(
            self.3.encoding() + (
            self.4.encoding() + (
            self.5.encoding() + (
            self.6.encoding() + (
            self.7.encoding() + (
            self.8.encoding() + (
            self.9.encoding() + (
            self.10.encoding() + (
            self.11.encoding() + (
            self.12.encoding() + (
            self.13.encoding() + (
            self.14.encoding() + (
            self.15.encoding() + (
            self.16.encoding() + rest))))))))))))),
        )
        &&& self.3.counts_fit(
            self.4.encoding() + (
            self.5.encoding() + (
            self.6.encoding() + (
            self.7.encoding() + (
            self.8.encoding() + (
            self.9.encoding() + (
            self.10.encoding() + (
            self.11.encoding() + (
            self.12.encoding() + (
            self.13.encoding() + (
            self.14.encoding() + (
            self.15.encoding() + (
            self.16.encoding() + rest)))))))))))),
        )
        &&& self.4.counts_fit(
            self.5.encoding() + (
            self.6.encoding() + (
            self.7.encoding() + (
            self.8.encoding() + (
            self.9.encoding() + (
            self.10.encoding() + (
            self.11.encoding() + (
            self.12.encoding() + (
            self.13.encoding() + (
            self.14.encoding() + (
            self.15.encoding() + (
            self.16.encoding() + rest))))))))))),
        )
        &&& self.5.counts_fit(
            self.6.encoding() + (
            self.7.encoding() + (
            self.8.encoding() + (
            self.9.encoding() + (
            self.10.encoding() + (
            self.11.encoding() + (
            self.12.encoding() + (
            self.13.encoding() + (
            self.14.encoding() + (
            self.15.encoding() + (
            self.16.encoding() + rest)))))))))),
        )
        &&& self.6.counts_fit(
            self.7.encoding() + (
            self.8.encoding() + (
            self.9.encoding() + (
            self.10.encoding() + (
            self.11.encoding() + (
            self.12.encoding() + (
            self.13.encoding() + (
            self.14.encoding() + (
            self.15.encoding() + (
            self.16.encoding() + rest))))))))),
        )
        &&& self.7.counts_fit(
            self.8.encoding() + (
            self.9.encoding() + (
            self.10.encoding() + (
            self.11.encoding() + (
            self.12.encoding() + (
            self.13.encoding() + (
            self.14.encoding() + (
            self.15.encoding() + (
            self.16.encoding() + rest)))))))),
        )
        &&& self.8.counts_fit(
            self.9.encoding() + (
            self.10.encoding() + (
            self.11.encoding() + (
            self.12.encoding() + (
            self.13.encoding() + (
            self.14.encoding() + (
            self.15.encoding() + (
            self.16.encoding() + rest))))))),
        )
        &&& self.9.counts_fit(
            self.10.encoding() + (
            self.11.encoding() + (
            self.12.encoding() + (
            self.13.encoding() + (
            self.14.encoding() + (
            self.15.encoding() + (
            self.16.encoding() + rest)))))),
        )
        &&& self.10.counts_fit(
            self.11.encoding() + (
            self.12.encoding() + (
            self.13.encoding() + (
            self.14.encoding() + (
            self.15.encoding() + (
            self.16.encoding() + rest))))),
        )
        &&& self.11.counts_fit(
            self.12.encoding() + (
            self.13.encoding() + (
            self.14.encoding() + (
            self.15.encoding() + (
            self.16.encoding() + rest)))),
        )
        &&& self.12.counts_fit(
            self.13.encoding() + (
            self.14.encoding() + (
            self.15.encoding() + (
            self.16.encoding() + rest))),
        )
        &&& self.13.counts_fit(
            self.14.encoding() + (
            self.15.encoding() + (
            self.16.encoding() + rest)),
        )
        &&& self.14.counts_fit(self.15.encoding() + (self.16.encoding() + rest))
        &&& self.15.counts_fit(self.16.encoding() + rest)
        &&& self.16.counts_fit(rest)
    }

    proof fn lemma_round_trip(&self, rest: Seq<u8>) {
        let front = (
            self.0,
            self.1,
            self.2,
            self.3,
            self.4,
            self.5,
            self.6,
            self.7,
            self.8,
            self.9,
            self.10,
            self.11,
            self.12,
            self.13,
            self.14,
            self.15,
        );
        front.lemma_round_trip(self.16.encoding() + rest);
        self.16.lemma_round_trip(rest);
        assert(self.encoding() + rest =~= front.encoding() + (self.16.encoding() + rest));
    }
}

impl<
    A: Store,
    B: Store,
    C: Store,
    D: Store,
    E: Store,
    F: Store,
    G: Store,
    H: Store,
    I: Store,
    J: Store,
    K: Store,
    L: Store,
    M: Store,
    N: Store,
    O: Store,
    P: Store,
    Q: Store,
    R: Store,
> Store for (A, B, C, D, E, F, G, H, I, J, K, L, M, N, O, P, Q, R) {
    type Model = (
        A::Model,
        B::Model,
        C::Model,
        D::Model,
        E::Model,
        F::Model,
        G::Model,
        H::Model,
        I::Model,
        J::Model,
        K::Model,
        L::Model,
        M::Model,
        N::Model,
        O::Model,
        P::Model,
        Q::Model,
        R::Model,
    );

    open spec fn obeys_store_spec() -> bool {
        &&& A::obeys_store_spec()
        &&& B::obeys_store_spec()
        &&& C::obeys_store_spec()
        &&& D::obeys_store_spec()
        &&& E::obeys_store_spec()
        &&& F::obeys_store_spec()
        &&& G::obeys_store_spec()
        &&& H::obeys_store_spec()
        &&& I::obeys_store_spec()
        &&& J::obeys_store_spec()
        &&& K::obeys_store_spec()
        &&& L::obeys_store_spec()
        &&& M::obeys_store_spec()
        &&& N::obeys_store_spec()
        &&& O::obeys_store_spec()
        &&& P::obeys_store_spec()
        &&& Q::obeys_store_spec()
        &&& R::obeys_store_spec()
    }

    open spec fn model(&self) -> (
        A::Model,
        B::Model,
        C::Model,
        D::Model,
        E::Model,
        F::Model,
        G::Model,
        H::Model,
        I::Model,
        J::Model,
        K::Model,
        L::Model,
        M::Model,
        N::Model,
        O::Model,
        P::Model,
        Q::Model,
        R::Model,
    ) {
        (
            self.0.model(),
            self.1.model(),
            self.2.model(),
            self.3.model(),
            self.4.model(),
            self.5.model(),
            self.6.model(),
            self.7.model(),
            self.8.model(),
            self.9.model(),
            self.10.model(),
            self.11.model(),
            self.12.model(),
            self.13.model(),
            self.14.model(),
            self.15.model(),
            self.16.model(),
            self.17.model(),
        )
    }

    open spec fn encoding(&self) -> Seq<u8> {
        self.0.encoding()
            + self.1.encoding()
            + self.2.encoding()
            + self.3.encoding()
            + self.4.encoding()
            + self.5.encoding()
            + self.6.encoding()
            + self.7.encoding()
            + self.8.encoding()
            + self.9.encoding()
            + self.10.encoding()
            + self.11.encoding()
            + self.12.encoding()
            + self.13.encoding()
            + self.14.encoding()
            + self.15.encoding()
            + self.16.encoding()
            + self.17.encoding()
    }

    open spec fn parse(bytes: Seq<u8>) -> (
        (
            A::Model,
            B::Model,
            C::Model,
            D::Model,
            E::Model,
            F::Model,
            G::Model,
            H::Model,
            I::Model,
            J::Model,
            K::Model,
            L::Model,
            M::Model,
            N::Model,
            O::Model,
            P::Model,
            Q::Model,
            R::Model,
        ),
        Seq<u8>,
    ) {
        let (a, bytes) = A::parse(bytes);
        let (b, bytes) = B::parse(bytes);
        let (c, bytes) = C::parse(bytes);
        let (d, bytes) = D::parse(bytes);
        let (e, bytes) = E::parse(bytes);
        let (f, bytes) = F::parse(bytes);
        let (g, bytes) = G::parse(bytes);
        let (h, bytes) = H::parse(bytes);
        let (i, bytes) = I::parse(bytes);
        let (j, bytes) = J::parse(bytes);
        let (k, bytes) = K::parse(bytes);
        let (l, bytes) = L::parse(bytes);
        let (m, bytes) = M::parse(bytes);
        let (n, bytes) = N::parse(bytes);
        let (o, bytes) = O::parse(bytes);
        let (p, bytes) = P::parse(bytes);
        let (q, bytes) = Q::parse(bytes);
        let (r, bytes) = R::parse(bytes);
        ((a, b, c, d, e, f, g, h, i, j, k, l, m, n, o, p, q, r), bytes)
    }

    fn store(&self, queue: &mut ByteQue) {
        self.0.store(queue);
        self.1.store(queue);
        self.2.store(queue);
        self.3.store(queue);
        self.4.store(queue);
        self.5.store(queue);
        self.6.store(queue);
        self.7.store(queue);
        self.8.store(queue);
        self.9.store(queue);
        self.10.store(queue);
        self.11.store(queue);
        self.12.store(queue);
        self.13.store(queue);
        self.14.store(queue);
        self.15.store(queue);
        self.16.store(queue);
        self.17.store(queue);
        assert(Self::obeys_store_spec() ==> queue@ =~= old(queue)@ + self.encoding());
    }

    fn restore(queue: &mut ByteQue) -> (r: Self) {
        let a = A::restore(queue);
        let b = B::restore(queue);
        let c = C::restore(queue);
        let d = D::restore(queue);
        let e = E::restore(queue);
        let f = F::restore(queue);
        let g = G::restore(queue);
        let h = H::restore(queue);
        let i = I::restore(queue);
        let j = J::restore(queue);
        let k = K::restore(queue);
        let l = L::restore(queue);
        let m = M::restore(queue);
        let n = N::restore(queue);
        let o = O::restore(queue);
        let p = P::restore(queue);
        let q = Q::restore(queue);
        let r = R::restore(queue);
        (a, b, c, d, e, f, g, h, i, j, k, l, m, n, o, p, q, r)
    }
}

impl<
    A: RoundTrip,
    B: RoundTrip,
    C: RoundTrip,
    D: RoundTrip,
    E: RoundTrip,
    F: RoundTrip,
    G: RoundTrip,
    H: RoundTrip,
    I: RoundTrip,
    J: RoundTrip,
    K: RoundTrip,
    L: RoundTrip,
    M: RoundTrip,
    N: RoundTrip,
    O: RoundTrip,
    P: RoundTrip,
    Q: RoundTrip,
    R: RoundTrip,
> RoundTrip for (A, B, C, D, E, F, G, H, I, J, K, L, M, N, O, P, Q, R) {
    open spec fn counts_fit(&self, rest: Seq<u8>) -> bool {
        &&& self.0.counts_fit(
            self.1.encoding() + (
            self.2.encoding() + (
            self.3.encoding() + (
            self.4.encoding() + (
            self.5.encoding() + (
            self.6.encoding() + (
            self.7.encoding() + (
            self.8.encoding() + (
            self.9.encoding() + (
            self.10.encoding() + (
            self.11.encoding() + (
            self.12.encoding() + (
            self.13.encoding() + (
            self.14.encoding() + (
            self.15.encoding() + (
            self.16.encoding() + (
            self.17.encoding() + rest)))))))))))))))),
        )
        &&& self.1.counts_fit(
            self.2.encoding() + (
            self.3.encoding() + (
            self.4.encoding() + (
            self.5.encoding() + (
            self.6.encoding() + (
            self.7.encoding() + (
            self.8.encoding() + (
            self.9.encoding() + (
            self.10.encoding() + (
            self.11.encoding() + (
            self.12.encoding() + (
            self.13.encoding() + (
            self.14.encoding() + (
            self.15.encoding() + (
            self.16.encoding() + (
            self.17.encoding() + rest))))))))))))))),
        )
        &&& self.2.counts_fit(
            self.3.encoding() + (
            self.4.encoding() + (
            self.5.encoding() + (
            self.6.encoding() + (
            self.7.encoding() + (
            self.8.encoding() + (
            self.9.encoding() + (
            self.10.encoding() + (
            self.11.encoding() + (
            self.12.encoding() + (
            self.13.encoding() + (
            self.14.encoding() + (
            self.15.encoding() + (
            self.16.encoding() + (
            self.17.encoding() + rest)))))))))))))),
        )
        &&& self.3.counts_fit(
            self.4.encoding() + (
            self.5.encoding() + (
            self.6.encoding() + (
            self.7.encoding() + (
            self.8.encoding() + (
            self.9.encoding() + (
            self.10.encoding() + (
            self.11.encoding() + (
            self.12.encoding() + (
            self.13.encoding() + (
            self.14.encoding() + (
            self.15.encoding() + (
            self.16.encoding() + (
            self.17.encoding() + rest))))))))))))),
        )
        &&& self.4.counts_fit(
            self.5.encoding() + (
            self.6.encoding() + (
            self.7.encoding() + (
            self.8.encoding() + (
            self.9.encoding() + (
            self.10.encoding() + (
            self.11.encoding() + (
            self.12.encoding() + (
            self.13.encoding() + (
            self.14.encoding() + (
            self.15.encoding() + (
            self.16.encoding() + (
            self.17.encoding() + rest)))))))))))),
        )
        &&& self.5.counts_fit(
            self.6.encoding() + (
            self.7.encoding() + (
            self.8.encoding() + (
            self.9.encoding() + (
            self.10.encoding() + (
            self.11.encoding() + (
            self.12.encoding() + (
            self.13.encoding() + (
            self.14.encoding() + (
            self.15.encoding() + (
            self.16.encoding() + (
            self.17.encoding() + rest))))))))))),
        )
        &&& self.6.counts_fit(
            self.7.encoding() + (
            self.8.encoding() + (
            self.9.encoding() + (
            self.10.encoding() + (
            self.11.encoding() + (
            self.12.encoding() + (
            self.13.encoding() + (
            self.14.encoding() + (
            self.15.encoding() + (
            self.16.encoding() + (
            self.17.encoding() + rest)))))))))),
        )
        &&& self.7.counts_fit(
            self.8.encoding() + (
            self.9.encoding() + (
            self.10.encoding() + (
            self.11.encoding() + (
            self.12.encoding() + (
            self.13.encoding() + (
            self.14.encoding() + (
            self.15.encoding() + (
            self.16.encoding() + (
            self.17.encoding() + rest))))))))),
        )
        &&& self.8.counts_fit(
            self.9.encoding() + (
            self.10.encoding() + (
            self.11.encoding() + (
            self.12.encoding() + (
            self.13.encoding() + (
            self.14.encoding() + (
            self.15.encoding() + (
            self.16.encoding() + (
            self.17.encoding() + rest)))))))),
        )
        &&& self.9.counts_fit(
            self.10.encoding() + (
            self.11.encoding() + (
            self.12.encoding() + (
            self.13.encoding() + (
            self.14.encoding() + (
            self.15.encoding() + (
            self.16.encoding() + (
            self.17.encoding() + rest))))))),
        )
        &&& self.10.counts_fit(
            self.11.encoding() + (
            self.12.encoding() + (
            self.13.encoding() + (
            self.14.encoding() + (
            self.15.encoding() + (
            self.16.encoding() + (
            self.17.encoding() + rest)))))),
        )
        &&& self.11.counts_fit(
            self.12.encoding() + (
            self.13.encoding() + (
            self.14.encoding() + (
            self.15.encoding() + (
            self.16.encoding() + (
            self.17.encoding() + rest))))),
        )
        &&& self.12.counts_fit(
            self.13.encoding() + (
            self.14.encoding() + (
            self.15.encoding() + (
            self.16.encoding() + (
            self.17.encoding() + rest)))),
        )
        &&& self.13.counts_fit(
            self.14.encoding() + (
            self.15.encoding() + (
            self.16.encoding() + (
            self.17.encoding() + rest))),
        )
        &&& self.14.counts_fit(
            self.15.encoding() + (
            self.16.encoding() + (
            self.17.encoding() + rest)),
        )
        &&& self.15.counts_fit(self.16.encoding() + (self.17.encoding() + rest))
        &&& self.16.counts_fit(self.17.encoding() + rest)
        &&& self.17.counts_fit(rest)
    }

    proof fn lemma_round_trip(&self, rest: Seq<u8>) {
        let front = (
            self.0,
            self.1,
            self.2,
            self.3,
            self.4,
            self.5,
            self.6,
            self.7,
            self.8,
            self.9,
            self.10,
            self.11,
            self.12,
            self.13,
            self.14,
            self.15,
            self.16,
        );
        front.lemma_round_trip(self.17.encoding() + rest);
        self.17.lemma_round_trip(rest);
        assert(self.encoding() + rest =~= front.encoding() + (self.17.encoding() + rest));
    }
}

impl<
    A: Store,
    B: Store,
    C: Store,
    D: Store,
    E: Store,
    F: Store,
    G: Store,
    H: Store,
    I: Store,
    J: Store,
    K: Store,
    L: Store,
    M: Store,
    N: Store,
    O: Store,
    P: Store,
    Q: Store,
    R: Store,
    S: Store,
> Store for (A, B, C, D, E, F, G, H, I, J, K, L, M, N, O, P, Q, R, S) {
    type Model = (
        A::Model,
        B::Model,
        C::Model,
        D::Model,
        E::Model,
        F::Model,
        G::Model,
        H::Model,
        I::Model,
        J::Model,
        K::Model,
        L::Model,
        M::Model,
        N::Model,
        O::Model,
        P::Model,
        Q::Model,
        R::Model,
        S::Model,
    );

    open spec fn obeys_store_spec() -> bool {
        &&& A::obeys_store_spec()
        &&& B::obeys_store_spec()
        &&& C::obeys_store_spec()
        &&& D::obeys_store_spec()
        &&& E::obeys_store_spec()
        &&& F::obeys_store_spec()
        &&& G::obeys_store_spec()
        &&& H::obeys_store_spec()
        &&& I::obeys_store_spec()
        &&& J::obeys_store_spec()
        &&& K::obeys_store_spec()
        &&& L::obeys_store_spec()
        &&& M::obeys_store_spec()
        &&& N::obeys_store_spec()
        &&& O::obeys_store_spec()
        &&& P::obeys_store_spec()
        &&& Q::obeys_store_spec()
        &&& R::obeys_store_spec()
        &&& S::obeys_store_spec()
    }

    open spec fn model(&self) -> (
        A::Model,
        B::Model,
        C::Model,
        D::Model,
        E::Model,
        F::Model,
        G::Model,
        H::Model,
        I::Model,
        J::Model,
        K::Model,
        L::Model,
        M::Model,
        N::Model,
        O::Model,
        P::Model,
        Q::Model,
        R::Model,
        S::Model,
    ) {
        (
            self.0.model(),
            self.1.model(),
            self.2.model(),
            self.3.model(),
            self.4.model(),
            self.5.model(),
            self.6.model(),
            self.7.model(),
            self.8.model(),
            self.9.model(),
            self.10.model(),
            self.11.model(),
            self.12.model(),
            self.13.model(),
            self.14.model(),
            self.15.model(),
            self.16.model(),
            self.17.model(),
            self.18.model(),
        )
    }

    open spec fn encoding(&self) -> Seq<u8> {
        self.0.encoding()
            + self.1.encoding()
            + self.2.encoding()
            + self.3.encoding()
            + self.4.encoding()
            + self.5.encoding()
            + self.6.encoding()
            + self.7.encoding()
            + self.8.encoding()
            + self.9.encoding()
            + self.10.encoding()
            + self.11.encoding()
            + self.12.encoding()
            + self.13.encoding()
            + self.14.encoding()
            + self.15.encoding()
            + self.16.encoding()
            + self.17.encoding()
            + self.18.encoding()
    }

    open spec fn parse(bytes: Seq<u8>) -> (
        (
            A::Model,
            B::Model,
            C::Model,
            D::Model,
            E::Model,
            F::Model,
            G::Model,
            H::Model,
            I::Model,
            J::Model,
            K::Model,
            L::Model,
            M::Model,
            N::Model,
            O::Model,
            P::Model,
            Q::Model,
            R::Model,
            S::Model,
        ),
        Seq<u8>,
    ) {
        let (a, bytes) = A::parse(bytes);
        let (b, bytes) = B::parse(bytes);
        let (c, bytes) = C::parse(bytes);
        let (d, bytes) = D::parse(bytes);
        let (e, bytes) = E::parse(bytes);
        let (f, bytes) = F::parse(bytes);
        let (g, bytes) = G::parse(bytes);
        let (h, bytes) = H::parse(bytes);
        let (i, bytes) = I::parse(bytes);
        let (j, bytes) = J::parse(bytes);
        let (k, bytes) = K::parse(bytes);
        let (l, bytes) = L::parse(bytes);
        let (m, bytes) = M::parse(bytes);
        let (n, bytes) = N::parse(bytes);
        let (o, bytes) = O::parse(bytes);
        let (p, bytes) = P::parse(bytes);
        let (q, bytes) = Q::parse(bytes);
        let (r, bytes) = R::parse(bytes);
        let (s, bytes) = S::parse(bytes);
        ((a, b, c, d, e, f, g, h, i, j, k, l, m, n, o, p, q, r, s), bytes)
    }

    fn store(&self, queue: &mut ByteQue) {
        self.0.store(queue);
        self.1.store(queue);
        self.2.store(queue);
        self.3.store(queue);
        self.4.store(queue);
        self.5.store(queue);
        self.6.store(queue);
        self.7.store(queue);
        self.8.store(queue);
        self.9.store(queue);
        self.10.store(queue);
        self.11.store(queue);
        self.12.store(queue);
        self.13.store(queue);
        self.14.store(queue);
        self.15.store(queue);
        self.16.store(queue);
        self.17.store(queue);
        self.18.store(queue);
        assert(Self::obeys_store_spec() ==> queue@ =~= old(queue)@ + self.encoding());
    }

    fn restore(queue: &mut ByteQue) -> (r: Self) {
        let a = A::restore(queue);
        let b = B::restore(queue);
        let c = C::restore(queue);
        let d = D::restore(queue);
        let e = E::restore(queue);
        let f = F::restore(queue);
        let g = G::restore(queue);
        let h = H::restore(queue);
        let i = I::restore(queue);
        let j = J::restore(queue);
        let k = K::restore(queue);
        let l = L::restore(queue);
        let m = M::restore(queue);
        let n = N::restore(queue);
        let o = O::restore(queue);
        let p = P::restore(queue);
        let q = Q::restore(queue);
        let r = R::restore(queue);
        let s = S::restore(queue);
        (a, b, c, d, e, f, g, h, i, j, k, l, m, n, o, p, q, r, s)
    }
}

impl<
    A: RoundTrip,
    B: RoundTrip,
    C: RoundTrip,
    D: RoundTrip,
    E: RoundTrip,
    F: RoundTrip,
    G: RoundTrip,
    H: RoundTrip,
    I: RoundTrip,
    J: RoundTrip,
    K: RoundTrip,
    L: RoundTrip,
    M: RoundTrip,
    N: RoundTrip,
    O: RoundTrip,
    P: RoundTrip,
    Q: RoundTrip,
    R: RoundTrip,
    S: RoundTrip,
> RoundTrip for (A, B, C, D, E, F, G, H, I, J, K, L, M, N, O, P, Q, R, S) {
    open spec fn counts_fit(&self, rest: Seq<u8>) -> bool {
        &&& self.0.counts_fit(
            self.1.encoding() + (
            self.2.encoding() + (
            self.3.encoding() + (
            self.4.encoding() + (
            self.5.encoding() + (
            self.6.encoding() + (
            self.7.encoding() + (
            self.8.encoding() + (
            self.9.encoding() + (
            self.10.encoding() + (
            self.11.encoding() + (
            self.12.encoding() + (
            self.13.encoding() + (
            self.14.encoding() + (
            self.15.encoding() + (
            self.16.encoding() + (
            self.17.encoding() + (
            self.18.encoding() + rest))))))))))))))))),
        )
        &&& self.1.counts_fit(
            self.2.encoding() + (
            self.3.encoding() + (
            self.4.encoding() + (
            self.5.encoding() + (
            self.6.encoding() + (
            self.7.encoding() + (
            self.8.encoding() + (
            self.9.encoding() + (
            self.10.encoding() + (
            self.11.encoding() + (
            self.12.encoding() + (
            self.13.encoding() + (
            self.14.encoding() + (
            self.15.encoding() + (
            self.16.encoding() + (
            self.17.encoding() + (
            self.18.encoding() + rest)))))))))))))))),
        )
        &&& self.2.counts_fit(
            self.3.encoding() + (
            self.4.encoding() + (
            self.5.encoding() + (
            self.6.encoding() + (
            self.7.encoding() + (
            self.8.encoding() + (
            self.9.encoding() + (
            self.10.encoding() + (
            self.11.encoding() + (
            self.12.encoding() + (
            self.13.encoding() + (
            self.14.encoding() + (
            self.15.encoding() + (
            self.16.encoding() + (
            self.17.encoding() + (
            self.18.encoding() + rest))))))))))))))),
        )
        &&& self.3.counts_fit(
            self.4.encoding() + (
            self.5.encoding() + (
            self.6.encoding() + (
            self.7.encoding() + (
            self.8.encoding() + (
            self.9.encoding() + (
            self.10.encoding() + (
            self.11.encoding() + (
            self.12.encoding() + (
            self.13.encoding() + (
            self.14.encoding() + (
            self.15.encoding() + (
            self.16.encoding() + (
            self.17.encoding() + (
            self.18.encoding() + rest)))))))))))))),
        )
        &&& self.4.counts_fit(
            self.5.encoding() + (
            self.6.encoding() + (
            self.7.encoding() + (
            self.8.encoding() + (
            self.9.encoding() + (
            self.10.encoding() + (
            self.11.encoding() + (
            self.12.encoding() + (
            self.13.encoding() + (
            self.14.encoding() + (
            self.15.encoding() + (
            self.16.encoding() + (
            self.17.encoding() + (
            self.18.encoding() + rest))))))))))))),
        )
        &&& self.5.counts_fit(
            self.6.encoding() + (
            self.7.encoding() + (
            self.8.encoding() + (
            self.9.encoding() + (
            self.10.encoding() + (
            self.11.encoding() + (
            self.12.encoding() + (
            self.13.encoding() + (
            self.14.encoding() + (
            self.15.encoding() + (
            self.16.encoding() + (
            self.17.encoding() + (
            self.18.encoding() + rest)))))))))))),
        )
        &&& self.6.counts_fit(
            self.7.encoding() + (
            self.8.encoding() + (
            self.9.encoding() + (
            self.10.encoding() + (
            self.11.encoding() + (
            self.12.encoding() + (
            self.13.encoding() + (
            self.14.encoding() + (
            self.15.encoding() + (
            self.16.encoding() + (
            self.17.encoding() + (
            self.18.encoding() + rest))))))))))),
        )
        &&& self.7.counts_fit(
            self.8.encoding() + (
            self.9.encoding() + (
            self.10.encoding() + (
            self.11.encoding() + (
            self.12.encoding() + (
            self.13.encoding() + (
            self.14.encoding() + (
            self.15.encoding() + (
            self.16.encoding() + (
            self.17.encoding() + (
            self.18.encoding() + rest)))))))))),
        )
        &&& self.8.counts_fit(
            self.9.encoding() + (
            self.10.encoding() + (
            self.11.encoding() + (
            self.12.encoding() + (
            self.13.encoding() + (
            self.14.encoding() + (
            self.15.encoding() + (
            self.16.encoding() + (
            self.17.encoding() + (
            self.18.encoding() + rest))))))))),
        )
        &&& self.9.counts_fit(
            self.10.encoding() + (
            self.11.encoding() + (
            self.12.encoding() + (
            self.13.encoding() + (
            self.14.encoding() + (
            self.15.encoding() + (
            self.16.encoding() + (
            self.17.encoding() + (
            self.18.encoding() + rest)))))))),
        )
        &&& self.10.counts_fit(
            self.11.encoding() + (
            self.12.encoding() + (
            self.13.encoding() + (
            self.14.encoding() + (
            self.15.encoding() + (
            self.16.encoding() + (
            self.17.encoding() + (
            self.18.encoding() + rest))))))),
        )
        &&& self.11.counts_fit(
            self.12.encoding() + (
            self.13.encoding() + (
            self.14.encoding() + (
            self.15.encoding() + (
            self.16.encoding() + (
            self.17.encoding() + (
            self.18.encoding() + rest)))))),
        )
        &&& self.12.counts_fit(
            self.13.encoding() + (
            self.14.encoding() + (
            self.15.encoding() + (
            self.16.encoding() + (
            self.17.encoding() + (
            self.18.encoding() + rest))))),
        )
        &&& self.13.counts_fit(
            self.14.encoding() + (
            self.15.encoding() + (
            self.16.encoding() + (
            self.17.encoding() + (
            self.18.encoding() + rest)))),
        )
        &&& self.14.counts_fit(
            self.15.encoding() + (
            self.16.encoding() + (
            self.17.encoding() + (
            self.18.encoding() + rest))),
        )
        &&& self.15.counts_fit(
            self.16.encoding() + (
            self.17.encoding() + (
            self.18.encoding() + rest)),
        )
        &&& self.16.counts_fit(self.17.encoding() + (self.18.encoding() + rest))
        &&& self.17.counts_fit(self.18.encoding() + rest)
        &&& self.18.counts_fit(rest)
    }

    proof fn lemma_round_trip(&self, rest: Seq<u8>) {
        let front = (
            self.0,
            self.1,
            self.2,
            self.3,
            self.4,
            self.5,
            self.6,
            self.7,
            self.8,
            self.9,
            self.10,
            self.11,
            self.12,
            self.13,
            self.14,
            self.15,
            self.16,
            self.17,
        );
        front.lemma_round_trip(self.18.encoding() + rest);
        self.18.lemma_round_trip(rest);
        assert(self.encoding() + rest =~= front.encoding() + (self.18.encoding() + rest));
    }
}

impl<
    A: Store,
    B: Store,
    C: Store,
    D: Store,
    E: Store,
    F: Store,
    G: Store,
    H: Store,
    I: Store,
    J: Store,
    K: Store,
    L: Store,
    M: Store,
    N: Store,
    O: Store,
    P: Store,
    Q: Store,
    R: Store,
    S: Store,
    T: Store,
> Store for (A, B, C, D, E, F, G, H, I, J, K, L, M, N, O, P, Q, R, S, T) {
    type Model = (
        A::Model,
        B::Model,
        C::Model,
        D::Model,
        E::Model,
        F::Model,
        G::Model,
        H::Model,
        I::Model,
        J::Model,
        K::Model,
        L::Model,
        M::Model,
        N::Model,
        O::Model,
        P::Model,
        Q::Model,
        R::Model,
        S::Model,
        T::Model,
    );

    open spec fn obeys_store_spec() -> bool {
        &&& A::obeys_store_spec()
        &&& B::obeys_store_spec()
        &&& C::obeys_store_spec()
        &&& D::obeys_store_spec()
        &&& E::obeys_store_spec()
        &&& F::obeys_store_spec()
        &&& G::obeys_store_spec()
        &&& H::obeys_store_spec()
        &&& I::obeys_store_spec()
        &&& J::obeys_store_spec()
        &&& K::obeys_store_spec()
        &&& L::obeys_store_spec()
        &&& M::obeys_store_spec()
        &&& N::obeys_store_spec()
        &&& O::obeys_store_spec()
        &&& P::obeys_store_spec()
        &&& Q::obeys_store_spec()
        &&& R::obeys_store_spec()
        &&& S::obeys_store_spec()
        &&& T::obeys_store_spec()
    }

    open spec fn model(&self) -> (
        A::Model,
        B::Model,
        C::Model,
        D::Model,
        E::Model,
        F::Model,
        G::Model,
        H::Model,
        I::Model,
        J::Model,
        K::Model,
        L::Model,
        M::Model,
        N::Model,
        O::Model,
        P::Model,
        Q::Model,
        R::Model,
        S::Model,
        T::Model,
    ) {
        (
            self.0.model(),
            self.1.model(),
            self.2.model(),
            self.3.model(),
            self.4.model(),
            self.5.model(),
            self.6.model(),
            self.7.model(),
            self.8.model(),
            self.9.model(),
            self.10.model(),
            self.11.model(),
            self.12.model(),
            self.13.model(),
            self.14.model(),
            self.15.model(),
            self.16.model(),
            self.17.model(),
            self.18.model(),
            self.19.model(),
        )
    }

    open spec fn encoding(&self) -> Seq<u8> {
        self.0.encoding()
            + self.1.encoding()
            + self.2.encoding()
            + self.3.encoding()
            + self.4.encoding()
            + self.5.encoding()
            + self.6.encoding()
            + self.7.encoding()
            + self.8.encoding()
            + self.9.encoding()
            + self.10.encoding()
            + self.11.encoding()
            + self.12.encoding()
            + self.13.encoding()
            + self.14.encoding()
            + self.15.encoding()
            + self.16.encoding()
            + self.17.encoding()
            + self.18.encoding()
            + self.19.encoding()
    }

    open spec fn parse(bytes: Seq<u8>) -> (
        (
            A::Model,
            B::Model,
            C::Model,
            D::Model,
            E::Model,
            F::Model,
            G::Model,
            H::Model,
            I::Model,
            J::Model,
            K::Model,
            L::Model,
            M::Model,
            N::Model,
            O::Model,
            P::Model,
            Q::Model,
            R::Model,
            S::Model,
            T::Model,
        ),
        Seq<u8>,
    ) {
        let (a, bytes) = A::parse(bytes);
        let (b, bytes) = B::parse(bytes);
        let (c, bytes) = C::parse(bytes);
        let (d, bytes) = D::parse(bytes);
        let (e, bytes) = E::parse(bytes);
        let (f, bytes) = F::parse(bytes);
        let (g, bytes) = G::parse(bytes);
        let (h, bytes) = H::parse(bytes);
        let (i, bytes) = I::parse(bytes);
        let (j, bytes) = J::parse(bytes);
        let (k, bytes) = K::parse(bytes);
        let (l, bytes) = L::parse(bytes);
        let (m, bytes) = M::parse(bytes);
        let (n, bytes) = N::parse(bytes);
        let (o, bytes) = O::parse(bytes);
        let (p, bytes) = P::parse(bytes);
        let (q, bytes) = Q::parse(bytes);
        let (r, bytes) = R::parse(bytes);
        let (s, bytes) = S::parse(bytes);
        let (t, bytes) = T::parse(bytes);
        ((a, b, c, d, e, f, g, h, i, j, k, l, m, n, o, p, q, r, s, t), bytes)
    }

    fn store(&self, queue: &mut ByteQue) {
        self.0.store(queue);
        self.1.store(queue);
        self.2.store(queue);
        self.3.store(queue);
        self.4.store(queue);
        self.5.store(queue);
        self.6.store(queue);
        self.7.store(queue);
        self.8.store(queue);
        self.9.store(queue);
        self.10.store(queue);
        self.11.store(queue);
        self.12.store(queue);
        self.13.store(queue);
        self.14.store(queue);
        self.15.store(queue);
        self.16.store(queue);
        self.17.store(queue);
        self.18.store(queue);
        self.19.store(queue);
        assert(Self::obeys_store_spec() ==> queue@ =~= old(queue)@ + self.encoding());
    }

    fn restore(queue: &mut ByteQue) -> (r: Self) {
        let a = A::restore(queue);
        let b = B::restore(queue);
        let c = C::restore(queue);
        let d = D::restore(queue);
        let e = E::restore(queue);
        let f = F::restore(queue);
        let g = G::restore(queue);
        let h = H::restore(queue);
        let i = I::restore(queue);
        let j = J::restore(queue);
        let k = K::restore(queue);
        let l = L::restore(queue);
        let m = M::restore(queue);
        let n = N::restore(queue);
        let o = O::restore(queue);
        let p = P::restore(queue);
        let q = Q::restore(queue);
        let r = R::restore(queue);
        let s = S::restore(queue);
        let t = T::restore(queue);
        (a, b, c, d, e, f, g, h, i, j, k, l, m, n, o, p, q, r, s, t)
    }
}

impl<
    A: RoundTrip,
    B: RoundTrip,
    C: RoundTrip,
    D: RoundTrip,
    E: RoundTrip,
    F: RoundTrip,
    G: RoundTrip,
    H: RoundTrip,
    I: RoundTrip,
    J: RoundTrip,
    K: RoundTrip,
    L: RoundTrip,
    M: RoundTrip,
    N: RoundTrip,
    O: RoundTrip,
    P: RoundTrip,
    Q: RoundTrip,
    R: RoundTrip,
    S: RoundTrip,
    T: RoundTrip,
> RoundTrip for (A, B, C, D, E, F, G, H, I, J, K, L, M, N, O, P, Q, R, S, T) {
    open spec fn counts_fit(&self, rest: Seq<u8>) -> bool {
        &&& self.0.counts_fit(
            self.1.encoding() + (
            self.2.encoding() + (
            self.3.encoding() + (
            self.4.encoding() + (
            self.5.encoding() + (
            self.6.encoding() + (
            self.7.encoding() + (
            self.8.encoding() + (
            self.9.encoding() + (
            self.10.encoding() + (
            self.11.encoding() + (
            self.12.encoding() + (
            self.13.encoding() + (
            self.14.encoding() + (
            self.15.encoding() + (
            self.16.encoding() + (
            self.17.encoding() + (
            self.18.encoding() + (
            self.19.encoding() + rest)))))))))))))))))),
        )
        &&& self.1.counts_fit(
            self.2.encoding() + (
            self.3.encoding() + (
            self.4.encoding() + (
            self.5.encoding() + (
            self.6.encoding() + (
            self.7.encoding() + (
            self.8.encoding() + (
            self.9.encoding() + (
            self.10.encoding() + (
            self.11.encoding() + (
            self.12.encoding() + (
            self.13.encoding() + (
            self.14.encoding() + (
            self.15.encoding() + (
            self.16.encoding() + (
            self.17.encoding() + (
            self.18.encoding() + (
            self.19.encoding() + rest))))))))))))))))),
        )
        &&& self.2.counts_fit(
            self.3.encoding() + (
            self.4.encoding() + (
            self.5.encoding() + (
            self.6.encoding() + (
            self.7.encoding() + (
            self.8.encoding() + (
            self.9.encoding() + (
            self.10.encoding() + (
            self.11.encoding() + (
            self.12.encoding() + (
            self.13.encoding() + (
            self.14.encoding() + (
            self.15.encoding() + (
            self.16.encoding() + (
            self.17.encoding() + (
            self.18.encoding() + (
            self.19.encoding() + rest)))))))))))))))),
        )
        &&& self.3.counts_fit(
            self.4.encoding() + (
            self.5.encoding() + (
            self.6.encoding() + (
            self.7.encoding() + (
            self.8.encoding() + (
            self.9.encoding() + (
            self.10.encoding() + (
            self.11.encoding() + (
            self.12.encoding() + (
            self.13.encoding() + (
            self.14.encoding() + (
            self.15.encoding() + (
            self.16.encoding() + (
            self.17.encoding() + (
            self.18.encoding() + (
            self.19.encoding() + rest))))))))))))))),
        )
        &&& self.4.counts_fit(
            self.5.encoding() + (
            self.6.encoding() + (
            self.7.encoding() + (
            self.8.encoding() + (
            self.9.encoding() + (
            self.10.encoding() + (
            self.11.encoding() + (
            self.12.encoding() + (
            self.13.encoding() + (
            self.14.encoding() + (
            self.15.encoding() + (
            self.16.encoding() + (
            self.17.encoding() + (
            self.18.encoding() + (
            self.19.encoding() + rest)))))))))))))),
        )
        &&& self.5.counts_fit(
            self.6.encoding() + (
            self.7.encoding() + (
            self.8.encoding() + (
            self.9.encoding() + (
            self.10.encoding() + (
            self.11.encoding() + (
            self.12.encoding() + (
            self.13.encoding() + (
            self.14.encoding() + (
            self.15.encoding() + (
            self.16.encoding() + (
            self.17.encoding() + (
            self.18.encoding() + (
            self.19.encoding() + rest))))))))))))),
        )
        &&& self.6.counts_fit(
            self.7.encoding() + (
            self.8.encoding() + (
            self.9.encoding() + (
            self.10.encoding() + (
            self.11.encoding() + (
            self.12.encoding() + (
            self.13.encoding() + (
            self.14.encoding() + (
            self.15.encoding() + (
            self.16.encoding() + (
            self.17.encoding() + (
            self.18.encoding() + (
            self.19.encoding() + rest)))))))))))),
        )
        &&& self.7.counts_fit(
            self.8.encoding() + (
            self.9.encoding() + (
            self.10.encoding() + (
            self.11.encoding() + (
            self.12.encoding() + (
            self.13.encoding() + (
            self.14.encoding() + (
            self.15.encoding() + (
            self.16.encoding() + (
            self.17.encoding() + (
            self.18.encoding() + (
            self.19.encoding() + rest))))))))))),
        )
        &&& self.8.counts_fit(
            self.9.encoding() + (
            self.10.encoding() + (
            self.11.encoding() + (
            self.12.encoding() + (
            self.13.encoding() + (
            self.14.encoding() + (
            self.15.encoding() + (
            self.16.encoding() + (
            self.17.encoding() + (
            self.18.encoding() + (
            self.19.encoding() + rest)))))))))),
        )
        &&& self.9.counts_fit(
            self.10.encoding() + (
            self.11.encoding() + (
            self.12.encoding() + (
            self.13.encoding() + (
            self.14.encoding() + (
            self.15.encoding() + (
            self.16.encoding() + (
            self.17.encoding() + (
            self.18.encoding() + (
            self.19.encoding() + rest))))))))),
        )
        &&& self.10.counts_fit(
            self.11.encoding() + (
            self.12.encoding() + (
            self.13.encoding() + (
            self.14.encoding() + (
            self.15.encoding() + (
            self.16.encoding() + (
            self.17.encoding() + (
            self.18.encoding() + (
            self.19.encoding() + rest)))))))),
        )
        &&& self.11.counts_fit(
            self.12.encoding() + (
            self.13.encoding() + (
            self.14.encoding() + (
            self.15.encoding() + (
            self.16.encoding() + (
            self.17.encoding() + (
            self.18.encoding() + (
            self.19.encoding() + rest))))))),
        )
        &&& self.12.counts_fit(
            self.13.encoding() + (
            self.14.encoding() + (
            self.15.encoding() + (
            self.16.encoding() + (
            self.17.encoding() + (
            self.18.encoding() + (
            self.19.encoding() + rest)))))),
        )
        &&& self.13.counts_fit(
            self.14.encoding() + (
            self.15.encoding() + (
            self.16.encoding() + (
            self.17.encoding() + (
            self.18.encoding() + (
            self.19.encoding() + rest))))),
        )
        &&& self.14.counts_fit(
            self.15.encoding() + (
            self.16.encoding() + (
            self.17.encoding() + (
            self.18.encoding() + (
            self.19.encoding() + rest)))),
        )
        &&& self.15.counts_fit(
            self.16.encoding() + (
            self.17.encoding() + (
            self.18.encoding() + (
            self.19.encoding() + rest))),
        )
        &&& self.16.counts_fit(
            self.17.encoding() + (
            self.18.encoding() + (
            self.19.encoding() + rest)),
        )
        &&& self.17.counts_fit(self.18.encoding() + (self.19.encoding() + rest))
        &&& self.18.counts_fit(self.19.encoding() + rest)
        &&& self.19.counts_fit(rest)
    }

    proof fn lemma_round_trip(&self, rest: Seq<u8>) {
        let front = (
            self.0,
            self.1,
            self.2,
            self.3,
            self.4,
            self.5,
            self.6,
            self.7,
            self.8,
            self.9,
            self.10,
            self.11,
            self.12,
            self.13,
            self.14,
            self.15,
            self.16,
            self.17,
            self.18,
        );
        front.lemma_round_trip(self.19.encoding() + rest);
        self.19.lemma_round_trip(rest);
        assert(self.encoding() + rest =~= front.encoding() + (self.19.encoding() + rest));
    }
}

} // verus!
