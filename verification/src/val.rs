//! The byte queue that every encoder appends to and every decoder consumes.

use vstd::prelude::*;
use vstd::std_specs::convert::FromSpecImpl;

verus! {

/// `n` zero bytes: what a read past the end of a queue yields.
pub open spec fn zeros(n: nat) -> Seq<u8> {
    Seq::new(n, |i: int| 0u8)
}

/// The first `n` bytes of `s`, padded with zeros where `s` is shorter.
pub open spec fn front(s: Seq<u8>, n: nat) -> Seq<u8> {
    if n <= s.len() {
        s.take(n as int)
    } else {
        s + zeros((n - s.len()) as nat)
    }
}

/// What is left of `s` once `n` bytes were read from its front.
pub open spec fn after(s: Seq<u8>, n: nat) -> Seq<u8> {
    if n <= s.len() {
        s.skip(n as int)
    } else {
        Seq::empty()
    }
}

/// A queue of bytes: values are appended at the tail and consumed from the
/// head. Its view is the sequence of bytes not yet consumed.
#[derive(Debug)]
pub struct ByteQue {
    buf: Vec<u8>,
    head: usize,
}

impl View for ByteQue {
    type V = Seq<u8>;

    closed spec fn view(&self) -> Seq<u8> {
        self.buf@.skip(self.head as int)
    }
}

/// Moves the bytes from `head` on to the front of `buf` and drops the rest.
pub(crate) fn compact(buf: &mut Vec<u8>, head: usize)
    requires
        head <= old(buf).len(),
    ensures
        final(buf)@ == old(buf)@.skip(head as int),
{
    let count = buf.len() - head;
    if head != 0 {
        let mut i: usize = 0;
        while i < count
            invariant
                count == old(buf).len() - head,
                buf.len() == old(buf).len(),
                i <= count,
                forall|k: int| 0 <= k < i ==> buf@[k] == old(buf)@[head + k],
                forall|k: int| i + head <= k < buf.len() ==> buf@[k] == old(buf)@[k],
            decreases count - i,
        {
            let b = buf[head + i];
            buf[i] = b;
            i += 1;
        }
        buf.truncate(count);
    }
    assert(buf@ =~= old(buf)@.skip(head as int));
}

impl ByteQue {
    #[verifier::type_invariant]
    spec fn inv(self) -> bool {
        self.head <= self.buf.len()
    }

    /// The number of consumed bytes that the queue still keeps in front of
    /// its content; `reserve` drops them.
    pub closed spec fn consumed(&self) -> nat {
        self.head as nat
    }

    /// What `reserve` leaves of a kept prefix of `consumed` bytes in front
    /// of `len` bytes of content: nothing where the prefix is at least as
    /// long as the content, else all of it.
    pub open spec fn kept(consumed: nat, len: nat) -> nat {
        if len <= consumed {
            0
        } else {
            consumed
        }
    }

    /// Moves the storage out, leaving the queue empty.
    fn take(&mut self) -> (parts: (Vec<u8>, usize))
        ensures
            parts.1 <= parts.0.len(),
            parts.1 == old(self).consumed(),
            parts.0@.skip(parts.1 as int) == old(self)@,
            final(self)@ == Seq::<u8>::empty(),
    {
        proof {
            use_type_invariant(&*self);
        }
        let head = self.head;
        self.head = 0;
        let mut buf = Vec::new();
        core::mem::swap(&mut self.buf, &mut buf);
        (buf, head)
    }

    /// Installs `buf` as the storage, with the bytes before `head` consumed.
    fn put(&mut self, buf: Vec<u8>, head: usize)
        requires
            head <= buf.len(),
        ensures
            final(self)@ == buf@.skip(head as int),
            final(self).buf@ == buf@,
            final(self).head == head,
    {
        let mut buf = buf;
        self.head = 0;
        core::mem::swap(&mut self.buf, &mut buf);
        self.head = head;
    }

    /// An empty queue.
    pub fn new() -> (q: Self)
        ensures
            q@ == Seq::<u8>::empty(),
            q.consumed() == 0,
    {
        ByteQue { buf: Vec::new(), head: 0 }
    }

    /// An empty queue with room for `capacity` bytes, where the allocator
    /// grants it.
    pub fn with_capacity(capacity: usize) -> (q: Self)
        ensures
            q@ == Seq::<u8>::empty(),
            q.consumed() == 0,
    {
        let mut buf: Vec<u8> = Vec::new();
        let _ = buf.try_reserve(capacity);
        ByteQue { buf, head: 0 }
    }

    /// Makes room for `len` more bytes. The consumed prefix is dropped when
    /// it is at least as long as what is left; the content stays the same.
    pub fn reserve(&mut self, len: usize)
        ensures
            final(self)@ == old(self)@,
            final(self).consumed() == Self::kept(old(self).consumed(), old(self)@.len()),
    {
        let (mut buf, mut head) = self.take();
        let count = buf.len() - head;
        if count <= head {
            compact(&mut buf, head);
            head = 0;
        }
        let _ = buf.try_reserve(len);
        self.put(buf, head);
    }

    /// Appends one byte at the tail, after making room for it.
    pub fn push(&mut self, value: u8)
        ensures
            final(self)@ == old(self)@.push(value),
            final(self).consumed() == Self::kept(old(self).consumed(), old(self)@.len()),
    {
        self.reserve(1);
        let (mut buf, head) = self.take();
        buf.push(value);
        assert(buf@.skip(head as int) =~= old(self)@.push(value));
        self.put(buf, head);
    }

    /// Removes the byte at the head; an empty queue yields zero and stays
    /// empty.
    pub fn pop(&mut self) -> (b: u8)
        ensures
            b == front(old(self)@, 1)[0],
            final(self)@ == after(old(self)@, 1),
            final(self).consumed() == old(self).consumed() + old(self)@.len() - final(self)@.len(),
    {
        proof {
            use_type_invariant(&*self);
        }
        if self.buf.len() - self.head == 0 {
            assert(self@ =~= after(self@, 1));
            0
        } else {
            let x = self.head;
            self.head += 1;
            self.buf[x]
        }
    }

    /// Appends all of `value` at the tail, after making room for it.
    pub fn push_slice(&mut self, value: &[u8])
        ensures
            final(self)@ == old(self)@ + value@,
            final(self).consumed() == Self::kept(old(self).consumed(), old(self)@.len()),
    {
        self.reserve(value.len());
        let (mut buf, head) = self.take();
        buf.extend_from_slice(value);
        assert(buf@.skip(head as int) =~= old(self)@ + value@);
        self.put(buf, head);
    }

    /// Removes `len` bytes from the head and lends them out. Where the
    /// queue holds fewer, the missing ones read as zero and the queue ends
    /// empty; the bytes lent are then all that the queue keeps, so that
    /// many must fit in one allocation.
    pub fn pop_slice(&mut self, len: usize) -> (out: &[u8])
        requires
            len > old(self)@.len() ==> len <= isize::MAX,
        ensures
            out@ == front(old(self)@, len as nat),
            final(self)@ == after(old(self)@, len as nat),
            final(self).consumed() == if len <= old(self)@.len() {
                old(self).consumed() + len
            } else {
                len as int
            },
    {
        let (mut buf, mut head) = self.take();
        let count = buf.len() - head;
        if count < len {
            compact(&mut buf, head);
            head = 0;
            buf.resize(len, 0);
            assert(buf@ =~= front(old(self)@, len as nat));
        }
        let x = head;
        head = head + len;
        assert(buf@.subrange(x as int, head as int) =~= front(old(self)@, len as nat));
        assert(buf@.skip(head as int) =~= after(old(self)@, len as nat));
        self.put(buf, head);
        vstd::slice::slice_subrange(self.buf.as_slice(), x, head)
    }

    /// The number of bytes not yet consumed.
    pub fn len(&self) -> (n: usize)
        ensures
            n == self@.len(),
    {
        proof {
            use_type_invariant(self);
        }
        self.buf.len() - self.head
    }
}

impl From<Vec<u8>> for ByteQue {
    /// A queue that holds the bytes of `other`, first byte at the head.
    fn from(other: Vec<u8>) -> (q: Self)
        ensures
            q@ == other@,
            q.consumed() == 0,
    {
        ByteQue { buf: other, head: 0 }
    }
}

impl FromSpecImpl<Vec<u8>> for ByteQue {
    open spec fn obeys_from_spec() -> bool {
        false
    }

    open spec fn from_spec(v: Vec<u8>) -> Self {
        arbitrary()
    }
}

impl From<ByteQue> for Vec<u8> {
    /// The bytes not yet consumed, in order.
    fn from(other: ByteQue) -> (v: Self)
        ensures
            v@ == other@,
    {
        let mut other = other;
        let (mut buf, head) = other.take();
        compact(&mut buf, head);
        buf
    }
}

impl FromSpecImpl<ByteQue> for Vec<u8> {
    open spec fn obeys_from_spec() -> bool {
        false
    }

    open spec fn from_spec(v: ByteQue) -> Self {
        arbitrary()
    }
}

} // verus!
