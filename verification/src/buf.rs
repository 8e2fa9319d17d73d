//! Frames: a payload behind its length. A receiver is fed whatever a read
//! returns and tells when the frame is whole.

use vstd::prelude::*;
use vstd::slice::slice_subrange;
use vstd::std_specs::convert::FromSpecImpl;
use crate::val::{compact, ByteQue};
use crate::varint::{
    lemma_size_prefix,
    lemma_varint_round_trip,
    lemma_width_bounds,
    scan_varint,
    varint_encoding,
    varint_value,
    varint_width,
    write_varint,
};

verus! {

/// What a receiver holds. While the length is not known, `bytes` are the
/// groups of the length read so far; once it is, they are the payload.
pub struct Frame {
    pub size: Option<usize>,
    pub bytes: Seq<u8>,
}

impl Frame {
    /// A receiver that has been fed nothing.
    pub open spec fn start() -> Frame {
        Frame { size: None, bytes: Seq::empty() }
    }

    /// The payload is no longer than the length says; while the length is
    /// not known, its last group has not come.
    pub open spec fn wf(self) -> bool {
        match self.size {
            Some(s) => self.bytes.len() <= s,
            None => varint_width(self.bytes) > self.bytes.len(),
        }
    }

    /// Whether the whole payload is there.
    pub open spec fn complete(self) -> bool {
        self.size == Some(self.bytes.len() as usize)
    }

    /// The state after `chunk` has come. Bytes beyond the length are
    /// dropped.
    pub open spec fn feed(self, chunk: Seq<u8>) -> Frame {
        match self.size {
            Some(s) => {
                if s > self.bytes.len() {
                    Frame {
                        size: self.size,
                        bytes: self.bytes + cut(chunk, (s - self.bytes.len()) as nat),
                    }
                } else {
                    self
                }
            },
            None => {
                let all = self.bytes + chunk;
                let width = varint_width(all);
                if width <= all.len() {
                    let s = varint_value(all) as usize;
                    Frame { size: Some(s), bytes: cut(all.skip(width as int), s as nat) }
                } else {
                    Frame { size: None, bytes: all }
                }
            },
        }
    }

    /// The state after each of `chunks` has come, in order.
    pub open spec fn feed_all(self, chunks: Seq<Seq<u8>>) -> Frame
        decreases chunks.len(),
    {
        if chunks.len() == 0 {
            self
        } else {
            self.feed(chunks[0]).feed_all(chunks.skip(1))
        }
    }
}

/// At most the first `n` bytes of `s`.
pub open spec fn cut(s: Seq<u8>, n: nat) -> Seq<u8> {
    if n < s.len() {
        s.take(n as int)
    } else {
        s
    }
}

/// The bytes of `chunks`, one chunk after the other.
pub open spec fn joined(chunks: Seq<Seq<u8>>) -> Seq<u8>
    decreases chunks.len(),
{
    if chunks.len() == 0 {
        Seq::empty()
    } else {
        chunks[0] + joined(chunks.skip(1))
    }
}

/// Feeding keeps a state well-formed.
pub proof fn lemma_feed_wf(st: Frame, chunk: Seq<u8>)
    requires
        st.wf(),
    ensures
        st.feed(chunk).wf(),
{
}

/// Two chunks fed one after the other leave what the two leave when they
/// come as one.
pub proof fn lemma_feed_split(st: Frame, a: Seq<u8>, b: Seq<u8>)
    requires
        st.wf(),
    ensures
        st.feed(a).feed(b) == st.feed(a + b),
{
    match st.size {
        Some(s) => {
            if s > st.bytes.len() {
                let room = (s - st.bytes.len()) as nat;
                assert(st.feed(a).feed(b).bytes =~= st.feed(a + b).bytes);
            }
        },
        None => {
            let all = st.bytes + a;
            assert(all + b =~= st.bytes + (a + b));
            if varint_width(all) <= all.len() {
                lemma_size_prefix(all, b, 0);
                let width = varint_width(all);
                assert((all + b).skip(width as int) =~= all.skip(width as int) + b);
                assert(st.feed(a).feed(b).bytes =~= st.feed(a + b).bytes);
            }
        },
    }
}

/// However the bytes of a stream are split into chunks, feeding the chunks
/// in order leaves what feeding the whole stream at once leaves.
pub proof fn lemma_feed_chunks(st: Frame, chunks: Seq<Seq<u8>>)
    requires
        st.wf(),
    ensures
        st.feed_all(chunks) == st.feed(joined(chunks)),
    decreases chunks.len(),
{
    if chunks.len() == 0 {
        lemma_feed_nothing(st);
    } else {
        lemma_feed_wf(st, chunks[0]);
        lemma_feed_chunks(st.feed(chunks[0]), chunks.skip(1));
        lemma_feed_split(st, chunks[0], joined(chunks.skip(1)));
    }
}

/// An empty chunk changes nothing.
pub proof fn lemma_feed_nothing(st: Frame)
    requires
        st.wf(),
    ensures
        st.feed(Seq::empty()) == st,
{
    match st.size {
        Some(s) => {
            assert(st.bytes + cut(Seq::empty(), (s - st.bytes.len()) as nat) =~= st.bytes);
        },
        None => {
            assert(st.bytes + Seq::<u8>::empty() =~= st.bytes);
        },
    }
}

/// A receiver that is fed a frame, whole, holds the frame's payload and is
/// complete.
pub proof fn lemma_frame_round_trip(payload: Seq<u8>)
    requires
        payload.len() <= usize::MAX,
    ensures
        Frame::start().feed(frame_of(payload)) == (Frame {
            size: Some(payload.len() as usize),
            bytes: payload,
        }),
        Frame::start().feed(frame_of(payload)).complete(),
{
    let head = varint_encoding(payload.len() as u64);
    lemma_varint_round_trip(payload.len() as u64, payload);
    assert(Seq::<u8>::empty() + frame_of(payload) =~= head + payload);
    assert((head + payload).skip(head.len() as int) =~= payload);
}

/// The frame that carries `payload`: its length, then the payload.
pub open spec fn frame_of(payload: Seq<u8>) -> Seq<u8> {
    varint_encoding(payload.len() as u64) + payload
}

/// Puts a frame together again from the chunks in which it arrives.
#[derive(Debug)]
pub struct RecvBuf {
    buf: Vec<u8>,
    size: Option<usize>,
}

impl View for RecvBuf {
    type V = Frame;

    closed spec fn view(&self) -> Frame {
        Frame { size: self.size, bytes: self.buf@ }
    }
}

impl RecvBuf {
    #[verifier::type_invariant]
    spec fn inv(self) -> bool {
        self@.wf()
    }

    /// A receiver that has been fed nothing.
    pub fn new() -> (r: Self)
        ensures
            r@ == Frame::start(),
    {
        proof {
            lemma_width_bounds(Seq::empty(), 0);
        }
        RecvBuf { buf: Vec::new(), size: None }
    }

    /// Moves the bytes out, leaving none.
    fn take(&mut self) -> (buf: Vec<u8>)
        ensures
            buf@ == old(self)@.bytes,
            final(self).size == old(self).size,
            final(self).buf@.len() == 0,
            old(self)@.wf(),
    {
        proof {
            use_type_invariant(&*self);
            lemma_width_bounds(Seq::empty(), 0);
        }
        let mut buf = Vec::new();
        core::mem::swap(&mut self.buf, &mut buf);
        buf
    }

    /// Installs a state.
    fn put(&mut self, buf: Vec<u8>, size: Option<usize>)
        requires
            old(self).buf@.len() == 0,
            (Frame { size, bytes: buf@ }).wf(),
        ensures
            final(self)@ == (Frame { size, bytes: buf@ }),
    {
        proof {
            lemma_width_bounds(Seq::empty(), 0);
        }
        let mut buf = buf;
        self.size = size;
        core::mem::swap(&mut self.buf, &mut buf);
    }

    /// Takes in the bytes that a read returned. The first bytes of a stream
    /// are the groups of the frame's length; what follows them is payload,
    /// up to that length, and bytes beyond it are dropped.
    pub fn append(&mut self, other: &[u8])
        ensures
            final(self)@ == old(self)@.feed(other@),
    {
        let mut buf = self.take();
        match self.size {
            Some(s) => {
                if s > buf.len() {
                    let l = s - buf.len();
                    if l < other.len() {
                        buf.extend_from_slice(slice_subrange(other, 0, l));
                    } else {
                        buf.extend_from_slice(other);
                    }
                }
                assert(buf@ =~= old(self)@.feed(other@).bytes);
                self.put(buf, Some(s));
            },
            None => {
                if buf.is_empty() {
                    assert(buf@ + other@ =~= other@);
                    match scan_varint(other) {
                        Some((width, value)) => {
                            let s = #[verifier::truncate] (value as usize);
                            let t = slice_subrange(other, width, other.len());
                            if s < t.len() {
                                buf.extend_from_slice(slice_subrange(t, 0, s));
                            } else {
                                buf.extend_from_slice(t);
                            }
                            assert(buf@ =~= old(self)@.feed(other@).bytes);
                            self.put(buf, Some(s));
                        },
                        None => {
                            buf.extend_from_slice(other);
                            assert(buf@ =~= other@);
                            self.put(buf, None);
                        },
                    }
                } else {
                    buf.extend_from_slice(other);
                    assert(buf@ =~= old(self)@.bytes + other@);
                    match scan_varint(buf.as_slice()) {
                        Some((width, value)) => {
                            let s = #[verifier::truncate] (value as usize);
                            compact(&mut buf, width);
                            if buf.len() > s {
                                buf.truncate(s);
                            }
                            assert(buf@ =~= old(self)@.feed(other@).bytes);
                            self.put(buf, Some(s));
                        },
                        None => {
                            self.put(buf, None);
                        },
                    }
                }
            },
        }
    }

    /// The length of the frame's payload, once its last group has come.
    pub fn size(&self) -> (s: Option<usize>)
        ensures
            s == self@.size,
            self@.wf(),
    {
        proof {
            use_type_invariant(self);
        }
        self.size
    }

    /// The number of bytes held: of the payload once the length is known,
    /// of the length's groups before.
    pub fn len(&self) -> (n: usize)
        ensures
            n == self@.bytes.len(),
            self@.wf(),
    {
        proof {
            use_type_invariant(self);
        }
        self.buf.len()
    }
}

impl From<RecvBuf> for ByteQue {
    /// The bytes that the receiver holds, as a queue to decode from.
    fn from(other: RecvBuf) -> (q: Self)
        ensures
            q@ == other@.bytes,
    {
        let mut other = other;
        ByteQue::from(other.take())
    }
}

impl FromSpecImpl<RecvBuf> for ByteQue {
    open spec fn obeys_from_spec() -> bool {
        false
    }

    open spec fn from_spec(v: RecvBuf) -> Self {
        arbitrary()
    }
}

/// The frame that carries the bytes of `q`: their number, then the bytes.
pub fn send_data(q: ByteQue) -> (v: Vec<u8>)
    ensures
        v@ == frame_of(q@),
{
    let mut v: Vec<u8> = Vec::new();
    write_varint(q.len() as u64, &mut v);
    let mut payload = Vec::<u8>::from(q);
    v.append(&mut payload);
    v
}

} // verus!
