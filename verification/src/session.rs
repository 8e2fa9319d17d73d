//! What the two ends of a connection do with what a read returns. The
//! reading and the writing are the caller's; the decisions are made here.

use vstd::prelude::*;
use crate::buf::{frame_of, send_data, Frame, RecvBuf};
use crate::fun::{not_found_reply, Fun};
use crate::store::Store;
use crate::val::ByteQue;

verus! {

/// What the worker of a connection does next.
pub enum Step {
    /// Read again: the request is not whole yet.
    Read,
    /// Write these bytes, the frame of the reply, and then read the next
    /// request.
    Reply(Vec<u8>),
    /// Close the connection.
    Close,
}

/// What a caller does next.
pub enum Answer<T> {
    /// Read again: the reply is not whole yet.
    More,
    /// The call is over, with this result.
    Done(Result<T, String>),
}

/// The message of the failure that a caller gets when the connection ends
/// before the reply is whole.
pub open spec fn disconnected() -> Seq<char> {
    "the server is disconnected"@
}

/// The worker's side of a connection. `read` is what the last read
/// returned: the bytes that came, or nothing where it failed. A read that
/// fails or brings no byte ends the connection. Bytes are fed to `recv`;
/// once the request is whole it is answered by `fun`, the reply goes out
/// in a frame, and `recv` starts afresh.
pub fn serve<F: Fn(&mut ByteQue) -> ByteQue>(
    fun: &Fun<F>,
    recv: &mut RecvBuf,
    read: Option<&[u8]>,
) -> (step: Step)
    ensures
        match read {
            Some(data) if data@.len() > 0 => {
                let fed = old(recv)@.feed(data@);
                if fed.complete() {
                    let (name, args) = String::parse(fed.bytes);
                    &&& final(recv)@ == Frame::start()
                    &&& step matches Step::Reply(bytes)
                    &&& if fun@.contains_key(name) {
                        exists|p: &mut ByteQue, reply: ByteQue|
                            (*p)@ == args && #[trigger] call_ensures(fun@[name], (p,), reply)
                                && bytes@ == frame_of(reply@)
                    } else {
                        bytes@ == frame_of(not_found_reply(name))
                    }
                } else {
                    step is Read && final(recv)@ == fed
                }
            },
            _ => step is Close && final(recv)@ == old(recv)@,
        },
{
    let data = match read {
        Some(data) => data,
        None => {
            return Step::Close;
        },
    };
    if data.len() == 0 {
        return Step::Close;
    }
    recv.append(data);
    if !whole(recv) {
        return Step::Read;
    }
    let mut done = RecvBuf::new();
    core::mem::swap(recv, &mut done);
    let mut request = ByteQue::from(done);
    let reply = fun.invoke(&mut request);
    Step::Reply(send_data(reply))
}

/// The caller's side of a connection, once the request is written. `read`
/// is what the last read returned: the bytes that came, or the message of
/// the failure. A failed read fails the call with its message, and a read
/// that brings no byte fails it as a disconnection. Bytes are fed to
/// `recv`; once the reply is whole it is decoded as a result, and `recv`
/// starts afresh.
pub fn receive<T: Store>(recv: &mut RecvBuf, read: Result<&[u8], String>) -> (answer: Answer<T>)
    ensures
        match read {
            Ok(data) if data@.len() > 0 => {
                let fed = old(recv)@.feed(data@);
                if fed.complete() {
                    &&& final(recv)@ == Frame::start()
                    &&& answer matches Answer::Done(result)
                    &&& T::obeys_store_spec() ==> result.model() == Result::<T, String>::parse(
                        fed.bytes,
                    ).0
                } else {
                    answer is More && final(recv)@ == fed
                }
            },
            Ok(data) => answer matches Answer::Done(Err(e)) && e@ == disconnected() && final(recv)@
                == old(recv)@,
            Err(message) => answer matches Answer::Done(Err(e)) && e@ == message@ && final(recv)@
                == old(recv)@,
        },
{
    let data = match read {
        Ok(data) => data,
        Err(message) => {
            return Answer::Done(Err(message));
        },
    };
    if data.len() == 0 {
        return Answer::Done(Err("the server is disconnected".to_owned()));
    }
    recv.append(data);
    if !whole(recv) {
        return Answer::More;
    }
    let mut done = RecvBuf::new();
    core::mem::swap(recv, &mut done);
    let mut reply = ByteQue::from(done);
    Answer::Done(Store::restore(&mut reply))
}

/// Whether the frame is all there.
pub fn whole(recv: &RecvBuf) -> (b: bool)
    ensures
        b == recv@.complete(),
{
    match recv.size() {
        Some(s) => s == recv.len(),
        None => false,
    }
}

} // verus!
