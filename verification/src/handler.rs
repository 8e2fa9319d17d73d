//! The two ends of a registered function: how it takes its arguments from
//! the request, and how it puts its result into the reply.
//!
//! A reply is a status byte and what follows it: 0 and the encoded value
//! for a success, 1 and a message for a failure.

use vstd::prelude::*;
use vstd::string::StringExecFns;
use crate::store::Store;
use crate::text::text_encoding;
use crate::val::ByteQue;

verus! {

/// The reply that reports a failure with `message`.
pub open spec fn failure_reply(message: Seq<char>) -> Seq<u8> {
    true.encoding() + text_encoding(message)
}

/// The reply that carries the encoded value `value`.
pub open spec fn success_reply(value: Seq<u8>) -> Seq<u8> {
    false.encoding() + value
}

/// The message for a request that ends before the argument `parameter` of
/// `function`.
pub open spec fn missing_argument(function: Seq<char>, parameter: Seq<char>) -> Seq<char> {
    "error when calling function "@ + function + " to restore parameters to "@ + parameter
}

/// The message for a request that goes on after the last argument of
/// `function`.
pub open spec fn surplus_arguments(function: Seq<char>) -> Seq<char> {
    "error when calling function "@ + function + " to restore parameters"@
}

/// A reply that reports a failure with `message`.
pub fn failure(message: &str) -> (reply: ByteQue)
    ensures
        reply@ == failure_reply(message@),
{
    let mut reply = ByteQue::new();
    true.store(&mut reply);
    message.to_owned().store(&mut reply);
    assert(reply@ =~= failure_reply(message@));
    reply
}

/// A reply that carries `value` as the result of a call.
pub fn success<T: Store>(value: &T) -> (reply: ByteQue)
    ensures
        T::obeys_store_spec() ==> reply@ == success_reply(value.encoding()),
{
    let mut reply = ByteQue::new();
    false.store(&mut reply);
    value.store(&mut reply);
    assert(T::obeys_store_spec() ==> reply@ =~= success_reply(value.encoding()));
    reply
}

/// Takes the next argument of `function`, the one for `parameter`, from
/// the request. Where the request has no byte left, there is no argument
/// to take: the result is the reply that says so, and the call is over.
pub fn argument<T: Store>(q: &mut ByteQue, function: &str, parameter: &str) -> (taken: Result<
    T,
    ByteQue,
>)
    ensures
        match taken {
            Ok(value) => {
                &&& old(q)@.len() > 0
                &&& T::obeys_store_spec() ==> (value.model(), final(q)@) == T::parse(old(q)@)
            },
            Err(reply) => {
                &&& old(q)@.len() == 0
                &&& final(q)@ == old(q)@
                &&& reply@ == failure_reply(missing_argument(function@, parameter@))
            },
        },
{
    if q.len() == 0 {
        let message = "error when calling function ".to_owned().concat(function).concat(
            " to restore parameters to ",
        ).concat(parameter);
        return Err(failure(message.as_str()));
    }
    Ok(T::restore(q))
}

/// Checks that the request ends after the last argument of `function`.
/// Where bytes are left, the result is the reply that says so, and the
/// call is over.
pub fn no_more_arguments(q: &ByteQue, function: &str) -> (surplus: Option<ByteQue>)
    ensures
        match surplus {
            Some(reply) => q@.len() > 0 && reply@ == failure_reply(surplus_arguments(function@)),
            None => q@.len() == 0,
        },
{
    if q.len() != 0 {
        let message = "error when calling function ".to_owned().concat(function).concat(
            " to restore parameters",
        );
        return Some(failure(message.as_str()));
    }
    None
}

} // verus!
