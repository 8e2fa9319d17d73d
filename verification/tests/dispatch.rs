use lrpc::handler::{argument, failure, no_more_arguments, success};
use lrpc::session::{receive, serve, Answer, Step};
use lrpc::{send_data, ByteQue, Fun, RecvBuf, Store};

type Handler = fn(&mut ByteQue) -> ByteQue;

fn adder(q: &mut ByteQue) -> ByteQue {
    let a = i32::restore(q);
    let b = i32::restore(q);
    success(&(a + b))
}

fn first_word(q: &mut ByteQue) -> ByteQue {
    let s: String = match argument(q, "first_word", "s : String") {
        Ok(s) => s,
        Err(reply) => return reply,
    };
    if let Some(reply) = no_more_arguments(q, "first_word") {
        return reply;
    }
    let bytes = s.as_bytes();
    for (i, &item) in bytes.iter().enumerate() {
        if item == b' ' {
            return success(&i);
        }
    }
    success(&s.len())
}

fn always_fails(q: &mut ByteQue) -> ByteQue {
    if let Some(reply) = no_more_arguments(q, "always_fails") {
        return reply;
    }
    failure("it always does")
}

fn echo(q: &mut ByteQue) -> ByteQue {
    let mut r = ByteQue::new();
    while q.len() > 0 {
        r.push(q.pop());
    }
    r
}

fn request(name: &str) -> ByteQue {
    let mut q = ByteQue::new();
    String::from(name).store(&mut q);
    q
}

fn registry() -> Fun<Handler> {
    let mut fun: Fun<Handler> = Fun::new();
    fun.regist("adder", adder);
    fun.regist("first_word", first_word);
    fun.regist("always_fails", always_fails);
    fun.regist("echo", echo);
    fun
}

#[test]
fn call_by_name_reaches_the_function() {
    let fun = registry();
    let mut q = request("adder");
    2i32.store(&mut q);
    3i32.store(&mut q);
    let mut reply = fun.invoke(&mut q);
    assert_eq!(Result::<i32, String>::restore(&mut reply), Ok(5));
    assert_eq!(reply.len(), 0);
    assert_eq!(q.len(), 0);
}

#[test]
fn call_of_unknown_name_fails_with_its_name() {
    let fun = registry();
    let mut q = request("missing");
    2i32.store(&mut q);
    let mut reply = fun.invoke(&mut q);
    assert_eq!(
        Result::<i32, String>::restore(&mut reply),
        Err("missing function not found".to_string())
    );
    assert_eq!(q.len(), 4);

    let empty: Fun<Handler> = Fun::new();
    let mut reply = empty.invoke(&mut request("adder"));
    assert_eq!(
        Result::<(), String>::restore(&mut reply),
        Err("adder function not found".to_string())
    );
}

#[test]
fn not_found_reply_is_status_one_and_the_message() {
    let fun = registry();
    let reply = fun.invoke(&mut request("x"));
    let mut expected = vec![1u8, 20];
    expected.extend_from_slice(b"x function not found");
    assert_eq!(Vec::<u8>::from(reply), expected);
}

#[test]
fn request_without_a_name_calls_the_empty_name() {
    let fun = registry();
    let mut reply = fun.invoke(&mut ByteQue::new());
    assert_eq!(
        Result::<(), String>::restore(&mut reply),
        Err(" function not found".to_string())
    );
}

#[test]
fn reply_of_the_function_is_returned_as_it_is() {
    let fun = registry();
    let mut q = request("echo");
    q.push_slice(&[9, 8, 7]);
    assert_eq!(Vec::<u8>::from(fun.invoke(&mut q)), vec![9, 8, 7]);
}

#[test]
fn later_registration_replaces_the_earlier() {
    fn one(_: &mut ByteQue) -> ByteQue {
        success(&1u8)
    }
    fn two(_: &mut ByteQue) -> ByteQue {
        success(&2u8)
    }
    let mut fun: Fun<Handler> = Fun::new();
    fun.regist("n", one);
    fun.regist("m", one);
    assert_eq!(Result::<u8, String>::restore(&mut fun.invoke(&mut request("n"))), Ok(1));
    fun.regist("n", two);
    assert_eq!(Result::<u8, String>::restore(&mut fun.invoke(&mut request("n"))), Ok(2));
    assert_eq!(Result::<u8, String>::restore(&mut fun.invoke(&mut request("m"))), Ok(1));
}

#[test]
fn names_are_told_apart_exactly() {
    let fun = registry();
    for name in ["Adder", "adder ", "adde", "adderr", ""] {
        let mut reply = fun.invoke(&mut request(name));
        assert_eq!(
            Result::<i32, String>::restore(&mut reply),
            Err(format!("{} function not found", name))
        );
    }
}

#[test]
fn success_and_failure_replies() {
    assert_eq!(Vec::<u8>::from(success(&5u16)), vec![0, 5, 0]);
    assert_eq!(Vec::<u8>::from(success(&())), vec![0]);
    assert_eq!(Vec::<u8>::from(failure("no")), vec![1, 2, b'n', b'o']);
    assert_eq!(Vec::<u8>::from(failure("")), vec![1, 0]);
    let mut r = failure("parameter error");
    assert_eq!(Result::<i32, String>::restore(&mut r), Err("parameter error".to_string()));
}

#[test]
fn function_takes_its_arguments_and_nothing_more() {
    let fun = registry();
    let mut q = request("first_word");
    String::from("hello world").store(&mut q);
    let r: Result<usize, String> = Store::restore(&mut fun.invoke(&mut q));
    assert_eq!(r, Ok(5));

    let r: Result<usize, String> = Store::restore(&mut fun.invoke(&mut request("first_word")));
    assert_eq!(
        r,
        Err("error when calling function first_word to restore parameters to s : String".to_string())
    );

    let mut q = request("first_word");
    String::from("hello world").store(&mut q);
    1u8.store(&mut q);
    let r: Result<usize, String> = Store::restore(&mut fun.invoke(&mut q));
    assert_eq!(r, Err("error when calling function first_word to restore parameters".to_string()));

    let r: Result<(), String> = Store::restore(&mut fun.invoke(&mut request("always_fails")));
    assert_eq!(r, Err("it always does".to_string()));
}

#[test]
fn argument_is_taken_only_where_bytes_are_left() {
    let mut q = ByteQue::from(vec![7, 8]);
    assert_eq!(argument::<u8>(&mut q, "f", "a").ok(), Some(7));
    assert_eq!(argument::<u32>(&mut q, "f", "b").ok(), Some(8));
    assert_eq!(q.len(), 0);
    let reply = argument::<u8>(&mut q, "f", "c").err().map(Vec::<u8>::from);
    let mut expected = vec![1u8, 56];
    expected.extend_from_slice(b"error when calling function f to restore parameters to c");
    assert_eq!(reply, Some(expected));
    assert!(no_more_arguments(&q, "f").is_none());
    q.push(0);
    let reply = no_more_arguments(&q, "f").map(Vec::<u8>::from);
    let mut expected = vec![1u8, 51];
    expected.extend_from_slice(b"error when calling function f to restore parameters");
    assert_eq!(reply, Some(expected));
    assert_eq!(q.len(), 1);
}

fn call_frame(name: &str, a: i32, b: i32) -> Vec<u8> {
    let mut q = request(name);
    a.store(&mut q);
    b.store(&mut q);
    send_data(q)
}

fn reply_of(step: Step) -> Result<i32, String> {
    match step {
        Step::Reply(bytes) => {
            let mut r = RecvBuf::new();
            r.append(&bytes);
            assert_eq!(r.size(), Some(r.len()));
            Store::restore(&mut ByteQue::from(r))
        }
        Step::Read => panic!("the worker wants to read"),
        Step::Close => panic!("the worker closes"),
    }
}

#[test]
fn worker_answers_once_the_request_is_whole() {
    let fun = registry();
    let f = call_frame("adder", 2, 3);
    let mut recv = RecvBuf::new();
    let (last, first) = f.split_last().unwrap();
    for b in first {
        assert!(matches!(serve(&fun, &mut recv, Some(&[*b])), Step::Read));
    }
    assert_eq!(reply_of(serve(&fun, &mut recv, Some(&[*last]))), Ok(5));
    assert_eq!((recv.size(), recv.len()), (None, 0));
    assert_eq!(reply_of(serve(&fun, &mut recv, Some(&call_frame("adder", -7, 7)))), Ok(0));
    assert_eq!(
        reply_of(serve(&fun, &mut recv, Some(&call_frame("nope", 1, 1)))),
        Err("nope function not found".to_string())
    );
    assert_eq!(reply_of(serve(&fun, &mut recv, Some(&call_frame("adder", 1, 1)))), Ok(2));
}

#[test]
fn worker_closes_when_the_read_fails_or_brings_nothing() {
    let fun = registry();
    let mut recv = RecvBuf::new();
    assert!(matches!(serve(&fun, &mut recv, None), Step::Close));
    assert!(matches!(serve(&fun, &mut recv, Some(&[])), Step::Close));
    let f = call_frame("adder", 2, 3);
    assert!(matches!(serve(&fun, &mut recv, Some(&f[..3])), Step::Read));
    assert!(matches!(serve(&fun, &mut recv, Some(&[])), Step::Close));
    assert_eq!(recv.len(), 2);
    assert!(matches!(serve(&fun, &mut recv, None), Step::Close));
}

#[test]
fn caller_gets_the_result_once_the_reply_is_whole() {
    let f = send_data(success(&25u8));
    let mut recv = RecvBuf::new();
    assert!(matches!(receive::<u8>(&mut recv, Ok(&f[..1])), Answer::More));
    assert!(matches!(receive::<u8>(&mut recv, Ok(&f[1..2])), Answer::More));
    match receive::<u8>(&mut recv, Ok(&f[2..])) {
        Answer::Done(r) => assert_eq!(r, Ok(25)),
        Answer::More => panic!("the reply is whole"),
    }
    let f = send_data(failure("value_in_cents function not found"));
    let mut recv = RecvBuf::new();
    match receive::<u8>(&mut recv, Ok(&f)) {
        Answer::Done(r) => assert_eq!(r, Err("value_in_cents function not found".to_string())),
        Answer::More => panic!("the reply is whole"),
    }
}

#[test]
fn caller_fails_when_the_server_closes_before_the_reply_is_whole() {
    let mut recv = RecvBuf::new();
    match receive::<u8>(&mut recv, Ok(&[])) {
        Answer::Done(r) => assert_eq!(r, Err("the server is disconnected".to_string())),
        Answer::More => panic!("the connection is closed"),
    }
    let f = send_data(success(&vec![1u32, 2, 3]));
    let mut recv = RecvBuf::new();
    assert!(matches!(receive::<Vec<u32>>(&mut recv, Ok(&f[..f.len() - 1])), Answer::More));
    match receive::<Vec<u32>>(&mut recv, Ok(&[])) {
        Answer::Done(r) => assert_eq!(r, Err("the server is disconnected".to_string())),
        Answer::More => panic!("the connection is closed"),
    }
}

#[test]
fn caller_fails_with_the_message_of_a_failed_read() {
    let mut recv = RecvBuf::new();
    match receive::<u8>(&mut recv, Err("connection reset by peer".to_string())) {
        Answer::Done(r) => assert_eq!(r, Err("connection reset by peer".to_string())),
        Answer::More => panic!("the read failed"),
    }
}

#[test]
fn call_through_both_ends() {
    let fun = registry();
    let mut q = request("first_word");
    String::from("remote procedure").store(&mut q);
    let sent = send_data(q);
    let mut worker = RecvBuf::new();
    let mut replied = Vec::new();
    for part in sent.chunks(3) {
        match serve(&fun, &mut worker, Some(part)) {
            Step::Read => {}
            Step::Reply(bytes) => replied = bytes,
            Step::Close => panic!("the worker closes"),
        }
    }
    let mut caller = RecvBuf::new();
    let mut result = None;
    for part in replied.chunks(2) {
        match receive::<usize>(&mut caller, Ok(part)) {
            Answer::More => {}
            Answer::Done(r) => result = Some(r),
        }
    }
    assert_eq!(result, Some(Ok(6)));
}

#[test]
fn two_connections_do_not_mix() {
    let fun = registry();
    let a = call_frame("adder", 10, 20);
    let mut b = request("first_word");
    String::from("two words").store(&mut b);
    let b = send_data(b);
    let mut recv_a = RecvBuf::new();
    let mut recv_b = RecvBuf::new();
    let mut reply_a = None;
    let mut reply_b = None;
    let mut at_a = 0;
    let mut at_b = 0;
    while at_a < a.len() || at_b < b.len() {
        if at_a < a.len() {
            if let Step::Reply(bytes) = serve(&fun, &mut recv_a, Some(&a[at_a..at_a + 1])) {
                reply_a = Some(bytes);
            }
            at_a += 1;
        }
        if at_b < b.len() {
            let end = (at_b + 2).min(b.len());
            if let Step::Reply(bytes) = serve(&fun, &mut recv_b, Some(&b[at_b..end])) {
                reply_b = Some(bytes);
            }
            at_b = end;
        }
    }
    let mut caller_a = RecvBuf::new();
    let mut caller_b = RecvBuf::new();
    match receive::<i32>(&mut caller_a, Ok(&reply_a.unwrap())) {
        Answer::Done(r) => assert_eq!(r, Ok(30)),
        Answer::More => panic!("the reply is whole"),
    }
    match receive::<usize>(&mut caller_b, Ok(&reply_b.unwrap())) {
        Answer::Done(r) => assert_eq!(r, Ok(3)),
        Answer::More => panic!("the reply is whole"),
    }
}
