use lrpc::{send_data, ByteQue, RecvBuf, Store};

fn frame(payload: &[u8]) -> Vec<u8> {
    send_data(ByteQue::from(payload.to_vec()))
}

fn payload_of(r: RecvBuf) -> Vec<u8> {
    Vec::<u8>::from(ByteQue::from(r))
}

fn is_whole(r: &RecvBuf) -> bool {
    r.size() == Some(r.len())
}

#[test]
fn frame_is_length_and_payload() {
    assert_eq!(frame(&[1, 2, 3]), vec![3, 1, 2, 3]);
    assert_eq!(frame(&[]), vec![0]);
    let long = vec![7u8; 300];
    let f = frame(&long);
    assert_eq!(&f[..2], &[0xac, 0x02]);
    assert_eq!(&f[2..], &long[..]);
}

#[test]
fn frame_of_partly_consumed_queue_holds_what_is_left() {
    let mut q = ByteQue::from(vec![9, 8, 7]);
    assert_eq!(q.pop(), 9);
    assert_eq!(send_data(q), vec![2, 8, 7]);
}

#[test]
fn whole_frame_in_one_chunk() {
    let mut r = RecvBuf::new();
    assert_eq!(r.size(), None);
    assert_eq!(r.len(), 0);
    r.append(&frame(&[1, 2, 3]));
    assert_eq!(r.size(), Some(3));
    assert_eq!(r.len(), 3);
    assert!(is_whole(&r));
    assert_eq!(payload_of(r), vec![1, 2, 3]);
}

#[test]
fn empty_frame_is_whole_after_its_length() {
    let mut r = RecvBuf::new();
    r.append(&[0]);
    assert_eq!(r.size(), Some(0));
    assert_eq!(r.len(), 0);
    assert!(is_whole(&r));
}

#[test]
fn empty_chunk_changes_nothing() {
    let mut r = RecvBuf::new();
    r.append(&[]);
    assert_eq!((r.size(), r.len()), (None, 0));
    r.append(&[0x85]);
    r.append(&[]);
    assert_eq!((r.size(), r.len()), (None, 1));
    r.append(&[0x00, 1]);
    r.append(&[]);
    assert_eq!((r.size(), r.len()), (Some(5), 1));
}

#[test]
fn bytes_beyond_the_length_are_dropped() {
    let mut r = RecvBuf::new();
    r.append(&[2, 1, 2, 3, 4, 5]);
    assert_eq!(r.size(), Some(2));
    r.append(&[6, 7]);
    assert_eq!(r.len(), 2);
    assert_eq!(payload_of(r), vec![1, 2]);

    let mut r = RecvBuf::new();
    r.append(&[3, 1]);
    r.append(&[2, 3, 4, 5]);
    assert_eq!(payload_of(r), vec![1, 2, 3]);

    let mut r = RecvBuf::new();
    r.append(&[0x80]);
    r.append(&[0x00, 9, 9]);
    assert_eq!(r.size(), Some(0));
    assert_eq!(payload_of(r), Vec::<u8>::new());
}

#[test]
fn length_split_over_chunks() {
    let payload = vec![5u8; 300];
    let f = frame(&payload);
    let mut r = RecvBuf::new();
    r.append(&f[..1]);
    assert_eq!(r.size(), None);
    assert_eq!(r.len(), 1);
    r.append(&f[1..2]);
    assert_eq!(r.size(), Some(300));
    assert_eq!(r.len(), 0);
    r.append(&f[2..100]);
    assert_eq!(r.len(), 98);
    assert!(!is_whole(&r));
    r.append(&f[100..]);
    assert!(is_whole(&r));
    assert_eq!(payload_of(r), payload);
}

#[test]
fn length_has_at_most_ten_groups() {
    let mut r = RecvBuf::new();
    r.append(&[0x80; 9]);
    assert_eq!(r.size(), None);
    assert_eq!(r.len(), 9);
    r.append(&[0x80, 1, 2]);
    assert_eq!(r.size(), Some(0));
    assert_eq!(r.len(), 0);

    let mut r = RecvBuf::new();
    r.append(&[0x80; 12]);
    assert_eq!(r.size(), Some(0));
    assert_eq!(r.len(), 0);

    let mut r = RecvBuf::new();
    let mut chunk = vec![0x81u8];
    chunk.extend_from_slice(&[0x80; 9]);
    chunk.push(42);
    chunk.push(43);
    r.append(&chunk);
    assert_eq!(r.size(), Some(1));
    assert_eq!(payload_of(r), vec![42]);
}

fn fed_in_chunks(bytes: &[u8], chunk: usize) -> (Option<usize>, Vec<u8>) {
    let mut r = RecvBuf::new();
    for part in bytes.chunks(chunk) {
        r.append(part);
    }
    (r.size(), payload_of(r))
}

#[test]
fn chunks_of_any_size_give_the_payload() {
    for len in [0usize, 1, 2, 127, 128, 129, 300, 1000] {
        let payload: Vec<u8> = (0..len).map(|i| (i * 7 % 251) as u8).collect();
        let f = frame(&payload);
        let whole = fed_in_chunks(&f, f.len());
        assert_eq!(whole, (Some(len), payload.clone()));
        for chunk in [1usize, 2, 3, 5, 64, 127, 128, 1024] {
            assert_eq!(fed_in_chunks(&f, chunk), whole);
        }
    }
}

#[test]
fn chunks_of_any_size_give_the_same_state_for_any_bytes() {
    let streams: Vec<Vec<u8>> = vec![
        vec![],
        vec![0x80],
        vec![0xff, 0xff],
        vec![0x85, 0x00, 1, 2],
        vec![5, 1, 2],
        vec![1, 1, 1, 1],
        vec![0x80; 30],
        (0..=255u8).rev().collect(),
    ];
    for stream in streams {
        let mut whole = RecvBuf::new();
        whole.append(&stream);
        let expected = (whole.size(), whole.len(), payload_of(whole));
        for chunk in [1usize, 2, 3, 4, 9, 10, 11] {
            let mut r = RecvBuf::new();
            for part in stream.chunks(chunk) {
                r.append(part);
            }
            assert_eq!((r.size(), r.len(), payload_of(r)), expected);
        }
    }
}

#[test]
fn payload_is_never_longer_than_its_length() {
    let mut r = RecvBuf::new();
    for chunk in [&[4u8][..], &[1, 2], &[3, 4, 5, 6], &[7], &[]] {
        r.append(chunk);
        if let Some(s) = r.size() {
            assert!(r.len() <= s);
        }
    }
    assert_eq!(payload_of(r), vec![1, 2, 3, 4]);
}

#[test]
fn framed_value_is_decoded_from_what_the_receiver_holds() {
    let v = (42u32, "answer".to_string(), vec![Some(1u8), None]);
    let mut q = ByteQue::new();
    v.store(&mut q);
    let f = send_data(q);
    let mut r = RecvBuf::new();
    for b in &f {
        r.append(&[*b]);
    }
    assert!(is_whole(&r));
    let mut q = ByteQue::from(r);
    let back: (u32, String, Vec<Option<u8>>) = Store::restore(&mut q);
    assert_eq!(back, v);
    assert_eq!(q.len(), 0);
}
