use lrpc::ByteQue;

#[test]
fn new_queue_is_empty() {
    let q = ByteQue::new();
    assert_eq!(q.len(), 0);
    let q = ByteQue::with_capacity(64);
    assert_eq!(q.len(), 0);
    let q = ByteQue::with_capacity(0);
    assert_eq!(Vec::<u8>::from(q), Vec::<u8>::new());
}

#[test]
fn bytes_leave_in_the_order_they_came() {
    let mut q = ByteQue::new();
    q.push(1);
    q.push(2);
    q.push(3);
    assert_eq!(q.len(), 3);
    assert_eq!(q.pop(), 1);
    assert_eq!(q.len(), 2);
    q.push(4);
    assert_eq!(q.pop(), 2);
    assert_eq!(q.pop(), 3);
    assert_eq!(q.pop(), 4);
    assert_eq!(q.len(), 0);
}

#[test]
fn pop_on_empty_queue_yields_zero() {
    let mut q = ByteQue::new();
    assert_eq!(q.pop(), 0);
    assert_eq!(q.len(), 0);
    q.push(9);
    assert_eq!(q.pop(), 9);
    assert_eq!(q.pop(), 0);
    assert_eq!(q.pop(), 0);
    assert_eq!(q.len(), 0);
    q.push(8);
    assert_eq!(q.len(), 1);
    assert_eq!(q.pop(), 8);
}

#[test]
fn push_slice_appends_all() {
    let mut q = ByteQue::new();
    q.push_slice(&[1, 2]);
    q.push_slice(&[]);
    q.push_slice(&[3]);
    assert_eq!(q.len(), 3);
    assert_eq!(Vec::<u8>::from(q), vec![1, 2, 3]);
}

#[test]
fn pop_slice_takes_from_the_head() {
    let mut q = ByteQue::from(vec![1, 2, 3, 4, 5]);
    assert_eq!(q.pop_slice(2), &[1, 2]);
    assert_eq!(q.len(), 3);
    assert_eq!(q.pop_slice(0), &[] as &[u8]);
    assert_eq!(q.len(), 3);
    assert_eq!(q.pop_slice(3), &[3, 4, 5]);
    assert_eq!(q.len(), 0);
}

#[test]
fn pop_slice_beyond_the_end_pads_with_zeros() {
    let mut q = ByteQue::from(vec![1, 2, 3]);
    assert_eq!(q.pop(), 1);
    assert_eq!(q.pop_slice(4), &[2, 3, 0, 0]);
    assert_eq!(q.len(), 0);
    assert_eq!(q.pop_slice(2), &[0, 0]);
    assert_eq!(q.len(), 0);
    q.push(7);
    assert_eq!(q.len(), 1);
    assert_eq!(q.pop_slice(1), &[7]);
}

#[test]
fn reserve_keeps_the_content() {
    let mut q = ByteQue::from(vec![1, 2, 3, 4]);
    q.reserve(100);
    assert_eq!(q.len(), 4);
    assert_eq!(q.pop(), 1);
    assert_eq!(q.pop(), 2);
    q.reserve(0);
    assert_eq!(q.len(), 2);
    assert_eq!(q.pop(), 3);
    q.reserve(1 << 20);
    assert_eq!(q.len(), 1);
    assert_eq!(Vec::<u8>::from(q), vec![4]);
}

#[test]
fn reserve_of_what_no_allocator_grants_keeps_the_content() {
    let mut q = ByteQue::from(vec![1, 2]);
    q.reserve(usize::MAX);
    assert_eq!(Vec::<u8>::from(q), vec![1, 2]);
    let q = ByteQue::with_capacity(usize::MAX);
    assert_eq!(q.len(), 0);
}

#[test]
fn queue_from_bytes_and_back() {
    let q = ByteQue::from(vec![5, 6, 7]);
    assert_eq!(q.len(), 3);
    assert_eq!(Vec::<u8>::from(q), vec![5, 6, 7]);
    let mut q = ByteQue::from(vec![5, 6, 7]);
    assert_eq!(q.pop(), 5);
    assert_eq!(Vec::<u8>::from(q), vec![6, 7]);
    let mut q = ByteQue::from(vec![5]);
    assert_eq!(q.pop(), 5);
    assert_eq!(Vec::<u8>::from(q), Vec::<u8>::new());
}

#[test]
fn length_is_pushed_minus_popped() {
    let mut q = ByteQue::new();
    let mut pushed = 0usize;
    let mut popped = 0usize;
    let mut next_in = 0u8;
    let mut next_out = 0u8;
    for round in 0..200usize {
        for _ in 0..(round % 7) {
            q.push(next_in);
            next_in = next_in.wrapping_add(1);
            pushed += 1;
        }
        for _ in 0..(round % 5) {
            if q.len() > 0 {
                assert_eq!(q.pop(), next_out);
                next_out = next_out.wrapping_add(1);
                popped += 1;
            }
        }
        assert_eq!(q.len(), pushed - popped);
    }
    let left = Vec::<u8>::from(q);
    assert_eq!(left.len(), pushed - popped);
    for b in left {
        assert_eq!(b, next_out);
        next_out = next_out.wrapping_add(1);
    }
}
