use lrpc::{ByteQue, Store};
use std::collections::HashMap;

fn bytes_of<T: Store>(value: &T) -> Vec<u8> {
    let mut q = ByteQue::new();
    value.store(&mut q);
    Vec::<u8>::from(q)
}

fn value_of<T: Store>(bytes: &[u8]) -> (T, usize) {
    let mut q = ByteQue::from(bytes.to_vec());
    let value = T::restore(&mut q);
    (value, q.len())
}

fn round_trip<T: Store>(value: &T) -> T {
    let (back, left) = value_of::<T>(&bytes_of(value));
    assert_eq!(left, 0);
    back
}

#[test]
fn size_bytes_are_groups_of_seven_bits() {
    assert_eq!(bytes_of(&0usize), vec![0x00]);
    assert_eq!(bytes_of(&1usize), vec![0x01]);
    assert_eq!(bytes_of(&127usize), vec![0x7f]);
    assert_eq!(bytes_of(&128usize), vec![0x80, 0x01]);
    assert_eq!(bytes_of(&300usize), vec![0xac, 0x02]);
    assert_eq!(bytes_of(&16383usize), vec![0xff, 0x7f]);
    assert_eq!(bytes_of(&16384usize), vec![0x80, 0x80, 0x01]);
    assert_eq!(bytes_of(&65536usize), vec![0x80, 0x80, 0x04]);
}

#[test]
fn largest_size_takes_ten_groups() {
    if usize::BITS == 64 {
        let bytes = bytes_of(&usize::MAX);
        assert_eq!(bytes, vec![0xff, 0xff, 0xff, 0xff, 0xff, 0xff, 0xff, 0xff, 0xff, 0x01]);
        assert_eq!(value_of::<usize>(&bytes), (usize::MAX, 0));
    }
}

#[test]
fn sizes_survive_encoding() {
    let mut n: usize = 1;
    for _ in 0..usize::BITS {
        for v in [n - 1, n, n + 1] {
            assert_eq!(round_trip(&v), v);
        }
        n = n.wrapping_mul(2);
    }
    assert_eq!(round_trip(&usize::MAX), usize::MAX);
}

#[test]
fn size_reads_at_most_ten_groups() {
    let (v, left) = value_of::<usize>(&[0x80; 25]);
    assert_eq!(v, 0);
    assert_eq!(left, 15);
}

#[test]
fn tenth_group_keeps_its_lowest_bit_only() {
    if usize::BITS == 64 {
        let mut bytes = vec![0xffu8; 9];
        bytes.push(0x7f);
        assert_eq!(value_of::<usize>(&bytes), (usize::MAX, 0));
        let mut bytes = vec![0xffu8; 9];
        bytes.push(0x02);
        assert_eq!(value_of::<usize>(&bytes), (usize::MAX >> 1, 0));
        let mut bytes = vec![0x80u8; 9];
        bytes.push(0xff);
        bytes.push(0x55);
        assert_eq!(value_of::<usize>(&bytes), (1usize << 63, 1));
    }
}

#[test]
fn size_cut_short_reads_missing_groups_as_zero() {
    assert_eq!(value_of::<usize>(&[0x80]), (0, 0));
    assert_eq!(value_of::<usize>(&[0x85, 0x80]), (5, 0));
    assert_eq!(value_of::<usize>(&[]), (0, 0));
}

#[test]
fn numbers_are_little_endian() {
    assert_eq!(bytes_of(&0x0102u16), vec![0x02, 0x01]);
    assert_eq!(bytes_of(&0x12345678u32), vec![0x78, 0x56, 0x34, 0x12]);
    assert_eq!(bytes_of(&0x0102030405060708u64), vec![8, 7, 6, 5, 4, 3, 2, 1]);
    assert_eq!(
        bytes_of(&0x0102030405060708090a0b0c0d0e0f10u128),
        vec![16, 15, 14, 13, 12, 11, 10, 9, 8, 7, 6, 5, 4, 3, 2, 1]
    );
    assert_eq!(bytes_of(&-2i8), vec![0xfe]);
    assert_eq!(bytes_of(&-2i16), vec![0xfe, 0xff]);
    assert_eq!(bytes_of(&-2i32), vec![0xfe, 0xff, 0xff, 0xff]);
    assert_eq!(bytes_of(&i64::MIN), vec![0, 0, 0, 0, 0, 0, 0, 0x80]);
    assert_eq!(bytes_of(&-1i128), vec![0xff; 16]);
    assert_eq!(bytes_of(&200u8), vec![200]);
}

#[test]
fn numbers_survive_encoding() {
    for v in [0u16, 1, 255, 256, u16::MAX] {
        assert_eq!(round_trip(&v), v);
    }
    for v in [0u32, 1, 65535, 65536, u32::MAX] {
        assert_eq!(round_trip(&v), v);
    }
    for v in [0u64, 1, u32::MAX as u64 + 1, u64::MAX] {
        assert_eq!(round_trip(&v), v);
    }
    for v in [0u128, 1, u64::MAX as u128 + 1, u128::MAX] {
        assert_eq!(round_trip(&v), v);
    }
    for v in [i8::MIN, -1, 0, 1, i8::MAX] {
        assert_eq!(round_trip(&v), v);
    }
    for v in [i16::MIN, -1, 0, 1, i16::MAX] {
        assert_eq!(round_trip(&v), v);
    }
    for v in [i32::MIN, -1, 0, 1, i32::MAX] {
        assert_eq!(round_trip(&v), v);
    }
    for v in [i64::MIN, -1, 0, 1, i64::MAX] {
        assert_eq!(round_trip(&v), v);
    }
    for v in [i128::MIN, -1, 0, 1, i128::MAX] {
        assert_eq!(round_trip(&v), v);
    }
    for v in [0u8, 1, 127, 128, 255] {
        assert_eq!(round_trip(&v), v);
    }
}

#[test]
fn number_cut_short_reads_missing_bytes_as_zero() {
    assert_eq!(value_of::<u32>(&[0x01]), (1, 0));
    assert_eq!(value_of::<u32>(&[0x01, 0x02, 0x03, 0x04, 0x05]), (0x04030201, 1));
    assert_eq!(value_of::<u64>(&[]), (0, 0));
    assert_eq!(value_of::<i16>(&[0xff]), (255, 0));
    assert_eq!(value_of::<u8>(&[]), (0, 0));
}

#[test]
fn floats_travel_as_their_bits() {
    let v: f32 = -3.141592654;
    assert_eq!(f32::from_bits(round_trip(&v.to_bits())), v);
    assert_eq!(bytes_of(&1.0f32.to_bits()), vec![0x00, 0x00, 0x80, 0x3f]);
    let v: f64 = -3.141592654;
    assert_eq!(f64::from_bits(round_trip(&v.to_bits())), v);
    assert_eq!(bytes_of(&1.0f64.to_bits()), vec![0, 0, 0, 0, 0, 0, 0xf0, 0x3f]);
}

#[test]
fn bool_is_one_byte() {
    assert_eq!(bytes_of(&true), vec![1]);
    assert_eq!(bytes_of(&false), vec![0]);
    assert_eq!(value_of::<bool>(&[0]), (false, 0));
    assert_eq!(value_of::<bool>(&[1]), (true, 0));
    assert_eq!(value_of::<bool>(&[2]), (true, 0));
    assert_eq!(value_of::<bool>(&[]), (false, 0));
}

#[test]
fn char_is_its_scalar_value_in_four_bytes() {
    assert_eq!(bytes_of(&'A'), vec![0x41, 0, 0, 0]);
    assert_eq!(bytes_of(&'😄'), vec![0x04, 0xf6, 0x01, 0x00]);
    for c in ['\0', 'a', 'é', '\u{d7ff}', '\u{e000}', '😄', char::MAX] {
        assert_eq!(round_trip(&c), c);
    }
}

#[test]
fn bytes_that_are_no_scalar_value_read_as_null_char() {
    assert_eq!(value_of::<char>(&[0x00, 0xd8, 0x00, 0x00]), ('\0', 0));
    assert_eq!(value_of::<char>(&[0xff, 0xdf, 0x00, 0x00]), ('\0', 0));
    assert_eq!(value_of::<char>(&[0x00, 0x00, 0x11, 0x00]), ('\0', 0));
    assert_eq!(value_of::<char>(&[0xff, 0xff, 0xff, 0xff]), ('\0', 0));
    assert_eq!(value_of::<char>(&[0xff, 0xff, 0x10, 0x00]), (char::MAX, 0));
}

#[test]
fn unit_takes_no_bytes() {
    assert_eq!(bytes_of(&()), Vec::<u8>::new());
    assert_eq!(value_of::<()>(&[9, 9]), ((), 2));
}

#[test]
fn text_is_count_and_utf8() {
    assert_eq!(bytes_of(&"hi".to_string()), vec![2, b'h', b'i']);
    assert_eq!(bytes_of(&String::new()), vec![0]);
    assert_eq!(bytes_of(&"é".to_string()), vec![2, 0xc3, 0xa9]);
    let long = "x".repeat(200);
    let bytes = bytes_of(&long);
    assert_eq!(&bytes[..2], &[0xc8, 0x01]);
    assert_eq!(bytes.len(), 202);
    for s in ["", "a", "welcome to 😄", "ünï¢ödé", "\0\u{7f}\u{80}\u{7ff}\u{800}\u{ffff}\u{10000}"] {
        assert_eq!(round_trip(&s.to_string()), s);
    }
    assert_eq!(round_trip(&long), long);
}

#[test]
fn text_that_is_not_utf8_reads_as_empty() {
    assert_eq!(value_of::<String>(&[2, 0xff, 0xfe, 7]), (String::new(), 1));
    assert_eq!(value_of::<String>(&[1, 0x80]), (String::new(), 0));
    assert_eq!(value_of::<String>(&[3, 0xed, 0xa0, 0x80]), (String::new(), 0));
    assert_eq!(value_of::<String>(&[2, 0xc0, 0x80]), (String::new(), 0));
}

#[test]
fn text_with_count_beyond_the_bytes_reads_as_empty() {
    assert_eq!(value_of::<String>(&[5, b'a', b'b']), (String::new(), 2));
    assert_eq!(value_of::<String>(&[1]), (String::new(), 0));
    assert_eq!(value_of::<String>(&[0xff, 0xff, 0x03, b'a']), (String::new(), 1));
    assert_eq!(value_of::<String>(&[2, b'a', b'b']), ("ab".to_string(), 0));
}

#[test]
fn sequence_with_count_beyond_the_bytes_reads_as_empty() {
    assert_eq!(value_of::<Vec<u8>>(&[3, 1]), (Vec::new(), 1));
    assert_eq!(value_of::<Vec<u32>>(&[200, 1, 7, 7]), (Vec::new(), 2));
    assert_eq!(value_of::<Vec<String>>(&[1]), (Vec::new(), 0));
}

#[test]
fn map_with_count_beyond_the_bytes_reads_as_empty() {
    assert_eq!(value_of::<HashMap<u8, u8>>(&[2, 1]), (HashMap::new(), 1));
    assert_eq!(value_of::<HashMap<String, i32>>(&[9, 1, b'a']), (HashMap::new(), 2));
}

#[test]
fn sequence_is_count_and_items() {
    assert_eq!(bytes_of(&vec![1u16, 2]), vec![2, 1, 0, 2, 0]);
    assert_eq!(bytes_of(&Vec::<u64>::new()), vec![0]);
    assert_eq!(bytes_of(&vec!["a".to_string(), String::new()]), vec![2, 1, b'a', 0]);
    assert_eq!(round_trip(&vec![3u8, 1, 4, 1, 5, 9, 2, 6]), vec![3u8, 1, 4, 1, 5, 9, 2, 6]);
    let many: Vec<u32> = (0..1000).collect();
    assert_eq!(round_trip(&many), many);
    let nested = vec![vec![1i8, -1], vec![], vec![0]];
    assert_eq!(round_trip(&nested), nested);
}

#[test]
fn sequence_counts_more_items_than_bytes_only_for_empty_items() {
    let units = vec![(), (), ()];
    assert_eq!(bytes_of(&units), vec![3]);
    assert_eq!(value_of::<Vec<()>>(&[3]), (Vec::new(), 0));
    assert_eq!(value_of::<Vec<()>>(&[3, 0, 0, 0]), (units, 3));
}

#[test]
fn item_count_within_the_bytes_is_read_even_where_items_run_out() {
    assert_eq!(value_of::<Vec<u32>>(&[2, 1, 0]), (vec![1, 0], 0));
    assert_eq!(value_of::<Vec<u16>>(&[3, 9, 0, 8]), (vec![9, 8, 0], 0));
}

#[test]
fn option_is_presence_byte_and_value() {
    assert_eq!(bytes_of(&Some(7u8)), vec![1, 7]);
    assert_eq!(bytes_of(&None::<u8>), vec![0]);
    assert_eq!(round_trip(&Some(Some(None::<u32>))), Some(Some(None)));
    assert_eq!(round_trip(&Some(None::<Option<u32>>)), Some(None));
    assert_eq!(round_trip(&None::<Option<Option<u32>>>), None);
    assert_eq!(value_of::<Option<u8>>(&[5, 9]), (Some(9), 0));
    assert_eq!(value_of::<Option<u8>>(&[]), (None, 0));
}

#[test]
fn box_adds_no_bytes() {
    assert_eq!(bytes_of(&Box::new(996i32)), bytes_of(&996i32));
    assert_eq!(round_trip(&Box::new("boxed".to_string())), Box::new("boxed".to_string()));
    assert_eq!(round_trip(&Box::new(Box::new(5u8))), Box::new(Box::new(5u8)));
}

#[test]
fn result_is_status_byte_and_value_or_message() {
    assert_eq!(bytes_of(&Result::<i32, String>::Ok(5)), vec![0, 5, 0, 0, 0]);
    assert_eq!(bytes_of(&Result::<i32, String>::Err("no".to_string())), vec![1, 2, b'n', b'o']);
    assert_eq!(round_trip(&Result::<u8, String>::Ok(1)), Ok(1));
    assert_eq!(round_trip(&Result::<u8, String>::Err("bad".to_string())), Err("bad".to_string()));
    assert_eq!(value_of::<Result<u8, String>>(&[9, 1, b'x']), (Err("x".to_string()), 0));
}

#[test]
fn tuple_is_its_components_in_order() {
    assert_eq!(bytes_of(&(1u8,)), vec![1]);
    assert_eq!(bytes_of(&(1u8, 2u16)), vec![1, 2, 0]);
    assert_eq!(bytes_of(&(true, "a".to_string(), ())), vec![1, 1, b'a']);
    let v = (1u8, "two".to_string(), 3i16, 4u32, "five".to_string());
    assert_eq!(round_trip(&v), v);
    let v = (1u8, 2u16, 3u32, 4u64, 5u128, 6i8, 7i16, 8i32, 9i64, 10i128, true, 'c');
    assert_eq!(round_trip(&v), v);
}

#[test]
fn twenty_components_survive_encoding() {
    let v = (
        1u8,
        2u16,
        3u32,
        4u64,
        5u128,
        -6i8,
        -7i16,
        -8i32,
        -9i64,
        -10i128,
        true,
        'x',
        "thirteen".to_string(),
        Some(14u8),
        vec![15u8],
        (),
        17usize,
        Box::new(18u8),
        None::<u8>,
        20u8,
    );
    let bytes = bytes_of(&v);
    let (w, left): (
        (
            u8,
            u16,
            u32,
            u64,
            u128,
            i8,
            i16,
            i32,
            i64,
            i128,
            bool,
            char,
            String,
            Option<u8>,
            Vec<u8>,
            (),
            usize,
            Box<u8>,
            Option<u8>,
            u8,
        ),
        usize,
    ) = value_of(&bytes);
    assert_eq!(left, 0);
    assert_eq!((w.0, w.1, w.2, w.3, w.4), (1, 2, 3, 4, 5));
    assert_eq!((w.5, w.6, w.7, w.8, w.9), (-6, -7, -8, -9, -10));
    assert_eq!((w.10, w.11, w.12, w.13, w.14), (true, 'x', "thirteen".to_string(), Some(14), vec![15]));
    assert_eq!((w.15, w.16, w.17, w.18, w.19), ((), 17, Box::new(18), None, 20));
}

#[test]
fn map_is_count_and_entries() {
    let mut one = HashMap::new();
    one.insert(7u8, 0x0102u16);
    assert_eq!(bytes_of(&one), vec![1, 7, 2, 1]);
    assert_eq!(bytes_of(&HashMap::<u8, u8>::new()), vec![0]);
    let mut m = HashMap::new();
    for i in 0..100u32 {
        m.insert(i, i.to_string());
    }
    let bytes = bytes_of(&m);
    assert_eq!(bytes[0], 100);
    assert_eq!(round_trip(&m), m);
}

#[test]
fn map_keeps_the_later_of_two_entries_with_one_key() {
    let (m, left) = value_of::<HashMap<u8, u8>>(&[2, 5, 1, 5, 2]);
    assert_eq!(left, 0);
    assert_eq!(m.len(), 1);
    assert_eq!(m[&5], 2);
}

#[test]
fn nested_values_survive_encoding() {
    let v: Option<Vec<(u8, String)>> = Some(vec![(1, "a".to_string()), (2, String::new())]);
    assert_eq!(round_trip(&v), v);
    let mut m: HashMap<String, Vec<Option<i64>>> = HashMap::new();
    m.insert("none".to_string(), vec![]);
    m.insert("some".to_string(), vec![Some(-1), None, Some(i64::MAX)]);
    assert_eq!(round_trip(&m), m);
    let v: Vec<HashMap<u8, (bool, char)>> = vec![HashMap::new(), {
        let mut m = HashMap::new();
        m.insert(1, (true, 'y'));
        m
    }];
    assert_eq!(round_trip(&v), v);
    let v: Result<Option<Box<Vec<u16>>>, String> = Ok(Some(Box::new(vec![1, 2, 3])));
    assert_eq!(round_trip(&v), v);
}

#[test]
fn values_follow_each_other_without_separators() {
    let mut q = ByteQue::new();
    1u8.store(&mut q);
    "two".to_string().store(&mut q);
    Some(3u16).store(&mut q);
    vec![4u8, 5].store(&mut q);
    assert_eq!(q.len(), 1 + 4 + 3 + 3);
    assert_eq!(u8::restore(&mut q), 1);
    assert_eq!(String::restore(&mut q), "two");
    assert_eq!(Option::<u16>::restore(&mut q), Some(3));
    assert_eq!(Vec::<u8>::restore(&mut q), vec![4, 5]);
    assert_eq!(q.len(), 0);
}
