use lrpc::{send_data, ByteQue, Fun, RecvBuf, Store};

#[test]
fn test_val() {
    let ref mut q = ByteQue::new();

    let v: usize = 65536;
    v.store(q);
    assert_eq!(v, usize::restore(q));

    for _ in 0..25 {
        0x80u8.store(q);
    }
    assert_eq!(usize::restore(q), 0);

    let ref mut q = ByteQue::new();

    let v: i8 = -1;
    v.store(q);
    assert_eq!(v, i8::restore(q));

    let v: i16 = -1;
    v.store(q);
    assert_eq!(v, i16::restore(q));

    let v: i32 = -1;
    v.store(q);
    assert_eq!(v, i32::restore(q));

    let v: i64 = -1;
    v.store(q);
    assert_eq!(v, i64::restore(q));

    let v: i128 = -1;
    v.store(q);
    assert_eq!(v, i128::restore(q));

    let v: f32 = -3.141592654;
    v.to_bits().store(q);
    assert_eq!(v, f32::from_bits(u32::restore(q)));

    let v: f64 = -3.141592654;
    v.to_bits().store(q);
    assert_eq!(v, f64::from_bits(u64::restore(q)));

    let v: bool = true;
    v.store(q);
    assert_eq!(v, bool::restore(q));

    let v: u8 = 255;
    v.store(q);
    assert_eq!(v, u8::restore(q));

    let v: u16 = 65535;
    v.store(q);
    assert_eq!(v, u16::restore(q));

    let v: u32 = 4294967295;
    v.store(q);
    assert_eq!(v, u32::restore(q));

    let v: u64 = 4294967295;
    v.store(q);
    assert_eq!(v, u64::restore(q));

    let v: u128 = 4294967295;
    v.store(q);
    assert_eq!(v, u128::restore(q));

    let v = '😄';
    v.store(q);
    assert_eq!(v, char::restore(q));

    let v = "welcome to 😄".to_string();
    v.store(q);
    assert_eq!(v, String::restore(q));

    let v = ();
    v.store(q);
    assert_eq!(v, <()>::restore(q));

    let v = Some("Hello World!".to_string());
    v.store(q);
    assert_eq!(v, Option::<String>::restore(q));

    let v: Option<String> = None;
    v.store(q);
    assert_eq!(v, Option::<String>::restore(q));

    let v = Box::new(996);
    v.store(q);
    assert_eq!(v, Box::<i32>::restore(q));

    let v = vec![
        "0".to_string(),
        "1".to_string(),
        "2".to_string(),
        "3".to_string(),
        "4".to_string(),
        "5".to_string(),
    ];
    v.store(q);
    assert_eq!(v, Vec::<String>::restore(q));

    let mut v = std::collections::HashMap::<String, i32>::new();
    v.insert("one".to_string(), 1);
    v.insert("two".to_string(), 2);
    v.insert("three".to_string(), 3);
    v.insert("four".to_string(), 4);
    v.insert("five".to_string(), 5);
    v.store(q);
    assert_eq!(v, std::collections::HashMap::<String, i32>::restore(q));

    let v = (1u8, "two".to_string(), 3i16, 4u32, "five".to_string());
    v.store(q);
    assert_eq!(v, Store::restore(q));
}

#[test]
fn test_fun() {
    fn adder(q: &mut ByteQue) -> ByteQue {
        let x = i32::restore(q);
        let y = i32::restore(q);
        let z = x + y;
        let mut r = ByteQue::new();
        if z == 0 {
            Result::<i32, String>::Err("parameter error".to_string()).store(&mut r);
        } else {
            Result::<i32, String>::Ok(z).store(&mut r);
        }
        r
    }
    let mut fun = Fun::new();
    fun.regist("adder", adder);
    let mut r = ByteQue::new();
    String::from("adder").store(&mut r);
    1.store(&mut r);
    1.store(&mut r);
    assert_eq!(Result::<i32, String>::restore(&mut fun.invoke(&mut r)), Ok(2));
}

struct Rectangle {
    width: u32,
    height: u32,
}

impl Store for Rectangle {
    type Model = ();

    fn store(&self, q: &mut ByteQue) {
        self.width.store(q);
        self.height.store(q);
    }

    fn restore(q: &mut ByteQue) -> Self {
        Rectangle { width: Store::restore(q), height: Store::restore(q) }
    }
}

struct Expiration<T: Store>(Option<T>);

impl<T: Store> Store for Expiration<T> {
    type Model = ();

    fn store(&self, q: &mut ByteQue) {
        self.0.store(q);
    }

    fn restore(q: &mut ByteQue) -> Self {
        Expiration(Store::restore(q))
    }
}

#[allow(dead_code)]
enum State {
    Prefix,
    StartDir,
    Body,
    Done,
}

impl Store for State {
    type Model = ();

    fn store(&self, q: &mut ByteQue) {
        match self {
            State::Prefix => 0usize.store(q),
            State::StartDir => 1usize.store(q),
            State::Body => 2usize.store(q),
            State::Done => 3usize.store(q),
        }
    }

    fn restore(q: &mut ByteQue) -> Self {
        match usize::restore(q) {
            0 => State::Prefix,
            1 => State::StartDir,
            2 => State::Body,
            _ => State::Done,
        }
    }
}

#[allow(dead_code)]
enum ReadStrategy<T: Store> {
    First,
    Second,
    Adaptive { decrease_now: bool, next: usize, max: usize },
    Exact(usize, T),
    Tail,
}

impl<T: Store> Store for ReadStrategy<T> {
    type Model = ();

    fn store(&self, q: &mut ByteQue) {
        match self {
            ReadStrategy::First => 0usize.store(q),
            ReadStrategy::Second => 1usize.store(q),
            ReadStrategy::Adaptive { decrease_now, next, max } => {
                2usize.store(q);
                decrease_now.store(q);
                next.store(q);
                max.store(q);
            }
            ReadStrategy::Exact(a, b) => {
                3usize.store(q);
                a.store(q);
                b.store(q);
            }
            ReadStrategy::Tail => 4usize.store(q),
        }
    }

    fn restore(q: &mut ByteQue) -> Self {
        match usize::restore(q) {
            0 => ReadStrategy::First,
            1 => ReadStrategy::Second,
            2 => ReadStrategy::Adaptive {
                decrease_now: Store::restore(q),
                next: Store::restore(q),
                max: Store::restore(q),
            },
            3 => ReadStrategy::Exact(Store::restore(q), Store::restore(q)),
            _ => ReadStrategy::Tail,
        }
    }
}

#[test]
fn test_derive_macros() {
    let mut q = ByteQue::new();

    let v1 = Rectangle { width: 800, height: 600 };
    v1.store(&mut q);
    let v2 = Rectangle::restore(&mut q);
    assert!(v1.width == v2.width && v1.height == v2.height);

    let v1: Expiration<i32> = Expiration(Some(18));
    v1.store(&mut q);
    let v2: Expiration<i32> = Store::restore(&mut q);
    assert_eq!(v1.0, v2.0);

    let v1 = State::Body;
    v1.store(&mut q);
    let v2 = State::restore(&mut q);
    assert!(matches!(v2, State::Body));

    let v1: ReadStrategy<String> = ReadStrategy::Adaptive { decrease_now: true, next: 1, max: 2 };
    v1.store(&mut q);
    let v2: ReadStrategy<String> = ReadStrategy::restore(&mut q);
    let v = match v2 {
        ReadStrategy::Adaptive { decrease_now, next, max } => (decrease_now, next, max),
        _ => (false, 0, 0),
    };
    assert!(v.0 && v.1 == 1 && v.2 == 2);
}

#[test]
fn test_buf() {
    let mut q = ByteQue::new();
    128u8.store(&mut q);
    let mut r = RecvBuf::new();
    r.append(Vec::<u8>::from(q).as_slice());
    assert_eq!(r.size(), None);

    let mut q = ByteQue::new();
    127u8.store(&mut q);
    let mut r = RecvBuf::new();
    r.append(Vec::<u8>::from(q).as_slice());
    assert_eq!(r.size(), Some(127));

    let mut q = ByteQue::new();
    2u8.store(&mut q);
    1u8.store(&mut q);
    2u8.store(&mut q);
    3u8.store(&mut q);
    4u8.store(&mut q);
    5u8.store(&mut q);
    let mut r = RecvBuf::new();
    r.append(Vec::<u8>::from(q).as_slice());
    assert_eq!(Vec::<u8>::from(ByteQue::from(r)), vec![1, 2]);

    let s = "hello world!".to_string();
    let mut q = ByteQue::new();
    s.store(&mut q);
    let v = send_data(q);
    assert!(v[0] == 13 && v[1] == 12);
    let mut r = RecvBuf::new();
    r.append(v.as_slice());
    let mut q = ByteQue::from(r);
    assert_eq!(String::restore(&mut q), s);
}
