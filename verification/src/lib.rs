//! A minimal synchronous RPC runtime: a type-driven binary codec, a
//! length-delimited framing protocol and a name-indexed dispatch registry.

pub mod buf;
pub mod compound;
pub mod fixed;
pub mod fun;
pub mod handler;
pub mod map;
pub mod session;
pub mod store;
pub mod text;
pub mod tuples;
pub mod val;
pub mod varint;

pub use buf::{send_data, RecvBuf};
pub use fun::Fun;
pub use store::{RoundTrip, Store};
pub use val::ByteQue;
