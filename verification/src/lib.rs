//! Length-prefixed byte arrays of at most 2^24 - 1 bytes.
//!
//! On the wire a byte array is its length as three little-endian bytes
//! followed by the bytes themselves. [`B016M`] holds such an array, either
//! as a view into a buffer owned elsewhere or as a buffer of its own. A
//! value is obtained only from a constructor that checks the length, or by
//! parsing, so every value has a length that the three-byte prefix can
//! declare.
//!
//! The [`wire`] module states the format over mathematical sequences and
//! proves that framing and parsing are inverse to each other.

pub mod byte_array;
pub mod error;
pub mod inner;
pub mod wire;

pub use byte_array::B016M;
pub use error::Error;
pub use inner::Inner;
