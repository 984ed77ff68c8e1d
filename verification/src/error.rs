//! Failures of construction and of parsing.

use vstd::prelude::*;

verus! {

/// Why a byte array could not be built or read.
#[derive(Debug, Clone, Copy, PartialEq, Eq, Structural)]
pub enum Error {
    /// The payload is longer than the three-byte prefix can declare.
    LengthExceeded,
    /// The input ends before the prefix, or before the payload that the
    /// prefix declares.
    InsufficientData,
}

} // verus!
