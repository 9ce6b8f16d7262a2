//! Per-datatype decode error taxonomies.
//!
//! Each datatype owns a closed enumeration of the ways its strict or
//! lossy decoder can fail, so that callers can match on the exact
//! fault instead of a generic string.

use vstd::prelude::*;

verus! {

/// Ways a checksum field can fail to decode.
#[derive(Debug, Clone, Copy, PartialEq, Eq, Structural)]
pub enum CheckSum {
    /// The input slice was not exactly three bytes long.
    WrongLength,
    /// At least one input byte was outside `'0'..='9'` (strict decode only).
    NotAsciiDigits,
}

/// Ways a timestamp-family field can fail to decode.
#[derive(Debug, Clone, Copy, PartialEq, Eq, Structural)]
pub enum Timestamp {
    /// Decoding this datatype from the wire is not supported.
    Unsupported,
}

} // verus!
