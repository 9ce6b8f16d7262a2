//! The two codec capabilities that every FIX datatype implements.

use vstd::prelude::*;
use crate::buffer::Buffer;

verus! {

/// Codec capability for datatypes that map directly onto a contiguous
/// run of wire bytes (a primitive field).
///
/// `wire` is the mathematical wire encoding of a value; `serialize`
/// appends exactly those bytes to the sink and reports how many it
/// wrote, so callers can track body length without rescanning the
/// sink. Serialization of a well-formed in-memory value never fails.
/// The two decode operations are a strict and a lossy reading of a
/// field's raw value bytes; their exact grammars belong to each
/// implementation.
pub trait FixFieldValue: Sized {
    /// The closed set of faults this datatype's decoders can report.
    type Error;

    /// The wire encoding of `self`, as a mathematical byte sequence.
    spec fn wire(&self) -> Seq<u8>;

    /// Whether every wire encoding of this datatype is pure 7-bit ASCII.
    spec fn wire_is_ascii() -> bool;

    /// Capability flag: pure-ASCII encodings let higher layers compute
    /// length-prefixed fields without rescanning the bytes.
    fn is_ascii() -> (b: bool)
        ensures
            b == Self::wire_is_ascii(),
    ;

    /// The meaning of the `wire_is_ascii` flag: when it is set, no wire
    /// byte of any value has its high bit set.
    proof fn wire_ascii_ok(&self)
        ensures
            Self::wire_is_ascii() ==> forall|i: int|
                0 <= i < self.wire().len() ==> self.wire()[i] < 128,
    ;

    /// Appends the wire encoding of `self` to `buffer` and returns the
    /// number of bytes written.
    fn serialize<B: Buffer>(&self, buffer: &mut B) -> (n: usize)
        ensures
            final(buffer).contents() == old(buffer).contents() + self.wire(),
            n == self.wire().len(),
    ;

    /// Strict decode: rejects any input that does not exactly match
    /// this datatype's wire grammar.
    fn deserialize(data: &[u8]) -> (r: Result<Self, Self::Error>);

    /// Lossy decode: skips character-class validation on paths where
    /// the caller has already vetted the input, but still fails on
    /// structural violations such as a wrong length.
    fn deserialize_lossy(data: &[u8]) -> (r: Result<Self, Self::Error>);
}

/// Codec capability for datatypes assembled from one or more primitive
/// fields rather than being themselves a fixed byte grammar.
///
/// A composite may delegate its whole encoding to the primitive value
/// it wraps; `wire` is whatever byte sequence that delegation yields.
pub trait DataField: Sized {
    /// The closed set of faults this datatype's decoder can report.
    type Error;

    /// The wire encoding of `self`, as a mathematical byte sequence.
    spec fn wire(&self) -> Seq<u8>;

    /// Appends the wire encoding of `self` to `buffer` and returns the
    /// number of bytes written.
    fn serialize<B: Buffer>(&self, buffer: &mut B) -> (n: usize)
        ensures
            final(buffer).contents() == old(buffer).contents() + self.wire(),
            n == self.wire().len(),
    ;

    /// Decodes a value of this datatype from its raw wire bytes.
    fn deserialize(data: &[u8]) -> (r: Result<Self, Self::Error>);
}

} // verus!
