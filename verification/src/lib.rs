//! Datatype codec layer for FIX tag-value messages.
//!
//! The library owns the pure conversion logic between in-memory field
//! values and their tag-value ASCII wire representation: byte-exact
//! encoding into a caller-supplied byte sink, and strict or lossy
//! decoding of a field's raw value bytes. Message framing, session
//! behaviour and dictionary handling are collaborators that call into
//! these codecs; they are not part of this crate.

pub mod buffer;
pub mod checksum;
pub mod error;
pub mod field;
pub mod timestamp;
pub mod tz_timestamp;
