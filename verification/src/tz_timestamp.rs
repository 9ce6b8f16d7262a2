//! A timestamp qualified by a UTC flag and a timezone offset.

use vstd::prelude::*;
use crate::buffer::Buffer;
use crate::error;
use crate::field::DataField;
use crate::timestamp::Timestamp;

verus! {

/// A composite field value: an owned instant, a flag saying whether it
/// is expressed in UTC, and a timezone offset in whole seconds.
///
/// When `is_utc` is set, the offset carries no meaning for the inner
/// instant's interpretation. Only the inner instant's encoding reaches
/// the wire: the offset and the flag are accessible in memory but are
/// not serialized on this path (see `DataField::serialize` below).
#[derive(Debug, Eq)]
pub struct TzTimestamp {
    timestamp: Timestamp,
    is_utc: bool,
    tz_offset_secs: u32,
}

impl TzTimestamp {
    /// The wire bytes of the embedded instant.
    pub closed spec fn spec_timestamp(&self) -> Seq<u8> {
        self.timestamp@
    }

    /// Whether the instant is expressed in UTC.
    pub closed spec fn spec_is_utc(&self) -> bool {
        self.is_utc
    }

    /// The timezone offset, in whole seconds.
    pub closed spec fn spec_tz_offset_secs(&self) -> u32 {
        self.tz_offset_secs
    }

    /// Assembles a timestamp-with-zone from its parts.
    pub fn new(timestamp: Timestamp, is_utc: bool, tz_offset_secs: u32) -> (r: Self)
        ensures
            r.spec_timestamp() == timestamp@,
            r.spec_is_utc() == is_utc,
            r.spec_tz_offset_secs() == tz_offset_secs,
    {
        TzTimestamp { timestamp, is_utc, tz_offset_secs }
    }

    /// Returns an owned copy of the embedded instant.
    pub fn timestamp(&self) -> (r: Timestamp)
        ensures
            r@ == self.spec_timestamp(),
    {
        self.timestamp.clone()
    }

    /// Returns the UTC flag.
    pub fn is_utc(&self) -> (r: bool)
        ensures
            r == self.spec_is_utc(),
    {
        self.is_utc
    }

    /// Returns the timezone offset in whole seconds.
    pub fn tz_offset_secs(&self) -> (r: u32)
        ensures
            r == self.spec_tz_offset_secs(),
    {
        self.tz_offset_secs
    }
}

impl PartialEq for TzTimestamp {
    fn eq(&self, other: &Self) -> (r: bool) {
        self.timestamp == other.timestamp && self.is_utc == other.is_utc
            && self.tz_offset_secs == other.tz_offset_secs
    }
}

impl vstd::std_specs::cmp::PartialEqSpecImpl for TzTimestamp {
    open spec fn obeys_eq_spec() -> bool {
        true
    }

    open spec fn eq_spec(&self, other: &TzTimestamp) -> bool {
        self.spec_timestamp() == other.spec_timestamp() && self.spec_is_utc()
            == other.spec_is_utc() && self.spec_tz_offset_secs() == other.spec_tz_offset_secs()
    }
}

impl Clone for TzTimestamp {
    /// The copy carries the same instant, flag and offset.
    fn clone(&self) -> (r: Self)
        ensures
            r.spec_timestamp() == self.spec_timestamp(),
            r.spec_is_utc() == self.spec_is_utc(),
            r.spec_tz_offset_secs() == self.spec_tz_offset_secs(),
    {
        TzTimestamp {
            timestamp: self.timestamp.clone(),
            is_utc: self.is_utc,
            tz_offset_secs: self.tz_offset_secs,
        }
    }
}

impl DataField for TzTimestamp {
    type Error = error::Timestamp;

    open spec fn wire(&self) -> Seq<u8> {
        self.spec_timestamp()
    }

    /// Delegates entirely to the embedded instant's own encoding: the
    /// offset and UTC flag stay in memory and do not reach the wire on
    /// this path.
    fn serialize<B: Buffer>(&self, buffer: &mut B) -> (n: usize) {
        let instant = self.timestamp();
        instant.serialize(buffer)
    }

    /// The wire grammar of a timezone-qualified instant is owned by
    /// the surrounding framework and is not defined here, so decoding
    /// reports an explicit `Unsupported` fault on every input rather
    /// than inventing a grammar.
    fn deserialize(_data: &[u8]) -> (r: Result<Self, Self::Error>)
        ensures
            r == Err::<TzTimestamp, error::Timestamp>(error::Timestamp::Unsupported),
    {
        Err(error::Timestamp::Unsupported)
    }
}

} // verus!
