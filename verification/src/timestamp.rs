//! The opaque instant datatype that timestamp-family fields embed.

use vstd::prelude::*;
use crate::buffer::Buffer;

verus! {

/// An instant in time, treated by this codec layer as an opaque
/// primitive: it carries its own wire bytes and serializes by
/// appending exactly those bytes. The surrounding datatype framework
/// owns the instant's grammar; nothing here interprets it.
#[derive(Debug, Eq)]
pub struct Timestamp {
    wire: Vec<u8>,
}

/// Byte-for-byte equality of two slices.
fn bytes_eq(a: &[u8], b: &[u8]) -> (r: bool)
    ensures
        r == (a@ == b@),
{
    if a.len() != b.len() {
        return false;
    }
    let mut i: usize = 0;
    while i < a.len()
        invariant
            i <= a@.len(),
            a@.len() == b@.len(),
            forall|k: int| 0 <= k < i ==> a@[k] == b@[k],
        decreases a@.len() - i,
    {
        if a[i] != b[i] {
            return false;
        }
        i += 1;
    }
    proof {
        assert(a@ =~= b@);
    }
    true
}

impl View for Timestamp {
    type V = Seq<u8>;

    closed spec fn view(&self) -> Seq<u8> {
        self.wire@
    }
}

impl Timestamp {
    /// Wraps already-encoded wire bytes as an instant.
    pub fn from_wire(wire: Vec<u8>) -> (r: Self)
        ensures
            r@ == wire@,
    {
        Timestamp { wire }
    }

    /// The wire bytes of this instant, borrowed.
    pub fn as_bytes(&self) -> (r: &[u8])
        ensures
            r@ == self@,
    {
        self.wire.as_slice()
    }

    /// Appends this instant's wire encoding to `buffer` and returns
    /// the number of bytes written.
    pub fn serialize<B: Buffer>(&self, buffer: &mut B) -> (n: usize)
        ensures
            final(buffer).contents() == old(buffer).contents() + self@,
            n == self@.len(),
    {
        buffer.extend_from_slice(self.wire.as_slice());
        self.wire.len()
    }
}

impl PartialEq for Timestamp {
    fn eq(&self, other: &Self) -> (r: bool) {
        bytes_eq(self.wire.as_slice(), other.wire.as_slice())
    }
}

impl vstd::std_specs::cmp::PartialEqSpecImpl for Timestamp {
    open spec fn obeys_eq_spec() -> bool {
        true
    }

    open spec fn eq_spec(&self, other: &Timestamp) -> bool {
        self@ == other@
    }
}

impl Clone for Timestamp {
    /// The copy carries the same wire bytes as the source value.
    fn clone(&self) -> (r: Self)
        ensures
            r@ == self@,
    {
        let wire = self.wire.clone();
        proof {
            assert forall|i: int| 0 <= i < wire@.len() implies wire@[i] == self.wire@[i] by {
                assert(cloned::<u8>(self.wire@[i], wire@[i]));
            }
            assert(wire@ =~= self.wire@);
        }
        Timestamp { wire }
    }
}

} // verus!
