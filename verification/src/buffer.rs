//! The byte sink every serializer writes into.

use vstd::prelude::*;

verus! {

/// An append-only, growable byte destination.
///
/// Every `serialize` operation in this crate writes its wire encoding
/// into a `Buffer` owned by the caller. The sink only ever grows: both
/// operations promise that the previous contents stay in place and the
/// new bytes follow them.
pub trait Buffer {
    /// The bytes held by the sink, oldest first.
    spec fn contents(&self) -> Seq<u8>;

    /// Appends all of `data`, in order, after the current contents.
    fn extend_from_slice(&mut self, data: &[u8])
        ensures
            final(self).contents() == old(self).contents() + data@,
    ;

    /// Appends the single byte `byte` after the current contents.
    fn push_byte(&mut self, byte: u8)
        ensures
            final(self).contents() == old(self).contents().push(byte),
    ;
}

impl Buffer for Vec<u8> {
    open spec fn contents(&self) -> Seq<u8> {
        self@
    }

    fn extend_from_slice(&mut self, data: &[u8]) {
        let ghost pre = self@;
        Vec::<u8>::extend_from_slice(self, data);
        proof {
            assert forall|i: int| pre.len() <= i < self@.len() implies self@[i] == data@[i - pre.len()] by {
                assert(cloned::<u8>(data@[i - pre.len()], self@[i]));
            }
            assert(self@ =~= pre + data@);
        }
    }

    fn push_byte(&mut self, byte: u8) {
        self.push(byte);
    }
}

} // verus!
