//! Globally unique identifiers as the firmware lays them out in memory.

use vstd::prelude::*;
use vstd::std_specs::cmp::PartialEqSpecImpl;

verus! {

/// A 128-bit identifier, held as the sixteen bytes that the firmware stores.
///
/// The first three groups of the usual text form are little-endian in memory, so the
/// identifier written `8868e871-e4f1-11d3-bc22-0080c73c8881` starts with the bytes
/// `71 e8 68 88`.
#[derive(Clone, Copy, Debug)]
pub struct Guid {
    pub bytes: [u8; 16],
}

impl View for Guid {
    type V = Seq<u8>;

    open spec fn view(&self) -> Seq<u8> {
        self.bytes@
    }
}

impl Guid {
    /// Wraps sixteen bytes taken from firmware memory, in the order they were read.
    pub fn from_bytes(bytes: [u8; 16]) -> (guid: Guid)
        ensures
            guid@ == bytes@,
            guid.bytes == bytes,
    {
        Guid { bytes }
    }

    /// The sixteen bytes, in memory order.
    pub fn to_bytes(&self) -> (bytes: [u8; 16])
        ensures
            bytes@ == self@,
            bytes == self.bytes,
    {
        self.bytes
    }
}

impl PartialEq for Guid {
    fn eq(&self, other: &Guid) -> (same: bool) {
        let mut i: usize = 0;
        while i < 16
            invariant
                i <= 16,
                forall|k: int| 0 <= k < i ==> self.bytes@[k] == other.bytes@[k],
            decreases 16 - i,
        {
            if self.bytes[i] != other.bytes[i] {
                return false;
            }
            i += 1;
        }
        assert(self.bytes@ =~= other.bytes@);
        true
    }
}

impl PartialEqSpecImpl for Guid {
    open spec fn obeys_eq_spec() -> bool {
        true
    }

    open spec fn eq_spec(&self, other: &Guid) -> bool {
        self@ == other@
    }
}

impl Eq for Guid {

}

/// Two identifiers with the same bytes are the same identifier.
pub proof fn lemma_guid_view_injective(a: Guid, b: Guid)
    ensures
        a@ == b@ <==> a == b,
{
    if a@ == b@ {
        assert(a.bytes =~= b.bytes);
    }
}

} // verus!
