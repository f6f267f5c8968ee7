//! Fixed-size, stack-resident working storage for the accelerated path.
//! Both types clear their contents when dropped, whichever exit path let
//! them go out of scope, so no tag or message material outlives the call.

use vstd::prelude::*;

verus! {

broadcast use vstd::array::group_array_axioms;

/// Scratch holding the evolving 16-byte tag value while a seal or open call
/// runs on the accelerated path; zeroized on drop.
pub struct CalculatedTag {
    pub(crate) tag: [u8; 16],
}

impl CalculatedTag {
    /// The scratch tag's contents.
    pub closed spec fn spec_tag(&self) -> Seq<u8> {
        self.tag@
    }

    /// A zeroed scratch tag.
    pub(crate) fn new() -> (c: CalculatedTag)
        ensures
            c.tag@.len() == 16,
            forall|i: int| 0 <= i < 16 ==> c.tag@[i] == 0u8,
    {
        CalculatedTag { tag: [0u8; 16] }
    }
}

impl Drop for CalculatedTag {
    /// Every byte of the scratch tag is cleared, on every exit path.
    fn drop(&mut self)
        ensures
            final(self).spec_tag().len() == 16,
            forall|i: int| 0 <= i < 16 ==> final(self).spec_tag()[i] == 0u8,
        opens_invariants none
        no_unwind
    {
        self.tag = [0u8, 0u8, 0u8, 0u8, 0u8, 0u8, 0u8, 0u8, 0u8, 0u8, 0u8, 0u8, 0u8, 0u8, 0u8, 0u8];
    }
}

/// Staging area for the six-block batches handed to the universal hash by
/// the accelerated path; zeroized on drop.
pub struct HTable {
    pub(crate) htable: [u8; 96],
}

impl HTable {
    /// The staging area's contents.
    pub closed spec fn spec_htable(&self) -> Seq<u8> {
        self.htable@
    }

    /// A zeroed staging area of six blocks.
    pub(crate) fn new() -> (h: HTable)
        ensures
            h.htable@.len() == 96,
            forall|i: int| 0 <= i < 96 ==> h.htable@[i] == 0u8,
    {
        HTable { htable: [0u8; 96] }
    }
}

impl Drop for HTable {
    /// Every byte of the staging area is cleared, on every exit path.
    fn drop(&mut self)
        ensures
            final(self).spec_htable().len() == 96,
            forall|i: int| 0 <= i < 96 ==> final(self).spec_htable()[i] == 0u8,
        opens_invariants none
        no_unwind
    {
        self.htable = [
            0u8, 0u8, 0u8, 0u8, 0u8, 0u8, 0u8, 0u8, 0u8, 0u8, 0u8, 0u8, 0u8, 0u8, 0u8, 0u8,
            0u8, 0u8, 0u8, 0u8, 0u8, 0u8, 0u8, 0u8, 0u8, 0u8, 0u8, 0u8, 0u8, 0u8, 0u8, 0u8,
            0u8, 0u8, 0u8, 0u8, 0u8, 0u8, 0u8, 0u8, 0u8, 0u8, 0u8, 0u8, 0u8, 0u8, 0u8, 0u8,
            0u8, 0u8, 0u8, 0u8, 0u8, 0u8, 0u8, 0u8, 0u8, 0u8, 0u8, 0u8, 0u8, 0u8, 0u8, 0u8,
            0u8, 0u8, 0u8, 0u8, 0u8, 0u8, 0u8, 0u8, 0u8, 0u8, 0u8, 0u8, 0u8, 0u8, 0u8, 0u8,
            0u8, 0u8, 0u8, 0u8, 0u8, 0u8, 0u8, 0u8, 0u8, 0u8, 0u8, 0u8, 0u8, 0u8, 0u8, 0u8,
        ];
    }
}

} // verus!
