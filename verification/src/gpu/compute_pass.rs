//! Indirect compute dispatches.

use vstd::prelude::*;

verus! {

/// The workgroup counts of one indirect compute dispatch, laid out as the
/// GPU reads them from a buffer.
#[derive(Clone, Copy, Debug, PartialEq, Eq, Structural)]
pub struct IndirectDispatchCommand {
    groupcount_x: u32,
    groupcount_y: u32,
    groupcount_z: u32,
}

impl IndirectDispatchCommand {
    /// The workgroup counts in the X, Y and Z dimensions.
    pub closed spec fn groupcounts_of(self) -> (u32, u32, u32) {
        (self.groupcount_x, self.groupcount_y, self.groupcount_z)
    }

    /// Dispatch `x` by `y` by `z` local workgroups.
    pub fn new(groupcounts: (u32, u32, u32)) -> (c: Self)
        ensures
            c.groupcounts_of() == groupcounts,
    {
        let (x, y, z) = groupcounts;
        IndirectDispatchCommand { groupcount_x: x, groupcount_y: y, groupcount_z: z }
    }

    /// The workgroup counts in the X, Y and Z dimensions.
    pub fn groupcounts(&self) -> (r: (u32, u32, u32))
        ensures
            r == self.groupcounts_of(),
    {
        (self.groupcount_x, self.groupcount_y, self.groupcount_z)
    }
}

} // verus!
