//! Operand types shared by the actions.
use vstd::prelude::*;

verus! {

/// Identifier of a file of the Dash7 file system.
#[derive(Copy, Clone, Eq, PartialEq, Ord, PartialOrd, Hash, Debug)]
pub struct FileId(pub u8);

impl FileId {
    pub fn new(n: u8) -> (r: Self)
        ensures
            r.0 == n,
    {
        Self(n)
    }

    pub fn u8(self) -> (r: u8)
        ensures
            r == self.0,
    {
        let FileId(fid) = self;
        fid
    }
}

} // verus!
