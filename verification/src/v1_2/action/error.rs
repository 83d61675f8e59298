//! Error of the decoders that only check sizes and the op code.
use vstd::prelude::*;

verus! {

#[derive(Copy, Clone, Eq, PartialEq, Ord, PartialOrd, Hash, Debug)]
pub enum BasicDecodeError {
    MissingBytes(usize),
    BadOpCode,
}

} // verus!
