//! Levels of permission that can be requested.
use vstd::prelude::*;

verus! {

pub const USER: u8 = 0;

pub const ROOT: u8 = 1;

} // verus!
