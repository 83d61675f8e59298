//! Status code that can be received as a result of some ALP actions.
use vstd::prelude::*;

verus! {

/// Action received and partially completed at response. To be completed after response
pub const RECEIVED: u8 = 1;

pub const OK: u8 = 0;

pub const FILE_ID_MISSING: u8 = 0xFF;

pub const CREATE_FILE_ID_ALREADY_EXIST: u8 = 0xFE;

pub const FILE_IS_NOT_RESTORABLE: u8 = 0xFD;

pub const INSUFFICIENT_PERMISSION: u8 = 0xFC;

pub const CREATE_FILE_LENGTH_OVERFLOW: u8 = 0xFB;

pub const CREATE_FILE_ALLOCATION_OVERFLOW: u8 = 0xFA;

pub const WRITE_OFFSET_OVERFLOW: u8 = 0xF9;

pub const WRITE_DATA_OVERFLOW: u8 = 0xF8;

pub const WRITE_STORAGE_UNAVAILABLE: u8 = 0xF7;

pub const UNKNOWN_OPERATION: u8 = 0xF6;

pub const OPERAND_INCOMPLETE: u8 = 0xF5;

pub const OPERAND_WRONG_FORMAT: u8 = 0xF4;

pub const UNKNOWN_ERROR: u8 = 0x80;

} // verus!
