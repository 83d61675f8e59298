//! Bit flags found in the first byte of actions and operands.
use vstd::prelude::*;

verus! {

// Standard action flags
pub const GROUP: u8 = 0x80;

pub const RESPONSE: u8 = 0x40;

// Tag action flags
pub const END_OF_PACKET: u8 = 0x80;

pub const ERROR: u8 = 0x40;

// Chunk action flags
pub const CHUNK_CONTINUE: u8 = 0x00;

pub const CHUNK_START: u8 = 0x40;

pub const CHUNK_END: u8 = 0x80;

pub const CHUNK_START_END: u8 = 0xC0;

// Logic action flags
pub const LOGIC_OR: u8 = 0x00;

pub const LOGIC_XOR: u8 = 0x40;

pub const LOGIC_NOR: u8 = 0x80;

pub const LOGIC_NAND: u8 = 0xC0;

// Indirect forward
pub const OVERLOAD: u8 = 0x80;

// Status flags
pub const STATUS_ACTION: u8 = 0x00;

pub const STATUS_INTERFACE: u8 = 0x40;

// Queries
pub const QUERY_MASK: u8 = 0x10;

pub const QUERY_SIGNED_DATA: u8 = 0x08;

pub const QUERY_COMPARISON_TYPE: u8 = 0x07;

/// First byte of an action: its op code on the 6 low bits and two flags above.
pub open spec fn ctrl_byte(op: u8, flag7: bool, flag6: bool) -> u8 {
    (op | (if flag7 {
        0x80u8
    } else {
        0u8
    }) | (if flag6 {
        0x40u8
    } else {
        0u8
    })) as u8
}

/// First byte of an action: its op code on the 6 low bits and two flags above.
pub fn control_byte(op: u8, flag7: bool, flag6: bool) -> (r: u8)
    ensures
        r == ctrl_byte(op, flag7, flag6),
{
    op | if flag7 {
        0x80
    } else {
        0
    } | if flag6 {
        0x40
    } else {
        0
    }
}

/// `b` with the bits of `mask` set when `v` holds, cleared otherwise.
pub open spec fn with_flag(b: u8, mask: u8, v: bool) -> u8 {
    if v {
        b | mask
    } else {
        b & !mask
    }
}

/// The fields of a control byte read back what was written in it.
pub proof fn lemma_ctrl_byte(op: u8, flag7: bool, flag6: bool)
    by (bit_vector)
    requires
        op < 64,
    ensures
        (ctrl_byte(op, flag7, flag6) & 0x80 != 0) == flag7,
        (ctrl_byte(op, flag7, flag6) & 0x40 != 0) == flag6,
        ctrl_byte(op, flag7, flag6) & 0x3F == op,
        ctrl_byte(op, flag7, flag6) % 64 == op,
{
}

/// Setting the high bit leaves the others unchanged.
pub proof fn lemma_flag7(b: u8, v: bool)
    by (bit_vector)
    ensures
        (with_flag(b, 0x80, v) & 0x80 != 0) == v,
        with_flag(b, 0x80, v) & 0x40 == b & 0x40,
        with_flag(b, 0x80, v) & 0x3F == b & 0x3F,
{
}

/// Setting the second high bit leaves the others unchanged.
pub proof fn lemma_flag6(b: u8, v: bool)
    by (bit_vector)
    ensures
        (with_flag(b, 0x40, v) & 0x40 != 0) == v,
        with_flag(b, 0x40, v) & 0x80 == b & 0x80,
        with_flag(b, 0x40, v) & 0x3F == b & 0x3F,
{
}

} // verus!
