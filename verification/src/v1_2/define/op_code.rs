//! Operation codes of the actions.
use crate::v1_2::error::OpCodeError;
use vstd::prelude::*;

verus! {

// Nop
pub const NOP: u8 = 0;

// Read
pub const READ_FILE_DATA: u8 = 1;

pub const READ_FILE_PROPERTIES: u8 = 2;

// Write
pub const WRITE_FILE_DATA: u8 = 4;

pub const WRITE_FILE_PROPERTIES: u8 = 6;

pub const ACTION_QUERY: u8 = 8;

pub const BREAK_QUERY: u8 = 9;

pub const PERMISSION_REQUEST: u8 = 10;

pub const VERIFY_CHECKSUM: u8 = 11;

// Management
pub const EXIST_FILE: u8 = 16;

pub const CREATE_NEW_FILE: u8 = 17;

pub const DELETE_FILE: u8 = 18;

pub const RESTORE_FILE: u8 = 19;

pub const FLUSH_FILE: u8 = 20;

pub const COPY_FILE: u8 = 23;

pub const EXECUTE_FILE: u8 = 31;

// Response
pub const RETURN_FILE_DATA: u8 = 32;

pub const RETURN_FILE_PROPERTIES: u8 = 33;

pub const STATUS: u8 = 34;

pub const RESPONSE_TAG: u8 = 35;

// Special
pub const CHUNK: u8 = 48;

pub const LOGIC: u8 = 49;

pub const FORWARD: u8 = 50;

pub const INDIRECT_FORWARD: u8 = 51;

pub const REQUEST_TAG: u8 = 52;

pub const EXTENSION: u8 = 63;

/// Op codes of the actions this codec decodes.
#[derive(Copy, Clone, Eq, PartialEq, Ord, PartialOrd, Hash, Debug)]
pub enum OpCode {
    Nop,
    ReadFileData,
    ReadFileProperties,
    WriteFileData,
    ActionQuery,
    Status,
    Extension,
}

impl OpCode {
    /// Numeric value of the op code.
    pub open spec fn spec_code(self) -> u8 {
        match self {
            OpCode::Nop => NOP,
            OpCode::ReadFileData => READ_FILE_DATA,
            OpCode::ReadFileProperties => READ_FILE_PROPERTIES,
            OpCode::WriteFileData => WRITE_FILE_DATA,
            OpCode::ActionQuery => ACTION_QUERY,
            OpCode::Status => STATUS,
            OpCode::Extension => EXTENSION,
        }
    }

    /// Numeric value of the op code.
    pub fn code(self) -> (r: u8)
        ensures
            r == self.spec_code(),
    {
        match self {
            OpCode::Nop => NOP,
            OpCode::ReadFileData => READ_FILE_DATA,
            OpCode::ReadFileProperties => READ_FILE_PROPERTIES,
            OpCode::WriteFileData => WRITE_FILE_DATA,
            OpCode::ActionQuery => ACTION_QUERY,
            OpCode::Status => STATUS,
            OpCode::Extension => EXTENSION,
        }
    }

    /// Op code decoded from `n`, if it is supported.
    pub open spec fn spec_from(n: u8) -> Option<OpCode> {
        if n == NOP {
            Some(OpCode::Nop)
        } else if n == READ_FILE_DATA {
            Some(OpCode::ReadFileData)
        } else if n == READ_FILE_PROPERTIES {
            Some(OpCode::ReadFileProperties)
        } else if n == WRITE_FILE_DATA {
            Some(OpCode::WriteFileData)
        } else if n == ACTION_QUERY {
            Some(OpCode::ActionQuery)
        } else if n == STATUS {
            Some(OpCode::Status)
        } else {
            None
        }
    }

    /// Decodes an op code that is known to fit on 6 bits.
    ///
    /// An unsupported code gives `Nop`.
    pub fn from_unchecked(n: u8) -> (r: Self)
        requires
            n <= 0x3F,
        ensures
            r == (match Self::spec_from(n) {
                Some(op) => op,
                None => OpCode::Nop,
            }),
    {
        match n {
            NOP => Self::Nop,
            READ_FILE_DATA => Self::ReadFileData,
            READ_FILE_PROPERTIES => Self::ReadFileProperties,
            WRITE_FILE_DATA => Self::WriteFileData,
            ACTION_QUERY => Self::ActionQuery,
            STATUS => Self::Status,
            _ => Self::Nop,
        }
    }

    /// # Errors
    /// Returns an error if n > 7: `Unsupported` up to the largest 6 bits code, `Invalid`
    /// above; a code up to 7 that is not decoded gives `Unsupported` as well.
    pub fn from(n: u8) -> (r: Result<Self, OpCodeError>)
        ensures
            n <= 7 ==> (Self::spec_from(n) matches Some(op) ==> r == Ok::<Self, OpCodeError>(op)),
            (n > 7 || Self::spec_from(n) is None) && n <= 0x3F ==> r == Err::<Self, OpCodeError>(
                OpCodeError::Unsupported { code: n },
            ),
            n > 0x3F ==> r == Err::<Self, OpCodeError>(OpCodeError::Invalid),
    {
        match n {
            NOP => Ok(Self::Nop),
            READ_FILE_DATA => Ok(Self::ReadFileData),
            READ_FILE_PROPERTIES => Ok(Self::ReadFileProperties),
            WRITE_FILE_DATA => Ok(Self::WriteFileData),
            _ => {
                if n <= 0x3F {
                    Err(OpCodeError::Unsupported { code: n })
                } else {
                    Err(OpCodeError::Invalid)
                }
            },
        }
    }
}

/// Decoding the value of a decodable op code gives it back.
pub proof fn lemma_op_code_roundtrip(op: OpCode)
    requires
        op != OpCode::Extension,
    ensures
        OpCode::spec_from(op.spec_code()) == Some(op),
{
}

/// The op codes of this table have the numbers that ALP gives them: no operation 0, read file
/// data 1, read file properties 2, write file data 4, action query 8, status 34, extension
/// 63; decoding a number gives the op code of that number.
pub proof fn lemma_op_code_numbers()
    ensures
        OpCode::Nop.spec_code() == 0,
        OpCode::ReadFileData.spec_code() == 1,
        OpCode::ReadFileProperties.spec_code() == 2,
        OpCode::WriteFileData.spec_code() == 4,
        OpCode::ActionQuery.spec_code() == 8,
        OpCode::Status.spec_code() == 34,
        OpCode::Extension.spec_code() == 63,
        forall|n: u8| (#[trigger] OpCode::spec_from(n)) matches Some(op) ==> op.spec_code() == n,
{
}

} // verus!
