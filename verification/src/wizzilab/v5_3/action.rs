//! Actions specific to the WizziLab firmware.
pub mod flow;

use vstd::prelude::*;

verus! {

/// Operation code of an action of the WizziLab firmware: those of the specification, and the
/// write file data flush, transmission status and flow actions.
#[derive(Clone, Copy, Debug, PartialEq, Eq, Structural)]
pub enum OpCode {
    Nop,
    ReadFileData,
    ReadFileProperties,
    WriteFileData,
    WriteFileDataFlush,
    WriteFileProperties,
    ActionQuery,
    BreakQuery,
    PermissionRequest,
    VerifyChecksum,
    ExistFile,
    CreateNewFile,
    DeleteFile,
    RestoreFile,
    FlushFile,
    CopyFile,
    ExecuteFile,
    ReturnFileData,
    ReturnFileProperties,
    Status,
    ResponseTag,
    TxStatus,
    Chunk,
    Logic,
    Forward,
    IndirectForward,
    RequestTag,
    Flow,
    Extension,
}

impl OpCode {
    /// Number of the op code.
    pub open spec fn spec_code(self) -> u8 {
        match self {
            Self::Nop => 0,
            Self::ReadFileData => 1,
            Self::ReadFileProperties => 2,
            Self::WriteFileData => 4,
            Self::WriteFileDataFlush => 5,
            Self::WriteFileProperties => 6,
            Self::ActionQuery => 8,
            Self::BreakQuery => 9,
            Self::PermissionRequest => 10,
            Self::VerifyChecksum => 11,
            Self::ExistFile => 16,
            Self::CreateNewFile => 17,
            Self::DeleteFile => 18,
            Self::RestoreFile => 19,
            Self::FlushFile => 20,
            Self::CopyFile => 23,
            Self::ExecuteFile => 31,
            Self::ReturnFileData => 32,
            Self::ReturnFileProperties => 33,
            Self::Status => 34,
            Self::ResponseTag => 35,
            Self::TxStatus => 38,
            Self::Chunk => 48,
            Self::Logic => 49,
            Self::Forward => 50,
            Self::IndirectForward => 51,
            Self::RequestTag => 52,
            Self::Flow => 54,
            Self::Extension => 63,
        }
    }

    /// The op code whose number is `n`, if there is one.
    pub open spec fn spec_from(n: u8) -> Option<Self> {
        match n {
            0 => Some(Self::Nop),
            1 => Some(Self::ReadFileData),
            2 => Some(Self::ReadFileProperties),
            4 => Some(Self::WriteFileData),
            5 => Some(Self::WriteFileDataFlush),
            6 => Some(Self::WriteFileProperties),
            8 => Some(Self::ActionQuery),
            9 => Some(Self::BreakQuery),
            10 => Some(Self::PermissionRequest),
            11 => Some(Self::VerifyChecksum),
            16 => Some(Self::ExistFile),
            17 => Some(Self::CreateNewFile),
            18 => Some(Self::DeleteFile),
            19 => Some(Self::RestoreFile),
            20 => Some(Self::FlushFile),
            23 => Some(Self::CopyFile),
            31 => Some(Self::ExecuteFile),
            32 => Some(Self::ReturnFileData),
            33 => Some(Self::ReturnFileProperties),
            34 => Some(Self::Status),
            35 => Some(Self::ResponseTag),
            38 => Some(Self::TxStatus),
            48 => Some(Self::Chunk),
            49 => Some(Self::Logic),
            50 => Some(Self::Forward),
            51 => Some(Self::IndirectForward),
            52 => Some(Self::RequestTag),
            54 => Some(Self::Flow),
            63 => Some(Self::Extension),
            _ => None,
        }
    }

    /// Short name of the op code.
    pub open spec fn spec_name(self) -> Seq<char> {
        match self {
            Self::Nop => "NOP"@,
            Self::ReadFileData => "R"@,
            Self::ReadFileProperties => "RP"@,
            Self::WriteFileData => "W"@,
            Self::WriteFileDataFlush => "WF"@,
            Self::WriteFileProperties => "WP"@,
            Self::ActionQuery => "AQ"@,
            Self::BreakQuery => "BQ"@,
            Self::PermissionRequest => "PRM"@,
            Self::VerifyChecksum => "VCS"@,
            Self::ExistFile => "HAS"@,
            Self::CreateNewFile => "NEW"@,
            Self::DeleteFile => "DEL"@,
            Self::RestoreFile => "RST"@,
            Self::FlushFile => "FLSH"@,
            Self::CopyFile => "CP"@,
            Self::ExecuteFile => "RUN"@,
            Self::ReturnFileData => "DATA"@,
            Self::ReturnFileProperties => "PROP"@,
            Self::Status => "S"@,
            Self::ResponseTag => "TAG"@,
            Self::TxStatus => "TXS"@,
            Self::Chunk => "CHK"@,
            Self::Logic => "LOG"@,
            Self::Forward => "FWD"@,
            Self::IndirectForward => "IFWD"@,
            Self::RequestTag => "RTAG"@,
            Self::Flow => "FLOW"@,
            Self::Extension => "EXT"@,
        }
    }

    pub fn code(self) -> (r: u8)
        ensures
            r == self.spec_code(),
    {
        match self {
            Self::Nop => 0,
            Self::ReadFileData => 1,
            Self::ReadFileProperties => 2,
            Self::WriteFileData => 4,
            Self::WriteFileDataFlush => 5,
            Self::WriteFileProperties => 6,
            Self::ActionQuery => 8,
            Self::BreakQuery => 9,
            Self::PermissionRequest => 10,
            Self::VerifyChecksum => 11,
            Self::ExistFile => 16,
            Self::CreateNewFile => 17,
            Self::DeleteFile => 18,
            Self::RestoreFile => 19,
            Self::FlushFile => 20,
            Self::CopyFile => 23,
            Self::ExecuteFile => 31,
            Self::ReturnFileData => 32,
            Self::ReturnFileProperties => 33,
            Self::Status => 34,
            Self::ResponseTag => 35,
            Self::TxStatus => 38,
            Self::Chunk => 48,
            Self::Logic => 49,
            Self::Forward => 50,
            Self::IndirectForward => 51,
            Self::RequestTag => 52,
            Self::Flow => 54,
            Self::Extension => 63,
        }
    }

    /// # Errors
    /// Fails with `n` itself when no op code has that number.
    pub fn from(n: u8) -> (r: Result<Self, u8>)
        ensures
            r matches Ok(op) ==> Self::spec_from(n) == Some(op),
            r matches Err(x) ==> Self::spec_from(n) is None && x == n,
    {
        match n {
            0 => Ok(Self::Nop),
            1 => Ok(Self::ReadFileData),
            2 => Ok(Self::ReadFileProperties),
            4 => Ok(Self::WriteFileData),
            5 => Ok(Self::WriteFileDataFlush),
            6 => Ok(Self::WriteFileProperties),
            8 => Ok(Self::ActionQuery),
            9 => Ok(Self::BreakQuery),
            10 => Ok(Self::PermissionRequest),
            11 => Ok(Self::VerifyChecksum),
            16 => Ok(Self::ExistFile),
            17 => Ok(Self::CreateNewFile),
            18 => Ok(Self::DeleteFile),
            19 => Ok(Self::RestoreFile),
            20 => Ok(Self::FlushFile),
            23 => Ok(Self::CopyFile),
            31 => Ok(Self::ExecuteFile),
            32 => Ok(Self::ReturnFileData),
            33 => Ok(Self::ReturnFileProperties),
            34 => Ok(Self::Status),
            35 => Ok(Self::ResponseTag),
            38 => Ok(Self::TxStatus),
            48 => Ok(Self::Chunk),
            49 => Ok(Self::Logic),
            50 => Ok(Self::Forward),
            51 => Ok(Self::IndirectForward),
            52 => Ok(Self::RequestTag),
            54 => Ok(Self::Flow),
            63 => Ok(Self::Extension),
            x => Err(x),
        }
    }

    /// Short name of the op code, as printed in front of an action.
    pub fn name(self) -> (r: &'static str)
        ensures
            r@ == self.spec_name(),
    {
        match self {
            Self::Nop => "NOP",
            Self::ReadFileData => "R",
            Self::ReadFileProperties => "RP",
            Self::WriteFileData => "W",
            Self::WriteFileDataFlush => "WF",
            Self::WriteFileProperties => "WP",
            Self::ActionQuery => "AQ",
            Self::BreakQuery => "BQ",
            Self::PermissionRequest => "PRM",
            Self::VerifyChecksum => "VCS",
            Self::ExistFile => "HAS",
            Self::CreateNewFile => "NEW",
            Self::DeleteFile => "DEL",
            Self::RestoreFile => "RST",
            Self::FlushFile => "FLSH",
            Self::CopyFile => "CP",
            Self::ExecuteFile => "RUN",
            Self::ReturnFileData => "DATA",
            Self::ReturnFileProperties => "PROP",
            Self::Status => "S",
            Self::ResponseTag => "TAG",
            Self::TxStatus => "TXS",
            Self::Chunk => "CHK",
            Self::Logic => "LOG",
            Self::Forward => "FWD",
            Self::IndirectForward => "IFWD",
            Self::RequestTag => "RTAG",
            Self::Flow => "FLOW",
            Self::Extension => "EXT",
        }
    }
}

/// Reading an op code back from its number gives it back.
pub proof fn lemma_op_code_roundtrip(op: OpCode)
    ensures
        OpCode::spec_from(op.spec_code()) == Some(op),
        op.spec_code() < 64,
{
}

/// Each op code has the number that the WizziLab specification gives it (no operation 0, read
/// file data 1, ..., extension 63); decoding a number gives the op code of that number.
pub proof fn lemma_op_code_numbers()
    ensures
        OpCode::Nop.spec_code() == 0,
        OpCode::ReadFileData.spec_code() == 1,
        OpCode::ReadFileProperties.spec_code() == 2,
        OpCode::WriteFileData.spec_code() == 4,
        OpCode::WriteFileDataFlush.spec_code() == 5,
        OpCode::WriteFileProperties.spec_code() == 6,
        OpCode::ActionQuery.spec_code() == 8,
        OpCode::BreakQuery.spec_code() == 9,
        OpCode::PermissionRequest.spec_code() == 10,
        OpCode::VerifyChecksum.spec_code() == 11,
        OpCode::ExistFile.spec_code() == 16,
        OpCode::CreateNewFile.spec_code() == 17,
        OpCode::DeleteFile.spec_code() == 18,
        OpCode::RestoreFile.spec_code() == 19,
        OpCode::FlushFile.spec_code() == 20,
        OpCode::CopyFile.spec_code() == 23,
        OpCode::ExecuteFile.spec_code() == 31,
        OpCode::ReturnFileData.spec_code() == 32,
        OpCode::ReturnFileProperties.spec_code() == 33,
        OpCode::Status.spec_code() == 34,
        OpCode::ResponseTag.spec_code() == 35,
        OpCode::TxStatus.spec_code() == 38,
        OpCode::Chunk.spec_code() == 48,
        OpCode::Logic.spec_code() == 49,
        OpCode::Forward.spec_code() == 50,
        OpCode::IndirectForward.spec_code() == 51,
        OpCode::RequestTag.spec_code() == 52,
        OpCode::Flow.spec_code() == 54,
        OpCode::Extension.spec_code() == 63,
        forall|n: u8| (#[trigger] OpCode::spec_from(n)) matches Some(op) ==> op.spec_code() == n,
{
}

/// The short name printed for each op code.
pub proof fn lemma_op_code_names()
    ensures
        OpCode::Nop.spec_name() == seq!['N', 'O', 'P'],
        OpCode::ReadFileData.spec_name() == seq!['R'],
        OpCode::ReadFileProperties.spec_name() == seq!['R', 'P'],
        OpCode::WriteFileData.spec_name() == seq!['W'],
        OpCode::WriteFileDataFlush.spec_name() == seq!['W', 'F'],
        OpCode::WriteFileProperties.spec_name() == seq!['W', 'P'],
        OpCode::ActionQuery.spec_name() == seq!['A', 'Q'],
        OpCode::BreakQuery.spec_name() == seq!['B', 'Q'],
        OpCode::PermissionRequest.spec_name() == seq!['P', 'R', 'M'],
        OpCode::VerifyChecksum.spec_name() == seq!['V', 'C', 'S'],
        OpCode::ExistFile.spec_name() == seq!['H', 'A', 'S'],
        OpCode::CreateNewFile.spec_name() == seq!['N', 'E', 'W'],
        OpCode::DeleteFile.spec_name() == seq!['D', 'E', 'L'],
        OpCode::RestoreFile.spec_name() == seq!['R', 'S', 'T'],
        OpCode::FlushFile.spec_name() == seq!['F', 'L', 'S', 'H'],
        OpCode::CopyFile.spec_name() == seq!['C', 'P'],
        OpCode::ExecuteFile.spec_name() == seq!['R', 'U', 'N'],
        OpCode::ReturnFileData.spec_name() == seq!['D', 'A', 'T', 'A'],
        OpCode::ReturnFileProperties.spec_name() == seq!['P', 'R', 'O', 'P'],
        OpCode::Status.spec_name() == seq!['S'],
        OpCode::ResponseTag.spec_name() == seq!['T', 'A', 'G'],
        OpCode::TxStatus.spec_name() == seq!['T', 'X', 'S'],
        OpCode::Chunk.spec_name() == seq!['C', 'H', 'K'],
        OpCode::Logic.spec_name() == seq!['L', 'O', 'G'],
        OpCode::Forward.spec_name() == seq!['F', 'W', 'D'],
        OpCode::IndirectForward.spec_name() == seq!['I', 'F', 'W', 'D'],
        OpCode::RequestTag.spec_name() == seq!['R', 'T', 'A', 'G'],
        OpCode::Flow.spec_name() == seq!['F', 'L', 'O', 'W'],
        OpCode::Extension.spec_name() == seq!['E', 'X', 'T'],
{
    reveal_strlit("AQ");
    reveal_strlit("BQ");
    reveal_strlit("CHK");
    reveal_strlit("CP");
    reveal_strlit("DATA");
    reveal_strlit("DEL");
    reveal_strlit("EXT");
    reveal_strlit("FLOW");
    reveal_strlit("FLSH");
    reveal_strlit("FWD");
    reveal_strlit("HAS");
    reveal_strlit("IFWD");
    reveal_strlit("LOG");
    reveal_strlit("NEW");
    reveal_strlit("NOP");
    reveal_strlit("PRM");
    reveal_strlit("PROP");
    reveal_strlit("R");
    reveal_strlit("RP");
    reveal_strlit("RST");
    reveal_strlit("RTAG");
    reveal_strlit("RUN");
    reveal_strlit("S");
    reveal_strlit("TAG");
    reveal_strlit("TXS");
    reveal_strlit("VCS");
    reveal_strlit("W");
    reveal_strlit("WF");
    reveal_strlit("WP");
}

} // verus!
