//! Actions of the protocol.
pub mod chunk;
pub mod copy_file;
pub mod defines;
pub mod error;
pub mod file_id_action;
pub mod file_properties_action;
pub mod indirect_forward;
pub mod logic;
pub mod nop;
pub mod permission_request;
pub mod query;
pub mod query_action;
pub mod read_file_data;
pub mod read_file_properties;
pub mod response_tag;
pub mod status;
pub mod text;
pub mod write_file_data;

pub use chunk::Chunk;
pub use copy_file::CopyFile;
pub use file_id_action::{DeleteFile, ExecuteFile, ExistFile, FlushFile, RestoreFile};
pub use indirect_forward::IndirectForward;
pub use logic::Logic;
pub use permission_request::PermissionRequest;
pub use response_tag::ResponseTag;

use crate::codec::{StdError, WithOffset, WithSize};
use crate::decodable::{splice, tail, written_at_head, SizeError};
use crate::varint;
use crate::v1_2::dash7::interface_status::nls_consistent;
use crate::v1_2::define::flag::{control_byte, ctrl_byte, lemma_ctrl_byte};
use crate::v1_2::define::op_code;
use crate::v1_2::error::{QuerySizeError, StatusSizeError};
use crate::v1_2::operand::indirect_interface::{IndirectInterface, OverloadedIndirectInterface};
use crate::v1_2::operand::permission::{PermissionDecodingError, DASH7_ID};
use chunk::ChunkStep;
use file_properties_action::FilePropertiesAction;
use nop::NopRef;
use query::action_query::{
    spec_action_decodable, spec_action_size, ActionQueryRef, DecodedActionQueryRef,
};
use read_file_data::ReadFileDataRef;
use read_file_properties::ReadFilePropertiesRef;
use status::define::extension::INTERFACE;
use status::interface::StatusInterfaceRef;
use status::StatusRef;
use vstd::prelude::*;
use write_file_data::WriteFileDataRef;

verus! {

/// Operation code of an action, held by the six low bits of its first byte.
#[derive(Clone, Copy, Debug, PartialEq, Eq, Structural)]
pub enum OpCode {
    // Nop
    Nop,
    // Read
    ReadFileData,
    ReadFileProperties,
    // Write
    WriteFileData,
    WriteFileProperties,
    ActionQuery,
    BreakQuery,
    PermissionRequest,
    VerifyChecksum,
    // Management
    ExistFile,
    CreateNewFile,
    DeleteFile,
    RestoreFile,
    FlushFile,
    CopyFile,
    ExecuteFile,
    // Response
    ReturnFileData,
    ReturnFileProperties,
    Status,
    ResponseTag,
    // Special
    Chunk,
    Logic,
    Forward,
    IndirectForward,
    RequestTag,
    Extension,
}

impl OpCode {
    /// Number of the op code.
    pub open spec fn spec_code(self) -> u8 {
        match self {
            Self::Nop => 0,
            Self::ReadFileData => 1,
            Self::ReadFileProperties => 2,
            Self::WriteFileData => 4,
            Self::WriteFileProperties => 6,
            Self::ActionQuery => 8,
            Self::BreakQuery => 9,
            Self::PermissionRequest => 10,
            Self::VerifyChecksum => 11,
            Self::ExistFile => 16,
            Self::CreateNewFile => 17,
            Self::DeleteFile => 18,
            Self::RestoreFile => 19,
            Self::FlushFile => 20,
            Self::CopyFile => 23,
            Self::ExecuteFile => 31,
            Self::ReturnFileData => 32,
            Self::ReturnFileProperties => 33,
            Self::Status => 34,
            Self::ResponseTag => 35,
            Self::Chunk => 48,
            Self::Logic => 49,
            Self::Forward => 50,
            Self::IndirectForward => 51,
            Self::RequestTag => 52,
            Self::Extension => 63,
        }
    }

    /// The op code whose number is `n`, if there is one.
    pub open spec fn spec_from(n: u8) -> Option<Self> {
        match n {
            0 => Some(Self::Nop),
            1 => Some(Self::ReadFileData),
            2 => Some(Self::ReadFileProperties),
            4 => Some(Self::WriteFileData),
            6 => Some(Self::WriteFileProperties),
            8 => Some(Self::ActionQuery),
            9 => Some(Self::BreakQuery),
            10 => Some(Self::PermissionRequest),
            11 => Some(Self::VerifyChecksum),
            16 => Some(Self::ExistFile),
            17 => Some(Self::CreateNewFile),
            18 => Some(Self::DeleteFile),
            19 => Some(Self::RestoreFile),
            20 => Some(Self::FlushFile),
            23 => Some(Self::CopyFile),
            31 => Some(Self::ExecuteFile),
            32 => Some(Self::ReturnFileData),
            33 => Some(Self::ReturnFileProperties),
            34 => Some(Self::Status),
            35 => Some(Self::ResponseTag),
            48 => Some(Self::Chunk),
            49 => Some(Self::Logic),
            50 => Some(Self::Forward),
            51 => Some(Self::IndirectForward),
            52 => Some(Self::RequestTag),
            63 => Some(Self::Extension),
            _ => None,
        }
    }

    pub fn code(self) -> (r: u8)
        ensures
            r == self.spec_code(),
    {
        match self {
            Self::Nop => 0,
            Self::ReadFileData => 1,
            Self::ReadFileProperties => 2,
            Self::WriteFileData => 4,
            Self::WriteFileProperties => 6,
            Self::ActionQuery => 8,
            Self::BreakQuery => 9,
            Self::PermissionRequest => 10,
            Self::VerifyChecksum => 11,
            Self::ExistFile => 16,
            Self::CreateNewFile => 17,
            Self::DeleteFile => 18,
            Self::RestoreFile => 19,
            Self::FlushFile => 20,
            Self::CopyFile => 23,
            Self::ExecuteFile => 31,
            Self::ReturnFileData => 32,
            Self::ReturnFileProperties => 33,
            Self::Status => 34,
            Self::ResponseTag => 35,
            Self::Chunk => 48,
            Self::Logic => 49,
            Self::Forward => 50,
            Self::IndirectForward => 51,
            Self::RequestTag => 52,
            Self::Extension => 63,
        }
    }

    /// # Errors
    /// Fails with `n` itself when no op code has that number.
    pub fn from(n: u8) -> (r: Result<Self, u8>)
        ensures
            r matches Ok(op) ==> Self::spec_from(n) == Some(op),
            r matches Err(x) ==> Self::spec_from(n) is None && x == n,
    {
        match n {
            0 => Ok(Self::Nop),
            1 => Ok(Self::ReadFileData),
            2 => Ok(Self::ReadFileProperties),
            4 => Ok(Self::WriteFileData),
            6 => Ok(Self::WriteFileProperties),
            8 => Ok(Self::ActionQuery),
            9 => Ok(Self::BreakQuery),
            10 => Ok(Self::PermissionRequest),
            11 => Ok(Self::VerifyChecksum),
            16 => Ok(Self::ExistFile),
            17 => Ok(Self::CreateNewFile),
            18 => Ok(Self::DeleteFile),
            19 => Ok(Self::RestoreFile),
            20 => Ok(Self::FlushFile),
            23 => Ok(Self::CopyFile),
            31 => Ok(Self::ExecuteFile),
            32 => Ok(Self::ReturnFileData),
            33 => Ok(Self::ReturnFileProperties),
            34 => Ok(Self::Status),
            35 => Ok(Self::ResponseTag),
            48 => Ok(Self::Chunk),
            49 => Ok(Self::Logic),
            50 => Ok(Self::Forward),
            51 => Ok(Self::IndirectForward),
            52 => Ok(Self::RequestTag),
            63 => Ok(Self::Extension),
            x => Err(x),
        }
    }

    /// Short name of the op code.
    pub open spec fn spec_name(self) -> Seq<char> {
        match self {
            Self::Nop => "NOP"@,
            Self::ReadFileData => "RD"@,
            Self::ReadFileProperties => "RDP"@,
            Self::WriteFileData => "WR"@,
            Self::WriteFileProperties => "WRP"@,
            Self::ActionQuery => "AQ"@,
            Self::BreakQuery => "BQ"@,
            Self::PermissionRequest => "PR"@,
            Self::VerifyChecksum => "VCS"@,
            Self::ExistFile => "HAS"@,
            Self::CreateNewFile => "NEW"@,
            Self::DeleteFile => "DEL"@,
            Self::RestoreFile => "RST"@,
            Self::FlushFile => "FLUSH"@,
            Self::CopyFile => "CP"@,
            Self::ExecuteFile => "RUN"@,
            Self::ReturnFileData => "DATA"@,
            Self::ReturnFileProperties => "PROP"@,
            Self::Status => "S"@,
            Self::ResponseTag => "TG"@,
            Self::Chunk => "CHK"@,
            Self::Logic => "LOG"@,
            Self::Forward => "FWD"@,
            Self::IndirectForward => "IFWD"@,
            Self::RequestTag => "RTG"@,
            Self::Extension => "EXT"@,
        }
    }

    /// Short name of the op code, as printed in front of an action.
    pub fn name(self) -> (r: &'static str)
        ensures
            r@ == self.spec_name(),
    {
        match self {
            Self::Nop => "NOP",
            Self::ReadFileData => "RD",
            Self::ReadFileProperties => "RDP",
            Self::WriteFileData => "WR",
            Self::WriteFileProperties => "WRP",
            Self::ActionQuery => "AQ",
            Self::BreakQuery => "BQ",
            Self::PermissionRequest => "PR",
            Self::VerifyChecksum => "VCS",
            Self::ExistFile => "HAS",
            Self::CreateNewFile => "NEW",
            Self::DeleteFile => "DEL",
            Self::RestoreFile => "RST",
            Self::FlushFile => "FLUSH",
            Self::CopyFile => "CP",
            Self::ExecuteFile => "RUN",
            Self::ReturnFileData => "DATA",
            Self::ReturnFileProperties => "PROP",
            Self::Status => "S",
            Self::ResponseTag => "TG",
            Self::Chunk => "CHK",
            Self::Logic => "LOG",
            Self::Forward => "FWD",
            Self::IndirectForward => "IFWD",
            Self::RequestTag => "RTG",
            Self::Extension => "EXT",
        }
    }
}

/// Reading an op code back from its number gives it back.
pub proof fn lemma_op_code_roundtrip(op: OpCode)
    ensures
        OpCode::spec_from(op.spec_code()) == Some(op),
        op.spec_code() < 64,
{
}

/// An op code read from a number has that number.
pub proof fn lemma_op_code_from_is_code(n: u8)
    ensures
        OpCode::spec_from(n) matches Some(op) ==> op.spec_code() == n,
{
}

/// Error of the decoders of the actions that read a file header.
#[derive(Debug, Copy, Clone, PartialEq, Eq)]
pub enum HeaderActionDecodingError {
    MissingBytes(usize),
    FileHeader(StdError),
}

/// Error of the validation of the operands of an action.
#[derive(Debug, Copy, Clone, PartialEq, Eq)]
pub enum OperandValidationError {
    /// Offset is too big to be encoded in a varint
    OffsetTooBig,
    /// Size is too big to be encoded in a varint
    SizeTooBig,
}

/// Error of the decoding of an action.
#[derive(Debug, Copy, Clone, PartialEq, Eq)]
pub enum ActionDecodingError<'data> {
    NoData,
    UnknownOpCode(u8),
    Nop(SizeError),
    ReadFileData(SizeError),
    ReadFileProperties(SizeError),
    WriteFileData(SizeError),
    ActionQuery(QuerySizeError<'data>),
    PermissionRequest(PermissionDecodingError),
    CopyFile(StdError),
    ExistFile(StdError),
    DeleteFile(StdError),
    RestoreFile(StdError),
    FlushFile(StdError),
    ExecuteFile(StdError),
    Status(StatusSizeError<'data>),
    ResponseTag(StdError),
    Chunk(StdError),
    Logic(StdError),
    IndirectForward(StdError),
    /// The op code is known but this library holds no layout for its action: forward and
    /// request tag.
    Unsupported(OpCode),
    WriteFileProperties(HeaderActionDecodingError),
    BreakQuery(QuerySizeError<'data>),
    VerifyChecksum(QuerySizeError<'data>),
    CreateNewFile(HeaderActionDecodingError),
    ReturnFileData(SizeError),
    ReturnFileProperties(HeaderActionDecodingError),
    Extension,
}

/// An ALP action. The actions whose fields are byte strings borrow them from the bytes they
/// were decoded from.
#[derive(Clone, Debug, PartialEq, Eq)]
pub enum Action<'data> {
    // Nop
    Nop(NopRef),
    // Read
    ReadFileData(ReadFileDataRef),
    ReadFileProperties(ReadFilePropertiesRef),
    // Write
    WriteFileData(WriteFileDataRef<'data>),
    ActionQuery(ActionQueryRef<'data>),
    PermissionRequest(PermissionRequest),
    // Management
    CopyFile(CopyFile),
    ExistFile(ExistFile),
    DeleteFile(DeleteFile),
    RestoreFile(RestoreFile),
    FlushFile(FlushFile),
    ExecuteFile(ExecuteFile),
    // Response
    Status(StatusRef),
    ResponseTag(ResponseTag),
    // Special
    Chunk(Chunk),
    Logic(Logic),
    IndirectForward(IndirectForward),
    /// Same fields as a write file properties action.
    WriteFileProperties(FilePropertiesAction),
    /// Same fields as a query action; the next group runs when the query fails.
    BreakQuery(ActionQueryRef<'data>),
    /// Same fields as a query action, on a checksum.
    VerifyChecksum(ActionQueryRef<'data>),
    CreateNewFile(FilePropertiesAction),
    /// Same fields as a write file data action, in a response.
    ReturnFileData(WriteFileDataRef<'data>),
    ReturnFileProperties(FilePropertiesAction),
}

/// `bytes` with the control byte of an action of op code `op` in place of its first byte.
pub open spec fn with_op_code(bytes: Seq<u8>, op: u8, group: bool, response: bool) -> Seq<u8> {
    bytes.update(0, ctrl_byte(op, group, response))
}

/// Writes the control byte of an action of op code `op` over the first byte of the action
/// `written` at the start of `out`.
fn set_op_code(out: &mut [u8], op: u8, group: bool, response: bool, Ghost(written): Ghost<Seq<u8>>)
    requires
        written.len() >= 1,
        exists|before: Seq<u8>| written_at_head(old(out)@, before, written),
    ensures
        forall|before: Seq<u8>|
            written_at_head(old(out)@, before, written) ==> written_at_head(
                final(out)@,
                before,
                with_op_code(written, op, group, response),
            ),
{
    out[0] = control_byte(op, group, response);
    assert forall|before: Seq<u8>| written_at_head(old(out)@, before, written) implies written_at_head(
        out@,
        before,
        with_op_code(written, op, group, response),
    ) by {
        assert(out@ =~= splice(before, 0, with_op_code(written, op, group, response)));
    }
}

/// An action whose control byte was replaced decodes as the one it was made from, but for its
/// op code.
pub proof fn lemma_with_op_code(bytes: Seq<u8>, op: u8, group: bool, response: bool, rest: Seq<u8>)
    requires
        bytes.len() >= 1,
        op < 64,
    ensures
        tail(with_op_code(bytes, op, group, response) + rest, 1) == tail(bytes + rest, 1),
        (with_op_code(bytes, op, group, response) + rest).len() == (bytes + rest).len(),
        (with_op_code(bytes, op, group, response) + rest)[0] == ctrl_byte(op, group, response),
        ctrl_byte(op, group, response) & 0x3F == op,
        (ctrl_byte(op, group, response) & 0x80 != 0) == group,
        (ctrl_byte(op, group, response) & 0x40 != 0) == response,
{
    lemma_ctrl_byte(op, group, response);
    assert(tail(with_op_code(bytes, op, group, response) + rest, 1) =~= tail(bytes + rest, 1));
}

/// Op code carried by the first byte of `data`.
pub open spec fn spec_op_code(data: Seq<u8>) -> Option<OpCode> {
    OpCode::spec_from(data[0] & 0x3F)
}

impl<'data> Action<'data> {
    pub open spec fn spec_op_code(self) -> OpCode {
        match self {
            Self::Nop(_) => OpCode::Nop,
            Self::ReadFileData(_) => OpCode::ReadFileData,
            Self::ReadFileProperties(_) => OpCode::ReadFileProperties,
            Self::WriteFileData(_) => OpCode::WriteFileData,
            Self::ActionQuery(_) => OpCode::ActionQuery,
            Self::PermissionRequest(_) => OpCode::PermissionRequest,
            Self::CopyFile(_) => OpCode::CopyFile,
            Self::ExistFile(_) => OpCode::ExistFile,
            Self::DeleteFile(_) => OpCode::DeleteFile,
            Self::RestoreFile(_) => OpCode::RestoreFile,
            Self::FlushFile(_) => OpCode::FlushFile,
            Self::ExecuteFile(_) => OpCode::ExecuteFile,
            Self::Status(_) => OpCode::Status,
            Self::ResponseTag(_) => OpCode::ResponseTag,
            Self::Chunk(_) => OpCode::Chunk,
            Self::Logic(_) => OpCode::Logic,
            Self::IndirectForward(_) => OpCode::IndirectForward,
            Self::WriteFileProperties(_) => OpCode::WriteFileProperties,
            Self::BreakQuery(_) => OpCode::BreakQuery,
            Self::VerifyChecksum(_) => OpCode::VerifyChecksum,
            Self::CreateNewFile(_) => OpCode::CreateNewFile,
            Self::ReturnFileData(_) => OpCode::ReturnFileData,
            Self::ReturnFileProperties(_) => OpCode::ReturnFileProperties,
        }
    }

    /// Bytes of the encoded action.
    pub open spec fn encoding(self) -> Seq<u8> {
        match self {
            Self::Nop(x) => x.encoding(),
            Self::ReadFileData(x) => x.encoding(),
            Self::ReadFileProperties(x) => x.encoding(),
            Self::WriteFileData(x) => x.encoding(),
            Self::ActionQuery(x) => x.encoding(),
            Self::PermissionRequest(x) => x.encoding(),
            Self::CopyFile(x) => x.encoding(),
            Self::ExistFile(x) => x.encoding(),
            Self::DeleteFile(x) => x.encoding(),
            Self::RestoreFile(x) => x.encoding(),
            Self::FlushFile(x) => x.encoding(),
            Self::ExecuteFile(x) => x.encoding(),
            Self::Status(x) => x.encoding(),
            Self::ResponseTag(x) => x.encoding(),
            Self::Chunk(x) => x.encoding(),
            Self::Logic(x) => x.encoding(),
            Self::IndirectForward(x) => x.encoding(),
            Self::WriteFileProperties(x) => x.encoding(op_code::WRITE_FILE_PROPERTIES),
            Self::BreakQuery(x) => with_op_code(x.encoding(), op_code::BREAK_QUERY, x.group, x.response),
            Self::VerifyChecksum(x) => with_op_code(x.encoding(), op_code::VERIFY_CHECKSUM, x.group, x.response),
            Self::CreateNewFile(x) => x.encoding(op_code::CREATE_NEW_FILE),
            Self::ReturnFileData(x) => with_op_code(x.encoding(), op_code::RETURN_FILE_DATA, x.group, x.response),
            Self::ReturnFileProperties(x) => x.encoding(op_code::RETURN_FILE_PROPERTIES),
        }
    }

    /// The action is small enough for its size to be counted.
    pub open spec fn measurable(self) -> bool {
        self matches Self::IndirectForward(x) ==> x.measurable()
    }

    /// `self` is the action encoded at the start of `data`.
    pub open spec fn decoded_from(self, data: Seq<u8>) -> bool {
        &&& spec_op_code(data) == Some(self.spec_op_code())
        &&& match self {
            Self::Nop(x) => x == NopRef::decoded(data),
            Self::ReadFileData(x) => x == ReadFileDataRef::decoded(data),
            Self::ReadFileProperties(x) => x == ReadFilePropertiesRef::decoded(data),
            Self::WriteFileData(x) => x.decoded_from(data),
            Self::ActionQuery(x) => x.decoded_from(data),
            Self::PermissionRequest(x) => x.decoded_from(data),
            Self::CopyFile(x) => x == CopyFile::decoded(data),
            Self::ExistFile(x) => x == ExistFile::decoded(data),
            Self::DeleteFile(x) => x == DeleteFile::decoded(data),
            Self::RestoreFile(x) => x == RestoreFile::decoded(data),
            Self::FlushFile(x) => x == FlushFile::decoded(data),
            Self::ExecuteFile(x) => x == ExecuteFile::decoded(data),
            Self::Status(x) => x.decoded_from(data),
            Self::ResponseTag(x) => x == ResponseTag::decoded(data),
            Self::Chunk(x) => x.step == ChunkStep::spec_from(data[0] >> 6u8),
            Self::Logic(x) => x == Logic::spec_from(data[0] >> 6u8),
            Self::IndirectForward(x) => x.resp == (data[0] & 0x40 != 0) && (x.interface matches
                IndirectInterface::Overloaded(v) && v.decoded_from(tail(data, 1))),
            Self::WriteFileProperties(x) => x == FilePropertiesAction::decoded(data),
            Self::BreakQuery(x) => x.decoded_from(data),
            Self::VerifyChecksum(x) => x.decoded_from(data),
            Self::CreateNewFile(x) => x == FilePropertiesAction::decoded(data),
            Self::ReturnFileData(x) => x.decoded_from(data),
            Self::ReturnFileProperties(x) => x == FilePropertiesAction::decoded(data),
        }
    }

    /// `data` starts with an action that decodes.
    pub open spec fn decodable(data: Seq<u8>) -> bool {
        &&& data.len() >= 1
        &&& match spec_op_code(data) {
            Some(OpCode::Nop) => NopRef::complete(data),
            Some(OpCode::ReadFileData) => ReadFileDataRef::complete(data),
            Some(OpCode::ReadFileProperties) => ReadFilePropertiesRef::complete(data),
            Some(OpCode::WriteFileData) => WriteFileDataRef::complete(data),
            Some(OpCode::ActionQuery) => spec_action_decodable(data),
            Some(OpCode::PermissionRequest) => data.len() >= 3 && data[2] == DASH7_ID,
            Some(OpCode::CopyFile) => data.len() >= copy_file::SIZE,
            Some(OpCode::ExistFile) => data.len() >= file_id_action::SIZE,
            Some(OpCode::DeleteFile) => data.len() >= file_id_action::SIZE,
            Some(OpCode::RestoreFile) => data.len() >= file_id_action::SIZE,
            Some(OpCode::FlushFile) => data.len() >= file_id_action::SIZE,
            Some(OpCode::ExecuteFile) => data.len() >= file_id_action::SIZE,
            Some(OpCode::Status) => status::spec_complete(data),
            Some(OpCode::ResponseTag) => data.len() >= response_tag::SIZE,
            Some(OpCode::Chunk) => true,
            Some(OpCode::Logic) => true,
            Some(OpCode::IndirectForward) => OverloadedIndirectInterface::complete(tail(data, 1)),
            Some(OpCode::WriteFileProperties) => data.len() >= file_properties_action::SIZE,
            Some(OpCode::BreakQuery) => spec_action_decodable(data),
            Some(OpCode::VerifyChecksum) => spec_action_decodable(data),
            Some(OpCode::CreateNewFile) => data.len() >= file_properties_action::SIZE,
            Some(OpCode::ReturnFileData) => WriteFileDataRef::complete(data),
            Some(OpCode::ReturnFileProperties) => data.len() >= file_properties_action::SIZE,
            _ => false,
        }
    }

    /// Byte size of the action encoded at the start of `data`.
    pub open spec fn decoded_size(data: Seq<u8>) -> int {
        match spec_op_code(data) {
            Some(OpCode::Nop) => nop::SIZE as int,
            Some(OpCode::ReadFileData) => ReadFileDataRef::decoded_size(data),
            Some(OpCode::ReadFileProperties) => read_file_properties::SIZE as int,
            Some(OpCode::WriteFileData) => WriteFileDataRef::decoded_size(data),
            Some(OpCode::ActionQuery) => spec_action_size(data),
            Some(OpCode::PermissionRequest) => permission_request::SIZE as int,
            Some(OpCode::CopyFile) => copy_file::SIZE as int,
            Some(OpCode::ExistFile) => file_id_action::SIZE as int,
            Some(OpCode::DeleteFile) => file_id_action::SIZE as int,
            Some(OpCode::RestoreFile) => file_id_action::SIZE as int,
            Some(OpCode::FlushFile) => file_id_action::SIZE as int,
            Some(OpCode::ExecuteFile) => file_id_action::SIZE as int,
            Some(OpCode::Status) => status::spec_size(data),
            Some(OpCode::ResponseTag) => response_tag::SIZE as int,
            Some(OpCode::IndirectForward) => 1 + OverloadedIndirectInterface::decoded_size(
                tail(data, 1),
            ),
            Some(OpCode::WriteFileProperties) => file_properties_action::SIZE as int,
            Some(OpCode::BreakQuery) => spec_action_size(data),
            Some(OpCode::VerifyChecksum) => spec_action_size(data),
            Some(OpCode::CreateNewFile) => file_properties_action::SIZE as int,
            Some(OpCode::ReturnFileData) => WriteFileDataRef::decoded_size(data),
            Some(OpCode::ReturnFileProperties) => file_properties_action::SIZE as int,
            _ => 1,
        }
    }

    /// `data` is long enough for the fields that its first bytes announce.
    pub open spec fn decode_ready(data: Seq<u8>) -> bool {
        &&& spec_op_code(data) == Some(OpCode::PermissionRequest)
            ==> PermissionRequest::decode_ready(data)
        &&& spec_op_code(data) == Some(OpCode::IndirectForward) ==> data[0] & 0x80 != 0
    }

    /// `e` is the error of decoding `data`, which does not start with an action that decodes.
    pub open spec fn reports(e: WithOffset<ActionDecodingError>, data: Seq<u8>) -> bool {
        if data.len() == 0 {
            e == (WithOffset { offset: 0, value: ActionDecodingError::NoData })
        } else {
            match spec_op_code(data) {
                None => e == (WithOffset {
                    offset: 0,
                    value: ActionDecodingError::UnknownOpCode(data[0] & 0x3F),
                }),
                Some(OpCode::Nop) => e == (WithOffset {
                    offset: 0,
                    value: ActionDecodingError::Nop(SizeError::MissingBytes),
                }),
                Some(OpCode::ReadFileData) => e == (WithOffset {
                    offset: 0,
                    value: ActionDecodingError::ReadFileData(SizeError::MissingBytes),
                }),
                Some(OpCode::ReadFileProperties) => e == (WithOffset {
                    offset: 0,
                    value: ActionDecodingError::ReadFileProperties(SizeError::MissingBytes),
                }),
                Some(OpCode::WriteFileData) => e == (WithOffset {
                    offset: 0,
                    value: ActionDecodingError::WriteFileData(SizeError::MissingBytes),
                }),
                Some(OpCode::ActionQuery) => e.offset == 0 && (e.value matches
                    ActionDecodingError::ActionQuery(q) && DecodedActionQueryRef::reports(q, data)),
                Some(OpCode::PermissionRequest) => e == (WithOffset {
                    offset: PermissionRequest::decode_error(data).offset,
                    value: ActionDecodingError::PermissionRequest(
                        PermissionRequest::decode_error(data).value,
                    ),
                }),
                Some(OpCode::CopyFile) => e == (WithOffset {
                    offset: 0,
                    value: ActionDecodingError::CopyFile(
                        StdError::MissingBytes((copy_file::SIZE - data.len()) as usize),
                    ),
                }),
                Some(OpCode::ExistFile) => e == (WithOffset {
                    offset: 0,
                    value: ActionDecodingError::ExistFile(
                        StdError::MissingBytes((file_id_action::SIZE - data.len()) as usize),
                    ),
                }),
                Some(OpCode::DeleteFile) => e == (WithOffset {
                    offset: 0,
                    value: ActionDecodingError::DeleteFile(
                        StdError::MissingBytes((file_id_action::SIZE - data.len()) as usize),
                    ),
                }),
                Some(OpCode::RestoreFile) => e == (WithOffset {
                    offset: 0,
                    value: ActionDecodingError::RestoreFile(
                        StdError::MissingBytes((file_id_action::SIZE - data.len()) as usize),
                    ),
                }),
                Some(OpCode::FlushFile) => e == (WithOffset {
                    offset: 0,
                    value: ActionDecodingError::FlushFile(
                        StdError::MissingBytes((file_id_action::SIZE - data.len()) as usize),
                    ),
                }),
                Some(OpCode::ExecuteFile) => e == (WithOffset {
                    offset: 0,
                    value: ActionDecodingError::ExecuteFile(
                        StdError::MissingBytes((file_id_action::SIZE - data.len()) as usize),
                    ),
                }),
                Some(OpCode::Status) => e.offset == 0 && (e.value matches
                    ActionDecodingError::Status(s) && status::size_answer(
                    Err::<(), StatusSizeError>(s),
                    data,
                )),
                Some(OpCode::ResponseTag) => e == (WithOffset {
                    offset: 0,
                    value: ActionDecodingError::ResponseTag(
                        StdError::MissingBytes((response_tag::SIZE - data.len()) as usize),
                    ),
                }),
                Some(OpCode::IndirectForward) => e == (WithOffset {
                    offset: OverloadedIndirectInterface::decode_error(tail(data, 1), 1).offset,
                    value: ActionDecodingError::IndirectForward(
                        OverloadedIndirectInterface::decode_error(tail(data, 1), 1).value,
                    ),
                }),
                Some(OpCode::Extension) => e == (WithOffset {
                    offset: 0,
                    value: ActionDecodingError::Extension,
                }),
                Some(OpCode::WriteFileProperties) => e == (WithOffset {
                    offset: 0,
                    value: ActionDecodingError::WriteFileProperties(
                        HeaderActionDecodingError::MissingBytes(
                            (file_properties_action::SIZE - data.len()) as usize,
                        ),
                    ),
                }),
                Some(OpCode::BreakQuery) => e.offset == 0 && (e.value matches
                    ActionDecodingError::BreakQuery(q) && DecodedActionQueryRef::reports(q, data)),
                Some(OpCode::VerifyChecksum) => e.offset == 0 && (e.value matches
                    ActionDecodingError::VerifyChecksum(q) && DecodedActionQueryRef::reports(q, data)),
                Some(OpCode::CreateNewFile) => e == (WithOffset {
                    offset: 0,
                    value: ActionDecodingError::CreateNewFile(
                        HeaderActionDecodingError::MissingBytes(
                            (file_properties_action::SIZE - data.len()) as usize,
                        ),
                    ),
                }),
                Some(OpCode::ReturnFileData) => e == (WithOffset {
                    offset: 0,
                    value: ActionDecodingError::ReturnFileData(SizeError::MissingBytes),
                }),
                Some(OpCode::ReturnFileProperties) => e == (WithOffset {
                    offset: 0,
                    value: ActionDecodingError::ReturnFileProperties(
                        HeaderActionDecodingError::MissingBytes(
                            (file_properties_action::SIZE - data.len()) as usize,
                        ),
                    ),
                }),
                Some(op) => e == (WithOffset { offset: 0, value: ActionDecodingError::Unsupported(op) }),
            }
        }
    }

    pub fn op_code(&self) -> (r: OpCode)
        ensures
            r == self.spec_op_code(),
    {
        match self {
            Self::Nop(_) => OpCode::Nop,
            Self::ReadFileData(_) => OpCode::ReadFileData,
            Self::ReadFileProperties(_) => OpCode::ReadFileProperties,
            Self::WriteFileData(_) => OpCode::WriteFileData,
            Self::ActionQuery(_) => OpCode::ActionQuery,
            Self::PermissionRequest(_) => OpCode::PermissionRequest,
            Self::CopyFile(_) => OpCode::CopyFile,
            Self::ExistFile(_) => OpCode::ExistFile,
            Self::DeleteFile(_) => OpCode::DeleteFile,
            Self::RestoreFile(_) => OpCode::RestoreFile,
            Self::FlushFile(_) => OpCode::FlushFile,
            Self::ExecuteFile(_) => OpCode::ExecuteFile,
            Self::Status(_) => OpCode::Status,
            Self::ResponseTag(_) => OpCode::ResponseTag,
            Self::Chunk(_) => OpCode::Chunk,
            Self::Logic(_) => OpCode::Logic,
            Self::IndirectForward(_) => OpCode::IndirectForward,
            Self::WriteFileProperties(_) => OpCode::WriteFileProperties,
            Self::BreakQuery(_) => OpCode::BreakQuery,
            Self::VerifyChecksum(_) => OpCode::VerifyChecksum,
            Self::CreateNewFile(_) => OpCode::CreateNewFile,
            Self::ReturnFileData(_) => OpCode::ReturnFileData,
            Self::ReturnFileProperties(_) => OpCode::ReturnFileProperties,
        }
    }

    pub fn encoded_size(&self) -> (r: usize)
        requires
            self.measurable(),
        ensures
            r == self.encoding().len(),
    {
        match self {
            Self::Nop(x) => x.encoded_size(),
            Self::ReadFileData(x) => x.encoded_size(),
            Self::ReadFileProperties(x) => x.encoded_size(),
            Self::WriteFileData(x) => x.encoded_size(),
            Self::ActionQuery(x) => x.encoded_size(),
            Self::PermissionRequest(x) => x.encoded_size(),
            Self::CopyFile(x) => x.encoded_size(),
            Self::ExistFile(x) => x.encoded_size(),
            Self::DeleteFile(x) => x.encoded_size(),
            Self::RestoreFile(x) => x.encoded_size(),
            Self::FlushFile(x) => x.encoded_size(),
            Self::ExecuteFile(x) => x.encoded_size(),
            Self::Status(x) => x.encoded_size(),
            Self::ResponseTag(x) => x.encoded_size(),
            Self::Chunk(x) => x.encoded_size(),
            Self::Logic(x) => x.encoded_size(),
            Self::IndirectForward(x) => x.encoded_size(),
            Self::WriteFileProperties(x) => x.encoded_size(),
            Self::BreakQuery(x) => x.encoded_size(),
            Self::VerifyChecksum(x) => x.encoded_size(),
            Self::CreateNewFile(x) => x.encoded_size(),
            Self::ReturnFileData(x) => x.encoded_size(),
            Self::ReturnFileProperties(x) => x.encoded_size(),
        }
    }

    /// Writes the encoded action at the start of `out`, which must be large enough.
    #[verifier::rlimit(40)]
    pub fn encode_in(&self, out: &mut [u8]) -> (r: usize)
        requires
            old(out)@.len() >= self.encoding().len(),
        ensures
            r == self.encoding().len(),
            written_at_head(final(out)@, old(out)@, self.encoding()),
    {
        match self {
            Self::Nop(x) => match x.encode_in(out) {
                Ok(n) => n,
                Err(n) => n,
            },
            Self::ReadFileData(x) => match x.encode_in(out) {
                Ok(n) => n,
                Err(n) => n,
            },
            Self::ReadFileProperties(x) => match x.encode_in(out) {
                Ok(n) => n,
                Err(n) => n,
            },
            Self::WriteFileData(x) => match x.encode_in(out) {
                Ok(n) => n,
                Err(n) => n,
            },
            Self::ActionQuery(x) => match x.encode_in(out) {
                Ok(n) => n,
                Err(n) => n,
            },
            Self::PermissionRequest(x) => x.encode_in(out),
            Self::CopyFile(x) => x.encode_in(out),
            Self::ExistFile(x) => x.encode_in(out),
            Self::DeleteFile(x) => x.encode_in(out),
            Self::RestoreFile(x) => x.encode_in(out),
            Self::FlushFile(x) => x.encode_in(out),
            Self::ExecuteFile(x) => x.encode_in(out),
            Self::Status(x) => match x.encode_in(out) {
                Ok(n) => n,
                Err(n) => n,
            },
            Self::ResponseTag(x) => x.encode_in(out),
            Self::Chunk(x) => x.encode_in(out),
            Self::Logic(x) => x.encode_in(out),
            Self::IndirectForward(x) => x.encode_in(out),
            Self::WriteFileProperties(x) => x.encode_in(op_code::WRITE_FILE_PROPERTIES, out),
            Self::BreakQuery(x) => {
                let n = match x.encode_in(out) {
                    Ok(n) => n,
                    Err(n) => n,
                };
                set_op_code(out, op_code::BREAK_QUERY, x.group, x.response, Ghost(x.encoding()));
                n
            },
            Self::VerifyChecksum(x) => {
                let n = match x.encode_in(out) {
                    Ok(n) => n,
                    Err(n) => n,
                };
                set_op_code(out, op_code::VERIFY_CHECKSUM, x.group, x.response, Ghost(x.encoding()));
                n
            },
            Self::CreateNewFile(x) => x.encode_in(op_code::CREATE_NEW_FILE, out),
            Self::ReturnFileData(x) => {
                let n = match x.encode_in(out) {
                    Ok(n) => n,
                    Err(n) => n,
                };
                set_op_code(out, op_code::RETURN_FILE_DATA, x.group, x.response, Ghost(x.encoding()));
                n
            },
            Self::ReturnFileProperties(x) => x.encode_in(op_code::RETURN_FILE_PROPERTIES, out),
        }
    }

    /// Decodes the action at the start of `out`, as its op code tells.
    ///
    /// # Errors
    /// Fails if the input is empty, if its op code is unknown, is an extension, or is a forward
    /// or a request tag, or with the error of the decoder of its action.
    pub fn decode(out: &'data [u8]) -> (r: Result<
        WithSize<Action<'data>>,
        WithOffset<ActionDecodingError<'data>>,
    >)
        requires
            Self::decode_ready(out@),
        ensures
            r is Ok <==> Self::decodable(out@),
            r matches Ok(w) ==> w.value.decoded_from(out@) && w.size == Self::decoded_size(out@),
            r matches Err(e) ==> Self::reports(e, out@),
    {
        if out.len() == 0 {
            return Err(WithOffset::new_head(ActionDecodingError::NoData));
        }
        let op = match OpCode::from(out[0] & 0x3F) {
            Ok(op) => op,
            Err(n) => {
                return Err(WithOffset::new_head(ActionDecodingError::UnknownOpCode(n)));
            },
        };
        match op {
            OpCode::Nop => match NopRef::decode(out) {
                Ok(w) => Ok(WithSize { value: Self::Nop(w.item), size: w.byte_size }),
                Err(e) => Err(WithOffset::new_head(ActionDecodingError::Nop(e))),
            },
            OpCode::ReadFileData => match ReadFileDataRef::decode(out) {
                Ok(w) => Ok(WithSize { value: Self::ReadFileData(w.item), size: w.byte_size }),
                Err(e) => Err(WithOffset::new_head(ActionDecodingError::ReadFileData(e))),
            },
            OpCode::ReadFileProperties => match ReadFilePropertiesRef::decode(out) {
                Ok(w) => Ok(
                    WithSize { value: Self::ReadFileProperties(w.item), size: w.byte_size },
                ),
                Err(e) => Err(WithOffset::new_head(ActionDecodingError::ReadFileProperties(e))),
            },
            OpCode::WriteFileData => match WriteFileDataRef::decode(out) {
                Ok(w) => Ok(WithSize { value: Self::WriteFileData(w.item), size: w.byte_size }),
                Err(e) => Err(WithOffset::new_head(ActionDecodingError::WriteFileData(e))),
            },
            OpCode::ActionQuery => match DecodedActionQueryRef::decode(out) {
                Ok(w) => Ok(
                    WithSize {
                        value: Self::ActionQuery(w.item.as_encodable()),
                        size: w.byte_size,
                    },
                ),
                Err(e) => Err(WithOffset::new_head(ActionDecodingError::ActionQuery(e))),
            },
            OpCode::PermissionRequest => match PermissionRequest::decode(out) {
                Ok(w) => Ok(WithSize { value: Self::PermissionRequest(w.value), size: w.size }),
                Err(e) => Err(
                    WithOffset::new(e.offset, ActionDecodingError::PermissionRequest(e.value)),
                ),
            },
            OpCode::CopyFile => match CopyFile::decode(out) {
                Ok(w) => Ok(WithSize { value: Self::CopyFile(w.value), size: w.size }),
                Err(e) => Err(WithOffset::new(e.offset, ActionDecodingError::CopyFile(e.value))),
            },
            OpCode::ExistFile => match ExistFile::decode(out) {
                Ok(w) => Ok(WithSize { value: Self::ExistFile(w.value), size: w.size }),
                Err(e) => Err(WithOffset::new(e.offset, ActionDecodingError::ExistFile(e.value))),
            },
            OpCode::DeleteFile => match DeleteFile::decode(out) {
                Ok(w) => Ok(WithSize { value: Self::DeleteFile(w.value), size: w.size }),
                Err(e) => Err(WithOffset::new(e.offset, ActionDecodingError::DeleteFile(e.value))),
            },
            OpCode::RestoreFile => match RestoreFile::decode(out) {
                Ok(w) => Ok(WithSize { value: Self::RestoreFile(w.value), size: w.size }),
                Err(e) => Err(WithOffset::new(e.offset, ActionDecodingError::RestoreFile(e.value))),
            },
            OpCode::FlushFile => match FlushFile::decode(out) {
                Ok(w) => Ok(WithSize { value: Self::FlushFile(w.value), size: w.size }),
                Err(e) => Err(WithOffset::new(e.offset, ActionDecodingError::FlushFile(e.value))),
            },
            OpCode::ExecuteFile => match ExecuteFile::decode(out) {
                Ok(w) => Ok(WithSize { value: Self::ExecuteFile(w.value), size: w.size }),
                Err(e) => Err(WithOffset::new(e.offset, ActionDecodingError::ExecuteFile(e.value))),
            },
            OpCode::Status => match StatusRef::decode(out) {
                Ok(w) => Ok(WithSize { value: Self::Status(w.item), size: w.byte_size }),
                Err(e) => Err(WithOffset::new_head(ActionDecodingError::Status(e))),
            },
            OpCode::ResponseTag => match ResponseTag::decode(out) {
                Ok(w) => Ok(WithSize { value: Self::ResponseTag(w.value), size: w.size }),
                Err(e) => Err(
                    WithOffset::new(e.offset, ActionDecodingError::ResponseTag(e.value)),
                ),
            },
            OpCode::Chunk => match Chunk::decode(out) {
                Ok(w) => Ok(WithSize { value: Self::Chunk(w.value), size: w.size }),
                Err(e) => Err(WithOffset::new(e.offset, ActionDecodingError::Chunk(e.value))),
            },
            OpCode::Logic => match Logic::decode(out) {
                Ok(w) => Ok(WithSize { value: Self::Logic(w.value), size: w.size }),
                Err(e) => Err(WithOffset::new(e.offset, ActionDecodingError::Logic(e.value))),
            },
            OpCode::IndirectForward => match IndirectForward::decode(out) {
                Ok(w) => Ok(WithSize { value: Self::IndirectForward(w.value), size: w.size }),
                Err(e) => Err(
                    WithOffset::new(e.offset, ActionDecodingError::IndirectForward(e.value)),
                ),
            },
            OpCode::Extension => Err(WithOffset::new_head(ActionDecodingError::Extension)),
            OpCode::WriteFileProperties => match FilePropertiesAction::decode(out) {
                Ok(w) => Ok(WithSize { value: Self::WriteFileProperties(w.value), size: w.size }),
                Err(e) => Err(WithOffset::new(e.offset, ActionDecodingError::WriteFileProperties(e.value))),
            },
            OpCode::BreakQuery => match DecodedActionQueryRef::decode(out) {
                Ok(w) => Ok(WithSize { value: Self::BreakQuery(w.item.as_encodable()), size: w.byte_size }),
                Err(e) => Err(WithOffset::new_head(ActionDecodingError::BreakQuery(e))),
            },
            OpCode::VerifyChecksum => match DecodedActionQueryRef::decode(out) {
                Ok(w) => Ok(WithSize { value: Self::VerifyChecksum(w.item.as_encodable()), size: w.byte_size }),
                Err(e) => Err(WithOffset::new_head(ActionDecodingError::VerifyChecksum(e))),
            },
            OpCode::CreateNewFile => match FilePropertiesAction::decode(out) {
                Ok(w) => Ok(WithSize { value: Self::CreateNewFile(w.value), size: w.size }),
                Err(e) => Err(WithOffset::new(e.offset, ActionDecodingError::CreateNewFile(e.value))),
            },
            OpCode::ReturnFileData => match WriteFileDataRef::decode(out) {
                Ok(w) => Ok(WithSize { value: Self::ReturnFileData(w.item), size: w.byte_size }),
                Err(e) => Err(WithOffset::new_head(ActionDecodingError::ReturnFileData(e))),
            },
            OpCode::ReturnFileProperties => match FilePropertiesAction::decode(out) {
                Ok(w) => Ok(WithSize { value: Self::ReturnFileProperties(w.value), size: w.size }),
                Err(e) => Err(WithOffset::new(e.offset, ActionDecodingError::ReturnFileProperties(e.value))),
            },
            op => Err(WithOffset::new_head(ActionDecodingError::Unsupported(op))),
        }
    }
}

impl<'data> Action<'data> {
    /// The fields of the action hold values that its encoding can carry back.
    pub open spec fn valid(self) -> bool {
        match self {
            Self::ReadFileData(x) => x.offset@ <= varint::U32_MAX && x.length@ <= varint::U32_MAX,
            Self::WriteFileData(x) => x.offset@ <= varint::U32_MAX && x.data@.len()
                <= varint::U32_MAX,
            Self::ActionQuery(x) => x.query.valid(),
            Self::Status(x) => x matches StatusRef::Interface(StatusInterfaceRef::Dash7(s))
                ==> nls_consistent(
                s.addressee_with_nls_state.addressee_view(),
                s.addressee_with_nls_state.nls_state_view(),
            ),
            Self::IndirectForward(x) => x.overloaded(),
            Self::BreakQuery(x) => x.query.valid(),
            Self::VerifyChecksum(x) => x.query.valid(),
            Self::ReturnFileData(x) => x.offset@ <= varint::U32_MAX && x.data@.len()
                <= varint::U32_MAX,
            _ => true,
        }
    }
}

/// Decoding an encoded action gives it back, whatever follows it: its op code tells which
/// decoder reads it, and that decoder reads the whole encoding.
pub proof fn lemma_roundtrip(a: Action, rest: Seq<u8>)
    requires
        a.valid(),
    ensures
        Action::decode_ready(a.encoding() + rest),
        Action::decodable(a.encoding() + rest),
        Action::decoded_size(a.encoding() + rest) == a.encoding().len(),
        a.decoded_from(a.encoding() + rest),
{
    let d = a.encoding() + rest;
    lemma_op_code_roundtrip(a.spec_op_code());
    match a {
        Action::Nop(x) => {
            nop::lemma_roundtrip(x, rest);
            lemma_ctrl_byte(op_code::NOP, x.group, x.response);
            assert(d[0] == x.encoding()[0]);
        },
        Action::ReadFileData(x) => {
            read_file_data::lemma_roundtrip(x, rest);
            lemma_ctrl_byte(op_code::READ_FILE_DATA, x.group, x.response);
            assert(d[0] == x.encoding()[0]);
        },
        Action::ReadFileProperties(x) => {
            read_file_properties::lemma_roundtrip(x, rest);
            lemma_ctrl_byte(op_code::READ_FILE_PROPERTIES, x.group, x.response);
            assert(d[0] == x.encoding()[0]);
        },
        Action::WriteFileData(x) => {
            write_file_data::lemma_roundtrip(x, rest);
            lemma_ctrl_byte(op_code::WRITE_FILE_DATA, x.group, x.response);
            assert(d[0] == x.encoding()[0]);
        },
        Action::ActionQuery(x) => {
            query::action_query::lemma_roundtrip(x, rest);
            lemma_ctrl_byte(op_code::ACTION_QUERY, x.group, x.response);
            assert(d[0] == x.encoding()[0]);
        },
        Action::PermissionRequest(x) => {
            permission_request::lemma_roundtrip(x, rest);
            lemma_ctrl_byte(op_code::PERMISSION_REQUEST, x.group, x.resp);
            assert(d[0] == x.encoding()[0]);
        },
        Action::CopyFile(x) => {
            copy_file::lemma_roundtrip(x, rest);
            lemma_ctrl_byte(op_code::COPY_FILE, x.group, x.resp);
            assert(d[0] == x.encoding()[0]);
        },
        Action::ExistFile(x) => {
            file_id_action::lemma_roundtrip(op_code::EXIST_FILE, x.group, x.resp, x.file_id, rest);
        },
        Action::DeleteFile(x) => {
            file_id_action::lemma_roundtrip(op_code::DELETE_FILE, x.group, x.resp, x.file_id, rest);
        },
        Action::RestoreFile(x) => {
            file_id_action::lemma_roundtrip(op_code::RESTORE_FILE, x.group, x.resp, x.file_id, rest);
        },
        Action::FlushFile(x) => {
            file_id_action::lemma_roundtrip(op_code::FLUSH_FILE, x.group, x.resp, x.file_id, rest);
        },
        Action::ExecuteFile(x) => {
            file_id_action::lemma_roundtrip(op_code::EXECUTE_FILE, x.group, x.resp, x.file_id, rest);
        },
        Action::Status(x) => {
            status::lemma_roundtrip(x, rest);
            let b = status::status_byte(INTERFACE);
            assert(b & 0x3Fu8 == op_code::STATUS) by (bit_vector)
                requires
                    b == status::status_byte(INTERFACE),
            ;
            assert(d[0] == x.encoding()[0]);
        },
        Action::ResponseTag(x) => {
            response_tag::lemma_roundtrip(x, rest);
            lemma_ctrl_byte(op_code::RESPONSE_TAG, x.eop, x.err);
            assert(d[0] == x.encoding()[0]);
        },
        Action::Chunk(x) => {
            chunk::lemma_roundtrip(x, rest);
            chunk::lemma_chunk_byte(x.step.spec_code());
            assert(d[0] == x.encoding()[0]);
        },
        Action::Logic(x) => {
            logic::lemma_roundtrip(x, rest);
            logic::lemma_logic_byte(x.spec_code());
            assert(d[0] == x.encoding()[0]);
        },
        Action::IndirectForward(x) => {
            indirect_forward::lemma_roundtrip(x, rest);
            lemma_ctrl_byte(op_code::INDIRECT_FORWARD, true, x.resp);
            assert(d[0] == x.encoding()[0]);
        },
        _ => {
            lemma_roundtrip_borrowed_layout(a, rest);
        },
    }
}


/// A query action whose op code was replaced decodes back, whatever follows it.
proof fn lemma_query_like_roundtrip(x: ActionQueryRef, op: u8, rest: Seq<u8>)
    requires
        x.query.valid(),
        op < 64,
    ensures
        ({
            let d = with_op_code(x.encoding(), op, x.group, x.response) + rest;
            &&& d[0] & 0x3F == op
            &&& spec_action_decodable(d)
            &&& spec_action_size(d) == x.encoding().len()
            &&& x.decoded_from(d)
        }),
{
    let d = with_op_code(x.encoding(), op, x.group, x.response) + rest;
    query::action_query::lemma_roundtrip(x, rest);
    lemma_with_op_code(x.encoding(), op, x.group, x.response, rest);
}

/// A write file data action whose op code was replaced decodes back, whatever follows it.
proof fn lemma_file_data_like_roundtrip(x: WriteFileDataRef, op: u8, rest: Seq<u8>)
    requires
        x.offset@ <= varint::U32_MAX,
        x.data@.len() <= varint::U32_MAX,
        op < 64,
    ensures
        ({
            let d = with_op_code(x.encoding(), op, x.group, x.response) + rest;
            &&& d[0] & 0x3F == op
            &&& WriteFileDataRef::complete(d)
            &&& WriteFileDataRef::decoded_size(d) == x.encoding().len()
            &&& x.decoded_from(d)
        }),
{
    let d = with_op_code(x.encoding(), op, x.group, x.response) + rest;
    let e = x.encoding() + rest;
    write_file_data::lemma_roundtrip(x, rest);
    lemma_with_op_code(x.encoding(), op, x.group, x.response, rest);
    assert forall|i: int| 1 <= i < d.len() implies d[i] == e[i] by {
        assert(tail(d, 1)[i - 1] == tail(e, 1)[i - 1]);
    }
    assert(tail(d, 2) =~= tail(e, 2));
    let os = write_file_data::spec_offset_size(e);
    assert(write_file_data::spec_offset_size(d) == os);
    assert(tail(d, 2 + os) =~= tail(e, 2 + os));
    let ps = write_file_data::spec_payload_start(e);
    let len = write_file_data::spec_length(e);
    assert(write_file_data::spec_payload_start(d) == ps);
    assert(write_file_data::spec_length(d) == len);
    assert(d.subrange(ps, ps + len) =~= e.subrange(ps, ps + len));
}

/// The roundtrip of the actions that share the fields of another kind of action, but for
/// their op code.
proof fn lemma_roundtrip_borrowed_layout(a: Action, rest: Seq<u8>)
    requires
        a.valid(),
        !(a is Nop || a is ReadFileData || a is ReadFileProperties || a is WriteFileData
            || a is ActionQuery || a is PermissionRequest || a is CopyFile || a is ExistFile
            || a is DeleteFile || a is RestoreFile || a is FlushFile || a is ExecuteFile
            || a is Status || a is ResponseTag || a is Chunk || a is Logic || a is IndirectForward),
    ensures
        Action::decode_ready(a.encoding() + rest),
        Action::decodable(a.encoding() + rest),
        Action::decoded_size(a.encoding() + rest) == a.encoding().len(),
        a.decoded_from(a.encoding() + rest),
{
    lemma_op_code_roundtrip(a.spec_op_code());
    let d = a.encoding() + rest;
    match a {
        Action::WriteFileProperties(x) => {
            file_properties_action::lemma_roundtrip(x, op_code::WRITE_FILE_PROPERTIES, rest);
            assert(spec_op_code(d) == Some(OpCode::WriteFileProperties));
        },
        Action::CreateNewFile(x) => {
            file_properties_action::lemma_roundtrip(x, op_code::CREATE_NEW_FILE, rest);
            assert(spec_op_code(d) == Some(OpCode::CreateNewFile));
        },
        Action::ReturnFileProperties(x) => {
            file_properties_action::lemma_roundtrip(x, op_code::RETURN_FILE_PROPERTIES, rest);
            assert(spec_op_code(d) == Some(OpCode::ReturnFileProperties));
        },
        Action::BreakQuery(x) => {
            lemma_query_like_roundtrip(x, op_code::BREAK_QUERY, rest);
            assert(spec_op_code(d) == Some(OpCode::BreakQuery));
        },
        Action::VerifyChecksum(x) => {
            lemma_query_like_roundtrip(x, op_code::VERIFY_CHECKSUM, rest);
            assert(spec_op_code(d) == Some(OpCode::VerifyChecksum));
        },
        Action::ReturnFileData(x) => {
            lemma_file_data_like_roundtrip(x, op_code::RETURN_FILE_DATA, rest);
            assert(spec_op_code(d) == Some(OpCode::ReturnFileData));
        },
        _ => {},
    }
}

/// Each op code has the number that the ALP specification gives it (no operation 0, read
/// file data 1, ..., extension 63); decoding a number gives the op code of that number.
pub proof fn lemma_op_code_numbers()
    ensures
        OpCode::Nop.spec_code() == 0,
        OpCode::ReadFileData.spec_code() == 1,
        OpCode::ReadFileProperties.spec_code() == 2,
        OpCode::WriteFileData.spec_code() == 4,
        OpCode::WriteFileProperties.spec_code() == 6,
        OpCode::ActionQuery.spec_code() == 8,
        OpCode::BreakQuery.spec_code() == 9,
        OpCode::PermissionRequest.spec_code() == 10,
        OpCode::VerifyChecksum.spec_code() == 11,
        OpCode::ExistFile.spec_code() == 16,
        OpCode::CreateNewFile.spec_code() == 17,
        OpCode::DeleteFile.spec_code() == 18,
        OpCode::RestoreFile.spec_code() == 19,
        OpCode::FlushFile.spec_code() == 20,
        OpCode::CopyFile.spec_code() == 23,
        OpCode::ExecuteFile.spec_code() == 31,
        OpCode::ReturnFileData.spec_code() == 32,
        OpCode::ReturnFileProperties.spec_code() == 33,
        OpCode::Status.spec_code() == 34,
        OpCode::ResponseTag.spec_code() == 35,
        OpCode::Chunk.spec_code() == 48,
        OpCode::Logic.spec_code() == 49,
        OpCode::Forward.spec_code() == 50,
        OpCode::IndirectForward.spec_code() == 51,
        OpCode::RequestTag.spec_code() == 52,
        OpCode::Extension.spec_code() == 63,
        forall|n: u8| (#[trigger] OpCode::spec_from(n)) matches Some(op) ==> op.spec_code() == n,
{
}

/// The short name printed for each op code.
pub proof fn lemma_op_code_names()
    ensures
        OpCode::Nop.spec_name() == seq!['N', 'O', 'P'],
        OpCode::ReadFileData.spec_name() == seq!['R', 'D'],
        OpCode::ReadFileProperties.spec_name() == seq!['R', 'D', 'P'],
        OpCode::WriteFileData.spec_name() == seq!['W', 'R'],
        OpCode::WriteFileProperties.spec_name() == seq!['W', 'R', 'P'],
        OpCode::ActionQuery.spec_name() == seq!['A', 'Q'],
        OpCode::BreakQuery.spec_name() == seq!['B', 'Q'],
        OpCode::PermissionRequest.spec_name() == seq!['P', 'R'],
        OpCode::VerifyChecksum.spec_name() == seq!['V', 'C', 'S'],
        OpCode::ExistFile.spec_name() == seq!['H', 'A', 'S'],
        OpCode::CreateNewFile.spec_name() == seq!['N', 'E', 'W'],
        OpCode::DeleteFile.spec_name() == seq!['D', 'E', 'L'],
        OpCode::RestoreFile.spec_name() == seq!['R', 'S', 'T'],
        OpCode::FlushFile.spec_name() == seq!['F', 'L', 'U', 'S', 'H'],
        OpCode::CopyFile.spec_name() == seq!['C', 'P'],
        OpCode::ExecuteFile.spec_name() == seq!['R', 'U', 'N'],
        OpCode::ReturnFileData.spec_name() == seq!['D', 'A', 'T', 'A'],
        OpCode::ReturnFileProperties.spec_name() == seq!['P', 'R', 'O', 'P'],
        OpCode::Status.spec_name() == seq!['S'],
        OpCode::ResponseTag.spec_name() == seq!['T', 'G'],
        OpCode::Chunk.spec_name() == seq!['C', 'H', 'K'],
        OpCode::Logic.spec_name() == seq!['L', 'O', 'G'],
        OpCode::Forward.spec_name() == seq!['F', 'W', 'D'],
        OpCode::IndirectForward.spec_name() == seq!['I', 'F', 'W', 'D'],
        OpCode::RequestTag.spec_name() == seq!['R', 'T', 'G'],
        OpCode::Extension.spec_name() == seq!['E', 'X', 'T'],
{
    reveal_strlit("AQ");
    reveal_strlit("BQ");
    reveal_strlit("CHK");
    reveal_strlit("CP");
    reveal_strlit("DATA");
    reveal_strlit("DEL");
    reveal_strlit("EXT");
    reveal_strlit("FLUSH");
    reveal_strlit("FWD");
    reveal_strlit("HAS");
    reveal_strlit("IFWD");
    reveal_strlit("LOG");
    reveal_strlit("NEW");
    reveal_strlit("NOP");
    reveal_strlit("PR");
    reveal_strlit("PROP");
    reveal_strlit("RD");
    reveal_strlit("RDP");
    reveal_strlit("RST");
    reveal_strlit("RTG");
    reveal_strlit("RUN");
    reveal_strlit("S");
    reveal_strlit("TG");
    reveal_strlit("VCS");
    reveal_strlit("WR");
    reveal_strlit("WRP");
}

impl<'data> Action<'data> {
    /// The two flags that an action carries on bits 7 and 6 of its first byte, for the actions
    /// that carry two: group and response for most of them, end of packet and error for a
    /// response tag, overload and response for an indirect forward.
    pub open spec fn spec_flags(self) -> Option<(bool, bool)> {
        match self {
            Self::Nop(x) => Some((x.group, x.response)),
            Self::ReadFileData(x) => Some((x.group, x.response)),
            Self::ReadFileProperties(x) => Some((x.group, x.response)),
            Self::WriteFileData(x) => Some((x.group, x.response)),
            Self::ActionQuery(x) => Some((x.group, x.response)),
            Self::PermissionRequest(x) => Some((x.group, x.resp)),
            Self::CopyFile(x) => Some((x.group, x.resp)),
            Self::ExistFile(x) => Some((x.group, x.resp)),
            Self::DeleteFile(x) => Some((x.group, x.resp)),
            Self::RestoreFile(x) => Some((x.group, x.resp)),
            Self::FlushFile(x) => Some((x.group, x.resp)),
            Self::ExecuteFile(x) => Some((x.group, x.resp)),
            Self::ResponseTag(x) => Some((x.eop, x.err)),
            Self::IndirectForward(x) => Some((x.overloaded(), x.resp)),
            Self::WriteFileProperties(x) => Some((x.group, x.resp)),
            Self::BreakQuery(x) => Some((x.group, x.response)),
            Self::VerifyChecksum(x) => Some((x.group, x.response)),
            Self::CreateNewFile(x) => Some((x.group, x.resp)),
            Self::ReturnFileData(x) => Some((x.group, x.response)),
            Self::ReturnFileProperties(x) => Some((x.group, x.resp)),
            Self::Status(_) => None,
            Self::Chunk(_) => None,
            Self::Logic(_) => None,
        }
    }
}

/// The first byte of an encoded action holds the number of its op code on its 6 low bits. On
/// its 2 high bits it holds the action's two flags (bit 7 the first, bit 6 the second), or the
/// number of the step of a chunk, of the operation of a logic action, or of the kind of a status
/// (1 for an interface status).
pub proof fn lemma_action_first_byte(a: Action)
    ensures
        a.encoding().len() >= 1,
        a.encoding()[0] & 0x3F == a.spec_op_code().spec_code(),
        a.spec_flags() matches Some(f) ==> (a.encoding()[0] & 0x80 != 0) == f.0 && (
        a.encoding()[0] & 0x40 != 0) == f.1,
        a matches Action::Chunk(c) ==> a.encoding()[0] >> 6u8 == c.step.spec_code(),
        a matches Action::Logic(l) ==> a.encoding()[0] >> 6u8 == l.spec_code(),
        a is Status ==> a.encoding()[0] >> 6u8 == 1,
{
    lemma_op_code_numbers();
    match a {
        Action::Nop(x) => lemma_ctrl_byte(op_code::NOP, x.group, x.response),
        Action::ReadFileData(x) => lemma_ctrl_byte(op_code::READ_FILE_DATA, x.group, x.response),
        Action::ReadFileProperties(x) => lemma_ctrl_byte(
            op_code::READ_FILE_PROPERTIES,
            x.group,
            x.response,
        ),
        Action::WriteFileData(x) => lemma_ctrl_byte(op_code::WRITE_FILE_DATA, x.group, x.response),
        Action::ActionQuery(x) => lemma_ctrl_byte(op_code::ACTION_QUERY, x.group, x.response),
        Action::PermissionRequest(x) => lemma_ctrl_byte(
            op_code::PERMISSION_REQUEST,
            x.group,
            x.resp,
        ),
        Action::CopyFile(x) => lemma_ctrl_byte(op_code::COPY_FILE, x.group, x.resp),
        Action::ExistFile(x) => lemma_ctrl_byte(op_code::EXIST_FILE, x.group, x.resp),
        Action::DeleteFile(x) => lemma_ctrl_byte(op_code::DELETE_FILE, x.group, x.resp),
        Action::RestoreFile(x) => lemma_ctrl_byte(op_code::RESTORE_FILE, x.group, x.resp),
        Action::FlushFile(x) => lemma_ctrl_byte(op_code::FLUSH_FILE, x.group, x.resp),
        Action::ExecuteFile(x) => lemma_ctrl_byte(op_code::EXECUTE_FILE, x.group, x.resp),
        Action::ResponseTag(x) => lemma_ctrl_byte(op_code::RESPONSE_TAG, x.eop, x.err),
        Action::IndirectForward(x) => lemma_ctrl_byte(
            op_code::INDIRECT_FORWARD,
            x.overloaded(),
            x.resp,
        ),
        Action::WriteFileProperties(x) => lemma_ctrl_byte(
            op_code::WRITE_FILE_PROPERTIES,
            x.group,
            x.resp,
        ),
        Action::CreateNewFile(x) => lemma_ctrl_byte(op_code::CREATE_NEW_FILE, x.group, x.resp),
        Action::ReturnFileProperties(x) => lemma_ctrl_byte(
            op_code::RETURN_FILE_PROPERTIES,
            x.group,
            x.resp,
        ),
        Action::BreakQuery(x) => {
            lemma_ctrl_byte(op_code::BREAK_QUERY, x.group, x.response);
            assert(a.encoding()[0] == ctrl_byte(op_code::BREAK_QUERY, x.group, x.response));
        },
        Action::VerifyChecksum(x) => {
            lemma_ctrl_byte(op_code::VERIFY_CHECKSUM, x.group, x.response);
            assert(a.encoding()[0] == ctrl_byte(op_code::VERIFY_CHECKSUM, x.group, x.response));
        },
        Action::ReturnFileData(x) => {
            lemma_ctrl_byte(op_code::RETURN_FILE_DATA, x.group, x.response);
            assert(a.encoding()[0] == ctrl_byte(op_code::RETURN_FILE_DATA, x.group, x.response));
        },
        Action::Chunk(x) => chunk::lemma_chunk_byte(x.step.spec_code()),
        Action::Logic(x) => logic::lemma_logic_byte(x.spec_code()),
        Action::Status(x) => {
            status::lemma_status_byte(INTERFACE);
            let b = status::status_byte(INTERFACE);
            assert(b & 0x3F == 34) by (bit_vector)
                requires
                    b == ((34u8 | (1u8 << 6u8)) as u8),
            ;
        },
    }
}

} // verus!
