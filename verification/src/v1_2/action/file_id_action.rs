//! Actions whose only operand is a file id.
use crate::codec::{StdError, WithOffset, WithSize};
use crate::decodable::{splice, written_at_head};
use crate::v1_2::define::flag::{control_byte, ctrl_byte, lemma_ctrl_byte};
use crate::v1_2::define::op_code::{DELETE_FILE, EXECUTE_FILE, EXIST_FILE, FLUSH_FILE, RESTORE_FILE};
use vstd::prelude::*;

verus! {

/// Byte size of an encoded action whose only operand is a file id.
pub const SIZE: usize = 2;

/// Bytes of an encoded action of op code `op` on the file `file_id`.
pub open spec fn file_id_encoding(op: u8, group: bool, resp: bool, file_id: u8) -> Seq<u8> {
    seq![ctrl_byte(op, group, resp), file_id]
}

/// Writes the encoded action of op code `op` at the start of `out`.
fn encode_file_id_op(op: u8, group: bool, resp: bool, file_id: u8, out: &mut [u8]) -> (r: usize)
    requires
        old(out)@.len() >= SIZE,
    ensures
        r == SIZE,
        written_at_head(final(out)@, old(out)@, file_id_encoding(op, group, resp, file_id)),
{
    out[0] = control_byte(op, group, resp);
    out[1] = file_id;
    assert(out@ =~= splice(old(out)@, 0, file_id_encoding(op, group, resp, file_id)));
    SIZE
}

/// The flags and file id read from the start of `out`; the op code is not checked.
///
/// # Errors
/// Fails with the number of missing bytes if the input is too short.
fn decode_file_id_op(out: &[u8]) -> (r: Result<(bool, bool, u8), WithOffset<StdError>>)
    ensures
        r is Ok <==> out@.len() >= SIZE,
        r matches Ok(v) ==> v == (out@[0] & 0x80 != 0, out@[0] & 0x40 != 0, out@[1]),
        r matches Err(e) ==> e == (WithOffset {
            offset: 0,
            value: StdError::MissingBytes((SIZE - out@.len()) as usize),
        }),
{
    if out.len() < SIZE {
        return Err(WithOffset::new_head(StdError::MissingBytes(SIZE - out.len())));
    }
    Ok((out[0] & 0x80 != 0, out[0] & 0x40 != 0, out[1]))
}

/// Checks whether a file exists
#[derive(Clone, Copy, Debug, PartialEq, Eq)]
pub struct ExistFile {
    /// Group with next action
    pub group: bool,
    /// Ask for a response (status?)
    pub resp: bool,
    pub file_id: u8,
}

/// Deletes a file.
#[derive(Clone, Copy, Debug, PartialEq, Eq)]
pub struct DeleteFile {
    /// Group with next action
    pub group: bool,
    /// Ask for a response (status?)
    pub resp: bool,
    pub file_id: u8,
}

/// Restores a file to its default content.
#[derive(Clone, Copy, Debug, PartialEq, Eq)]
pub struct RestoreFile {
    /// Group with next action
    pub group: bool,
    /// Ask for a response (status?)
    pub resp: bool,
    pub file_id: u8,
}

/// Flushes a file to its storage.
#[derive(Clone, Copy, Debug, PartialEq, Eq)]
pub struct FlushFile {
    /// Group with next action
    pub group: bool,
    /// Ask for a response (status?)
    pub resp: bool,
    pub file_id: u8,
}

/// Executes a file.
#[derive(Clone, Copy, Debug, PartialEq, Eq)]
pub struct ExecuteFile {
    /// Group with next action
    pub group: bool,
    /// Ask for a response (status?)
    pub resp: bool,
    pub file_id: u8,
}

impl ExistFile {
    /// Bytes of the encoded action.
    pub open spec fn encoding(self) -> Seq<u8> {
        file_id_encoding(EXIST_FILE, self.group, self.resp, self.file_id)
    }

    /// The action whose fields are read from the start of `data`; the op code is not checked.
    pub open spec fn decoded(data: Seq<u8>) -> Self {
        ExistFile { group: data[0] & 0x80 != 0, resp: data[0] & 0x40 != 0, file_id: data[1] }
    }

    pub fn encoded_size(&self) -> (r: usize)
        ensures
            r == self.encoding().len(),
    {
        SIZE
    }

    /// Writes the encoded action at the start of `out`, which must be large enough.
    pub fn encode_in(&self, out: &mut [u8]) -> (r: usize)
        requires
            old(out)@.len() >= SIZE,
        ensures
            r == self.encoding().len(),
            written_at_head(final(out)@, old(out)@, self.encoding()),
    {
        encode_file_id_op(EXIST_FILE, self.group, self.resp, self.file_id, out)
    }

    /// # Errors
    /// Fails with the number of missing bytes if the input is too short.
    pub fn decode(out: &[u8]) -> (r: Result<WithSize<Self>, WithOffset<StdError>>)
        ensures
            r is Ok <==> out@.len() >= SIZE,
            r matches Ok(w) ==> w.size == SIZE && w.value == Self::decoded(out@),
            r matches Err(e) ==> e == (WithOffset {
                offset: 0,
                value: StdError::MissingBytes((SIZE - out@.len()) as usize),
            }),
    {
        let (group, resp, file_id) = decode_file_id_op(out)?;
        Ok(WithSize { value: Self { group, resp, file_id }, size: SIZE })
    }
}

impl DeleteFile {
    /// Bytes of the encoded action.
    pub open spec fn encoding(self) -> Seq<u8> {
        file_id_encoding(DELETE_FILE, self.group, self.resp, self.file_id)
    }

    /// The action whose fields are read from the start of `data`; the op code is not checked.
    pub open spec fn decoded(data: Seq<u8>) -> Self {
        DeleteFile { group: data[0] & 0x80 != 0, resp: data[0] & 0x40 != 0, file_id: data[1] }
    }

    pub fn encoded_size(&self) -> (r: usize)
        ensures
            r == self.encoding().len(),
    {
        SIZE
    }

    /// Writes the encoded action at the start of `out`, which must be large enough.
    pub fn encode_in(&self, out: &mut [u8]) -> (r: usize)
        requires
            old(out)@.len() >= SIZE,
        ensures
            r == self.encoding().len(),
            written_at_head(final(out)@, old(out)@, self.encoding()),
    {
        encode_file_id_op(DELETE_FILE, self.group, self.resp, self.file_id, out)
    }

    /// # Errors
    /// Fails with the number of missing bytes if the input is too short.
    pub fn decode(out: &[u8]) -> (r: Result<WithSize<Self>, WithOffset<StdError>>)
        ensures
            r is Ok <==> out@.len() >= SIZE,
            r matches Ok(w) ==> w.size == SIZE && w.value == Self::decoded(out@),
            r matches Err(e) ==> e == (WithOffset {
                offset: 0,
                value: StdError::MissingBytes((SIZE - out@.len()) as usize),
            }),
    {
        let (group, resp, file_id) = decode_file_id_op(out)?;
        Ok(WithSize { value: Self { group, resp, file_id }, size: SIZE })
    }
}

impl RestoreFile {
    /// Bytes of the encoded action.
    pub open spec fn encoding(self) -> Seq<u8> {
        file_id_encoding(RESTORE_FILE, self.group, self.resp, self.file_id)
    }

    /// The action whose fields are read from the start of `data`; the op code is not checked.
    pub open spec fn decoded(data: Seq<u8>) -> Self {
        RestoreFile { group: data[0] & 0x80 != 0, resp: data[0] & 0x40 != 0, file_id: data[1] }
    }

    pub fn encoded_size(&self) -> (r: usize)
        ensures
            r == self.encoding().len(),
    {
        SIZE
    }

    /// Writes the encoded action at the start of `out`, which must be large enough.
    pub fn encode_in(&self, out: &mut [u8]) -> (r: usize)
        requires
            old(out)@.len() >= SIZE,
        ensures
            r == self.encoding().len(),
            written_at_head(final(out)@, old(out)@, self.encoding()),
    {
        encode_file_id_op(RESTORE_FILE, self.group, self.resp, self.file_id, out)
    }

    /// # Errors
    /// Fails with the number of missing bytes if the input is too short.
    pub fn decode(out: &[u8]) -> (r: Result<WithSize<Self>, WithOffset<StdError>>)
        ensures
            r is Ok <==> out@.len() >= SIZE,
            r matches Ok(w) ==> w.size == SIZE && w.value == Self::decoded(out@),
            r matches Err(e) ==> e == (WithOffset {
                offset: 0,
                value: StdError::MissingBytes((SIZE - out@.len()) as usize),
            }),
    {
        let (group, resp, file_id) = decode_file_id_op(out)?;
        Ok(WithSize { value: Self { group, resp, file_id }, size: SIZE })
    }
}

impl FlushFile {
    /// Bytes of the encoded action.
    pub open spec fn encoding(self) -> Seq<u8> {
        file_id_encoding(FLUSH_FILE, self.group, self.resp, self.file_id)
    }

    /// The action whose fields are read from the start of `data`; the op code is not checked.
    pub open spec fn decoded(data: Seq<u8>) -> Self {
        FlushFile { group: data[0] & 0x80 != 0, resp: data[0] & 0x40 != 0, file_id: data[1] }
    }

    pub fn encoded_size(&self) -> (r: usize)
        ensures
            r == self.encoding().len(),
    {
        SIZE
    }

    /// Writes the encoded action at the start of `out`, which must be large enough.
    pub fn encode_in(&self, out: &mut [u8]) -> (r: usize)
        requires
            old(out)@.len() >= SIZE,
        ensures
            r == self.encoding().len(),
            written_at_head(final(out)@, old(out)@, self.encoding()),
    {
        encode_file_id_op(FLUSH_FILE, self.group, self.resp, self.file_id, out)
    }

    /// # Errors
    /// Fails with the number of missing bytes if the input is too short.
    pub fn decode(out: &[u8]) -> (r: Result<WithSize<Self>, WithOffset<StdError>>)
        ensures
            r is Ok <==> out@.len() >= SIZE,
            r matches Ok(w) ==> w.size == SIZE && w.value == Self::decoded(out@),
            r matches Err(e) ==> e == (WithOffset {
                offset: 0,
                value: StdError::MissingBytes((SIZE - out@.len()) as usize),
            }),
    {
        let (group, resp, file_id) = decode_file_id_op(out)?;
        Ok(WithSize { value: Self { group, resp, file_id }, size: SIZE })
    }
}

impl ExecuteFile {
    /// Bytes of the encoded action.
    pub open spec fn encoding(self) -> Seq<u8> {
        file_id_encoding(EXECUTE_FILE, self.group, self.resp, self.file_id)
    }

    /// The action whose fields are read from the start of `data`; the op code is not checked.
    pub open spec fn decoded(data: Seq<u8>) -> Self {
        ExecuteFile { group: data[0] & 0x80 != 0, resp: data[0] & 0x40 != 0, file_id: data[1] }
    }

    pub fn encoded_size(&self) -> (r: usize)
        ensures
            r == self.encoding().len(),
    {
        SIZE
    }

    /// Writes the encoded action at the start of `out`, which must be large enough.
    pub fn encode_in(&self, out: &mut [u8]) -> (r: usize)
        requires
            old(out)@.len() >= SIZE,
        ensures
            r == self.encoding().len(),
            written_at_head(final(out)@, old(out)@, self.encoding()),
    {
        encode_file_id_op(EXECUTE_FILE, self.group, self.resp, self.file_id, out)
    }

    /// # Errors
    /// Fails with the number of missing bytes if the input is too short.
    pub fn decode(out: &[u8]) -> (r: Result<WithSize<Self>, WithOffset<StdError>>)
        ensures
            r is Ok <==> out@.len() >= SIZE,
            r matches Ok(w) ==> w.size == SIZE && w.value == Self::decoded(out@),
            r matches Err(e) ==> e == (WithOffset {
                offset: 0,
                value: StdError::MissingBytes((SIZE - out@.len()) as usize),
            }),
    {
        let (group, resp, file_id) = decode_file_id_op(out)?;
        Ok(WithSize { value: Self { group, resp, file_id }, size: SIZE })
    }
}

/// Decoding an encoded action on a file id gives back its flags and file id, whatever the
/// op code and whatever follows it.
pub proof fn lemma_roundtrip(op: u8, group: bool, resp: bool, file_id: u8, rest: Seq<u8>)
    requires
        op < 64,
    ensures
        (file_id_encoding(op, group, resp, file_id) + rest).len() >= SIZE,
        ((file_id_encoding(op, group, resp, file_id) + rest)[0] & 0x80 != 0) == group,
        ((file_id_encoding(op, group, resp, file_id) + rest)[0] & 0x40 != 0) == resp,
        (file_id_encoding(op, group, resp, file_id) + rest)[0] & 0x3F == op,
        (file_id_encoding(op, group, resp, file_id) + rest)[1] == file_id,
{
    lemma_ctrl_byte(op, group, resp);
}

} // verus!
