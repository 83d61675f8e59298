//! Copy file action.
use crate::codec::{StdError, WithOffset, WithSize};
use crate::decodable::{splice, written_at_head};
use crate::v1_2::define::flag::{control_byte, ctrl_byte, lemma_ctrl_byte};
use crate::v1_2::define::op_code::COPY_FILE;
use vstd::prelude::*;

verus! {

/// Byte size of an encoded copy file action.
pub const SIZE: usize = 3;

/// Copies the content of a file into another.
#[derive(Clone, Copy, Debug, PartialEq, Eq)]
pub struct CopyFile {
    /// Group with next action
    pub group: bool,
    /// Ask for a response (status)
    pub resp: bool,
    pub src_file_id: u8,
    pub dst_file_id: u8,
}

impl CopyFile {
    /// Bytes of the encoded action.
    pub open spec fn encoding(self) -> Seq<u8> {
        seq![ctrl_byte(COPY_FILE, self.group, self.resp), self.src_file_id, self.dst_file_id]
    }

    /// The action whose fields are read from the start of `data`; the op code is not checked.
    pub open spec fn decoded(data: Seq<u8>) -> Self {
        CopyFile {
            group: data[0] & 0x80 != 0,
            resp: data[0] & 0x40 != 0,
            src_file_id: data[1],
            dst_file_id: data[2],
        }
    }

    pub fn encoded_size(&self) -> (r: usize)
        ensures
            r == self.encoding().len(),
    {
        SIZE
    }

    /// Writes the encoded action at the start of `out`, which must be large enough.
    pub fn encode_in(&self, out: &mut [u8]) -> (r: usize)
        requires
            old(out)@.len() >= SIZE,
        ensures
            r == self.encoding().len(),
            written_at_head(final(out)@, old(out)@, self.encoding()),
    {
        out[0] = control_byte(COPY_FILE, self.group, self.resp);
        out[1] = self.src_file_id;
        out[2] = self.dst_file_id;
        assert(out@ =~= splice(old(out)@, 0, self.encoding()));
        SIZE
    }

    /// # Errors
    /// Fails with the number of missing bytes if the input is too short.
    pub fn decode(out: &[u8]) -> (r: Result<WithSize<Self>, WithOffset<StdError>>)
        ensures
            r is Ok <==> out@.len() >= SIZE,
            r matches Ok(w) ==> w.size == SIZE && w.value == Self::decoded(out@),
            r matches Err(e) ==> e == (WithOffset {
                offset: 0,
                value: StdError::MissingBytes((SIZE - out@.len()) as usize),
            }),
    {
        if out.len() < SIZE {
            return Err(WithOffset::new_head(StdError::MissingBytes(SIZE - out.len())));
        }
        Ok(
            WithSize {
                value: Self {
                    group: out[0] & 0x80 != 0,
                    resp: out[0] & 0x40 != 0,
                    src_file_id: out[1],
                    dst_file_id: out[2],
                },
                size: SIZE,
            },
        )
    }
}

/// Decoding an encoded copy file action gives it back, whatever follows it.
pub proof fn lemma_roundtrip(op: CopyFile, rest: Seq<u8>)
    ensures
        (op.encoding() + rest).len() >= SIZE,
        CopyFile::decoded(op.encoding() + rest) == op,
{
    lemma_ctrl_byte(COPY_FILE, op.group, op.resp);
}

} // verus!
