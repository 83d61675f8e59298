//! Actions that carry the header of a file: write file properties, create new file and
//! return file properties.
use super::HeaderActionDecodingError;
use crate::codec::{WithOffset, WithSize};
use crate::decodable::{lemma_splice_concat, splice, written_at_head};
use crate::v1_2::data::{self, FileHeader, HEADER_SIZE};
use crate::v1_2::define::flag::{control_byte, ctrl_byte, lemma_ctrl_byte};
use vstd::prelude::*;

verus! {

/// Byte size of an encoded action that carries a file header.
pub const SIZE: usize = 14;

/// A file id and the header of that file; the op code tells what to do of them.
#[derive(Clone, Copy, Debug, PartialEq, Eq)]
pub struct FilePropertiesAction {
    /// Group with next action
    pub group: bool,
    /// Ask for a response (a status)
    pub resp: bool,
    pub file_id: u8,
    pub header: FileHeader,
}

impl FilePropertiesAction {
    /// Bytes of the action encoded with the op code `op_code`.
    pub open spec fn encoding(self, op_code: u8) -> Seq<u8> {
        seq![ctrl_byte(op_code, self.group, self.resp), self.file_id] + self.header.encoding()
    }

    /// The action whose fields are read from the start of `data`; the op code is not checked.
    pub open spec fn decoded(data: Seq<u8>) -> Self {
        FilePropertiesAction {
            group: data[0] & 0x80 != 0,
            resp: data[0] & 0x40 != 0,
            file_id: data[1],
            header: FileHeader::decoded(data.subrange(2, SIZE as int)),
        }
    }

    pub fn encoded_size(&self) -> (r: usize)
        ensures
            r == self.encoding(0).len(),
            r == SIZE,
    {
        SIZE
    }

    /// Writes the action encoded with the op code `op_code` at the start of `out`, which must
    /// be large enough.
    pub fn encode_in(&self, op_code: u8, out: &mut [u8]) -> (r: usize)
        requires
            old(out)@.len() >= SIZE,
        ensures
            r == self.encoding(op_code).len(),
            written_at_head(final(out)@, old(out)@, self.encoding(op_code)),
    {
        let ghost before = out@;
        let ghost head = seq![ctrl_byte(op_code, self.group, self.resp), self.file_id];
        out[0] = control_byte(op_code, self.group, self.resp);
        out[1] = self.file_id;
        assert(out@ =~= splice(before, 0, head));
        self.header.encode_at(out, 2);
        proof {
            lemma_splice_concat(before, 0, head, self.header.encoding());
        }
        SIZE
    }

    /// # Errors
    /// Fails with the number of missing bytes if the input is too short.
    pub fn decode(out: &[u8]) -> (r: Result<WithSize<Self>, WithOffset<HeaderActionDecodingError>>)
        ensures
            r is Ok <==> out@.len() >= SIZE,
            r matches Ok(w) ==> w.size == SIZE && w.value == Self::decoded(out@),
            r matches Err(e) ==> e == (WithOffset {
                offset: 0,
                value: HeaderActionDecodingError::MissingBytes((SIZE - out@.len()) as usize),
            }),
    {
        if out.len() < SIZE {
            return Err(
                WithOffset::new_head(HeaderActionDecodingError::MissingBytes(SIZE - out.len())),
            );
        }
        let (_, rest) = out.split_at(2);
        let (header_bytes, _) = rest.split_at(HEADER_SIZE);
        assert(header_bytes@ =~= out@.subrange(2, SIZE as int));
        let header = FileHeader::decode(header_bytes).unwrap().value;
        Ok(
            WithSize {
                value: Self {
                    group: out[0] & 0x80 != 0,
                    resp: out[0] & 0x40 != 0,
                    file_id: out[1],
                    header,
                },
                size: SIZE,
            },
        )
    }
}

/// Decoding an encoded action that carries a file header gives it back, whatever follows it.
pub proof fn lemma_roundtrip(op: FilePropertiesAction, op_code: u8, rest: Seq<u8>)
    requires
        op_code < 64,
    ensures
        (op.encoding(op_code) + rest).len() >= SIZE,
        (op.encoding(op_code) + rest)[0] & 0x3F == op_code,
        FilePropertiesAction::decoded(op.encoding(op_code) + rest) == op,
{
    let d = op.encoding(op_code) + rest;
    lemma_ctrl_byte(op_code, op.group, op.resp);
    assert(d.subrange(2, SIZE as int) =~= op.header.encoding() + seq![]);
    data::lemma_roundtrip(op.header, seq![]);
}

} // verus!
