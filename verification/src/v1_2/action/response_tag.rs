//! Response tag action.
use crate::codec::{StdError, WithOffset, WithSize};
use crate::decodable::{splice, written_at_head};
use crate::v1_2::define::flag::{control_byte, ctrl_byte, lemma_ctrl_byte};
use crate::v1_2::define::op_code::RESPONSE_TAG;
use vstd::prelude::*;

verus! {

/// Byte size of an encoded response tag action.
pub const SIZE: usize = 2;

/// Tags the responses to the request of the same tag.
#[derive(Clone, Copy, Debug, PartialEq, Eq)]
pub struct ResponseTag {
    /// End of packet
    ///
    /// Signal the last response packet for the request `id`
    /// (E)
    pub eop: bool,
    /// An error occured
    /// (R)
    pub err: bool,
    pub id: u8,
}

impl ResponseTag {
    /// Bytes of the encoded action.
    pub open spec fn encoding(self) -> Seq<u8> {
        seq![ctrl_byte(RESPONSE_TAG, self.eop, self.err), self.id]
    }

    /// The action whose fields are read from the start of `data`; the op code is not checked.
    pub open spec fn decoded(data: Seq<u8>) -> Self {
        ResponseTag { eop: data[0] & 0x80 != 0, err: data[0] & 0x40 != 0, id: data[1] }
    }

    pub fn encoded_size(&self) -> (r: usize)
        ensures
            r == self.encoding().len(),
    {
        SIZE
    }

    /// Writes the encoded action at the start of `out`, which must be large enough.
    pub fn encode_in(&self, out: &mut [u8]) -> (r: usize)
        requires
            old(out)@.len() >= SIZE,
        ensures
            r == self.encoding().len(),
            written_at_head(final(out)@, old(out)@, self.encoding()),
    {
        out[0] = control_byte(RESPONSE_TAG, self.eop, self.err);
        out[1] = self.id;
        assert(out@ =~= splice(old(out)@, 0, self.encoding()));
        SIZE
    }

    /// # Errors
    /// Fails with the number of missing bytes if the input is too short.
    pub fn decode(out: &[u8]) -> (r: Result<WithSize<Self>, WithOffset<StdError>>)
        ensures
            r is Ok <==> out@.len() >= SIZE,
            r matches Ok(w) ==> w.size == SIZE && w.value == Self::decoded(out@),
            r matches Err(e) ==> e == (WithOffset {
                offset: 0,
                value: StdError::MissingBytes((SIZE - out@.len()) as usize),
            }),
    {
        if out.len() < SIZE {
            return Err(WithOffset::new_head(StdError::MissingBytes(SIZE - out.len())));
        }
        Ok(
            WithSize {
                value: Self { eop: out[0] & 0x80 != 0, err: out[0] & 0x40 != 0, id: out[1] },
                size: SIZE,
            },
        )
    }
}

/// Decoding an encoded response tag gives it back, whatever follows it.
pub proof fn lemma_roundtrip(op: ResponseTag, rest: Seq<u8>)
    ensures
        (op.encoding() + rest).len() >= SIZE,
        ResponseTag::decoded(op.encoding() + rest) == op,
{
    lemma_ctrl_byte(RESPONSE_TAG, op.eop, op.err);
}

} // verus!
