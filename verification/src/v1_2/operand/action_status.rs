//! Result of an action in a previously sent request.
use crate::codec::{StdError, WithOffset, WithSize};
use crate::decodable::{splice, written_at_head};
use vstd::prelude::*;

pub mod status;

verus! {

/// Result of an action in a previously sent request
#[derive(Clone, Copy, Debug, PartialEq, Eq)]
pub struct ActionStatus {
    /// Index of the ALP action associated with this status, in the original request as seen from
    /// the receiver side.
    pub action_id: u8,
    /// Result code
    pub status: u8,
}

/// Byte size of an encoded action status.
pub const SIZE: usize = 2;

impl ActionStatus {
    /// Bytes of the encoded operand.
    pub open spec fn encoding(self) -> Seq<u8> {
        seq![self.action_id, self.status]
    }

    pub fn encoded_size(&self) -> (r: usize)
        ensures
            r == self.encoding().len(),
    {
        SIZE
    }

    /// Writes the encoded operand at the start of `out`, which must be large enough.
    pub fn encode_in(&self, out: &mut [u8]) -> (r: usize)
        requires
            old(out)@.len() >= SIZE,
        ensures
            r == self.encoding().len(),
            written_at_head(final(out)@, old(out)@, self.encoding()),
    {
        out[0] = self.action_id;
        out[1] = self.status;
        assert(out@ =~= splice(old(out)@, 0, self.encoding()));
        SIZE
    }

    /// # Errors
    /// Fails with the number of missing bytes if the input is too short.
    pub fn decode(out: &[u8]) -> (r: Result<WithSize<Self>, WithOffset<StdError>>)
        ensures
            r is Ok <==> out@.len() >= SIZE,
            r matches Ok(w) ==> w.size == SIZE && w.value == (ActionStatus {
                action_id: out@[0],
                status: out@[1],
            }),
            r matches Err(e) ==> e.offset == 0 && e.value == StdError::MissingBytes(
                (SIZE - out@.len()) as usize,
            ),
    {
        if out.len() < SIZE {
            return Err(WithOffset::new_head(StdError::MissingBytes(SIZE - out.len())));
        }
        Ok(WithSize { value: Self { action_id: out[0], status: out[1] }, size: SIZE })
    }
}

/// Decoding an encoded action status gives it back.
pub proof fn lemma_roundtrip(op: ActionStatus, rest: Seq<u8>)
    ensures
        (op.encoding() + rest).len() >= SIZE,
        (op.encoding() + rest)[0] == op.action_id,
        (op.encoding() + rest)[1] == op.status,
{
}

} // verus!
