//! Permission request action.
use crate::codec::{WithOffset, WithSize};
use crate::decodable::{lemma_splice_concat, skip, splice, written_at_head};
use crate::v1_2::define::flag::{control_byte, ctrl_byte, lemma_ctrl_byte};
use crate::v1_2::define::op_code::PERMISSION_REQUEST;
use crate::v1_2::operand::permission::{Permission, PermissionDecodingError, DASH7_ID};
use vstd::prelude::*;

verus! {

/// Byte size of an encoded permission request.
pub const SIZE: usize = 11;

/// Request a level of permission using some permission type
#[derive(Clone, Copy, Debug, PartialEq, Eq)]
pub struct PermissionRequest {
    /// Group with next action
    pub group: bool,
    /// Ask for a response (a status)
    pub resp: bool,
    /// See operand::permission_level
    pub level: u8,
    pub permission: Permission,
}

impl PermissionRequest {
    /// Bytes of the encoded action.
    pub open spec fn encoding(self) -> Seq<u8> {
        seq![ctrl_byte(PERMISSION_REQUEST, self.group, self.resp), self.level]
            + self.permission.encoding()
    }

    /// `self` is the request encoded at the start of `data`; the op code is not checked.
    pub open spec fn decoded_from(self, data: Seq<u8>) -> bool {
        &&& self.group == (data[0] & 0x80 != 0)
        &&& self.resp == (data[0] & 0x40 != 0)
        &&& self.level == data[1]
        &&& self.permission.encoding() == data.subrange(2, SIZE as int)
    }

    /// Error of decoding `data`, which does not start with a request.
    pub open spec fn decode_error(data: Seq<u8>) -> WithOffset<PermissionDecodingError> {
        if data.len() == 0 {
            WithOffset { offset: 0, value: PermissionDecodingError::MissingBytes(1) }
        } else if data.len() == 2 {
            WithOffset { offset: 2, value: PermissionDecodingError::MissingBytes(1) }
        } else {
            WithOffset { offset: 2, value: PermissionDecodingError::UnknownId(data[2]) }
        }
    }

    /// `data` is long enough for the fields that its first bytes announce.
    pub open spec fn decode_ready(data: Seq<u8>) -> bool {
        &&& data.len() != 1
        &&& data.len() >= 3 && data[2] == DASH7_ID ==> data.len() >= SIZE
    }

    pub fn encoded_size(&self) -> (r: usize)
        ensures
            r == self.encoding().len(),
    {
        2 + self.permission.encoded_size()
    }

    /// Writes the encoded action at the start of `out`, which must be large enough.
    pub fn encode_in(&self, out: &mut [u8]) -> (r: usize)
        requires
            old(out)@.len() >= self.encoding().len(),
        ensures
            r == self.encoding().len(),
            written_at_head(final(out)@, old(out)@, self.encoding()),
    {
        let ghost before = out@;
        let ghost head = seq![ctrl_byte(PERMISSION_REQUEST, self.group, self.resp), self.level];
        out[0] = control_byte(PERMISSION_REQUEST, self.group, self.resp);
        out[1] = self.level;
        assert(out@ =~= splice(before, 0, head));
        let n = self.permission.encode_at(out, 2);
        proof {
            lemma_splice_concat(before, 0, head, self.permission.encoding());
        }
        2 + n
    }

    /// A Dash7 permission must be followed by its whole token: a shorter input is refused by
    /// `requires`, as is an input of one byte.
    ///
    /// # Errors
    /// Fails if the input is empty or stops after the level, or if the permission kind is
    /// unknown.
    pub fn decode(out: &[u8]) -> (r: Result<WithSize<Self>, WithOffset<PermissionDecodingError>>)
        requires
            Self::decode_ready(out@),
        ensures
            r is Ok <==> out@.len() >= 3 && out@[2] == DASH7_ID,
            r matches Ok(w) ==> w.size == SIZE && w.value.decoded_from(out@),
            r matches Err(e) ==> e == Self::decode_error(out@),
    {
        if out.len() == 0 {
            return Err(WithOffset::new_head(PermissionDecodingError::MissingBytes(1)));
        }
        let level = out[1];
        let rest = skip(out, 2);
        match Permission::decode(rest) {
            Ok(w) => {
                assert(rest@.subrange(0, 9) =~= out@.subrange(2, SIZE as int));
                Ok(
                    WithSize {
                        value: Self {
                            group: out[0] & 0x80 != 0,
                            resp: out[0] & 0x40 != 0,
                            level,
                            permission: w.value,
                        },
                        size: 2 + w.size,
                    },
                )
            },
            Err(e) => Err(WithOffset::new(e.offset + 2, e.value)),
        }
    }
}

/// Decoding an encoded permission request gives it back, whatever follows it.
pub proof fn lemma_roundtrip(op: PermissionRequest, rest: Seq<u8>)
    ensures
        (op.encoding() + rest).len() >= SIZE,
        (op.encoding() + rest)[2] == DASH7_ID,
        op.decoded_from(op.encoding() + rest),
{
    let d = op.encoding() + rest;
    lemma_ctrl_byte(PERMISSION_REQUEST, op.group, op.resp);
    assert(d.subrange(2, SIZE as int) =~= op.permission.encoding());
}

} // verus!
