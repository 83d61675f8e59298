//! Permission operand of a permission request.
use crate::codec::{WithOffset, WithSize};
use crate::decodable::{copy_at, lemma_splice_byte, lemma_splice_concat, splice, written_at_head};
use vstd::prelude::*;

pub mod permission_level;

verus! {

/// Identifier of the Dash7 permission kind.
pub const DASH7_ID: u8 = 0x42;

/// A permission, with its token.
#[derive(Clone, Copy, Debug, PartialEq, Eq)]
pub enum Permission {
    Dash7([u8; 8]),
}

#[derive(Debug, Copy, Clone, PartialEq, Eq)]
pub enum PermissionDecodingError {
    MissingBytes(usize),
    UnknownId(u8),
}

impl Permission {
    /// Bytes of the encoded permission.
    pub open spec fn encoding(self) -> Seq<u8> {
        match self {
            Self::Dash7(token) => seq![DASH7_ID] + token@,
        }
    }

    /// Identifier of the permission kind.
    pub fn id(self) -> (r: u8)
        ensures
            r == self.encoding()[0],
    {
        match self {
            Self::Dash7(_) => DASH7_ID,
        }
    }

    pub fn encoded_size(&self) -> (r: usize)
        ensures
            r == self.encoding().len(),
    {
        match self {
            Self::Dash7(_) => 9,
        }
    }

    /// Writes the encoded permission at `pos` in `out`.
    pub fn encode_at(&self, out: &mut [u8], pos: usize) -> (r: usize)
        requires
            pos + self.encoding().len() <= old(out)@.len(),
        ensures
            r == self.encoding().len(),
            final(out)@ == splice(old(out)@, pos as int, self.encoding()),
    {
        let ghost before = out@;
        match self {
            Self::Dash7(token) => {
                proof {
                    lemma_splice_byte(out@, pos as int, DASH7_ID);
                }
                out[pos] = DASH7_ID;
                copy_at(out, pos + 1, token.as_slice());
                proof {
                    lemma_splice_concat(before, pos as int, seq![DASH7_ID], token@);
                }
                9
            },
        }
    }

    /// Writes the encoded permission at the start of `out`, which must be large enough.
    pub fn encode_in(&self, out: &mut [u8]) -> (r: usize)
        requires
            old(out)@.len() >= self.encoding().len(),
        ensures
            r == self.encoding().len(),
            written_at_head(final(out)@, old(out)@, self.encoding()),
    {
        self.encode_at(out, 0)
    }

    /// Decodes a permission; a Dash7 permission is followed by its whole 8 bytes token.
    ///
    /// # Errors
    /// Fails if the input is empty or if the permission kind is unknown.
    pub fn decode(out: &[u8]) -> (r: Result<WithSize<Self>, WithOffset<PermissionDecodingError>>)
        requires
            out@.len() >= 1 && out@[0] == DASH7_ID ==> out@.len() >= 9,
        ensures
            r is Ok <==> out@.len() >= 1 && out@[0] == DASH7_ID,
            r matches Ok(w) ==> w.size == 9 && w.value.encoding() == out@.subrange(0, 9),
            r matches Err(e) ==> e.offset == 0 && e.value == if out@.len() == 0 {
                PermissionDecodingError::MissingBytes(1)
            } else {
                PermissionDecodingError::UnknownId(out@[0])
            },
    {
        if out.len() == 0 {
            return Err(WithOffset::new_head(PermissionDecodingError::MissingBytes(1)));
        }
        if out[0] == DASH7_ID {
            let token = [out[1], out[2], out[3], out[4], out[5], out[6], out[7], out[8]];
            let r = Self::Dash7(token);
            assert(r.encoding() =~= out@.subrange(0, 9));
            Ok(WithSize { value: r, size: 9 })
        } else {
            Err(WithOffset::new_head(PermissionDecodingError::UnknownId(out[0])))
        }
    }
}

/// Decoding an encoded permission gives it back, whatever follows it.
pub proof fn lemma_roundtrip(op: Permission, rest: Seq<u8>)
    ensures
        (op.encoding() + rest).len() >= 9,
        (op.encoding() + rest)[0] == DASH7_ID,
        (op.encoding() + rest).subrange(0, 9) == op.encoding(),
{
    assert((op.encoding() + rest).subrange(0, 9) =~= op.encoding());
}

} // verus!
