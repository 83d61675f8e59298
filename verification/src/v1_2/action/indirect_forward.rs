//! Indirect forward action: the rest of the request goes through another interface.
use crate::codec::{StdError, WithOffset, WithSize};
use crate::decodable::{lemma_splice_concat, splice, tail, written_at_head};
use crate::v1_2::define::flag::{control_byte, ctrl_byte, lemma_ctrl_byte};
use crate::v1_2::define::op_code::INDIRECT_FORWARD;
use crate::v1_2::operand::indirect_interface::{IndirectInterface, OverloadedIndirectInterface};
use vstd::prelude::*;

verus! {

/// Forwards the rest of the request through the given interface.
#[derive(Clone, Debug, PartialEq, Eq)]
pub struct IndirectForward {
    pub resp: bool,
    pub interface: IndirectInterface,
}

impl IndirectForward {
    /// The interface is overloaded by an addressee.
    pub open spec fn overloaded(self) -> bool {
        self.interface is Overloaded
    }

    /// Bytes of the encoded action: the high bit of its first byte tells whether the interface
    /// is overloaded.
    pub open spec fn encoding(self) -> Seq<u8> {
        seq![ctrl_byte(INDIRECT_FORWARD, self.overloaded(), self.resp)]
            + self.interface.encoding()
    }

    /// The action is small enough for its size to be counted.
    pub open spec fn measurable(self) -> bool {
        self.interface.measurable() && self.interface.encoding().len() < usize::MAX
    }

    pub fn encoded_size(&self) -> (r: usize)
        requires
            self.measurable(),
        ensures
            r == self.encoding().len(),
    {
        1 + self.interface.encoded_size()
    }

    /// Writes the encoded action at the start of `out`, which must be large enough.
    pub fn encode_in(&self, out: &mut [u8]) -> (r: usize)
        requires
            old(out)@.len() >= self.encoding().len(),
        ensures
            r == self.encoding().len(),
            written_at_head(final(out)@, old(out)@, self.encoding()),
    {
        let ghost before = out@;
        let overload = match self.interface {
            IndirectInterface::Overloaded(_) => true,
            IndirectInterface::NonOverloaded(_) => false,
        };
        out[0] = control_byte(INDIRECT_FORWARD, overload, self.resp);
        let ghost head = seq![ctrl_byte(INDIRECT_FORWARD, overload, self.resp)];
        assert(out@ =~= splice(before, 0, head));
        let n = self.interface.encode_at(out, 1);
        proof {
            lemma_splice_concat(before, 0, head, self.interface.encoding());
        }
        1 + n
    }

    /// Only an action whose interface is overloaded can be decoded: the high bit of the first
    /// byte must be set.
    ///
    /// # Errors
    /// Fails with the number of missing bytes if the input is too short.
    pub fn decode(out: &[u8]) -> (r: Result<WithSize<Self>, WithOffset<StdError>>)
        requires
            out@.len() >= 1 ==> out@[0] & 0x80 != 0,
        ensures
            r is Ok <==> out@.len() >= 1 && OverloadedIndirectInterface::complete(tail(out@, 1)),
            r matches Ok(w) ==> w.value.resp == (out@[0] & 0x40 != 0) && w.size == 1
                + OverloadedIndirectInterface::decoded_size(tail(out@, 1)),
            r matches Ok(w) ==> (w.value.interface matches IndirectInterface::Overloaded(v)
                && v.decoded_from(tail(out@, 1))),
            r matches Err(e) ==> e == (if out@.len() == 0 {
                WithOffset { offset: 0, value: StdError::MissingBytes(1) }
            } else {
                OverloadedIndirectInterface::decode_error(tail(out@, 1), 1)
            }),
    {
        if out.len() == 0 {
            return Err(WithOffset::new_head(StdError::MissingBytes(1)));
        }
        let w = IndirectInterface::decode(out)?;
        Ok(WithSize { value: Self { resp: out[0] & 0x40 != 0, interface: w.value }, size: w.size })
    }
}

/// Decoding an encoded indirect forward action whose interface is overloaded gives it back,
/// whatever follows it.
pub proof fn lemma_roundtrip(op: IndirectForward, rest: Seq<u8>)
    requires
        op.overloaded(),
    ensures
        (op.encoding() + rest)[0] & 0x80 != 0,
        ((op.encoding() + rest)[0] & 0x40 != 0) == op.resp,
        OverloadedIndirectInterface::complete(tail(op.encoding() + rest, 1)),
        OverloadedIndirectInterface::decoded_size(tail(op.encoding() + rest, 1))
            == op.interface.encoding().len(),
        op.interface matches IndirectInterface::Overloaded(v) && v.decoded_from(
            tail(op.encoding() + rest, 1),
        ),
{
    lemma_ctrl_byte(INDIRECT_FORWARD, true, op.resp);
    if let IndirectInterface::Overloaded(v) = op.interface {
        assert(tail(op.encoding() + rest, 1) =~= v.encoding() + rest);
        crate::v1_2::operand::indirect_interface::lemma_overloaded_roundtrip(v, rest);
    }
}

} // verus!
