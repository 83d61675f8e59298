//! Flow operand: a flow identifier and its sequence number.
use crate::codec::{StdError, WithOffset, WithSize};
use crate::decodable::{be_bytes_u32, from_be_u32, lemma_be_u32_roundtrip, splice, written_at_head};
use vstd::prelude::*;

verus! {

/// Width of the sequence number of a flow, held by the high bit of the first byte.
#[derive(Clone, Copy, Debug, PartialEq, Eq)]
pub enum FlowType {
    U16,
    U32,
}

impl FlowType {
    pub open spec fn spec_code(self) -> u8 {
        match self {
            Self::U16 => 0,
            Self::U32 => 1,
        }
    }

    pub fn code(self) -> (r: u8)
        ensures
            r == self.spec_code(),
    {
        match self {
            Self::U16 => 0,
            Self::U32 => 1,
        }
    }

    /// The flow type whose number is `n`; there is none above 1.
    pub fn from(n: u8) -> (r: Self)
        requires
            n < 2,
        ensures
            r.spec_code() == n,
    {
        if n == 0 {
            Self::U16
        } else {
            Self::U32
        }
    }
}

/// Sequence number of a flow.
#[derive(Clone, Copy, Debug, PartialEq, Eq)]
pub enum FlowSeqnum {
    U16(u16),
    U32(u32),
}

/// Big endian bytes of a 16 bits number.
pub open spec fn be_bytes_u16(v: u16) -> Seq<u8> {
    seq![(v >> 8u16) as u8, v as u8]
}

/// The 16 bits number whose big endian bytes are `b0`, `b1`.
pub open spec fn from_be_u16(b0: u8, b1: u8) -> u16 {
    ((b0 as u16) << 8u16) | (b1 as u16)
}

/// Reading the big endian bytes of a number gives it back.
pub proof fn lemma_be_roundtrip(a: u16)
    by (bit_vector)
    ensures
        from_be_u16((a >> 8u16) as u8, a as u8) == a,
{
}

impl FlowSeqnum {
    /// Width of the sequence number.
    pub open spec fn spec_flow_type(self) -> FlowType {
        match self {
            Self::U16(_) => FlowType::U16,
            Self::U32(_) => FlowType::U32,
        }
    }

    /// Big endian bytes of the sequence number.
    pub open spec fn bytes(self) -> Seq<u8> {
        match self {
            Self::U16(v) => be_bytes_u16(v),
            Self::U32(v) => be_bytes_u32(v),
        }
    }
}

/// A flow identifier and its sequence number.
#[derive(Clone, Copy, Debug, PartialEq, Eq)]
pub struct Flow {
    pub flow: u8,
    pub seqnum: FlowSeqnum,
}

/// Byte size of an encoded flow whose sequence number has the type held by `first`.
pub open spec fn spec_size(first: u8) -> int {
    if first >> 7u8 == 0 {
        4
    } else {
        6
    }
}

impl Flow {
    /// Bytes of the encoded flow, whose first byte is shared with the action that holds it:
    /// the flow only sets its high bit.
    pub open spec fn encoding(self, first: u8) -> Seq<u8> {
        seq![first | (self.seqnum.spec_flow_type().spec_code() << 7u8), self.flow]
            + self.seqnum.bytes()
    }

    /// The flow whose fields are read from the start of `data`.
    pub open spec fn decoded(data: Seq<u8>) -> Self {
        Flow {
            flow: data[1],
            seqnum: if data[0] >> 7u8 == 0 {
                FlowSeqnum::U16(from_be_u16(data[2], data[3]))
            } else {
                FlowSeqnum::U32(from_be_u32(data[2], data[3], data[4], data[5]))
            },
        }
    }

    pub fn encoded_size(&self) -> (r: usize)
        ensures
            r == self.encoding(0).len(),
    {
        match self.seqnum {
            FlowSeqnum::U16(_) => 4,
            FlowSeqnum::U32(_) => 6,
        }
    }

    /// Writes the encoded flow at the start of `out`, which must be large enough; the bits of
    /// the first byte other than the high one are kept.
    pub fn encode_in(&self, out: &mut [u8]) -> (r: usize)
        requires
            old(out)@.len() >= self.encoding(0).len(),
        ensures
            r == self.encoding(old(out)@[0]).len(),
            written_at_head(final(out)@, old(out)@, self.encoding(old(out)@[0])),
    {
        let ghost first = out@[0];
        let flow_type = match self.seqnum {
            FlowSeqnum::U16(_) => FlowType::U16,
            FlowSeqnum::U32(_) => FlowType::U32,
        };
        out[0] = out[0] | (flow_type.code() << 7u8);
        out[1] = self.flow;
        match self.seqnum {
            FlowSeqnum::U16(v) => {
                out[2] = (v >> 8u16) as u8;
                out[3] = v as u8;
                assert(out@ =~= splice(old(out)@, 0, self.encoding(first)));
                4
            },
            FlowSeqnum::U32(v) => {
                out[2] = (v >> 24u32) as u8;
                out[3] = (v >> 16u32) as u8;
                out[4] = (v >> 8u32) as u8;
                out[5] = v as u8;
                assert(out@ =~= splice(old(out)@, 0, self.encoding(first)));
                6
            },
        }
    }

    /// The sequence number must follow whole: a shorter input is refused by `requires`.
    ///
    /// # Errors
    /// Fails if the input is empty.
    pub fn decode(out: &[u8]) -> (r: Result<WithSize<Self>, WithOffset<StdError>>)
        requires
            out@.len() >= 1 ==> out@.len() >= spec_size(out@[0]),
        ensures
            r is Ok <==> out@.len() >= 1,
            r matches Ok(w) ==> w.value == Self::decoded(out@) && w.size == spec_size(out@[0]),
            r matches Err(e) ==> e == (WithOffset { offset: 0, value: StdError::MissingBytes(1) }),
    {
        if out.len() == 0 {
            return Err(WithOffset::new_head(StdError::MissingBytes(1)));
        }
        let b = out[0];
        assert(b >> 7u8 < 2) by (bit_vector);
        let flow = out[1];
        match FlowType::from(b >> 7) {
            FlowType::U16 => {
                let value = ((out[2] as u16) << 8u16) | (out[3] as u16);
                Ok(WithSize { value: Flow { flow, seqnum: FlowSeqnum::U16(value) }, size: 4 })
            },
            FlowType::U32 => {
                let value = ((out[2] as u32) << 24u32) | ((out[3] as u32) << 16u32) | ((
                out[4] as u32) << 8u32) | (out[5] as u32);
                Ok(WithSize { value: Flow { flow, seqnum: FlowSeqnum::U32(value) }, size: 6 })
            },
        }
    }
}

/// Decoding an encoded flow gives it back, whatever the other bits of its first byte and
/// whatever follows it.
pub proof fn lemma_roundtrip(op: Flow, first: u8, rest: Seq<u8>)
    requires
        first < 0x80,
    ensures
        (op.encoding(first) + rest).len() >= spec_size((op.encoding(first) + rest)[0]),
        spec_size((op.encoding(first) + rest)[0]) == op.encoding(first).len(),
        Flow::decoded(op.encoding(first) + rest) == op,
{
    let d = op.encoding(first) + rest;
    let t = op.seqnum.spec_flow_type().spec_code();
    let b = d[0];
    assert(b >> 7u8 == t) by (bit_vector)
        requires
            b == first | (t << 7u8),
            first < 0x80,
            t < 2,
    ;
    match op.seqnum {
        FlowSeqnum::U16(v) => lemma_be_roundtrip(v),
        FlowSeqnum::U32(v) => lemma_be_u32_roundtrip(v),
    }
}

/// The flow types have their WizziLab numbers: 16 bits sequence numbers 0, 32 bits ones 1.
pub proof fn lemma_flow_type_numbers()
    ensures
        FlowType::U16.spec_code() == 0,
        FlowType::U32.spec_code() == 1,
{
}

} // verus!
