//! Logic action: how the results of the surrounding queries combine.
use crate::codec::{StdError, WithOffset, WithSize};
use crate::decodable::{splice, written_at_head};
use crate::v1_2::define::op_code::LOGIC;
use vstd::prelude::*;

verus! {

/// Logical operation between queries.
#[derive(Clone, Copy, Debug, PartialEq, Eq, Structural)]
pub enum Logic {
    Or,
    Xor,
    Nor,
    Nand,
}

/// Byte of a logic action whose operation number is `op`.
pub open spec fn logic_byte(op: u8) -> u8 {
    (LOGIC + (op << 6u8)) as u8
}

/// The operation number reads back from the byte of a logic action.
pub proof fn lemma_logic_byte(op: u8)
    by (bit_vector)
    requires
        op < 4,
    ensures
        logic_byte(op) >> 6u8 == op,
        logic_byte(op) & 0x3Fu8 == LOGIC,
        LOGIC + (op << 6u8) < 256,
{
}

impl Logic {
    /// Number of the operation, held by the two high bits of the action byte.
    pub open spec fn spec_code(self) -> u8 {
        match self {
            Self::Or => 0,
            Self::Xor => 1,
            Self::Nor => 2,
            Self::Nand => 3,
        }
    }

    /// The operation whose number is `n`, which must be below 4.
    pub open spec fn spec_from(n: u8) -> Self {
        match n {
            0 => Self::Or,
            1 => Self::Xor,
            2 => Self::Nor,
            _ => Self::Nand,
        }
    }

    pub fn code(self) -> (r: u8)
        ensures
            r == self.spec_code(),
            r < 4,
    {
        match self {
            Self::Or => 0,
            Self::Xor => 1,
            Self::Nor => 2,
            Self::Nand => 3,
        }
    }

    /// The operation whose number is `n`; there is none above 3.
    pub fn from(n: u8) -> (r: Self)
        requires
            n < 4,
        ensures
            r == Self::spec_from(n),
            r.spec_code() == n,
    {
        match n {
            0 => Self::Or,
            1 => Self::Xor,
            2 => Self::Nor,
            _ => Self::Nand,
        }
    }

    /// Bytes of the encoded action.
    pub open spec fn encoding(self) -> Seq<u8> {
        seq![logic_byte(self.spec_code())]
    }

    pub fn encoded_size(&self) -> (r: usize)
        ensures
            r == self.encoding().len(),
    {
        1
    }

    /// Writes the encoded action at the start of `out`, which must be large enough.
    pub fn encode_in(&self, out: &mut [u8]) -> (r: usize)
        requires
            old(out)@.len() >= 1,
        ensures
            r == self.encoding().len(),
            written_at_head(final(out)@, old(out)@, self.encoding()),
    {
        let op = self.code();
        proof {
            lemma_logic_byte(op);
        }
        out[0] = LOGIC + (op << 6u8);
        assert(out@ =~= splice(old(out)@, 0, self.encoding()));
        1
    }

    /// Reads the operation from the two high bits of the first byte; the op code is not checked.
    ///
    /// # Errors
    /// Fails if the input is empty.
    pub fn decode(out: &[u8]) -> (r: Result<WithSize<Self>, WithOffset<StdError>>)
        ensures
            r is Ok <==> out@.len() >= 1,
            r matches Ok(w) ==> w.size == 1 && w.value == Self::spec_from(out@[0] >> 6u8),
            r matches Err(e) ==> e == (WithOffset { offset: 0, value: StdError::MissingBytes(1) }),
    {
        if out.len() == 0 {
            return Err(WithOffset::new_head(StdError::MissingBytes(1)));
        }
        let b = out[0];
        assert(b >> 6u8 < 4) by (bit_vector);
        Ok(WithSize { value: Self::from(b >> 6), size: 1 })
    }
}

/// Decoding an encoded logic action gives it back, whatever follows it.
pub proof fn lemma_roundtrip(op: Logic, rest: Seq<u8>)
    ensures
        (op.encoding() + rest).len() >= 1,
        Logic::spec_from((op.encoding() + rest)[0] >> 6u8) == op,
{
    lemma_logic_byte(op.spec_code());
}

/// Each logic operation has the number that ALP gives it: OR 0, XOR 1, NOR 2, NAND 3; decoding
/// any 2 bits value gives the operation of that number.
pub proof fn lemma_logic_numbers()
    ensures
        Logic::Or.spec_code() == 0,
        Logic::Xor.spec_code() == 1,
        Logic::Nor.spec_code() == 2,
        Logic::Nand.spec_code() == 3,
        forall|n: u8| n < 4 ==> (#[trigger] Logic::spec_from(n)).spec_code() == n,
{
}

} // verus!
