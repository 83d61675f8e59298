//! Chunk action: tells where a request split in chunks starts and ends.
use crate::codec::{StdError, WithOffset, WithSize};
use crate::decodable::{splice, written_at_head};
use crate::v1_2::define::op_code::CHUNK;
use vstd::prelude::*;

verus! {

/// Position of a chunk in a chunked request.
#[derive(Clone, Copy, Debug, PartialEq, Eq, Structural)]
pub enum ChunkStep {
    Continue,
    Start,
    End,
    StartEnd,
}

impl ChunkStep {
    /// Number of the step, held by the two high bits of the action byte.
    pub open spec fn spec_code(self) -> u8 {
        match self {
            Self::Continue => 0,
            Self::Start => 1,
            Self::End => 2,
            Self::StartEnd => 3,
        }
    }

    /// The step whose number is `n`, which must be below 4.
    pub open spec fn spec_from(n: u8) -> Self {
        match n {
            0 => Self::Continue,
            1 => Self::Start,
            2 => Self::End,
            _ => Self::StartEnd,
        }
    }

    pub fn code(self) -> (r: u8)
        ensures
            r == self.spec_code(),
            r < 4,
    {
        match self {
            Self::Continue => 0,
            Self::Start => 1,
            Self::End => 2,
            Self::StartEnd => 3,
        }
    }

    /// The step whose number is `n`; there is none above 3.
    pub fn from(n: u8) -> (r: Self)
        requires
            n < 4,
        ensures
            r == Self::spec_from(n),
            r.spec_code() == n,
    {
        match n {
            0 => Self::Continue,
            1 => Self::Start,
            2 => Self::End,
            _ => Self::StartEnd,
        }
    }
}

/// Byte of a chunk action whose step number is `step`.
pub open spec fn chunk_byte(step: u8) -> u8 {
    (CHUNK + (step << 6u8)) as u8
}

/// The step number reads back from the byte of a chunk action.
pub proof fn lemma_chunk_byte(step: u8)
    by (bit_vector)
    requires
        step < 4,
    ensures
        chunk_byte(step) >> 6u8 == step,
        chunk_byte(step) & 0x3Fu8 == CHUNK,
        CHUNK + (step << 6u8) < 256,
{
}

/// Marks a chunk of a request.
#[derive(Clone, Copy, Debug, PartialEq, Eq)]
pub struct Chunk {
    pub step: ChunkStep,
}

impl Chunk {
    /// Bytes of the encoded action.
    pub open spec fn encoding(self) -> Seq<u8> {
        seq![chunk_byte(self.step.spec_code())]
    }

    pub fn encoded_size(&self) -> (r: usize)
        ensures
            r == self.encoding().len(),
    {
        1
    }

    /// Writes the encoded action at the start of `out`, which must be large enough.
    pub fn encode_in(&self, out: &mut [u8]) -> (r: usize)
        requires
            old(out)@.len() >= 1,
        ensures
            r == self.encoding().len(),
            written_at_head(final(out)@, old(out)@, self.encoding()),
    {
        let step = self.step.code();
        proof {
            lemma_chunk_byte(step);
        }
        out[0] = CHUNK + (step << 6u8);
        assert(out@ =~= splice(old(out)@, 0, self.encoding()));
        1
    }

    /// Reads the step from the two high bits of the first byte; the op code is not checked.
    ///
    /// # Errors
    /// Fails if the input is empty.
    pub fn decode(out: &[u8]) -> (r: Result<WithSize<Self>, WithOffset<StdError>>)
        ensures
            r is Ok <==> out@.len() >= 1,
            r matches Ok(w) ==> w.size == 1 && w.value.step == ChunkStep::spec_from(out@[0] >> 6u8),
            r matches Err(e) ==> e == (WithOffset { offset: 0, value: StdError::MissingBytes(1) }),
    {
        if out.len() == 0 {
            return Err(WithOffset::new_head(StdError::MissingBytes(1)));
        }
        let b = out[0];
        assert(b >> 6u8 < 4) by (bit_vector);
        Ok(WithSize { value: Self { step: ChunkStep::from(b >> 6) }, size: 1 })
    }
}

/// Decoding an encoded chunk action gives it back, whatever follows it.
pub proof fn lemma_roundtrip(op: Chunk, rest: Seq<u8>)
    ensures
        (op.encoding() + rest).len() >= 1,
        ChunkStep::spec_from((op.encoding() + rest)[0] >> 6u8) == op.step,
{
    lemma_chunk_byte(op.step.spec_code());
}

/// Each chunk step has the number that ALP gives it: continue 0, start 1, end 2, start and end
/// 3; decoding any 2 bits value gives the step of that number.
pub proof fn lemma_chunk_step_numbers()
    ensures
        ChunkStep::Continue.spec_code() == 0,
        ChunkStep::Start.spec_code() == 1,
        ChunkStep::End.spec_code() == 2,
        ChunkStep::StartEnd.spec_code() == 3,
        forall|n: u8| n < 4 ==> (#[trigger] ChunkStep::spec_from(n)).spec_code() == n,
{
}

} // verus!
