//! Variable size unsigned integer with a public value field.
//!
//! It shares its encoding with [`Varint`](crate::varint::Varint).
use crate::codec::{ParseError, ParseResult, ParseValue};
use crate::decodable::{splice, written_at_head};
use crate::varint::{lemma_decoded_bound, spec_decoded, spec_encoded_size, spec_encoding, spec_size};
use vstd::prelude::*;

verus! {

#[derive(Debug, PartialEq)]
pub struct VariableUint {
    pub value: u32,
}

pub const MAX_VARIABLE_UINT: u32 = 0x3FFFFFFF;

impl VariableUint {
    /// # Errors
    /// Fails if the value does not fit on 30 bits.
    pub fn new(value: u32) -> (r: Result<Self, ()>)
        ensures
            value <= MAX_VARIABLE_UINT ==> r == Ok::<Self, ()>(VariableUint { value }),
            value > MAX_VARIABLE_UINT ==> r is Err,
    {
        if value > MAX_VARIABLE_UINT {
            Err(())
        } else {
            Ok(Self { value })
        }
    }

    /// # Errors
    /// Fails, leaving the value unchanged, if the value does not fit on 30 bits.
    pub fn set(&mut self, value: u32) -> (r: Result<(), ()>)
        ensures
            value <= MAX_VARIABLE_UINT ==> r is Ok && final(self).value == value,
            value > MAX_VARIABLE_UINT ==> r is Err && final(self).value == old(self).value,
    {
        if value > MAX_VARIABLE_UINT {
            Err(())
        } else {
            self.value = value;
            Ok(())
        }
    }

    /// # Errors
    /// Fails if the value does not fit on 30 bits.
    pub fn is_valid(n: u32) -> (r: Result<(), ()>)
        ensures
            r is Ok <==> n <= MAX_VARIABLE_UINT,
    {
        if n > MAX_VARIABLE_UINT {
            Err(())
        } else {
            Ok(())
        }
    }

    /// # Errors
    /// Fails if the value does not fit on 30 bits.
    pub fn usize_is_valid(n: usize) -> (r: Result<(), ()>)
        ensures
            r is Ok <==> n <= MAX_VARIABLE_UINT,
    {
        if n > MAX_VARIABLE_UINT as usize {
            Err(())
        } else {
            Self::is_valid(n as u32)
        }
    }

    /// Byte size of the encoding of `n`, which must fit on 30 bits.
    pub fn unsafe_size(n: u32) -> (r: u8)
        requires
            n <= MAX_VARIABLE_UINT,
        ensures
            r == spec_size(n),
    {
        if n <= 0x3F {
            1
        } else if n <= 0x3FFF {
            2
        } else if n <= 0x3FFFFF {
            3
        } else {
            4
        }
    }

    /// # Errors
    /// Fails if the value does not fit on 30 bits.
    pub fn size(n: u32) -> (r: Result<u8, ()>)
        ensures
            n <= MAX_VARIABLE_UINT ==> r == Ok::<u8, ()>(spec_size(n) as u8),
            n > MAX_VARIABLE_UINT ==> r is Err,
    {
        if n > MAX_VARIABLE_UINT {
            Err(())
        } else {
            Ok(Self::unsafe_size(n))
        }
    }

    /// Writes the encoding of `n` at the start of `out`, truncated to the length of `out`.
    ///
    /// Returns the full encoded size.
    pub fn u32_serialize(n: u32, out: &mut [u8]) -> (r: u8)
        requires
            n <= MAX_VARIABLE_UINT,
            old(out)@.len() >= 1,
        ensures
            r == spec_size(n),
            final(out)@.len() == old(out)@.len(),
            old(out)@.len() >= spec_size(n) ==> written_at_head(
                final(out)@,
                old(out)@,
                spec_encoding(n),
            ),
            forall|i: int|
                0 <= i < old(out)@.len() ==> #[trigger] final(out)@[i] == if i < spec_size(n) {
                    spec_encoding(n)[i]
                } else {
                    old(out)@[i]
                },
    {
        let size = Self::unsafe_size(n) as usize;
        let mut full = [0u8; 4];
        let v = crate::varint::Varint::new_unchecked(n);
        v.encode_unchecked(&mut full);
        let len = out.len();
        let end = if len < size {
            len
        } else {
            size
        };
        let mut i: usize = 0;
        while i < end
            invariant
                i <= end,
                end <= size,
                end <= len,
                len == old(out)@.len(),
                out@.len() == len,
                size == spec_size(n),
                full@.subrange(0, size as int) == spec_encoding(n),
                full@.len() == 4,
                forall|j: int|
                    0 <= j < len ==> #[trigger] out@[j] == if j < i {
                        spec_encoding(n)[j]
                    } else {
                        old(out)@[j]
                    },
            decreases end - i,
        {
            assert(full@[i as int] == full@.subrange(0, size as int)[i as int]);
            out[i] = full[i];
            i = i + 1;
        }
        proof {
            if len >= size {
                assert(out@ =~= splice(old(out)@, 0, spec_encoding(n)));
            }
        }
        size as u8
    }

    /// Decodes a value.
    ///
    /// # Errors
    /// Fails with the number of missing bytes if the input is too short.
    pub fn u32_deserialize(out: &[u8]) -> (r: ParseResult<u32>)
        ensures
            out@.len() == 0 ==> r == Err::<ParseValue<u32>, ParseError>(
                ParseError::MissingBytes(Some(1)),
            ),
            out@.len() >= 1 && out@.len() < spec_encoded_size(out@) ==> r == Err::<
                ParseValue<u32>,
                ParseError,
            >(ParseError::MissingBytes(Some((spec_encoded_size(out@) - out@.len()) as usize))),
            out@.len() >= 1 && out@.len() >= spec_encoded_size(out@) ==> r == Ok::<
                ParseValue<u32>,
                ParseError,
            >(ParseValue { value: spec_decoded(out@), data_read: spec_encoded_size(out@) as usize }),
    {
        if out.len() == 0 {
            return Err(ParseError::MissingBytes(Some(1)));
        }
        let size = (out[0] / 64) as usize + 1;
        if out.len() < size {
            return Err(ParseError::MissingBytes(Some(size - out.len())));
        }
        proof {
            lemma_decoded_bound(out@);
        }
        let mut ret: u32 = (out[0] % 64) as u32;
        let mut i: usize = 1;
        while i < size
            invariant
                1 <= i <= size,
                size <= 4,
                size == spec_encoded_size(out@),
                size <= out@.len(),
                ret as int == (if i == 1 {
                    (out@[0] % 64) as int
                } else if i == 2 {
                    (out@[0] % 64) * 0x100 + out@[1]
                } else if i == 3 {
                    (out@[0] % 64) * 0x10000 + out@[1] * 0x100 + out@[2]
                } else {
                    (out@[0] % 64) * 0x1000000 + out@[1] * 0x10000 + out@[2] * 0x100 + out@[3]
                }),
            decreases size - i,
        {
            ret = ret * 0x100 + out[i] as u32;
            i = i + 1;
        }
        Ok(ParseValue { value: ret, data_read: size })
    }

    /// Byte size of the encoded value.
    pub fn serialized_size(&self) -> (r: usize)
        requires
            self.value <= MAX_VARIABLE_UINT,
        ensures
            r == spec_size(self.value),
    {
        Self::unsafe_size(self.value) as usize
    }

    /// Writes the encoded value at the start of `out`.
    pub fn serialize(&self, out: &mut [u8]) -> (r: usize)
        requires
            self.value <= MAX_VARIABLE_UINT,
            old(out)@.len() >= spec_size(self.value),
        ensures
            r == spec_size(self.value),
            written_at_head(final(out)@, old(out)@, spec_encoding(self.value)),
    {
        Self::u32_serialize(self.value, out) as usize
    }

    /// Returns the encoded value.
    pub fn serialize_to_vec(&self) -> (r: Vec<u8>)
        requires
            self.value <= MAX_VARIABLE_UINT,
        ensures
            r@ == spec_encoding(self.value),
    {
        let size = self.serialized_size();
        let mut out: Vec<u8> = Vec::new();
        let mut i: usize = 0;
        while i < size
            invariant
                i <= size,
                size <= 4,
                out@.len() == i,
            decreases size - i,
        {
            out.push(0);
            i = i + 1;
        }
        self.serialize(out.as_mut_slice());
        assert(out@ =~= out@.subrange(0, size as int));
        out
    }

    /// Decodes a value.
    ///
    /// # Errors
    /// Fails with the number of missing bytes if the input is too short.
    pub fn deserialize(out: &[u8]) -> (r: ParseResult<Self>)
        ensures
            r is Ok <==> out@.len() >= 1 && out@.len() >= spec_encoded_size(out@),
            r matches Ok(v) ==> v.value.value == spec_decoded(out@) && v.data_read
                == spec_encoded_size(out@),
    {
        match Self::u32_deserialize(out) {
            Ok(ParseValue { value, data_read }) => Ok(
                ParseValue { value: Self { value }, data_read },
            ),
            Err(e) => Err(e),
        }
    }
}

} // verus!
