//! Variable size unsigned integer of the ALP specification.
//!
//! The two high bits of the first byte give the byte size minus one, the remaining
//! 30 bits hold the value in big endian.
use crate::decodable::{splice, tail, written_at_head, SizeError, WithByteSize};
use vstd::prelude::*;

verus! {

/// Maximum value writable in a Varint encodable on 1 byte
pub const U8_MAX: u8 = 0x3F;

/// Maximum value writable in a Varint encodable on 2 byte
pub const U16_MAX: u16 = 0x3FFF;

/// Maximum value writable in a Varint encodable on 3 byte
pub const U24_MAX: u32 = 0x3FFFFF;

/// Maximum value writable in a Varint encodable on 4 byte
pub const U32_MAX: u32 = 0x3FFFFFFF;

/// Maximum byte size of an encoded Varint
pub const MAX_SIZE: usize = 4;

/// Number of bytes used to encode `n`.
pub open spec fn spec_size(n: u32) -> int {
    if n <= 0x3F {
        1
    } else if n <= 0x3FFF {
        2
    } else if n <= 0x3FFFFF {
        3
    } else {
        4
    }
}

/// Encoding of `n` (its 30 low bits) on the smallest possible number of bytes.
pub open spec fn spec_encoding(n: u32) -> Seq<u8> {
    let s = spec_size(n);
    if s == 1 {
        seq![(n % 64) as u8]
    } else if s == 2 {
        seq![((n / 0x100) % 64 + 0x40) as u8, (n % 0x100) as u8]
    } else if s == 3 {
        seq![((n / 0x10000) % 64 + 0x80) as u8, ((n / 0x100) % 0x100) as u8, (n % 0x100) as u8]
    } else {
        seq![
            ((n / 0x1000000) % 64 + 0xC0) as u8,
            ((n / 0x10000) % 0x100) as u8,
            ((n / 0x100) % 0x100) as u8,
            (n % 0x100) as u8,
        ]
    }
}

/// Byte size announced by the first byte of an encoded Varint.
pub open spec fn spec_encoded_size(data: Seq<u8>) -> int {
    (data[0] / 64) as int + 1
}

/// Value held by an encoded Varint whose size is announced by its first byte.
pub open spec fn spec_decoded(data: Seq<u8>) -> u32 {
    let s = spec_encoded_size(data);
    let b0 = (data[0] % 64) as int;
    (if s == 1 {
        b0
    } else if s == 2 {
        b0 * 0x100 + data[1]
    } else if s == 3 {
        b0 * 0x10000 + data[1] * 0x100 + data[2]
    } else {
        b0 * 0x1000000 + data[1] * 0x10000 + data[2] * 0x100 + data[3]
    }) as u32
}

/// `data` starts with a complete encoded Varint.
pub open spec fn spec_complete(data: Seq<u8>) -> bool {
    data.len() >= 1 && data.len() >= spec_encoded_size(data)
}

/// The decoded value always fits in 30 bits.
pub proof fn lemma_decoded_bound(data: Seq<u8>)
    requires
        spec_complete(data),
    ensures
        spec_decoded(data) <= U32_MAX,
        spec_encoded_size(data) <= 4,
        spec_decoded(data) as int == (if spec_encoded_size(data) == 1 {
            (data[0] % 64) as int
        } else if spec_encoded_size(data) == 2 {
            (data[0] % 64) * 0x100 + data[1]
        } else if spec_encoded_size(data) == 3 {
            (data[0] % 64) * 0x10000 + data[1] * 0x100 + data[2]
        } else {
            (data[0] % 64) * 0x1000000 + data[1] * 0x10000 + data[2] * 0x100 + data[3]
        }),
{
}

/// Decoding the encoding of a valid value gives the value back, whatever follows it.
pub proof fn lemma_roundtrip(n: u32, rest: Seq<u8>)
    requires
        n <= U32_MAX,
    ensures
        spec_encoding(n).len() == spec_size(n),
        spec_complete(spec_encoding(n) + rest),
        spec_encoded_size(spec_encoding(n) + rest) == spec_size(n),
        spec_decoded(spec_encoding(n) + rest) == n,
{
    let d = spec_encoding(n) + rest;
    let s = spec_size(n);
    if s == 1 {
        assert(d[0] == n % 64);
    } else if s == 2 {
        assert(d[0] == (n / 0x100) % 64 + 0x40);
        assert(d[1] == n % 0x100);
        assert((n / 0x100) % 64 == n / 0x100);
        assert(n == (n / 0x100) * 0x100 + n % 0x100);
    } else if s == 3 {
        assert(d[0] == (n / 0x10000) % 64 + 0x80);
        assert(d[1] == (n / 0x100) % 0x100);
        assert(d[2] == n % 0x100);
        assert((n / 0x10000) % 64 == n / 0x10000);
        assert(n == (n / 0x10000) * 0x10000 + ((n / 0x100) % 0x100) * 0x100 + n % 0x100);
    } else {
        assert(d[0] == (n / 0x1000000) % 64 + 0xC0);
        assert(d[1] == (n / 0x10000) % 0x100);
        assert(d[2] == (n / 0x100) % 0x100);
        assert(d[3] == n % 0x100);
        assert((n / 0x1000000) % 64 == n / 0x1000000);
        assert(n == (n / 0x1000000) * 0x1000000 + ((n / 0x10000) % 0x100) * 0x10000 + ((n
            / 0x100) % 0x100) * 0x100 + n % 0x100);
    }
}

/// Represents a variable integer as described by the Dash7 ALP specification.
#[derive(Copy, Clone, Eq, PartialEq, Ord, PartialOrd, Hash, Debug)]
pub struct Varint {
    value: u32,
}

#[derive(Copy, Clone, Eq, PartialEq, Ord, PartialOrd, Hash, Debug)]
pub enum VarintError {
    ValueTooBig,
}

impl View for Varint {
    type V = u32;

    closed spec fn view(&self) -> u32 {
        self.value
    }
}

/// The Varint holding `v`.
pub closed spec fn from_value(v: u32) -> Varint {
    Varint { value: v }
}

pub broadcast proof fn lemma_from_value_view(v: u32)
    ensures
        #[trigger] from_value(v)@ == v,
{
}

pub broadcast proof fn lemma_view_from_value(a: Varint)
    ensures
        #[trigger] from_value(a@) == a,
{
}

pub broadcast group group_varint_value {
    lemma_from_value_view,
    lemma_view_from_value,
}

impl Varint {
    #[verifier::type_invariant]
    spec fn inv(self) -> bool {
        self.value <= U32_MAX
    }

    /// Create a struct representing a Varint
    ///
    /// The value must not exceed [`U32_MAX`](constant.U32_MAX.html).
    pub fn new_unchecked(value: u32) -> (r: Self)
        requires
            value <= U32_MAX,
        ensures
            r@ == value,
    {
        Self { value }
    }

    /// Create a struct representing a Varint
    ///
    /// # Errors
    /// Fails if the value is bigger than [`U32_MAX`](constant.U32_MAX.html)
    pub fn new(value: u32) -> (r: Result<Self, VarintError>)
        ensures
            value <= U32_MAX ==> (r matches Ok(v) && v@ == value),
            value > U32_MAX ==> r == Err::<Self, VarintError>(VarintError::ValueTooBig),
    {
        if value > U32_MAX {
            Err(VarintError::ValueTooBig)
        } else {
            Ok(Self::new_unchecked(value))
        }
    }

    /// Returns the contained value.
    pub fn u32(&self) -> (r: u32)
        ensures
            r == self@,
            r <= U32_MAX,
    {
        proof {
            use_type_invariant(self);
        }
        self.value
    }

    /// Returns the contained value as a usize.
    pub fn usize(&self) -> (r: usize)
        ensures
            r == self@,
            r <= U32_MAX,
    {
        proof {
            use_type_invariant(self);
        }
        self.value as usize
    }

    /// Encode the value into a single byte array.
    pub fn encode_as_u8(value: u8) -> (r: [u8; 1])
        requires
            value <= U8_MAX,
        ensures
            r@ == seq![value],
    {
        let r = [value % 64];
        assert(r@ =~= seq![value]);
        r
    }

    /// Encode the value bits into a two bytes array (the size bits are left unset).
    pub fn encode_as_u16(value: u16) -> (r: [u8; 2])
        requires
            value <= U16_MAX,
        ensures
            r@ == seq![(value / 0x100) as u8, (value % 0x100) as u8],
    {
        let r = [((value / 0x100) % 64) as u8, (value % 0x100) as u8];
        assert(r@ =~= seq![(value / 0x100) as u8, (value % 0x100) as u8]);
        r
    }

    /// Encode the value bits into a three bytes array (the size bits are left unset).
    pub fn encode_as_u24(value: u32) -> (r: [u8; 3])
        requires
            value <= U24_MAX,
        ensures
            r@ == seq![
                (value / 0x10000) as u8,
                ((value / 0x100) % 0x100) as u8,
                (value % 0x100) as u8,
            ],
    {
        let r = [
            ((value / 0x10000) % 64) as u8,
            ((value / 0x100) % 0x100) as u8,
            (value % 0x100) as u8,
        ];
        assert(r@ =~= seq![
            (value / 0x10000) as u8,
            ((value / 0x100) % 0x100) as u8,
            (value % 0x100) as u8,
        ]);
        r
    }

    /// Encode the value bits into a four bytes array (the size bits are left unset).
    pub fn encode_as_u32(value: u32) -> (r: [u8; 4])
        requires
            value <= U32_MAX,
        ensures
            r@ == seq![
                (value / 0x1000000) as u8,
                ((value / 0x10000) % 0x100) as u8,
                ((value / 0x100) % 0x100) as u8,
                (value % 0x100) as u8,
            ],
    {
        let r = [
            ((value / 0x1000000) % 64) as u8,
            ((value / 0x10000) % 0x100) as u8,
            ((value / 0x100) % 0x100) as u8,
            (value % 0x100) as u8,
        ];
        assert(r@ =~= seq![
            (value / 0x1000000) as u8,
            ((value / 0x10000) % 0x100) as u8,
            ((value / 0x100) % 0x100) as u8,
            (value % 0x100) as u8,
        ]);
        r
    }

    /// Size in bytes of the encoded value.
    pub fn encoded_size(&self) -> (r: usize)
        ensures
            r == spec_size(self@),
            1 <= r <= 4,
    {
        let n = self.value;
        if n <= 0x3F {
            1
        } else if n <= 0x3FFF {
            2
        } else if n <= 0x3FFFFF {
            3
        } else {
            4
        }
    }

    /// Writes the encoding of the value in `out` at `pos`.
    pub fn encode_at(&self, out: &mut [u8], pos: usize) -> (size: usize)
        requires
            pos + spec_size(self@) <= old(out)@.len(),
        ensures
            size == spec_size(self@),
            final(out)@ == splice(old(out)@, pos as int, spec_encoding(self@)),
    {
        let n = self.value;
        let size = self.encoded_size();
        if size == 1 {
            out[pos] = (n % 64) as u8;
        } else if size == 2 {
            out[pos] = ((n / 0x100) % 64 + 0x40) as u8;
            out[pos + 1] = (n % 0x100) as u8;
        } else if size == 3 {
            out[pos] = ((n / 0x10000) % 64 + 0x80) as u8;
            out[pos + 1] = ((n / 0x100) % 0x100) as u8;
            out[pos + 2] = (n % 0x100) as u8;
        } else {
            out[pos] = ((n / 0x1000000) % 64 + 0xC0) as u8;
            out[pos + 1] = ((n / 0x10000) % 0x100) as u8;
            out[pos + 2] = ((n / 0x100) % 0x100) as u8;
            out[pos + 3] = (n % 0x100) as u8;
        }
        assert(out@ =~= splice(old(out)@, pos as int, spec_encoding(n)));
        size
    }

    /// Writes the encoding of the value at the start of `out`.
    pub fn encode_unchecked(&self, out: &mut [u8]) -> (size: usize)
        requires
            old(out)@.len() >= spec_size(self@),
        ensures
            size == spec_size(self@),
            written_at_head(final(out)@, old(out)@, spec_encoding(self@)),
    {
        self.encode_at(out, 0)
    }

    /// Writes the encoding of the value at the start of `out`.
    ///
    /// # Errors
    /// Fails with the required size if `out` is too small.
    pub fn encode_in(&self, out: &mut [u8]) -> (r: Result<usize, usize>)
        ensures
            r matches Ok(size) ==> size == spec_size(self@) && written_at_head(
                final(out)@,
                old(out)@,
                spec_encoding(self@),
            ),
            r matches Err(size) ==> size == spec_size(self@) && old(out)@.len() < size
                && final(out)@ == old(out)@,
            r is Ok <==> old(out)@.len() >= spec_size(self@),
    {
        let size = self.encoded_size();
        if out.len() < size {
            return Err(size);
        }
        Ok(self.encode_unchecked(out))
    }

    /// Decodes a complete Varint.
    ///
    /// # Errors
    /// Fails if the input is too short.
    pub fn decode(data: &[u8]) -> (r: Result<WithByteSize<Varint>, SizeError>)
        ensures
            r is Ok <==> spec_complete(data@),
            r matches Ok(w) ==> w.item@ == spec_decoded(data@) && w.byte_size
                == spec_encoded_size(data@),
    {
        let decoder = Self::start_decoding(data)?;
        Ok(decoder.item.complete_decoding())
    }

    /// Decodes a Varint whose completeness is already known.
    pub fn decode_unchecked(data: &[u8]) -> (r: WithByteSize<Varint>)
        requires
            spec_complete(data@),
        ensures
            r.item@ == spec_decoded(data@),
            r.byte_size == spec_encoded_size(data@),
    {
        EncodedVarint::new(data).complete_decoding()
    }

    /// Checks the size of an encoded Varint and returns a reader on it.
    ///
    /// # Errors
    /// Fails if the input is too short.
    pub fn start_decoding(data: &[u8]) -> (r: Result<WithByteSize<EncodedVarint<'_>>, SizeError>)
        ensures
            r is Ok <==> spec_complete(data@),
            r matches Ok(w) ==> w.item.bytes() == data@ && w.byte_size == spec_encoded_size(
                data@,
            ),
    {
        let decoder = EncodedVarint::new(data);
        let size = decoder.encoded_size()?;
        Ok(WithByteSize { item: decoder, byte_size: size })
    }

    /// Returns a reader on an encoded Varint whose completeness is already known.
    pub fn start_decoding_unchecked(data: &[u8]) -> (r: EncodedVarint<'_>)
        requires
            spec_complete(data@),
        ensures
            r.bytes() == data@,
            r.wf(),
    {
        EncodedVarint::new(data)
    }

    /// Checks the size of an encoded Varint and returns a mutable accessor on it.
    ///
    /// # Errors
    /// Fails if the input is too short.
    pub fn start_decoding_mut(data: &mut [u8]) -> (r: Result<
        WithByteSize<EncodedVarintMut<'_>>,
        SizeError,
    >)
        ensures
            r is Err ==> final(data)@ == old(data)@,
            r matches Ok(w) ==> final(data)@ == final(w.item.data)@,
            r is Ok <==> spec_complete(old(data)@),
            r matches Ok(w) ==> w.item.bytes() == old(data)@ && w.byte_size
                == spec_encoded_size(old(data)@),
    {
        let ok = data.len() >= 1 && data.len() >= ((data[0] / 64) as usize + 1);
        if !ok {
            return Err(SizeError::MissingBytes);
        }
        let size = (data[0] / 64) as usize + 1;
        Ok(WithByteSize { item: EncodedVarintMut::new(data), byte_size: size })
    }

    /// Returns a mutable accessor on an encoded Varint whose completeness is already known.
    pub fn start_decoding_unchecked_mut(data: &mut [u8]) -> (r: EncodedVarintMut<'_>)
        requires
            spec_complete(old(data)@),
        ensures
            final(data)@ == final(r.data)@,
            r.bytes() == old(data)@,
            r.wf(),
    {
        EncodedVarintMut::new(data)
    }
}

/// Read access to an encoded Varint.
pub struct EncodedVarint<'data> {
    data: &'data [u8],
}

impl<'data> EncodedVarint<'data> {
    /// The bytes this reader looks at.
    pub closed spec fn bytes(&self) -> Seq<u8> {
        self.data@
    }

    /// The bytes hold a complete Varint.
    pub open spec fn wf(&self) -> bool {
        spec_complete(self.bytes())
    }

    pub fn new(data: &'data [u8]) -> (r: Self)
        ensures
            r.bytes() == data@,
    {
        Self { data }
    }

    /// Byte size announced by the first byte.
    pub fn encoded_size_unchecked(&self) -> (r: usize)
        requires
            self.bytes().len() >= 1,
        ensures
            r == spec_encoded_size(self.bytes()),
            1 <= r <= 4,
    {
        (self.data[0] / 64) as usize + 1
    }

    /// # Errors
    /// Fails if the data is too short to hold the announced Varint.
    pub fn encoded_size(&self) -> (r: Result<usize, SizeError>)
        ensures
            r is Ok <==> self.wf(),
            r matches Ok(size) ==> size == spec_encoded_size(self.bytes()),
    {
        if self.data.len() < 1 {
            return Err(SizeError::MissingBytes);
        }
        let size = self.encoded_size_unchecked();
        if self.data.len() < size {
            return Err(SizeError::MissingBytes);
        }
        Ok(size)
    }

    pub fn complete_decoding(&self) -> (r: WithByteSize<Varint>)
        requires
            self.wf(),
        ensures
            r.item@ == spec_decoded(self.bytes()),
            r.byte_size == spec_encoded_size(self.bytes()),
    {
        proof {
            lemma_decoded_bound(self.data@);
        }
        let size = self.encoded_size_unchecked();
        let data = self.data;
        let b0 = (data[0] % 64) as u32;
        let value: u32 = if size == 1 {
            b0
        } else if size == 2 {
            b0 * 0x100 + data[1] as u32
        } else if size == 3 {
            b0 * 0x10000 + data[1] as u32 * 0x100 + data[2] as u32
        } else {
            b0 * 0x1000000 + data[1] as u32 * 0x10000 + data[2] as u32 * 0x100 + data[3] as u32
        };
        WithByteSize { item: Varint::new_unchecked(value), byte_size: size }
    }
}

/// Write access to an encoded Varint.
pub struct EncodedVarintMut<'data> {
    /// The bytes of the item, which this accessor edits in place.
    pub data: &'data mut [u8],
}

#[derive(Copy, Clone, Eq, PartialEq, Ord, PartialOrd, Hash, Debug)]
pub enum VarintSetError {
    /// The encoded size of the given varint does not match the size of the currently encoded
    /// varint.
    SizeMismatch,
}

impl<'data> EncodedVarintMut<'data> {
    /// The bytes this accessor looks at.
    pub open spec fn bytes(&self) -> Seq<u8> {
        self.data@
    }

    /// The bytes hold a complete Varint.
    pub open spec fn wf(&self) -> bool {
        spec_complete(self.bytes())
    }

    pub fn new(data: &'data mut [u8]) -> (r: Self)
        ensures
            final(data)@ == final(r.data)@,
            r.bytes() == old(data)@,
    {
        Self { data }
    }

    /// Read only view of the same bytes.
    pub fn as_ref(&self) -> (r: EncodedVarint<'_>)
        ensures
            r.bytes() == self.bytes(),
    {
        EncodedVarint::new(&*self.data)
    }

    /// Byte size announced by the first byte.
    pub fn encoded_size_unchecked(&self) -> (r: usize)
        requires
            self.bytes().len() >= 1,
        ensures
            r == spec_encoded_size(self.bytes()),
            1 <= r <= 4,
    {
        self.as_ref().encoded_size_unchecked()
    }

    /// # Errors
    /// Fails if the data is too short to hold the announced Varint.
    pub fn encoded_size(&self) -> (r: Result<usize, SizeError>)
        ensures
            r is Ok <==> self.wf(),
            r matches Ok(size) ==> size == spec_encoded_size(self.bytes()),
    {
        self.as_ref().encoded_size()
    }

    pub fn complete_decoding(&self) -> (r: WithByteSize<Varint>)
        requires
            self.wf(),
        ensures
            r.item@ == spec_decoded(self.bytes()),
            r.byte_size == spec_encoded_size(self.bytes()),
    {
        self.as_ref().complete_decoding()
    }

    /// Modify the value of the Varint in place.
    ///
    /// # Errors
    /// Fails if the new value is encoded on a different size of array (if it requires more or less
    /// bytes than the current value).
    pub fn set_value(&mut self, value: &Varint) -> (r: Result<(), VarintSetError>)
        requires
            old(self).wf(),
        ensures
            final(final(self).data)@ == final(old(self).data)@,
            r is Ok <==> spec_size(value@) == spec_encoded_size(old(self).bytes()),
            r is Ok ==> written_at_head(final(self).bytes(), old(self).bytes(), spec_encoding(value@)),
            r is Err ==> final(self).bytes() == old(self).bytes(),
    {
        if self.encoded_size_unchecked() != value.encoded_size() {
            return Err(VarintSetError::SizeMismatch);
        }
        value.encode_unchecked(self.data);
        Ok(())
    }
}

} // verus!
