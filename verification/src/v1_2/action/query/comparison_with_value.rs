//! Query comparing the data of a file to a value.
use super::define::code::{
    lemma_query_byte, lemma_query_comparison, lemma_query_flag, query_byte, query_first_byte,
    with_comparison, QueryCode, COMPARISON_WITH_VALUE,
};
use super::define::comparison_type::{lemma_comparison_type_numbers, QueryComparisonType};
use crate::decodable::{
    copy_at, lemma_splice_byte, lemma_splice_concat, skip, skip_mut, splice, tail, take,
    written_at_head, SizeError, WithByteSize,
};
use crate::define::{EncodableDataRef, FileId, MaskedValue, MaskedValueRef};
use crate::v1_2::define::flag::{self, with_flag};
use crate::varint::{self, EncodedVarint, Varint};
use vstd::prelude::*;

verus! {

broadcast use varint::group_varint_value;

/// Compares data to a value.
#[derive(Copy, Clone, Eq, PartialEq, Ord, PartialOrd, Hash, Debug)]
pub struct ComparisonWithValueRef<'item> {
    pub signed_data: bool,
    pub comparison_type: QueryComparisonType,
    pub compare_value: MaskedValueRef<'item>,
    pub file_id: FileId,
    pub offset: Varint,
}

/// The bytes of an optional mask (none when there is no mask).
pub open spec fn mask_bytes(mask: Option<Seq<u8>>) -> Seq<u8> {
    match mask {
        Some(m) => m,
        None => seq![],
    }
}

/// Byte size of the compare length field of an encoded query.
pub open spec fn spec_length_size(data: Seq<u8>) -> int {
    varint::spec_encoded_size(tail(data, 1))
}

/// Compare length of an encoded query.
pub open spec fn spec_length(data: Seq<u8>) -> int {
    varint::spec_decoded(tail(data, 1)) as int
}

/// The mask flag of an encoded query.
pub open spec fn spec_mask_flag(data: Seq<u8>) -> bool {
    data[0] & 0x10 == 0x10
}

/// Position of the mask (when there is one) in an encoded query.
pub open spec fn spec_mask_start(data: Seq<u8>) -> int {
    1 + spec_length_size(data)
}

/// Position of the compared value in an encoded query.
pub open spec fn spec_value_start(data: Seq<u8>) -> int {
    spec_mask_start(data) + if spec_mask_flag(data) {
        spec_length(data)
    } else {
        0
    }
}

/// Position of the file id in an encoded query.
pub open spec fn spec_file_id_pos(data: Seq<u8>) -> int {
    spec_value_start(data) + spec_length(data)
}

/// The mask of the value and the value have the same size, which fits in a Varint.
pub open spec fn valid_masked_value(value: Seq<u8>, mask: Option<Seq<u8>>) -> bool {
    &&& value.len() <= varint::U32_MAX
    &&& mask matches Some(m) ==> m.len() == value.len()
}

impl<'item> ComparisonWithValueRef<'item> {
    /// Bytes of the encoded query.
    pub open spec fn encoding(self) -> Seq<u8> {
        let value = self.compare_value.value_view();
        let mask = self.compare_value.mask_view();
        seq![
            query_byte(
                COMPARISON_WITH_VALUE,
                mask is Some,
                self.signed_data,
                self.comparison_type.spec_code(),
            ),
        ] + varint::spec_encoding(value.len() as u32) + mask_bytes(mask) + value + seq![
            self.file_id.0,
        ] + varint::spec_encoding(self.offset@)
    }

    /// `data` starts with a complete encoded query.
    pub open spec fn complete(data: Seq<u8>) -> bool {
        &&& data.len() >= 2
        &&& varint::spec_complete(tail(data, 1))
        &&& data.len() >= spec_file_id_pos(data) + 2
        &&& varint::spec_complete(tail(data, spec_file_id_pos(data) + 1))
    }

    /// Byte size of the query encoded at the start of `data`.
    pub open spec fn decoded_size(data: Seq<u8>) -> int {
        spec_file_id_pos(data) + 1 + varint::spec_encoded_size(
            tail(data, spec_file_id_pos(data) + 1),
        )
    }

    /// `self` is the query encoded at the start of `data`.
    pub open spec fn decoded_from(self, data: Seq<u8>) -> bool {
        &&& self.signed_data == (data[0] & 0x08 == 0x08)
        &&& self.comparison_type == QueryComparisonType::spec_from(data[0] & 0x07)
        &&& self.compare_value.mask_view() == if spec_mask_flag(data) {
            Some(data.subrange(spec_mask_start(data), spec_value_start(data)))
        } else {
            None
        }
        &&& self.compare_value.value_view() == data.subrange(
            spec_value_start(data),
            spec_file_id_pos(data),
        )
        &&& self.file_id == FileId(data[spec_file_id_pos(data)])
        &&& self.offset@ == varint::spec_decoded(tail(data, spec_file_id_pos(data) + 1))
    }

    pub fn to_owned(&self) -> (r: ComparisonWithValue)
        ensures
            r.signed_data == self.signed_data,
            r.comparison_type == self.comparison_type,
            r.compare_value.value_view() == self.compare_value.value_view(),
            r.compare_value.mask_view() == self.compare_value.mask_view(),
            r.file_id == self.file_id,
            r.offset == self.offset,
    {
        ComparisonWithValue {
            signed_data: self.signed_data,
            comparison_type: self.comparison_type,
            compare_value: self.compare_value.to_owned(),
            file_id: self.file_id,
            offset: self.offset,
        }
    }

    /// Size in bytes of the encoded query.
    pub fn encoded_size(&self) -> (r: usize)
        ensures
            r == self.encoding().len(),
            r < usize::MAX,
    {
        let len = self.compare_value.len();
        let length = Varint::new_unchecked(len as u32);
        let mask_size = match self.compare_value.mask() {
            Some(m) => m.len(),
            None => 0,
        };
        1 + length.encoded_size() + mask_size + len + 1 + self.offset.encoded_size()
    }

    /// Writes the encoded query at the start of `out`.
    ///
    /// # Errors
    /// Fails with the required size if `out` is too small.
    #[verifier::rlimit(60)]
    pub fn encode_in(&self, out: &mut [u8]) -> (r: Result<usize, usize>)
        ensures
            r is Ok <==> old(out)@.len() >= self.encoding().len(),
            r matches Ok(size) ==> size == self.encoding().len() && written_at_head(
                final(out)@,
                old(out)@,
                self.encoding(),
            ),
            r matches Err(size) ==> size == self.encoding().len() && final(out)@ == old(out)@,
    {
        let size = self.encoded_size();
        if out.len() < size {
            return Err(size);
        }
        let ghost before = out@;
        let value = self.compare_value.value();
        let mask = self.compare_value.mask();
        let len = self.compare_value.len();
        let first = query_first_byte(
            QueryCode::ComparisonWithValue,
            mask.is_some(),
            self.signed_data,
            self.comparison_type.code(),
        );
        proof {
            lemma_splice_byte(out@, 0, first);
        }
        out[0] = first;
        let ghost mut written = seq![first];
        let length = Varint::new_unchecked(len as u32);
        let length_size = length.encode_at(out, 1);
        proof {
            lemma_splice_concat(before, 0, written, varint::spec_encoding(length@));
            written = written + varint::spec_encoding(length@);
        }
        let mut pos = 1 + length_size;
        match mask {
            Some(m) => {
                copy_at(out, pos, m);
                proof {
                    lemma_splice_concat(before, 0, written, m@);
                    written = written + m@;
                }
                pos = pos + m.len();
            },
            None => {
                assert(written + mask_bytes(self.compare_value.mask_view()) =~= written);
            },
        }
        copy_at(out, pos, value.data());
        proof {
            lemma_splice_concat(before, 0, written, value@);
            written = written + value@;
        }
        pos = pos + len;
        proof {
            lemma_splice_byte(out@, pos as int, self.file_id.0);
            lemma_splice_concat(before, 0, written, seq![self.file_id.0]);
            written = written + seq![self.file_id.0];
        }
        out[pos] = self.file_id.u8();
        pos = pos + 1;
        let offset_size = self.offset.encode_at(out, pos);
        proof {
            lemma_splice_concat(before, 0, written, varint::spec_encoding(self.offset@));
            written = written + varint::spec_encoding(self.offset@);
            assert(written =~= self.encoding());
        }
        Ok(size)
    }

    /// # Errors
    /// Fails if the input is too short.
    pub fn decode(data: &'item [u8]) -> (r: Result<
        WithByteSize<ComparisonWithValueRef<'item>>,
        SizeError,
    >)
        ensures
            r is Ok <==> Self::complete(data@),
            r matches Ok(w) ==> w.item.decoded_from(data@) && w.byte_size == Self::decoded_size(
                data@,
            ),
    {
        let decoder = Self::start_decoding(data)?;
        Ok(decoder.item.complete_decoding())
    }

    /// # Errors
    /// Fails if the input is too short.
    pub fn start_decoding(data: &'item [u8]) -> (r: Result<
        WithByteSize<EncodedComparisonWithValue<'item>>,
        SizeError,
    >)
        ensures
            r is Ok <==> Self::complete(data@),
            r matches Ok(w) ==> w.item.bytes() == data@ && w.byte_size == Self::decoded_size(
                data@,
            ),
    {
        let decoder = EncodedComparisonWithValue::new(data);
        let size = decoder.encoded_size()?;
        Ok(WithByteSize { item: decoder, byte_size: size })
    }

    /// Reader on a query known to be complete.
    pub fn start_decoding_unchecked(data: &'item [u8]) -> (r: EncodedComparisonWithValue<'item>)
        requires
            Self::complete(data@),
        ensures
            r.bytes() == data@,
    {
        EncodedComparisonWithValue::new(data)
    }

    /// # Errors
    /// Fails if the input is too short.
    pub fn start_decoding_mut(data: &mut [u8]) -> (r: Result<
        WithByteSize<EncodedComparisonWithValueMut<'_>>,
        SizeError,
    >)
        ensures
            r is Err ==> final(data)@ == old(data)@,
            r matches Ok(w) ==> final(data)@ == final(w.item.data)@,
            r is Ok <==> Self::complete(old(data)@),
            r matches Ok(w) ==> w.item.bytes() == old(data)@ && w.byte_size
                == Self::decoded_size(old(data)@),
    {
        let size = EncodedComparisonWithValue::new(&*data).encoded_size()?;
        Ok(WithByteSize { item: EncodedComparisonWithValueMut::new(data), byte_size: size })
    }

    /// Mutable accessor on a query known to be complete.
    pub fn start_decoding_unchecked_mut(data: &mut [u8]) -> (r: EncodedComparisonWithValueMut<'_>)
        requires
            Self::complete(old(data)@),
        ensures
            final(data)@ == final(r.data)@,
            r.bytes() == old(data)@,
    {
        EncodedComparisonWithValueMut::new(data)
    }
}

/// Decoding an encoded comparison with a value gives it back, whatever follows it.
#[verifier::rlimit(60)]
pub proof fn lemma_roundtrip(op: ComparisonWithValueRef, rest: Seq<u8>)
    requires
        op.offset@ <= varint::U32_MAX,
        valid_masked_value(op.compare_value.value_view(), op.compare_value.mask_view()),
    ensures
        ComparisonWithValueRef::complete(op.encoding() + rest),
        ComparisonWithValueRef::decoded_size(op.encoding() + rest) == op.encoding().len(),
        op.decoded_from(op.encoding() + rest),
{
    let value = op.compare_value.value_view();
    let mask = op.compare_value.mask_view();
    let d = op.encoding() + rest;
    let b0 = query_byte(
        COMPARISON_WITH_VALUE,
        mask is Some,
        op.signed_data,
        op.comparison_type.spec_code(),
    );
    let el = varint::spec_encoding(value.len() as u32);
    let mb = mask_bytes(mask);
    let eo = varint::spec_encoding(op.offset@);
    lemma_query_byte(COMPARISON_WITH_VALUE, mask is Some, op.signed_data, op.comparison_type.spec_code());
    super::define::comparison_type::lemma_comparison_type_roundtrip(op.comparison_type);
    varint::lemma_roundtrip(value.len() as u32, mb + value + seq![op.file_id.0] + eo + rest);
    varint::lemma_roundtrip(op.offset@, rest);
    assert(d[0] == b0);
    assert(tail(d, 1) =~= el + (mb + value + seq![op.file_id.0] + eo + rest));
    let ms: int = 1 + el.len() as int;
    let vs: int = ms + mb.len() as int;
    let fp: int = vs + value.len() as int;
    assert(spec_mask_start(d) == ms);
    assert(spec_value_start(d) == vs);
    assert(spec_file_id_pos(d) == fp);
    assert(d.subrange(vs, fp) =~= value);
    assert(d.subrange(ms, vs) =~= mb);
    assert(d[fp] == op.file_id.0);
    assert(tail(d, fp + 1) =~= eo + rest);
}

/// Read access to an encoded comparison with a value.
pub struct EncodedComparisonWithValue<'data> {
    data: &'data [u8],
}

impl<'data> EncodedComparisonWithValue<'data> {
    /// The bytes this reader looks at.
    pub closed spec fn bytes(&self) -> Seq<u8> {
        self.data@
    }

    /// The bytes hold a complete query.
    pub open spec fn wf(&self) -> bool {
        ComparisonWithValueRef::complete(self.bytes())
    }

    pub fn new(data: &'data [u8]) -> (r: Self)
        ensures
            r.bytes() == data@,
    {
        Self { data }
    }

    pub fn mask_flag(&self) -> (r: bool)
        requires
            self.bytes().len() >= 1,
        ensures
            r == spec_mask_flag(self.bytes()),
    {
        self.data[0] & flag::QUERY_MASK == flag::QUERY_MASK
    }

    pub fn signed_data(&self) -> (r: bool)
        requires
            self.bytes().len() >= 1,
        ensures
            r == (self.bytes()[0] & 0x08 == 0x08),
    {
        self.data[0] & flag::QUERY_SIGNED_DATA == flag::QUERY_SIGNED_DATA
    }

    pub fn comparison_type(&self) -> (r: QueryComparisonType)
        requires
            self.bytes().len() >= 1,
        ensures
            r == QueryComparisonType::spec_from(self.bytes()[0] & 0x07),
    {
        let b = self.data[0];
        assert(b & 0x07 <= 7) by (bit_vector);
        QueryComparisonType::from_unchecked(b & flag::QUERY_COMPARISON_TYPE)
    }

    pub fn compare_length(&self) -> (r: EncodedVarint<'data>)
        requires
            self.wf(),
        ensures
            r.bytes() == tail(self.bytes(), 1),
            r.wf(),
    {
        Varint::start_decoding_unchecked(skip(self.data, 1))
    }

    /// Size of the compare length field, compare length, mask flag.
    fn layout(&self) -> (r: (usize, usize, bool))
        requires
            self.wf(),
        ensures
            r.0 == spec_length_size(self.bytes()),
            r.1 == spec_length(self.bytes()),
            r.2 == spec_mask_flag(self.bytes()),
            r.1 <= varint::U32_MAX,
    {
        let length = self.compare_length().complete_decoding();
        (length.byte_size, length.item.usize(), self.mask_flag())
    }

    pub fn mask(&self) -> (r: Option<&'data [u8]>)
        requires
            self.wf(),
        ensures
            match r {
                Some(m) => spec_mask_flag(self.bytes()) && m@ == self.bytes().subrange(
                    spec_mask_start(self.bytes()),
                    spec_value_start(self.bytes()),
                ),
                None => !spec_mask_flag(self.bytes()),
            },
    {
        let (length_size, length, mask) = self.layout();
        if mask {
            let m = take(skip(self.data, 1 + length_size), length);
            assert(m@ =~= self.data@.subrange(1 + length_size, 1 + length_size + length));
            Some(m)
        } else {
            None
        }
    }

    pub fn value(&self) -> (r: EncodableDataRef<'data>)
        requires
            self.wf(),
        ensures
            r@ == self.bytes().subrange(
                spec_value_start(self.bytes()),
                spec_file_id_pos(self.bytes()),
            ),
    {
        let (length_size, length, mask) = self.layout();
        let start = 1 + length_size + if mask {
            length
        } else {
            0
        };
        let v = take(skip(self.data, start), length);
        assert(v@ =~= self.data@.subrange(start as int, start + length));
        EncodableDataRef::new_unchecked(v)
    }

    pub fn compare_value(&self) -> (r: MaskedValueRef<'data>)
        requires
            self.wf(),
        ensures
            r.value_view() == self.bytes().subrange(
                spec_value_start(self.bytes()),
                spec_file_id_pos(self.bytes()),
            ),
            r.mask_view() == if spec_mask_flag(self.bytes()) {
                Some(
                    self.bytes().subrange(
                        spec_mask_start(self.bytes()),
                        spec_value_start(self.bytes()),
                    ),
                )
            } else {
                None
            },
    {
        MaskedValueRef::new_unchecked(self.value(), self.mask())
    }

    pub fn file_id(&self) -> (r: FileId)
        requires
            self.wf(),
        ensures
            r == FileId(self.bytes()[spec_file_id_pos(self.bytes())]),
    {
        let (length_size, length, mask) = self.layout();
        let pos = 1 + length_size + if mask {
            2 * length
        } else {
            length
        };
        FileId(self.data[pos])
    }

    pub fn offset(&self) -> (r: EncodedVarint<'data>)
        requires
            self.wf(),
        ensures
            r.bytes() == tail(self.bytes(), spec_file_id_pos(self.bytes()) + 1),
            r.wf(),
    {
        let (length_size, length, mask) = self.layout();
        let pos = 1 + length_size + if mask {
            2 * length
        } else {
            length
        };
        Varint::start_decoding_unchecked(skip(self.data, pos + 1))
    }

    /// Byte size of the encoded query.
    pub fn size_unchecked(&self) -> (r: usize)
        requires
            self.wf(),
        ensures
            r == ComparisonWithValueRef::decoded_size(self.bytes()),
    {
        let (length_size, length, mask) = self.layout();
        let pos = 1 + length_size + if mask {
            2 * length
        } else {
            length
        };
        pos + 1 + self.offset().encoded_size_unchecked()
    }

    /// # Errors
    /// Fails if the input is too short.
    pub fn encoded_size(&self) -> (r: Result<usize, SizeError>)
        ensures
            r is Ok <==> self.wf(),
            r matches Ok(size) ==> size == ComparisonWithValueRef::decoded_size(self.bytes()),
    {
        let len = self.data.len();
        if len < 2 {
            return Err(SizeError::MissingBytes);
        }
        let length_size = (self.data[1] / 64) as usize + 1;
        if len < 1 + length_size {
            return Err(SizeError::MissingBytes);
        }
        let length = Varint::decode_unchecked(skip(self.data, 1)).item.usize();
        let pos = 1 + length_size + if self.mask_flag() {
            2 * length
        } else {
            length
        };
        if len < pos + 2 {
            return Err(SizeError::MissingBytes);
        }
        let offset_size = (self.data[pos + 1] / 64) as usize + 1;
        if len < pos + 1 + offset_size {
            return Err(SizeError::MissingBytes);
        }
        Ok(pos + 1 + offset_size)
    }

    pub fn complete_decoding(&self) -> (r: WithByteSize<ComparisonWithValueRef<'data>>)
        requires
            self.wf(),
        ensures
            r.item.decoded_from(self.bytes()),
            r.byte_size == ComparisonWithValueRef::decoded_size(self.bytes()),
    {
        let offset = self.offset().complete_decoding();
        WithByteSize {
            item: ComparisonWithValueRef {
                signed_data: self.signed_data(),
                comparison_type: self.comparison_type(),
                compare_value: self.compare_value(),
                file_id: self.file_id(),
                offset: offset.item,
            },
            byte_size: self.size_unchecked(),
        }
    }
}

/// Write access to an encoded comparison with a value.
pub struct EncodedComparisonWithValueMut<'data> {
    /// The bytes of the item, which this accessor edits in place.
    pub data: &'data mut [u8],
}

impl<'data> EncodedComparisonWithValueMut<'data> {
    /// The bytes this accessor looks at.
    pub open spec fn bytes(&self) -> Seq<u8> {
        self.data@
    }

    /// The bytes hold a complete query.
    pub open spec fn wf(&self) -> bool {
        ComparisonWithValueRef::complete(self.bytes())
    }

    pub fn new(data: &'data mut [u8]) -> (r: Self)
        ensures
            final(data)@ == final(r.data)@,
            r.bytes() == old(data)@,
    {
        Self { data }
    }

    /// Read only view of the same bytes.
    pub fn as_ref(&self) -> (r: EncodedComparisonWithValue<'_>)
        ensures
            r.bytes() == self.bytes(),
    {
        EncodedComparisonWithValue::new(&*self.data)
    }

    pub fn mask_flag(&self) -> (r: bool)
        requires
            self.bytes().len() >= 1,
        ensures
            r == spec_mask_flag(self.bytes()),
    {
        self.as_ref().mask_flag()
    }

    pub fn signed_data(&self) -> (r: bool)
        requires
            self.bytes().len() >= 1,
        ensures
            r == (self.bytes()[0] & 0x08 == 0x08),
    {
        self.as_ref().signed_data()
    }

    pub fn comparison_type(&self) -> (r: QueryComparisonType)
        requires
            self.bytes().len() >= 1,
        ensures
            r == QueryComparisonType::spec_from(self.bytes()[0] & 0x07),
    {
        self.as_ref().comparison_type()
    }

    pub fn set_signed_data(&mut self, signed_data: bool)
        requires
            old(self).bytes().len() >= 1,
        ensures
            final(final(self).data)@ == final(old(self).data)@,
            final(self).bytes() == old(self).bytes().update(
                0,
                with_flag(old(self).bytes()[0], flag::QUERY_SIGNED_DATA, signed_data),
            ),
            (final(self).bytes()[0] & 0x08 == 0x08) == signed_data,
            final(self).bytes()[0] & 0x10 == old(self).bytes()[0] & 0x10,
            final(self).bytes()[0] & 0x07 == old(self).bytes()[0] & 0x07,
            (final(self).bytes()[0] >> 5u8) & 7u8 == (old(self).bytes()[0] >> 5u8) & 7u8,
    {
        proof {
            lemma_query_flag(self.data@[0], flag::QUERY_SIGNED_DATA, signed_data);
        }
        if signed_data {
            self.data[0] = self.data[0] | flag::QUERY_SIGNED_DATA;
        } else {
            self.data[0] = self.data[0] & !flag::QUERY_SIGNED_DATA;
        }
    }

    pub fn set_comparison_type(&mut self, ty: QueryComparisonType)
        requires
            old(self).bytes().len() >= 1,
        ensures
            final(final(self).data)@ == final(old(self).data)@,
            final(self).bytes() == old(self).bytes().update(
                0,
                with_comparison(old(self).bytes()[0], ty.spec_code()),
            ),
            final(self).bytes()[0] & 0x07 == ty.spec_code(),
            final(self).bytes()[0] & 0x10 == old(self).bytes()[0] & 0x10,
            final(self).bytes()[0] & 0x08 == old(self).bytes()[0] & 0x08,
            (final(self).bytes()[0] >> 5u8) & 7u8 == (old(self).bytes()[0] >> 5u8) & 7u8,
    {
        let code = ty.code();
        proof {
            lemma_query_comparison(self.data@[0], code);
        }
        self.data[0] = (self.data[0] & !flag::QUERY_COMPARISON_TYPE) | code;
    }

    /// Mutable access to the compared value.
    pub fn value_mut(&mut self) -> (r: &mut [u8])
        requires
            old(self).wf(),
        ensures
            final(final(self).data)@ == final(old(self).data)@,
            r@ == old(self).bytes().subrange(
                spec_value_start(old(self).bytes()),
                spec_file_id_pos(old(self).bytes()),
            ),
            final(self).bytes() == old(self).bytes().subrange(
                0,
                spec_value_start(old(self).bytes()),
            ) + final(r)@ + tail(old(self).bytes(), spec_file_id_pos(old(self).bytes())),
    {
        let (length_size, length, mask) = self.as_ref().layout();
        let start = 1 + length_size + if mask {
            length
        } else {
            0
        };
        let (r, _) = skip_mut(self.data, start).split_at_mut(length);
        assert(r@ =~= old(self).bytes().subrange(start as int, start + length));
        r
    }

    /// # Errors
    /// Fails if the input is too short.
    pub fn encoded_size(&self) -> (r: Result<usize, SizeError>)
        ensures
            r is Ok <==> self.wf(),
            r matches Ok(size) ==> size == ComparisonWithValueRef::decoded_size(self.bytes()),
    {
        self.as_ref().encoded_size()
    }

    pub fn complete_decoding(&self) -> (r: WithByteSize<ComparisonWithValueRef<'_>>)
        requires
            self.wf(),
        ensures
            r.item.decoded_from(self.bytes()),
            r.byte_size == ComparisonWithValueRef::decoded_size(self.bytes()),
    {
        self.as_ref().complete_decoding()
    }
}

/// Compares data to a value.
#[derive(Eq, PartialEq, Ord, PartialOrd, Hash, Debug)]
pub struct ComparisonWithValue {
    pub signed_data: bool,
    pub comparison_type: QueryComparisonType,
    pub compare_value: MaskedValue,
    pub file_id: FileId,
    pub offset: Varint,
}

impl ComparisonWithValue {
    pub fn as_ref(&self) -> (r: ComparisonWithValueRef<'_>)
        ensures
            r.signed_data == self.signed_data,
            r.comparison_type == self.comparison_type,
            r.compare_value.value_view() == self.compare_value.value_view(),
            r.compare_value.mask_view() == self.compare_value.mask_view(),
            r.file_id == self.file_id,
            r.offset == self.offset,
    {
        ComparisonWithValueRef {
            signed_data: self.signed_data,
            comparison_type: self.comparison_type,
            compare_value: self.compare_value.as_ref(),
            file_id: self.file_id,
            offset: self.offset,
        }
    }
}

/// The first byte of an encoded comparison with a value holds the query kind 2 on its 3 high
/// bits, the mask flag (0x10), the signed data flag (0x08), and the ALP number of the
/// comparison type on its 3 low bits.
pub proof fn lemma_comparison_with_value_first_byte(q: ComparisonWithValueRef)
    ensures
        (q.encoding()[0] >> 5u8) & 7u8 == 2,
        (q.encoding()[0] & 0x10u8 == 0x10u8) == (q.compare_value.mask_view() is Some),
        (q.encoding()[0] & 0x08u8 == 0x08u8) == q.signed_data,
        q.encoding()[0] & 0x07u8 == q.comparison_type.spec_code(),
        q.comparison_type == QueryComparisonType::LessThan ==> q.encoding()[0] & 0x07u8 == 2,
        q.comparison_type == QueryComparisonType::LessThanOrEqual ==> q.encoding()[0] & 0x07u8
            == 3,
{
    lemma_comparison_type_numbers();
    lemma_query_byte(
        COMPARISON_WITH_VALUE,
        q.compare_value.mask_view() is Some,
        q.signed_data,
        q.comparison_type.spec_code(),
    );
}

} // verus!
