//! Query comparing the data of a file to a range of values.
//!
//! The boundaries of the range are encoded in little endian on `compare_length` bytes each.
//! An encoded range is valid when its boundaries fit in a `usize`, which needs a compare length
//! of at most [`MAX_COMPARE_LENGTH`] bytes, and are ordered.
use super::comparison_with_value::mask_bytes;
use super::define::code::{
    lemma_query_byte, lemma_query_comparison, lemma_query_flag, query_byte, query_first_byte,
    with_comparison, QueryCode, COMPARISON_WITH_RANGE,
};
use super::define::range_comparison_type::{lemma_range_comparison_type_numbers, QueryRangeComparisonType};
use crate::decodable::{WithByteSize, copy_at, lemma_splice_byte, lemma_splice_concat, lemma_splice_content, skip, skip_mut, slice_mut, splice, tail, take, replaced, written_at_head};
use crate::define::file_offset_operand::{
    self, EncodedFileOffsetOperand, EncodedFileOffsetOperandMut,
};
use crate::define::masked_range::{
    fits_bytes, le_bytes, le_value, lemma_le_bound, lemma_le_len, lemma_le_roundtrip,
    lemma_pow256_8, lemma_pow256_monotonic, pow256, read_le, spec_bitmap_size, spec_valid_range,
    write_le, MAX_COMPARE_LENGTH,
};
use crate::define::{FileId, MaskedRange, MaskedRangeRef};
use crate::v1_2::define::flag::{self, with_flag};
use crate::v1_2::error::{
    QueryRangeError, QueryRangeSetError, QueryRangeSetLooselyError, QueryRangeSizeError,
};
use crate::varint::{self, EncodedVarint, EncodedVarintMut, Varint};
use vstd::prelude::*;

verus! {


broadcast use varint::group_varint_value;

/// Compares data to a range of data.
#[derive(Copy, Clone, Eq, PartialEq, Ord, PartialOrd, Hash, Debug)]
pub struct ComparisonWithRangeRef<'data> {
    pub signed_data: bool,
    pub comparison_type: QueryRangeComparisonType,
    pub range: MaskedRangeRef<'data>,
    pub file_id: FileId,
    pub offset: Varint,
}

/// The boundaries of an encoded range.
#[derive(Copy, Clone, Eq, PartialEq, Ord, PartialOrd, Hash, Debug)]
pub struct Range {
    pub compare_length: usize,
    pub start: usize,
    pub end: usize,
}

/// A decoded range, and access to the file offset operand that follows it.
pub struct RangeWithFileOffset<'data> {
    pub masked_range: MaskedRangeRef<'data>,
    pub file_offset: EncodedFileOffsetOperand<'data>,
}

/// Byte size of the compare length field of an encoded query.
pub open spec fn spec_length_size(data: Seq<u8>) -> int {
    varint::spec_encoded_size(tail(data, 1))
}

/// Byte size of each boundary of an encoded query.
pub open spec fn spec_compare_length(data: Seq<u8>) -> int {
    varint::spec_decoded(tail(data, 1)) as int
}

/// Position of the boundaries in an encoded query.
pub open spec fn spec_bounds_start(data: Seq<u8>) -> int {
    1 + spec_length_size(data)
}

/// Lower boundary of an encoded query.
pub open spec fn spec_start(data: Seq<u8>) -> nat {
    le_value(
        data.subrange(spec_bounds_start(data), spec_bounds_start(data) + spec_compare_length(data)),
    )
}

/// Upper boundary of an encoded query.
pub open spec fn spec_end(data: Seq<u8>) -> nat {
    le_value(
        data.subrange(
            spec_bounds_start(data) + spec_compare_length(data),
            spec_bounds_start(data) + 2 * spec_compare_length(data),
        ),
    )
}

/// The mask flag of an encoded query.
pub open spec fn spec_mask_flag(data: Seq<u8>) -> bool {
    data[0] & 0x10 == 0x10
}

/// Position of the bitmap (when there is one) in an encoded query.
pub open spec fn spec_bitmap_start(data: Seq<u8>) -> int {
    spec_bounds_start(data) + 2 * spec_compare_length(data)
}

/// The boundaries of an encoded query can be read in a `usize`.
pub open spec fn spec_readable(data: Seq<u8>) -> bool {
    &&& spec_compare_length(data) <= MAX_COMPARE_LENGTH
    &&& spec_start(data) <= usize::MAX
    &&& spec_end(data) <= usize::MAX
}

/// The range of an encoded query is valid.
pub open spec fn spec_range_ok(data: Seq<u8>) -> bool {
    spec_readable(data) && spec_start(data) <= spec_end(data)
}

/// Byte size of the bitmap of an encoded query.
pub open spec fn spec_bitmap_len(data: Seq<u8>) -> int {
    if spec_mask_flag(data) {
        spec_bitmap_size(spec_start(data) as int, spec_end(data) as int)
    } else {
        0
    }
}

/// Position of the file offset operand of an encoded query.
pub open spec fn spec_file_offset_pos(data: Seq<u8>) -> int {
    spec_bitmap_start(data) + spec_bitmap_len(data)
}

/// What measuring the query encoded at the start of `data` gives: its byte size, or why it
/// cannot be measured.
pub open spec fn spec_size_result(data: Seq<u8>) -> Result<int, QueryRangeSizeError> {
    if !(data.len() >= 2 && varint::spec_complete(tail(data, 1)) && data.len()
        >= spec_bitmap_start(data)) {
        Err(QueryRangeSizeError::MissingBytes)
    } else if spec_mask_flag(data) && !spec_range_ok(data) {
        Err(QueryRangeSizeError::BadEncodedRange)
    } else if !(data.len() >= spec_file_offset_pos(data) + 2 && varint::spec_complete(
        tail(data, spec_file_offset_pos(data) + 1),
    )) {
        Err(QueryRangeSizeError::MissingBytes)
    } else {
        Ok(
            spec_file_offset_pos(data) + 1 + varint::spec_encoded_size(
                tail(data, spec_file_offset_pos(data) + 1),
            ),
        )
    }
}

/// The bytes of `data` are `before` with the boundaries of its range replaced by `start` and
/// `end`, written on the encoded compare length.
pub open spec fn boundaries_written(data: Seq<u8>, before: Seq<u8>, start: nat, end: nat) -> bool {
    let cl = spec_compare_length(before) as nat;
    data == splice(
        before,
        spec_bounds_start(before),
        le_bytes(start, cl) + le_bytes(end, cl),
    )
}

impl<'data> ComparisonWithRangeRef<'data> {
    /// Bytes of the encoded query.
    pub open spec fn encoding(self) -> Seq<u8> {
        let cl = self.range.compare_length_view();
        let bitmap = self.range.bitmap_view();
        seq![
            query_byte(
                COMPARISON_WITH_RANGE,
                bitmap is Some,
                self.signed_data,
                self.comparison_type.spec_code(),
            ),
        ] + varint::spec_encoding(cl as u32) + le_bytes(self.range.start_view(), cl) + le_bytes(
            self.range.end_view(),
            cl,
        ) + mask_bytes(bitmap) + seq![self.file_id.0] + varint::spec_encoding(self.offset@)
    }

    /// `data` starts with a query whose size can be measured.
    pub open spec fn complete(data: Seq<u8>) -> bool {
        spec_size_result(data) is Ok
    }

    /// Byte size of the query encoded at the start of `data`.
    pub open spec fn decoded_size(data: Seq<u8>) -> int {
        spec_file_offset_pos(data) + 1 + varint::spec_encoded_size(
            tail(data, spec_file_offset_pos(data) + 1),
        )
    }

    /// `self` is the query encoded at the start of `data`.
    pub open spec fn decoded_from(self, data: Seq<u8>) -> bool {
        &&& self.signed_data == (data[0] & 0x08 == 0x08)
        &&& self.comparison_type == QueryRangeComparisonType::spec_from(data[0] & 0x07)
        &&& self.range.compare_length_view() == spec_compare_length(data)
        &&& self.range.start_view() == spec_start(data)
        &&& self.range.end_view() == spec_end(data)
        &&& self.range.bitmap_view() == if spec_mask_flag(data) {
            Some(data.subrange(spec_bitmap_start(data), spec_file_offset_pos(data)))
        } else {
            None
        }
        &&& self.file_id == FileId(data[spec_file_offset_pos(data)])
        &&& self.offset@ == varint::spec_decoded(tail(data, spec_file_offset_pos(data) + 1))
    }

    pub fn to_owned(&self) -> (r: ComparisonWithRange)
        ensures
            r.signed_data == self.signed_data,
            r.comparison_type == self.comparison_type,
            r.range.compare_length_view() == self.range.compare_length_view(),
            r.range.start_view() == self.range.start_view(),
            r.range.end_view() == self.range.end_view(),
            r.range.bitmap_view() == self.range.bitmap_view(),
            r.file_id == self.file_id,
            r.offset == self.offset,
    {
        ComparisonWithRange {
            signed_data: self.signed_data,
            comparison_type: self.comparison_type,
            range: self.range.to_owned(),
            file_id: self.file_id,
            offset: self.offset,
        }
    }

    /// Size in bytes of the encoded query.
    pub fn encoded_size(&self) -> (r: usize)
        ensures
            r == self.encoding().len(),
            r < usize::MAX,
    {
        self.range.lemma_valid();
        let cl = self.range.compare_length();
        proof {
            lemma_le_len(self.range.start_view(), cl as nat);
            lemma_le_len(self.range.end_view(), cl as nat);
        }
        let length = Varint::new_unchecked(cl as u32);
        let start = self.range.start();
        let end = self.range.end();
        let bitmap_size = match self.range.bitmap() {
            Some(b) => b.len(),
            None => 0,
        };
        assert(bitmap_size <= usize::MAX / 8 + 1);
        1 + length.encoded_size() + 2 * cl + bitmap_size + 1 + self.offset.encoded_size()
    }

    /// Writes the encoded query at the start of `out`.
    ///
    /// # Errors
    /// Fails with the required size if `out` is too small.
    #[verifier::rlimit(60)]
    pub fn encode_in(&self, out: &mut [u8]) -> (r: Result<usize, usize>)
        ensures
            r is Ok <==> old(out)@.len() >= self.encoding().len(),
            r matches Ok(size) ==> size == self.encoding().len() && written_at_head(
                final(out)@,
                old(out)@,
                self.encoding(),
            ),
            r matches Err(size) ==> size == self.encoding().len() && final(out)@ == old(out)@,
    {
        let size = self.encoded_size();
        if out.len() < size {
            return Err(size);
        }
        self.range.lemma_valid();
        let ghost before = out@;
        let cl = self.range.compare_length();
        let start = self.range.start();
        let end = self.range.end();
        let bitmap = self.range.bitmap();
        let first = query_first_byte(
            QueryCode::ComparisonWithRange,
            bitmap.is_some(),
            self.signed_data,
            self.comparison_type.code(),
        );
        proof {
            lemma_splice_byte(out@, 0, first);
            lemma_le_len(start as nat, cl as nat);
            lemma_le_len(end as nat, cl as nat);
        }
        out[0] = first;
        let ghost mut written = seq![first];
        let length = Varint::new_unchecked(cl as u32);
        let length_size = length.encode_at(out, 1);
        proof {
            lemma_splice_concat(before, 0, written, varint::spec_encoding(length@));
            written = written + varint::spec_encoding(length@);
        }
        let mut pos = 1 + length_size;
        write_le(out, pos, start, cl);
        proof {
            lemma_splice_concat(before, 0, written, le_bytes(start as nat, cl as nat));
            written = written + le_bytes(start as nat, cl as nat);
        }
        pos = pos + cl;
        write_le(out, pos, end, cl);
        proof {
            lemma_splice_concat(before, 0, written, le_bytes(end as nat, cl as nat));
            written = written + le_bytes(end as nat, cl as nat);
        }
        pos = pos + cl;
        match bitmap {
            Some(b) => {
                copy_at(out, pos, b);
                proof {
                    lemma_splice_concat(before, 0, written, b@);
                    written = written + b@;
                }
                pos = pos + b.len();
            },
            None => {
                assert(written + mask_bytes(self.range.bitmap_view()) =~= written);
            },
        }
        proof {
            lemma_splice_byte(out@, pos as int, self.file_id.0);
            lemma_splice_concat(before, 0, written, seq![self.file_id.0]);
            written = written + seq![self.file_id.0];
        }
        out[pos] = self.file_id.u8();
        pos = pos + 1;
        let offset_size = self.offset.encode_at(out, pos);
        proof {
            lemma_splice_concat(before, 0, written, varint::spec_encoding(self.offset@));
            written = written + varint::spec_encoding(self.offset@);
            assert(written =~= self.encoding());
        }
        Ok(size)
    }

    /// # Errors
    /// Fails if the input is too short or if its range is invalid.
    pub fn decode(data: &'data [u8]) -> (r: Result<
        WithByteSize<ComparisonWithRangeRef<'data>>,
        QueryRangeSizeError,
    >)
        ensures
            r is Ok <==> Self::complete(data@) && spec_range_ok(data@),
            r matches Ok(w) ==> w.item.decoded_from(data@) && w.byte_size == Self::decoded_size(
                data@,
            ),
            r matches Err(e) ==> e == match spec_size_result(data@) {
                Err(e) => e,
                Ok(_) => QueryRangeSizeError::BadEncodedRange,
            },
    {
        let decoder = Self::start_decoding(data)?;
        match decoder.item.complete_decoding() {
            Ok(w) => Ok(w),
            Err(e) => Err(QueryRangeSizeError::from(e)),
        }
    }

    /// # Errors
    /// Fails if the input is too short, or if it has a bitmap and its range is invalid.
    pub fn start_decoding(data: &'data [u8]) -> (r: Result<
        WithByteSize<EncodedComparisonWithRange<'data>>,
        QueryRangeSizeError,
    >)
        ensures
            r is Ok <==> Self::complete(data@),
            r matches Ok(w) ==> w.item.bytes() == data@ && w.byte_size == Self::decoded_size(
                data@,
            ),
            r matches Err(e) ==> spec_size_result(data@) == Err::<int, QueryRangeSizeError>(e),
    {
        let decoder = EncodedComparisonWithRange::new(data);
        let size = decoder.encoded_size()?;
        Ok(WithByteSize { item: decoder, byte_size: size })
    }

    /// Reader on a query known to be complete.
    pub fn start_decoding_unchecked(data: &'data [u8]) -> (r: EncodedComparisonWithRange<'data>)
        requires
            Self::complete(data@),
        ensures
            r.bytes() == data@,
    {
        EncodedComparisonWithRange::new(data)
    }

    /// # Errors
    /// Fails if the input is too short, or if it has a bitmap and its range is invalid.
    pub fn start_decoding_mut(data: &mut [u8]) -> (r: Result<
        WithByteSize<EncodedComparisonWithRangeMut<'_>>,
        QueryRangeSizeError,
    >)
        ensures
            r is Err ==> final(data)@ == old(data)@,
            r matches Ok(w) ==> final(data)@ == final(w.item.data)@,
            r is Ok <==> Self::complete(old(data)@),
            r matches Ok(w) ==> w.item.bytes() == old(data)@ && w.byte_size
                == Self::decoded_size(old(data)@),
            r matches Err(e) ==> spec_size_result(old(data)@) == Err::<int, QueryRangeSizeError>(
                e,
            ),
    {
        let size = EncodedComparisonWithRange::new(&*data).encoded_size()?;
        Ok(WithByteSize { item: EncodedComparisonWithRangeMut::new(data), byte_size: size })
    }

    /// Mutable accessor on a query known to be complete.
    pub fn start_decoding_unchecked_mut(data: &mut [u8]) -> (r: EncodedComparisonWithRangeMut<'_>)
        requires
            Self::complete(old(data)@),
        ensures
            final(data)@ == final(r.data)@,
            r.bytes() == old(data)@,
    {
        EncodedComparisonWithRangeMut::new(data)
    }
}

/// The range satisfies the invariant of its type.
pub open spec fn masked_range_valid(range: MaskedRangeRef) -> bool {
    &&& spec_valid_range(
        range.compare_length_view() as int,
        range.start_view() as int,
        range.end_view() as int,
        range.bitmap_view(),
    )
    &&& range.end_view() <= usize::MAX
}

/// Decoding an encoded comparison with a range gives it back, whatever follows it.
#[verifier::rlimit(80)]
pub proof fn lemma_roundtrip(op: ComparisonWithRangeRef, rest: Seq<u8>)
    requires
        masked_range_valid(op.range),
        op.offset@ <= varint::U32_MAX,
    ensures
        ComparisonWithRangeRef::complete(op.encoding() + rest),
        spec_range_ok(op.encoding() + rest),
        ComparisonWithRangeRef::decoded_size(op.encoding() + rest) == op.encoding().len(),
        op.decoded_from(op.encoding() + rest),
{
    let cl = op.range.compare_length_view();
    let start = op.range.start_view();
    let end = op.range.end_view();
    let bitmap = op.range.bitmap_view();
    let d = op.encoding() + rest;
    let b0 = query_byte(
        COMPARISON_WITH_RANGE,
        bitmap is Some,
        op.signed_data,
        op.comparison_type.spec_code(),
    );
    let el = varint::spec_encoding(cl as u32);
    let es = le_bytes(start, cl);
    let ee = le_bytes(end, cl);
    let mb = mask_bytes(bitmap);
    let eo = varint::spec_encoding(op.offset@);
    lemma_query_byte(COMPARISON_WITH_RANGE, bitmap is Some, op.signed_data, op.comparison_type.spec_code());
    super::define::range_comparison_type::lemma_range_comparison_type_roundtrip(op.comparison_type);
    lemma_pow256_8();
    lemma_pow256_monotonic(cl, 8);
    lemma_le_roundtrip(start, cl);
    lemma_le_roundtrip(end, cl);
    varint::lemma_roundtrip(cl as u32, es + ee + mb + seq![op.file_id.0] + eo + rest);
    varint::lemma_roundtrip(op.offset@, rest);
    assert(d[0] == b0);
    assert(tail(d, 1) =~= el + (es + ee + mb + seq![op.file_id.0] + eo + rest));
    let bs: int = 1 + el.len() as int;
    let ms: int = bs + 2 * cl;
    let fp: int = ms + mb.len() as int;
    assert(spec_bounds_start(d) == bs);
    assert(spec_compare_length(d) == cl);
    assert(d.subrange(bs, bs + cl) =~= es);
    assert(d.subrange(bs + cl, bs + 2 * cl) =~= ee);
    assert(spec_bitmap_start(d) == ms);
    assert(spec_file_offset_pos(d) == fp);
    assert(d.subrange(ms, fp) =~= mb);
    assert(d[fp] == op.file_id.0);
    assert(tail(d, fp + 1) =~= eo + rest);
}

/// Read access to an encoded comparison with a range.
pub struct EncodedComparisonWithRange<'data> {
    data: &'data [u8],
}

impl<'data> EncodedComparisonWithRange<'data> {
    /// The bytes this reader looks at.
    pub closed spec fn bytes(&self) -> Seq<u8> {
        self.data@
    }

    /// The bytes hold a query whose size can be measured.
    pub open spec fn wf(&self) -> bool {
        ComparisonWithRangeRef::complete(self.bytes())
    }

    pub fn new(data: &'data [u8]) -> (r: Self)
        ensures
            r.bytes() == data@,
    {
        Self { data }
    }

    pub fn mask_flag(&self) -> (r: bool)
        requires
            self.bytes().len() >= 1,
        ensures
            r == spec_mask_flag(self.bytes()),
    {
        self.data[0] & flag::QUERY_MASK == flag::QUERY_MASK
    }

    pub fn signed_data(&self) -> (r: bool)
        requires
            self.bytes().len() >= 1,
        ensures
            r == (self.bytes()[0] & 0x08 == 0x08),
    {
        self.data[0] & flag::QUERY_SIGNED_DATA == flag::QUERY_SIGNED_DATA
    }

    pub fn comparison_type(&self) -> (r: QueryRangeComparisonType)
        requires
            self.bytes().len() >= 1,
        ensures
            r == QueryRangeComparisonType::spec_from(self.bytes()[0] & 0x07),
    {
        let b = self.data[0];
        assert(b & 0x07 <= 7) by (bit_vector);
        QueryRangeComparisonType::from_unchecked(b & flag::QUERY_COMPARISON_TYPE)
    }

    pub fn compare_length(&self) -> (r: EncodedVarint<'data>)
        requires
            self.wf(),
        ensures
            r.bytes() == tail(self.bytes(), 1),
            r.wf(),
    {
        Varint::start_decoding_unchecked(skip(self.data, 1))
    }

    /// Size of the compare length field and compare length of bytes holding both.
    fn read_length(data: &[u8]) -> (r: (usize, usize))
        requires
            data@.len() >= 2,
            varint::spec_complete(tail(data@, 1)),
        ensures
            r.0 == spec_length_size(data@),
            r.1 == spec_compare_length(data@),
            r.1 <= varint::U32_MAX,
            1 <= r.0 <= 4,
    {
        let length = Varint::decode_unchecked(skip(data, 1));
        (length.byte_size, length.item.usize())
    }

    /// Reads the boundaries of bytes that hold them, if they are readable.
    fn read_boundaries(data: &[u8]) -> (r: Option<Range>)
        requires
            data@.len() >= 2,
            varint::spec_complete(tail(data@, 1)),
            data@.len() >= spec_bitmap_start(data@),
        ensures
            r is Some <==> spec_readable(data@),
            r matches Some(range) ==> range.compare_length == spec_compare_length(data@)
                && range.start == spec_start(data@) && range.end == spec_end(data@),
    {
        let (length_size, cl) = Self::read_length(data);
        if cl > MAX_COMPARE_LENGTH {
            return None;
        }
        let pos = 1 + length_size;
        let start = read_le(data, pos, cl);
        let end = read_le(data, pos + cl, cl);
        if start > usize::MAX as u64 || end > usize::MAX as u64 {
            return None;
        }
        Some(Range { compare_length: cl, start: start as usize, end: end as usize })
    }

    pub fn range_boundaries_with_offset(&self) -> (r: (Range, usize))
        requires
            self.wf(),
            spec_readable(self.bytes()),
        ensures
            r.0.compare_length == spec_compare_length(self.bytes()),
            r.0.start == spec_start(self.bytes()),
            r.0.end == spec_end(self.bytes()),
            r.1 == spec_bitmap_start(self.bytes()),
    {
        let (length_size, cl) = Self::read_length(self.data);
        match Self::read_boundaries(self.data) {
            Some(range) => (range, 1 + length_size + 2 * cl),
            None => {
                assert(false);
                (Range { compare_length: 0, start: 0, end: 0 }, 0)
            },
        }
    }

    pub fn range_boundaries(&self) -> (r: Range)
        requires
            self.wf(),
            spec_readable(self.bytes()),
        ensures
            r.compare_length == spec_compare_length(self.bytes()),
            r.start == spec_start(self.bytes()),
            r.end == spec_end(self.bytes()),
    {
        self.range_boundaries_with_offset().0
    }

    /// # Errors
    /// Fails if the encoded range is invalid.
    fn range_with_post_offset(&self) -> (r: Result<(MaskedRangeRef<'data>, usize), QueryRangeError>)
        requires
            self.wf(),
        ensures
            r is Ok <==> spec_range_ok(self.bytes()),
            r matches Ok(p) ==> p.1 == spec_file_offset_pos(self.bytes())
                && p.0.compare_length_view() == spec_compare_length(self.bytes())
                && p.0.start_view() == spec_start(self.bytes()) && p.0.end_view() == spec_end(
                self.bytes(),
            ) && p.0.bitmap_view() == if spec_mask_flag(self.bytes()) {
                Some(
                    self.bytes().subrange(
                        spec_bitmap_start(self.bytes()),
                        spec_file_offset_pos(self.bytes()),
                    ),
                )
            } else {
                None
            },
    {
        let (length_size, cl) = Self::read_length(self.data);
        let range = match Self::read_boundaries(self.data) {
            Some(range) => range,
            None => {
                return Err(QueryRangeError::BadEncodedRange);
            },
        };
        if range.start > range.end {
            return Err(QueryRangeError::BadEncodedRange);
        }
        proof {
            lemma_le_bound(
                self.data@.subrange(
                    spec_bounds_start(self.data@) + cl,
                    spec_bounds_start(self.data@) + 2 * cl,
                ),
            );
        }
        let pos = 1 + length_size + 2 * cl;
        if self.mask_flag() {
            let size = MaskedRangeRef::bitmap_size(range.start, range.end);
            let bitmap = take(skip(self.data, pos), size);
            assert(bitmap@ =~= self.data@.subrange(pos as int, pos + size));
            Ok(
                (
                    MaskedRangeRef::new_unchecked(cl, range.start, range.end, Some(bitmap)),
                    pos + size,
                ),
            )
        } else {
            Ok((MaskedRangeRef::new_unchecked(cl, range.start, range.end, None), pos))
        }
    }

    /// # Errors
    /// Fails if the encoded range is invalid.
    pub fn range_with_file_offset(&self) -> (r: Result<RangeWithFileOffset<'data>, QueryRangeError>)
        requires
            self.wf(),
        ensures
            r is Ok <==> spec_range_ok(self.bytes()),
            r matches Ok(p) ==> p.file_offset.bytes() == tail(
                self.bytes(),
                spec_file_offset_pos(self.bytes()),
            ) && file_offset_operand::spec_complete(p.file_offset.bytes())
                && p.masked_range.compare_length_view() == spec_compare_length(self.bytes())
                && p.masked_range.start_view() == spec_start(self.bytes())
                && p.masked_range.end_view() == spec_end(self.bytes())
                && p.masked_range.bitmap_view() == if spec_mask_flag(self.bytes()) {
                Some(
                    self.bytes().subrange(
                        spec_bitmap_start(self.bytes()),
                        spec_file_offset_pos(self.bytes()),
                    ),
                )
            } else {
                None
            },
    {
        let (masked_range, offset) = self.range_with_post_offset()?;
        let file_offset = EncodedFileOffsetOperand::new(skip(self.data, offset));
        proof {
            assert(tail(tail(self.data@, offset as int), 1) =~= tail(self.data@, offset + 1));
        }
        Ok(RangeWithFileOffset { masked_range, file_offset })
    }

    /// # Errors
    /// Fails if the encoded range is invalid.
    pub fn range(&self) -> (r: Result<MaskedRangeRef<'data>, QueryRangeError>)
        requires
            self.wf(),
        ensures
            r is Ok <==> spec_range_ok(self.bytes()),
            r matches Ok(range) ==> range.compare_length_view() == spec_compare_length(
                self.bytes(),
            ) && range.start_view() == spec_start(self.bytes()) && range.end_view() == spec_end(
                self.bytes(),
            ) && range.bitmap_view() == if spec_mask_flag(self.bytes()) {
                Some(
                    self.bytes().subrange(
                        spec_bitmap_start(self.bytes()),
                        spec_file_offset_pos(self.bytes()),
                    ),
                )
            } else {
                None
            },
    {
        let (masked_range, _) = self.range_with_post_offset()?;
        Ok(masked_range)
    }

    /// # Errors
    /// Fails if the input is too short, or if it has a bitmap and its range is invalid.
    pub fn encoded_size(&self) -> (r: Result<usize, QueryRangeSizeError>)
        ensures
            r is Ok <==> self.wf(),
            r matches Ok(size) ==> spec_size_result(self.bytes()) == Ok::<
                int,
                QueryRangeSizeError,
            >(size as int),
            r matches Err(e) ==> spec_size_result(self.bytes()) == Err::<int, QueryRangeSizeError>(
                e,
            ),
    {
        let len = self.data.len();
        if len < 2 {
            return Err(QueryRangeSizeError::MissingBytes);
        }
        let length_size = (self.data[1] / 64) as usize + 1;
        if len < 1 + length_size {
            return Err(QueryRangeSizeError::MissingBytes);
        }
        let (_, cl) = Self::read_length(self.data);
        let mut pos = 1 + length_size + 2 * cl;
        if len < pos {
            return Err(QueryRangeSizeError::MissingBytes);
        }
        if self.mask_flag() {
            let range = match Self::read_boundaries(self.data) {
                Some(range) => range,
                None => {
                    return Err(QueryRangeSizeError::BadEncodedRange);
                },
            };
            if range.start > range.end {
                return Err(QueryRangeSizeError::BadEncodedRange);
            }
            let size = MaskedRangeRef::bitmap_size(range.start, range.end);
            assert(size <= usize::MAX / 8 + 1);
            pos = pos + size;
        }
        if len < pos + 2 {
            return Err(QueryRangeSizeError::MissingBytes);
        }
        let offset_size = (self.data[pos + 1] / 64) as usize + 1;
        if len < pos + 1 + offset_size {
            return Err(QueryRangeSizeError::MissingBytes);
        }
        Ok(pos + 1 + offset_size)
    }

    /// # Errors
    /// Fails if the encoded range is invalid.
    pub fn complete_decoding(&self) -> (r: Result<
        WithByteSize<ComparisonWithRangeRef<'data>>,
        QueryRangeError,
    >)
        requires
            self.wf(),
        ensures
            r is Ok <==> spec_range_ok(self.bytes()),
            r matches Ok(w) ==> w.item.decoded_from(self.bytes()) && w.byte_size
                == ComparisonWithRangeRef::decoded_size(self.bytes()),
    {
        let (range, pos) = self.range_with_post_offset()?;
        let file_offset = EncodedFileOffsetOperand::new(skip(self.data, pos));
        proof {
            assert(tail(tail(self.data@, pos as int), 1) =~= tail(self.data@, pos + 1));
        }
        let file_id = file_offset.file_id();
        let offset = file_offset.offset().complete_decoding();
        Ok(
            WithByteSize {
                item: ComparisonWithRangeRef {
                    signed_data: self.signed_data(),
                    comparison_type: self.comparison_type(),
                    range,
                    file_id,
                    offset: offset.item,
                },
                byte_size: pos + 1 + offset.byte_size,
            },
        )
    }
}

/// Write access to an encoded comparison with a range.
pub struct EncodedComparisonWithRangeMut<'data> {
    /// The bytes of the item, which this accessor edits in place.
    pub data: &'data mut [u8],
}

impl<'data> EncodedComparisonWithRangeMut<'data> {
    /// The bytes this accessor looks at.
    pub open spec fn bytes(&self) -> Seq<u8> {
        self.data@
    }

    /// The bytes hold a query whose size can be measured.
    pub open spec fn wf(&self) -> bool {
        ComparisonWithRangeRef::complete(self.bytes())
    }

    pub fn new(data: &'data mut [u8]) -> (r: Self)
        ensures
            final(data)@ == final(r.data)@,
            r.bytes() == old(data)@,
    {
        Self { data }
    }

    /// Read only view of the same bytes.
    pub fn as_ref(&self) -> (r: EncodedComparisonWithRange<'_>)
        ensures
            r.bytes() == self.bytes(),
    {
        EncodedComparisonWithRange::new(&*self.data)
    }

    pub fn mask_flag(&self) -> (r: bool)
        requires
            self.bytes().len() >= 1,
        ensures
            r == spec_mask_flag(self.bytes()),
    {
        self.as_ref().mask_flag()
    }

    pub fn signed_data(&self) -> (r: bool)
        requires
            self.bytes().len() >= 1,
        ensures
            r == (self.bytes()[0] & 0x08 == 0x08),
    {
        self.as_ref().signed_data()
    }

    pub fn comparison_type(&self) -> (r: QueryRangeComparisonType)
        requires
            self.bytes().len() >= 1,
        ensures
            r == QueryRangeComparisonType::spec_from(self.bytes()[0] & 0x07),
    {
        self.as_ref().comparison_type()
    }

    pub fn compare_length(&self) -> (r: EncodedVarint<'_>)
        requires
            self.wf(),
        ensures
            r.bytes() == tail(self.bytes(), 1),
            r.wf(),
    {
        self.as_ref().compare_length()
    }

    pub fn range_boundaries(&self) -> (r: Range)
        requires
            self.wf(),
            spec_readable(self.bytes()),
        ensures
            r.compare_length == spec_compare_length(self.bytes()),
            r.start == spec_start(self.bytes()),
            r.end == spec_end(self.bytes()),
    {
        self.as_ref().range_boundaries()
    }

    /// # Errors
    /// Fails if the encoded range is invalid.
    pub fn range_with_file_offset(&self) -> (r: Result<RangeWithFileOffset<'_>, QueryRangeError>)
        requires
            self.wf(),
        ensures
            r is Ok <==> spec_range_ok(self.bytes()),
            r matches Ok(p) ==> p.file_offset.bytes() == tail(
                self.bytes(),
                spec_file_offset_pos(self.bytes()),
            ) && file_offset_operand::spec_complete(p.file_offset.bytes())
                && p.masked_range.compare_length_view() == spec_compare_length(self.bytes())
                && p.masked_range.start_view() == spec_start(self.bytes())
                && p.masked_range.end_view() == spec_end(self.bytes())
                && p.masked_range.bitmap_view() == if spec_mask_flag(self.bytes()) {
                Some(
                    self.bytes().subrange(
                        spec_bitmap_start(self.bytes()),
                        spec_file_offset_pos(self.bytes()),
                    ),
                )
            } else {
                None
            },
    {
        self.as_ref().range_with_file_offset()
    }

    /// # Errors
    /// Fails if the encoded range is invalid.
    pub fn range(&self) -> (r: Result<MaskedRangeRef<'_>, QueryRangeError>)
        requires
            self.wf(),
        ensures
            r is Ok <==> spec_range_ok(self.bytes()),
            r matches Ok(range) ==> range.compare_length_view() == spec_compare_length(
                self.bytes(),
            ) && range.start_view() == spec_start(self.bytes()) && range.end_view() == spec_end(
                self.bytes(),
            ) && range.bitmap_view() == if spec_mask_flag(self.bytes()) {
                Some(
                    self.bytes().subrange(
                        spec_bitmap_start(self.bytes()),
                        spec_file_offset_pos(self.bytes()),
                    ),
                )
            } else {
                None
            },
    {
        self.as_ref().range()
    }

    /// Sets or clears the mask flag.
    ///
    /// The flag tells whether a bitmap follows the boundaries: changing it alone breaks the
    /// encoding.
    pub fn set_mask_flag(&mut self, mask_flag: bool)
        requires
            old(self).bytes().len() >= 1,
        ensures
            final(final(self).data)@ == final(old(self).data)@,
            final(self).bytes() == old(self).bytes().update(
                0,
                with_flag(old(self).bytes()[0], flag::QUERY_MASK, mask_flag),
            ),
            spec_mask_flag(final(self).bytes()) == mask_flag,
            final(self).bytes()[0] & 0x08 == old(self).bytes()[0] & 0x08,
            final(self).bytes()[0] & 0x07 == old(self).bytes()[0] & 0x07,
            (final(self).bytes()[0] >> 5u8) & 7u8 == (old(self).bytes()[0] >> 5u8) & 7u8,
    {
        proof {
            lemma_query_flag(self.data@[0], flag::QUERY_MASK, mask_flag);
        }
        if mask_flag {
            self.data[0] = self.data[0] | flag::QUERY_MASK;
        } else {
            self.data[0] = self.data[0] & !flag::QUERY_MASK;
        }
    }

    pub fn set_signed_data(&mut self, signed_data: bool)
        requires
            old(self).bytes().len() >= 1,
        ensures
            final(final(self).data)@ == final(old(self).data)@,
            final(self).bytes() == old(self).bytes().update(
                0,
                with_flag(old(self).bytes()[0], flag::QUERY_SIGNED_DATA, signed_data),
            ),
            (final(self).bytes()[0] & 0x08 == 0x08) == signed_data,
            final(self).bytes()[0] & 0x10 == old(self).bytes()[0] & 0x10,
            final(self).bytes()[0] & 0x07 == old(self).bytes()[0] & 0x07,
            (final(self).bytes()[0] >> 5u8) & 7u8 == (old(self).bytes()[0] >> 5u8) & 7u8,
    {
        proof {
            lemma_query_flag(self.data@[0], flag::QUERY_SIGNED_DATA, signed_data);
        }
        if signed_data {
            self.data[0] = self.data[0] | flag::QUERY_SIGNED_DATA;
        } else {
            self.data[0] = self.data[0] & !flag::QUERY_SIGNED_DATA;
        }
    }

    pub fn set_comparison_type(&mut self, ty: QueryRangeComparisonType)
        requires
            old(self).bytes().len() >= 1,
        ensures
            final(final(self).data)@ == final(old(self).data)@,
            final(self).bytes() == old(self).bytes().update(
                0,
                with_comparison(old(self).bytes()[0], ty.spec_code()),
            ),
            final(self).bytes()[0] & 0x07 == ty.spec_code(),
            final(self).bytes()[0] & 0x10 == old(self).bytes()[0] & 0x10,
            final(self).bytes()[0] & 0x08 == old(self).bytes()[0] & 0x08,
            (final(self).bytes()[0] >> 5u8) & 7u8 == (old(self).bytes()[0] >> 5u8) & 7u8,
    {
        let code = ty.code();
        proof {
            lemma_query_comparison(self.data@[0], code);
        }
        self.data[0] = (self.data[0] & !flag::QUERY_COMPARISON_TYPE) | code;
    }

    /// Mutable accessor on the compare length field.
    pub fn compare_length_mut(&mut self) -> (r: EncodedVarintMut<'_>)
        requires
            old(self).wf(),
        ensures
            final(final(self).data)@ == final(old(self).data)@,
            r.bytes() == old(self).bytes().subrange(1, 1 + spec_length_size(old(self).bytes())),
            r.wf(),
            final(self).bytes() == replaced(old(self).bytes(), 1, 1 + spec_length_size(old(self).bytes()), final(r.data)@),
    {
        let length_size = (self.data[1] / 64) as usize + 1;
        Varint::start_decoding_unchecked_mut(slice_mut(self.data, 1, 1 + length_size))
    }

    /// Writes the given boundaries on the encoded compare length, without any check.
    ///
    /// The caller keeps the encoding consistent: ordered boundaries that fit on the compare
    /// length, and a bitmap of unchanged byte size.
    pub fn set_range_boundaries_unchecked(&mut self, range: &Range)
        requires
            old(self).wf(),
        ensures
            final(final(self).data)@ == final(old(self).data)@,
            boundaries_written(
                final(self).bytes(),
                old(self).bytes(),
                range.start as nat,
                range.end as nat,
            ),
    {
        let ghost before = self.data@;
        let (length_size, cl) = EncodedComparisonWithRange::read_length(&*self.data);
        let pos = 1 + length_size;
        proof {
            lemma_le_len(range.start as nat, cl as nat);
            lemma_le_len(range.end as nat, cl as nat);
        }
        write_le(self.data, pos, range.start, cl);
        write_le(self.data, pos + cl, range.end, cl);
        proof {
            lemma_splice_concat(
                before,
                pos as int,
                le_bytes(range.start as nat, cl as nat),
                le_bytes(range.end as nat, cl as nat),
            );
        }
    }

    /// # Errors
    /// Fails if the given range is invalid or cannot be written on its compare length, if the
    /// encoded range is invalid, or if the boundaries and bitmap would not keep their byte size.
    pub fn set_range_boundaries_loosely(&mut self, range: &Range) -> (r: Result<
        (),
        QueryRangeSetLooselyError,
    >)
        requires
            old(self).wf(),
        ensures
            final(final(self).data)@ == final(old(self).data)@,
            r == spec_set_loosely_result(old(self).bytes(), *range),
            r is Ok ==> boundaries_written(
                final(self).bytes(),
                old(self).bytes(),
                range.start as nat,
                range.end as nat,
            ),
            r is Ok && range.compare_length == spec_compare_length(old(self).bytes())
                ==> boundaries_set(final(self).bytes(), old(self).bytes(), *range),
            r is Err ==> final(self).bytes() == old(self).bytes(),
    {
        if range.start > range.end {
            return Err(QueryRangeSetLooselyError::BadGivenRange);
        }
        let current = match EncodedComparisonWithRange::read_boundaries(&*self.data) {
            Some(current) => current,
            None => {
                return Err(QueryRangeSetLooselyError::BadEncodedRange);
            },
        };
        if current.start > current.end {
            return Err(QueryRangeSetLooselyError::BadEncodedRange);
        }
        let old_size = 2 * current.compare_length + MaskedRangeRef::bitmap_size(
            current.start,
            current.end,
        );
        let new_bitmap_size = MaskedRangeRef::bitmap_size(range.start, range.end);
        if range.compare_length > old_size / 2 || new_bitmap_size > old_size - 2
            * range.compare_length || 2 * range.compare_length + new_bitmap_size != old_size {
            return Err(QueryRangeSetLooselyError::ByteSizeMismatch);
        }
        if range.compare_length < MAX_COMPARE_LENGTH && !fits_bytes(
            range.end,
            range.compare_length,
        ) {
            return Err(QueryRangeSetLooselyError::CompareLengthTooSmall);
        }
        proof {
            if range.compare_length >= MAX_COMPARE_LENGTH {
                lemma_fits_on_length(range.end as nat, range.compare_length as nat);
            }
        }
        let ghost before = self.data@;
        self.set_range_boundaries_unchecked(range);
        proof {
            if range.compare_length == current.compare_length {
                lemma_boundaries_set(self.data@, before, *range);
            }
        }
        Ok(())
    }

    /// # Errors
    /// Fails if the given range is invalid, if the encoded range is invalid, if their compare
    /// lengths or their bitmap bit sizes differ, or if the given range does not fit on its
    /// compare length.
    pub fn set_range_boundaries(&mut self, range: &Range) -> (r: Result<(), QueryRangeSetError>)
        requires
            old(self).wf(),
        ensures
            final(final(self).data)@ == final(old(self).data)@,
            r == spec_set_result(old(self).bytes(), *range),
            r is Ok ==> boundaries_written(
                final(self).bytes(),
                old(self).bytes(),
                range.start as nat,
                range.end as nat,
            ),
            r is Ok ==> boundaries_set(final(self).bytes(), old(self).bytes(), *range),
            r is Err ==> final(self).bytes() == old(self).bytes(),
    {
        if range.start > range.end {
            return Err(QueryRangeSetError::BadGivenRange);
        }
        let current = match EncodedComparisonWithRange::read_boundaries(&*self.data) {
            Some(current) => current,
            None => {
                return Err(QueryRangeSetError::BadEncodedRange);
            },
        };
        if current.start > current.end {
            return Err(QueryRangeSetError::BadEncodedRange);
        }
        if range.compare_length != current.compare_length {
            return Err(QueryRangeSetError::CompareLengthMismatch);
        }
        if range.end - range.start != current.end - current.start {
            return Err(QueryRangeSetError::BitmapBitSizeMismatch);
        }
        if !fits_bytes(range.end, range.compare_length) {
            return Err(QueryRangeSetError::CompareLengthTooSmall);
        }
        let ghost before = self.data@;
        self.set_range_boundaries_unchecked(range);
        proof {
            lemma_boundaries_set(self.data@, before, *range);
        }
        Ok(())
    }

    /// Mutable access to the bitmap, when there is one.
    pub fn range_mask_mut(&mut self) -> (r: Option<&mut [u8]>)
        requires
            old(self).wf(),
        ensures
            final(final(self).data)@ == final(old(self).data)@,
            r is Some <==> spec_mask_flag(old(self).bytes()),
            r matches Some(b) ==> b@ == old(self).bytes().subrange(
                spec_bitmap_start(old(self).bytes()),
                spec_file_offset_pos(old(self).bytes()),
            ),
            r matches Some(b) ==> final(self).bytes() == old(self).bytes().subrange(
                0,
                spec_bitmap_start(old(self).bytes()),
            ) + final(b)@ + tail(old(self).bytes(), spec_file_offset_pos(old(self).bytes())),
            r is None ==> final(self).bytes() == old(self).bytes(),
    {
        if self.mask_flag() {
            let (range, pos) = self.as_ref().range_boundaries_with_offset();
            let size = MaskedRangeRef::bitmap_size(range.start, range.end);
            proof {
                lemma_le_bound(
                    self.data@.subrange(
                        spec_bounds_start(self.data@) + range.compare_length,
                        spec_bounds_start(self.data@) + 2 * range.compare_length,
                    ),
                );
            }
            let (b, _) = skip_mut(self.data, pos).split_at_mut(size);
            assert(b@ =~= old(self).bytes().subrange(pos as int, pos + size));
            Some(b)
        } else {
            None
        }
    }

    /// # Errors
    /// Fails if the encoded range is invalid.
    pub fn file_offset_mut(&mut self) -> (r: Result<EncodedFileOffsetOperandMut<'_>, QueryRangeError>)
        requires
            old(self).wf(),
        ensures
            final(final(self).data)@ == final(old(self).data)@,
            r is Ok <==> spec_range_ok(old(self).bytes()),
            r matches Ok(f) ==> f.bytes() == old(self).bytes().subrange(
                spec_file_offset_pos(old(self).bytes()),
                ComparisonWithRangeRef::decoded_size(old(self).bytes()),
            ) && file_offset_operand::spec_complete(f.bytes()),
            r matches Ok(f) ==> final(self).bytes() == replaced(old(self).bytes(), spec_file_offset_pos(old(self).bytes()), ComparisonWithRangeRef::decoded_size(old(self).bytes()), final(f.data)@),
            r is Err ==> final(self).bytes() == old(self).bytes(),
    {
        let pos = match self.as_ref().range_with_post_offset() {
            Ok(p) => p.1,
            Err(e) => {
                return Err(e);
            },
        };
        let end = pos + 1 + (self.data[pos + 1] / 64) as usize + 1;
        proof {
            assert(tail(self.data@.subrange(pos as int, end as int), 1) =~= self.data@.subrange(
                pos + 1,
                end as int,
            ));
        }
        Ok(EncodedFileOffsetOperandMut::new(slice_mut(self.data, pos, end)))
    }

    /// # Errors
    /// Fails if the input is too short, or if it has a bitmap and its range is invalid.
    pub fn encoded_size(&self) -> (r: Result<usize, QueryRangeSizeError>)
        ensures
            r is Ok <==> self.wf(),
            r matches Ok(size) ==> spec_size_result(self.bytes()) == Ok::<
                int,
                QueryRangeSizeError,
            >(size as int),
            r matches Err(e) ==> spec_size_result(self.bytes()) == Err::<int, QueryRangeSizeError>(
                e,
            ),
    {
        self.as_ref().encoded_size()
    }

    /// # Errors
    /// Fails if the encoded range is invalid.
    pub fn complete_decoding(&self) -> (r: Result<
        WithByteSize<ComparisonWithRangeRef<'_>>,
        QueryRangeError,
    >)
        requires
            self.wf(),
        ensures
            r is Ok <==> spec_range_ok(self.bytes()),
            r matches Ok(w) ==> w.item.decoded_from(self.bytes()) && w.byte_size
                == ComparisonWithRangeRef::decoded_size(self.bytes()),
    {
        self.as_ref().complete_decoding()
    }
}

/// What `set_range_boundaries` answers for the encoded query `data` and the given range.
pub open spec fn spec_set_result(data: Seq<u8>, range: Range) -> Result<(), QueryRangeSetError> {
    if range.start > range.end {
        Err(QueryRangeSetError::BadGivenRange)
    } else if !spec_range_ok(data) {
        Err(QueryRangeSetError::BadEncodedRange)
    } else if range.compare_length != spec_compare_length(data) {
        Err(QueryRangeSetError::CompareLengthMismatch)
    } else if range.end - range.start != spec_end(data) - spec_start(data) {
        Err(QueryRangeSetError::BitmapBitSizeMismatch)
    } else if range.end >= pow256(range.compare_length as nat) {
        Err(QueryRangeSetError::CompareLengthTooSmall)
    } else {
        Ok(())
    }
}

/// What `set_range_boundaries_loosely` answers for the encoded query `data` and the given range.
pub open spec fn spec_set_loosely_result(data: Seq<u8>, range: Range) -> Result<
    (),
    QueryRangeSetLooselyError,
> {
    if range.start > range.end {
        Err(QueryRangeSetLooselyError::BadGivenRange)
    } else if !spec_range_ok(data) {
        Err(QueryRangeSetLooselyError::BadEncodedRange)
    } else if 2 * range.compare_length + spec_bitmap_size(range.start as int, range.end as int)
        != 2 * spec_compare_length(data) + spec_bitmap_size(
        spec_start(data) as int,
        spec_end(data) as int,
    ) {
        Err(QueryRangeSetLooselyError::ByteSizeMismatch)
    } else if range.end >= pow256(range.compare_length as nat) {
        Err(QueryRangeSetLooselyError::CompareLengthTooSmall)
    } else {
        Ok(())
    }
}

/// `data` is the query `before` whose range boundaries are now those of `range`, everything else
/// being decoded as before.
pub open spec fn boundaries_set(data: Seq<u8>, before: Seq<u8>, range: Range) -> bool {
    &&& ComparisonWithRangeRef::complete(data)
    &&& spec_range_ok(data)
    &&& data[0] == before[0]
    &&& spec_compare_length(data) == spec_compare_length(before)
    &&& spec_start(data) == range.start
    &&& spec_end(data) == range.end
    &&& spec_bitmap_start(data) == spec_bitmap_start(before)
    &&& spec_file_offset_pos(data) == spec_file_offset_pos(before)
    &&& tail(data, spec_bitmap_start(data)) == tail(before, spec_bitmap_start(before))
}

/// A value below `256^n` with `n` at least 8 always fits a `usize`, so the test that the exec
/// code makes only for shorter lengths is enough.
proof fn lemma_fits_on_length(v: nat, n: nat)
    requires
        v <= usize::MAX,
        n >= MAX_COMPARE_LENGTH,
    ensures
        v < pow256(n),
{
    lemma_pow256_8();
    lemma_pow256_monotonic(8, n);
}

/// Writing boundaries that fit on the compare length, with a bitmap of unchanged size, keeps
/// the query decodable with the new boundaries.
#[verifier::rlimit(60)]
proof fn lemma_boundaries_set(data: Seq<u8>, before: Seq<u8>, range: Range)
    requires
        ComparisonWithRangeRef::complete(before),
        spec_range_ok(before),
        range.start <= range.end,
        range.compare_length == spec_compare_length(before),
        range.end < pow256(range.compare_length as nat),
        spec_bitmap_size(range.start as int, range.end as int) == spec_bitmap_size(
            spec_start(before) as int,
            spec_end(before) as int,
        ),
        boundaries_written(data, before, range.start as nat, range.end as nat),
    ensures
        boundaries_set(data, before, range),
{
    let cl = range.compare_length as nat;
    let bs = spec_bounds_start(before);
    let es = le_bytes(range.start as nat, cl);
    let ee = le_bytes(range.end as nat, cl);
    lemma_pow256_monotonic(cl, cl);
    lemma_le_roundtrip(range.start as nat, cl);
    lemma_le_roundtrip(range.end as nat, cl);
    lemma_splice_content(before, bs, es + ee);
    assert(data[0] == before[0]);
    assert(tail(data, 1).subrange(0, bs - 1) =~= tail(before, 1).subrange(0, bs - 1));
    assert(tail(data, 1)[0] == tail(before, 1)[0]);
    varint::lemma_decoded_bound(tail(before, 1));
    assert(forall|i: int| 0 <= i < bs - 1 ==> tail(data, 1)[i] == tail(before, 1)[i]);
    assert(spec_length_size(data) == spec_length_size(before));
    assert(spec_compare_length(data) == spec_compare_length(before));
    assert(data.subrange(bs, bs + cl) =~= es);
    assert(data.subrange(bs + cl, bs + 2 * cl) =~= ee);
    assert(tail(data, bs + 2 * cl) =~= tail(before, bs + 2 * cl));
}

/// Compares data to a range of data.
#[derive(Eq, PartialEq, Ord, PartialOrd, Hash, Debug)]
pub struct ComparisonWithRange {
    pub signed_data: bool,
    pub comparison_type: QueryRangeComparisonType,
    pub range: MaskedRange,
    pub file_id: FileId,
    pub offset: Varint,
}

impl ComparisonWithRange {
    pub fn as_ref(&self) -> (r: ComparisonWithRangeRef<'_>)
        ensures
            r.signed_data == self.signed_data,
            r.comparison_type == self.comparison_type,
            r.range.compare_length_view() == self.range.compare_length_view(),
            r.range.start_view() == self.range.start_view(),
            r.range.end_view() == self.range.end_view(),
            r.range.bitmap_view() == self.range.bitmap_view(),
            r.file_id == self.file_id,
            r.offset == self.offset,
    {
        ComparisonWithRangeRef {
            signed_data: self.signed_data,
            comparison_type: self.comparison_type,
            range: self.range.as_ref(),
            file_id: self.file_id,
            offset: self.offset,
        }
    }
}

/// The first byte of an encoded comparison with a range holds the query kind 4 on its 3 high
/// bits, the bitmap flag (0x10), the signed data flag (0x08), and the ALP number of the range
/// comparison type on its 3 low bits.
pub proof fn lemma_comparison_with_range_first_byte(q: ComparisonWithRangeRef)
    ensures
        (q.encoding()[0] >> 5u8) & 7u8 == 4,
        (q.encoding()[0] & 0x10u8 == 0x10u8) == (q.range.bitmap_view() is Some),
        (q.encoding()[0] & 0x08u8 == 0x08u8) == q.signed_data,
        q.encoding()[0] & 0x07u8 == q.comparison_type.spec_code(),
{
    lemma_range_comparison_type_numbers();
    lemma_query_byte(
        COMPARISON_WITH_RANGE,
        q.range.bitmap_view() is Some,
        q.signed_data,
        q.comparison_type.spec_code(),
    );
}

} // verus!
