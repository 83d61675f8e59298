//! Conditions on the content of a file.
pub mod action_query;
pub mod comparison_with_range;
pub mod comparison_with_value;
pub mod define;

use crate::decodable::{tail, written_at_head, WithByteSize};
use crate::v1_2::error::{QueryError, QueryRangeSizeError, QuerySizeError, UnsupportedQueryCode};
use crate::varint;
use comparison_with_range::{
    masked_range_valid, ComparisonWithRange, ComparisonWithRangeRef, EncodedComparisonWithRange,
    EncodedComparisonWithRangeMut,
};
use comparison_with_value::{
    valid_masked_value, ComparisonWithValue, ComparisonWithValueRef, EncodedComparisonWithValue,
    EncodedComparisonWithValueMut,
};
use define::code::{
    lemma_query_byte, lemma_query_code, with_code, QueryCode, COMPARISON_WITH_RANGE,
    COMPARISON_WITH_VALUE,
};
use vstd::prelude::*;

verus! {

/// A query, borrowing the data it compares to.
#[derive(Copy, Clone, Eq, PartialEq, Ord, PartialOrd, Hash, Debug)]
pub enum QueryRef<'data> {
    ComparisonWithValue(ComparisonWithValueRef<'data>),
    ComparisonWithRange(ComparisonWithRangeRef<'data>),
}

/// Query code held by the first byte of an encoded query.
pub open spec fn spec_query_code(data: Seq<u8>) -> u8 {
    (data[0] >> 5u8) & 7u8
}

/// The code of the query encoded at the start of `data` is not supported.
pub open spec fn spec_unsupported(data: Seq<u8>) -> bool {
    data.len() >= 1 && QueryCode::spec_from(spec_query_code(data)) is None
}

/// The query encoded at the start of `data` compares to a value.
pub open spec fn spec_is_value(data: Seq<u8>) -> bool {
    data.len() >= 1 && spec_query_code(data) == COMPARISON_WITH_VALUE
}

/// The query encoded at the start of `data` compares to a range.
pub open spec fn spec_is_range(data: Seq<u8>) -> bool {
    data.len() >= 1 && spec_query_code(data) == COMPARISON_WITH_RANGE
}

/// Measuring the query encoded at the start of `data` fails for lack of bytes.
pub open spec fn spec_missing_bytes(data: Seq<u8>) -> bool {
    ||| data.len() == 0
    ||| spec_is_value(data) && !ComparisonWithValueRef::complete(data)
    ||| spec_is_range(data) && comparison_with_range::spec_size_result(data) == Err::<
        int,
        QueryRangeSizeError,
    >(QueryRangeSizeError::MissingBytes)
}

/// Measuring the query encoded at the start of `data` fails on its invalid range.
pub open spec fn spec_bad_range(data: Seq<u8>) -> bool {
    spec_is_range(data) && comparison_with_range::spec_size_result(data) == Err::<
        int,
        QueryRangeSizeError,
    >(QueryRangeSizeError::BadEncodedRange)
}

/// `data` starts with a query whose size can be measured.
pub open spec fn spec_complete(data: Seq<u8>) -> bool {
    ||| spec_is_value(data) && ComparisonWithValueRef::complete(data)
    ||| spec_is_range(data) && ComparisonWithRangeRef::complete(data)
}

/// `data` starts with a query that decodes.
pub open spec fn spec_decodable(data: Seq<u8>) -> bool {
    ||| spec_is_value(data) && ComparisonWithValueRef::complete(data)
    ||| spec_is_range(data) && ComparisonWithRangeRef::complete(data)
        && comparison_with_range::spec_range_ok(data)
}

/// Byte size of the query encoded at the start of `data`.
pub open spec fn spec_decoded_size(data: Seq<u8>) -> int {
    if spec_is_value(data) {
        ComparisonWithValueRef::decoded_size(data)
    } else {
        ComparisonWithRangeRef::decoded_size(data)
    }
}

/// `e` reports the unsupported code of the query encoded at the start of `data`.
pub open spec fn reports_unsupported(e: UnsupportedQueryCode, data: Seq<u8>) -> bool {
    e.code == spec_query_code(data) && e.remaining_data@ == tail(data, 1)
}

/// `r` is what measuring the query encoded at the start of `data` answers.
pub open spec fn size_answer<T>(r: Result<T, QuerySizeError>, data: Seq<u8>) -> bool {
    &&& r is Ok <==> spec_complete(data)
    &&& (r matches Err(QuerySizeError::UnsupportedQueryCode(e))) <==> spec_unsupported(data)
    &&& r matches Err(QuerySizeError::UnsupportedQueryCode(e)) ==> reports_unsupported(e, data)
    &&& (r matches Err(QuerySizeError::MissingBytes)) <==> spec_missing_bytes(data)
    &&& (r matches Err(QuerySizeError::BadEncodedRange)) <==> spec_bad_range(data)
}

impl<'data> QueryRef<'data> {
    /// Bytes of the encoded query.
    pub open spec fn encoding(self) -> Seq<u8> {
        match self {
            Self::ComparisonWithValue(q) => q.encoding(),
            Self::ComparisonWithRange(q) => q.encoding(),
        }
    }

    /// The values held satisfy the invariants of their types.
    pub open spec fn valid(self) -> bool {
        match self {
            Self::ComparisonWithValue(q) => valid_masked_value(
                q.compare_value.value_view(),
                q.compare_value.mask_view(),
            ) && q.offset@ <= varint::U32_MAX,
            Self::ComparisonWithRange(q) => masked_range_valid(q.range) && q.offset@
                <= varint::U32_MAX,
        }
    }

    /// `self` is the query encoded at the start of `data`.
    pub open spec fn decoded_from(self, data: Seq<u8>) -> bool {
        match self {
            Self::ComparisonWithValue(q) => spec_is_value(data) && q.decoded_from(data),
            Self::ComparisonWithRange(q) => spec_is_range(data) && q.decoded_from(data),
        }
    }

    pub fn query_code(&self) -> (r: QueryCode)
        ensures
            r == match self {
                Self::ComparisonWithValue(_) => QueryCode::ComparisonWithValue,
                Self::ComparisonWithRange(_) => QueryCode::ComparisonWithRange,
            },
    {
        match self {
            Self::ComparisonWithValue(_) => QueryCode::ComparisonWithValue,
            Self::ComparisonWithRange(_) => QueryCode::ComparisonWithRange,
        }
    }

    pub fn to_owned(&self) -> (r: Query)
        ensures
            r.represents(*self),
    {
        match self {
            Self::ComparisonWithValue(q) => Query::ComparisonWithValue(q.to_owned()),
            Self::ComparisonWithRange(q) => Query::ComparisonWithRange(q.to_owned()),
        }
    }

    /// Size in bytes of the encoded query.
    pub fn encoded_size(&self) -> (r: usize)
        ensures
            r == self.encoding().len(),
            r < usize::MAX,
    {
        match self {
            Self::ComparisonWithValue(q) => q.encoded_size(),
            Self::ComparisonWithRange(q) => q.encoded_size(),
        }
    }

    /// Writes the encoded query at the start of `out`.
    ///
    /// # Errors
    /// Fails with the required size if `out` is too small.
    pub fn encode_in(&self, out: &mut [u8]) -> (r: Result<usize, usize>)
        ensures
            r is Ok <==> old(out)@.len() >= self.encoding().len(),
            r matches Ok(size) ==> size == self.encoding().len() && written_at_head(
                final(out)@,
                old(out)@,
                self.encoding(),
            ),
            r matches Err(size) ==> size == self.encoding().len() && final(out)@ == old(out)@,
    {
        match self {
            Self::ComparisonWithValue(q) => q.encode_in(out),
            Self::ComparisonWithRange(q) => q.encode_in(out),
        }
    }
}

/// Decoding an encoded query gives it back, whatever follows it.
pub proof fn lemma_roundtrip(op: QueryRef, rest: Seq<u8>)
    requires
        op.valid(),
    ensures
        spec_complete(op.encoding() + rest),
        spec_decodable(op.encoding() + rest),
        spec_decoded_size(op.encoding() + rest) == op.encoding().len(),
        op.decoded_from(op.encoding() + rest),
{
    match op {
        QueryRef::ComparisonWithValue(q) => {
            comparison_with_value::lemma_roundtrip(q, rest);
            lemma_query_byte(
                COMPARISON_WITH_VALUE,
                q.compare_value.mask_view() is Some,
                q.signed_data,
                q.comparison_type.spec_code(),
            );
            define::comparison_type::lemma_comparison_type_roundtrip(q.comparison_type);
        },
        QueryRef::ComparisonWithRange(q) => {
            comparison_with_range::lemma_roundtrip(q, rest);
            lemma_query_byte(
                COMPARISON_WITH_RANGE,
                q.range.bitmap_view() is Some,
                q.signed_data,
                q.comparison_type.spec_code(),
            );
            define::range_comparison_type::lemma_range_comparison_type_roundtrip(
                q.comparison_type,
            );
        },
    }
}

/// A decoded query, borrowing the data it compares to.
#[derive(Copy, Clone, Eq, PartialEq, Ord, PartialOrd, Hash, Debug)]
pub enum DecodedQueryRef<'data> {
    ComparisonWithValue(ComparisonWithValueRef<'data>),
    ComparisonWithRange(ComparisonWithRangeRef<'data>),
}

impl<'data> DecodedQueryRef<'data> {
    /// The same query, as an encodable one.
    pub open spec fn spec_as_encodable(self) -> QueryRef<'data> {
        match self {
            Self::ComparisonWithValue(q) => QueryRef::ComparisonWithValue(q),
            Self::ComparisonWithRange(q) => QueryRef::ComparisonWithRange(q),
        }
    }

    /// `self` is the query encoded at the start of `data`.
    pub open spec fn decoded_from(self, data: Seq<u8>) -> bool {
        self.spec_as_encodable().decoded_from(data)
    }

    pub fn query_code(&self) -> (r: QueryCode)
        ensures
            r == match self {
                Self::ComparisonWithValue(_) => QueryCode::ComparisonWithValue,
                Self::ComparisonWithRange(_) => QueryCode::ComparisonWithRange,
            },
    {
        match self {
            Self::ComparisonWithValue(_) => QueryCode::ComparisonWithValue,
            Self::ComparisonWithRange(_) => QueryCode::ComparisonWithRange,
        }
    }

    pub fn as_encodable(self) -> (r: QueryRef<'data>)
        ensures
            r == self.spec_as_encodable(),
    {
        match self {
            Self::ComparisonWithValue(q) => QueryRef::ComparisonWithValue(q),
            Self::ComparisonWithRange(q) => QueryRef::ComparisonWithRange(q),
        }
    }

    /// # Errors
    /// Fails if the input is too short, if its query code is not supported, or if its range is
    /// invalid.
    pub fn decode(data: &'data [u8]) -> (r: Result<
        WithByteSize<DecodedQueryRef<'data>>,
        QuerySizeError<'data>,
    >)
        ensures
            r is Ok <==> spec_decodable(data@),
            r matches Ok(w) ==> w.item.decoded_from(data@) && w.byte_size == spec_decoded_size(
                data@,
            ),
            (r matches Err(QuerySizeError::UnsupportedQueryCode(e))) <==> spec_unsupported(
                data@,
            ),
            r matches Err(QuerySizeError::UnsupportedQueryCode(e)) ==> reports_unsupported(
                e,
                data@,
            ),
            (r matches Err(QuerySizeError::MissingBytes)) <==> spec_missing_bytes(data@),
            (r matches Err(QuerySizeError::BadEncodedRange)) <==> spec_bad_range(data@) || (
            spec_is_range(data@) && ComparisonWithRangeRef::complete(data@)
                && !comparison_with_range::spec_range_ok(data@)),
    {
        let decoder = Self::start_decoding(data)?;
        match decoder.item.complete_decoding() {
            Ok(w) => Ok(w),
            Err(e) => Err(QuerySizeError::from(e)),
        }
    }

    /// # Errors
    /// Fails if the input is too short, if its query code is not supported, or if it has a
    /// bitmap and its range is invalid.
    pub fn start_decoding(data: &'data [u8]) -> (r: Result<
        WithByteSize<EncodedQuery<'data>>,
        QuerySizeError<'data>,
    >)
        ensures
            size_answer(r, data@),
            r matches Ok(w) ==> w.item.bytes() == data@ && w.byte_size == spec_decoded_size(
                data@,
            ),
    {
        let decoder = EncodedQuery::new(data);
        let size = decoder.encoded_size()?;
        Ok(WithByteSize { item: decoder, byte_size: size })
    }

    /// Reader on a query known to be complete.
    pub fn start_decoding_unchecked(data: &'data [u8]) -> (r: EncodedQuery<'data>)
        requires
            spec_complete(data@),
        ensures
            r.bytes() == data@,
    {
        EncodedQuery::new(data)
    }

    /// # Errors
    /// Fails if the input is too short, if its query code is not supported, or if it has a
    /// bitmap and its range is invalid.
    pub fn start_decoding_mut(data: &mut [u8]) -> (r: Result<
        WithByteSize<EncodedQueryMut<'_>>,
        QuerySizeError<'_>,
    >)
        ensures
            r is Err ==> final(data)@ == old(data)@,
            r matches Ok(w) ==> final(data)@ == final(w.item.data)@,
            r is Ok <==> spec_complete(old(data)@),
            r matches Ok(w) ==> w.item.bytes() == old(data)@ && w.byte_size == spec_decoded_size(
                old(data)@,
            ),
            (r matches Err(QuerySizeError::UnsupportedQueryCode(e))) <==> spec_unsupported(
                old(data)@,
            ),
            (r matches Err(QuerySizeError::MissingBytes)) <==> spec_missing_bytes(old(data)@),
            (r matches Err(QuerySizeError::BadEncodedRange)) <==> spec_bad_range(old(data)@),
    {
        let len = data.len();
        if len == 0 {
            return Err(QuerySizeError::MissingBytes);
        }
        let code = (data[0] >> 5u8) & 7u8;
        if code != COMPARISON_WITH_VALUE && code != COMPARISON_WITH_RANGE {
            return Err(
                QuerySizeError::UnsupportedQueryCode(
                    UnsupportedQueryCode { code, remaining_data: crate::decodable::skip(data, 1) },
                ),
            );
        }
        let size = match EncodedQuery::new(&*data).encoded_size() {
            Ok(size) => size,
            Err(QuerySizeError::MissingBytes) => {
                return Err(QuerySizeError::MissingBytes);
            },
            Err(QuerySizeError::BadEncodedRange) => {
                return Err(QuerySizeError::BadEncodedRange);
            },
            Err(QuerySizeError::UnsupportedQueryCode(_)) => {
                return Err(QuerySizeError::MissingBytes);
            },
        };
        Ok(WithByteSize { item: EncodedQueryMut::new(data), byte_size: size })
    }
}

/// Reader on an encoded query of a supported kind.
pub enum ValidEncodedQuery<'data> {
    ComparisonWithValue(EncodedComparisonWithValue<'data>),
    ComparisonWithRange(EncodedComparisonWithRange<'data>),
}

/// Read access to an encoded query.
#[derive(Copy, Clone, Eq, PartialEq, Debug)]
pub struct EncodedQuery<'data> {
    data: &'data [u8],
}

impl<'data> EncodedQuery<'data> {
    /// The bytes this reader looks at.
    pub closed spec fn bytes(&self) -> Seq<u8> {
        self.data@
    }

    /// The bytes hold a query whose size can be measured.
    pub open spec fn wf(&self) -> bool {
        spec_complete(self.bytes())
    }

    pub fn new(data: &'data [u8]) -> (r: Self)
        ensures
            r.bytes() == data@,
    {
        Self { data }
    }

    /// # Errors
    /// Fails if the query code is unsupported.
    pub fn query_code(&self) -> (r: Result<QueryCode, UnsupportedQueryCode<'data>>)
        requires
            self.bytes().len() >= 1,
        ensures
            r is Err <==> spec_unsupported(self.bytes()),
            r matches Ok(c) ==> c.spec_code() == spec_query_code(self.bytes()),
            r matches Err(e) ==> reports_unsupported(e, self.bytes()),
    {
        let code = (self.data[0] >> 5u8) & 7u8;
        match QueryCode::from(code) {
            Ok(c) => Ok(c),
            Err(_) => Err(
                UnsupportedQueryCode { code, remaining_data: crate::decodable::skip(self.data, 1) },
            ),
        }
    }

    /// # Errors
    /// Fails if the query code is unsupported.
    pub fn operand(&self) -> (r: Result<ValidEncodedQuery<'data>, UnsupportedQueryCode<'data>>)
        requires
            self.bytes().len() >= 1,
        ensures
            r is Err <==> spec_unsupported(self.bytes()),
            r matches Err(e) ==> reports_unsupported(e, self.bytes()),
            r matches Ok(ValidEncodedQuery::ComparisonWithValue(q)) ==> spec_is_value(
                self.bytes(),
            ) && q.bytes() == self.bytes(),
            r matches Ok(ValidEncodedQuery::ComparisonWithRange(q)) ==> spec_is_range(
                self.bytes(),
            ) && q.bytes() == self.bytes(),
    {
        match self.query_code()? {
            QueryCode::ComparisonWithValue => Ok(
                ValidEncodedQuery::ComparisonWithValue(EncodedComparisonWithValue::new(self.data)),
            ),
            QueryCode::ComparisonWithRange => Ok(
                ValidEncodedQuery::ComparisonWithRange(EncodedComparisonWithRange::new(self.data)),
            ),
        }
    }

    /// # Errors
    /// Fails if the input is too short, if its query code is not supported, or if it has a
    /// bitmap and its range is invalid.
    pub fn encoded_size(&self) -> (r: Result<usize, QuerySizeError<'data>>)
        ensures
            size_answer(r, self.bytes()),
            r matches Ok(size) ==> size == spec_decoded_size(self.bytes()),
    {
        if self.data.len() == 0 {
            return Err(QuerySizeError::MissingBytes);
        }
        match self.operand() {
            Err(e) => Err(QuerySizeError::UnsupportedQueryCode(e)),
            Ok(ValidEncodedQuery::ComparisonWithValue(q)) => match q.encoded_size() {
                Ok(size) => Ok(size),
                Err(e) => Err(QuerySizeError::from(e)),
            },
            Ok(ValidEncodedQuery::ComparisonWithRange(q)) => match q.encoded_size() {
                Ok(size) => Ok(size),
                Err(e) => Err(QuerySizeError::from(e)),
            },
        }
    }

    /// # Errors
    /// Fails if the query compares to a range that is invalid.
    pub fn complete_decoding(&self) -> (r: Result<
        WithByteSize<DecodedQueryRef<'data>>,
        QueryError<'data>,
    >)
        requires
            self.wf(),
        ensures
            r is Ok <==> spec_decodable(self.bytes()),
            r matches Ok(w) ==> w.item.decoded_from(self.bytes()) && w.byte_size
                == spec_decoded_size(self.bytes()),
            r matches Err(e) ==> e == QueryError::BadEncodedRange,
    {
        match self.operand() {
            Err(e) => Err(QueryError::UnsupportedQueryCode(e)),
            Ok(ValidEncodedQuery::ComparisonWithValue(q)) => {
                let w = q.complete_decoding();
                Ok(
                    WithByteSize {
                        item: DecodedQueryRef::ComparisonWithValue(w.item),
                        byte_size: w.byte_size,
                    },
                )
            },
            Ok(ValidEncodedQuery::ComparisonWithRange(q)) => match q.complete_decoding() {
                Ok(w) => Ok(
                    WithByteSize {
                        item: DecodedQueryRef::ComparisonWithRange(w.item),
                        byte_size: w.byte_size,
                    },
                ),
                Err(e) => Err(QueryError::from(e)),
            },
        }
    }
}

/// Write access to an encoded query of a supported kind.
pub enum ValidEncodedQueryMut<'data> {
    ComparisonWithValue(EncodedComparisonWithValueMut<'data>),
    ComparisonWithRange(EncodedComparisonWithRangeMut<'data>),
}

/// Write access to an encoded query.
#[derive(Eq, PartialEq, Debug)]
pub struct EncodedQueryMut<'data> {
    /// The bytes of the item, which this accessor edits in place.
    pub data: &'data mut [u8],
}

impl<'data> EncodedQueryMut<'data> {
    /// The bytes this accessor looks at.
    pub open spec fn bytes(&self) -> Seq<u8> {
        self.data@
    }

    /// The bytes hold a query whose size can be measured.
    pub open spec fn wf(&self) -> bool {
        spec_complete(self.bytes())
    }

    pub fn new(data: &'data mut [u8]) -> (r: Self)
        ensures
            final(data)@ == final(r.data)@,
            r.bytes() == old(data)@,
    {
        Self { data }
    }

    /// Read only view of the same bytes.
    pub fn as_ref(&self) -> (r: EncodedQuery<'_>)
        ensures
            r.bytes() == self.bytes(),
    {
        EncodedQuery::new(&*self.data)
    }

    /// # Errors
    /// Fails if the query code is unsupported.
    pub fn query_code(&self) -> (r: Result<QueryCode, UnsupportedQueryCode<'_>>)
        requires
            self.bytes().len() >= 1,
        ensures
            r is Err <==> spec_unsupported(self.bytes()),
            r matches Ok(c) ==> c.spec_code() == spec_query_code(self.bytes()),
            r matches Err(e) ==> reports_unsupported(e, self.bytes()),
    {
        self.as_ref().query_code()
    }

    /// # Errors
    /// Fails if the query code is unsupported.
    pub fn operand(&self) -> (r: Result<ValidEncodedQuery<'_>, UnsupportedQueryCode<'_>>)
        requires
            self.bytes().len() >= 1,
        ensures
            r is Err <==> spec_unsupported(self.bytes()),
            r matches Err(e) ==> reports_unsupported(e, self.bytes()),
            r matches Ok(ValidEncodedQuery::ComparisonWithValue(q)) ==> spec_is_value(
                self.bytes(),
            ) && q.bytes() == self.bytes(),
            r matches Ok(ValidEncodedQuery::ComparisonWithRange(q)) ==> spec_is_range(
                self.bytes(),
            ) && q.bytes() == self.bytes(),
    {
        self.as_ref().operand()
    }

    /// Changes the query code, and thus the kind of this query.
    ///
    /// The rest of the query is left as it is: it is then read as a query of the new kind.
    pub fn set_query_code(&mut self, code: QueryCode)
        requires
            old(self).bytes().len() >= 1,
        ensures
            final(final(self).data)@ == final(old(self).data)@,
            final(self).bytes() == old(self).bytes().update(
                0,
                with_code(old(self).bytes()[0], code.spec_code()),
            ),
            spec_query_code(final(self).bytes()) == code.spec_code(),
            final(self).bytes()[0] & 0x1F == old(self).bytes()[0] & 0x1F,
    {
        let c = code.code();
        proof {
            lemma_query_code(self.data@[0], c);
        }
        self.data[0] = (self.data[0] & 0x1F) | (c << 5u8);
    }

    /// # Errors
    /// Fails if the query code is unsupported.
    pub fn operand_mut(&mut self) -> (r: Result<ValidEncodedQueryMut<'_>, UnsupportedQueryCode<'_>>)
        requires
            old(self).bytes().len() >= 1,
        ensures
            final(final(self).data)@ == final(old(self).data)@,
            r is Err <==> spec_unsupported(old(self).bytes()),
            r matches Err(e) ==> reports_unsupported(e, old(self).bytes()),
            r is Err ==> final(self).bytes() == old(self).bytes(),
            r matches Ok(ValidEncodedQueryMut::ComparisonWithValue(q)) ==> spec_is_value(
                old(self).bytes(),
            ) && q.bytes() == old(self).bytes(),
            r matches Ok(ValidEncodedQueryMut::ComparisonWithRange(q)) ==> spec_is_range(
                old(self).bytes(),
            ) && q.bytes() == old(self).bytes(),
            r matches Ok(ValidEncodedQueryMut::ComparisonWithValue(q)) ==> final(self).bytes()
                == final(q.data)@,
            r matches Ok(ValidEncodedQueryMut::ComparisonWithRange(q)) ==> final(self).bytes()
                == final(q.data)@,
    {
        let code = (self.data[0] >> 5u8) & 7u8;
        if code == COMPARISON_WITH_VALUE {
            Ok(
                ValidEncodedQueryMut::ComparisonWithValue(
                    EncodedComparisonWithValueMut::new(&mut *self.data),
                ),
            )
        } else if code == COMPARISON_WITH_RANGE {
            Ok(
                ValidEncodedQueryMut::ComparisonWithRange(
                    EncodedComparisonWithRangeMut::new(&mut *self.data),
                ),
            )
        } else {
            Err(UnsupportedQueryCode { code, remaining_data: crate::decodable::skip(&*self.data, 1) })
        }
    }

    /// # Errors
    /// Fails if the input is too short, if its query code is not supported, or if it has a
    /// bitmap and its range is invalid.
    pub fn encoded_size(&self) -> (r: Result<usize, QuerySizeError<'_>>)
        ensures
            size_answer(r, self.bytes()),
            r matches Ok(size) ==> size == spec_decoded_size(self.bytes()),
    {
        self.as_ref().encoded_size()
    }

    /// # Errors
    /// Fails if the query compares to a range that is invalid.
    pub fn complete_decoding(&self) -> (r: Result<WithByteSize<DecodedQueryRef<'_>>, QueryError<'_>>)
        requires
            self.wf(),
        ensures
            r is Ok <==> spec_decodable(self.bytes()),
            r matches Ok(w) ==> w.item.decoded_from(self.bytes()) && w.byte_size
                == spec_decoded_size(self.bytes()),
            r matches Err(e) ==> e == QueryError::BadEncodedRange,
    {
        self.as_ref().complete_decoding()
    }
}

/// An owned query.
#[derive(Eq, PartialEq, Ord, PartialOrd, Hash, Debug)]
pub enum Query {
    ComparisonWithValue(ComparisonWithValue),
    ComparisonWithRange(ComparisonWithRange),
}

impl Query {
    /// `r` holds the same query as `self`.
    pub open spec fn represents(self, r: QueryRef) -> bool {
        match (self, r) {
            (Query::ComparisonWithValue(o), QueryRef::ComparisonWithValue(q)) => {
                &&& o.signed_data == q.signed_data
                &&& o.comparison_type == q.comparison_type
                &&& o.compare_value.value_view() == q.compare_value.value_view()
                &&& o.compare_value.mask_view() == q.compare_value.mask_view()
                &&& o.file_id == q.file_id
                &&& o.offset == q.offset
            },
            (Query::ComparisonWithRange(o), QueryRef::ComparisonWithRange(q)) => {
                &&& o.signed_data == q.signed_data
                &&& o.comparison_type == q.comparison_type
                &&& o.range.compare_length_view() == q.range.compare_length_view()
                &&& o.range.start_view() == q.range.start_view()
                &&& o.range.end_view() == q.range.end_view()
                &&& o.range.bitmap_view() == q.range.bitmap_view()
                &&& o.file_id == q.file_id
                &&& o.offset == q.offset
            },
            _ => false,
        }
    }

    pub fn borrow(&self) -> (r: QueryRef<'_>)
        ensures
            self.represents(r),
    {
        match self {
            Self::ComparisonWithValue(q) => QueryRef::ComparisonWithValue(q.as_ref()),
            Self::ComparisonWithRange(q) => QueryRef::ComparisonWithRange(q.as_ref()),
        }
    }
}

} // verus!
