//! Action executing the next group of actions depending on a condition.
use super::{
    spec_complete, spec_decodable, spec_decoded_size, DecodedQueryRef, EncodedQuery,
    EncodedQueryMut, Query, QueryRef,
};
use crate::decodable::{WithByteSize, lemma_splice_byte, lemma_splice_concat, skip, skip_mut, slice_mut, splice, tail, replaced, written_at_head};
use crate::v1_2::define::flag::{
    self, control_byte, ctrl_byte, lemma_ctrl_byte, lemma_flag6, lemma_flag7, with_flag,
};
use crate::v1_2::define::op_code;
use super::define::code::{COMPARISON_WITH_RANGE, COMPARISON_WITH_VALUE};
use crate::v1_2::error::{QueryError, QuerySizeError, UnsupportedQueryCode};
use vstd::prelude::*;

verus! {


/// Executes next action group depending on a condition
#[derive(Copy, Clone, Eq, PartialEq, Ord, PartialOrd, Hash, Debug)]
pub struct ActionQueryRef<'data> {
    /// Group with next action
    pub group: bool,
    /// Ask for a response (a status)
    pub response: bool,
    /// Action condition
    pub query: QueryRef<'data>,
}

/// `data` starts with an action whose size can be measured.
pub open spec fn spec_action_complete(data: Seq<u8>) -> bool {
    data.len() >= 1 && spec_complete(tail(data, 1))
}

/// `data` starts with an action that decodes.
pub open spec fn spec_action_decodable(data: Seq<u8>) -> bool {
    data.len() >= 1 && spec_decodable(tail(data, 1))
}

/// Byte size of the action encoded at the start of `data`.
pub open spec fn spec_action_size(data: Seq<u8>) -> int {
    1 + spec_decoded_size(tail(data, 1))
}

impl<'data> ActionQueryRef<'data> {
    /// Bytes of the encoded action.
    pub open spec fn encoding(self) -> Seq<u8> {
        seq![ctrl_byte(op_code::ACTION_QUERY, self.group, self.response)] + self.query.encoding()
    }

    /// `self` is the action encoded at the start of `data`.
    pub open spec fn decoded_from(self, data: Seq<u8>) -> bool {
        &&& self.group == (data[0] & 0x80 != 0)
        &&& self.response == (data[0] & 0x40 != 0)
        &&& self.query.decoded_from(tail(data, 1))
    }

    pub fn to_owned(&self) -> (r: ActionQuery)
        ensures
            r.represents(*self),
    {
        ActionQuery { group: self.group, response: self.response, query: self.query.to_owned() }
    }

    /// Size in bytes of the encoded action.
    pub fn encoded_size(&self) -> (r: usize)
        ensures
            r == self.encoding().len(),
    {
        1 + self.query.encoded_size()
    }

    /// Writes the encoded action at the start of `out`.
    ///
    /// # Errors
    /// Fails with the required size if `out` is too small.
    pub fn encode_in(&self, out: &mut [u8]) -> (r: Result<usize, usize>)
        ensures
            r is Ok <==> old(out)@.len() >= self.encoding().len(),
            r matches Ok(size) ==> size == self.encoding().len() && written_at_head(
                final(out)@,
                old(out)@,
                self.encoding(),
            ),
            r matches Err(size) ==> size == self.encoding().len() && final(out)@ == old(out)@,
    {
        let size = self.encoded_size();
        if out.len() < size {
            return Err(size);
        }
        let ghost before = out@;
        let ctrl = control_byte(op_code::ACTION_QUERY, self.group, self.response);
        proof {
            lemma_splice_byte(out@, 0, ctrl);
        }
        out[0] = ctrl;
        let ghost head = out@;
        let rest = skip_mut(out, 1);
        let r = self.query.encode_in(rest);
        assert(r is Ok);
        proof {
            assert(out@ =~= splice(before, 0, self.encoding()));
        }
        Ok(size)
    }
}

/// Decoding an encoded query action gives it back, whatever follows it.
pub proof fn lemma_roundtrip(op: ActionQueryRef, rest: Seq<u8>)
    requires
        op.query.valid(),
    ensures
        spec_action_complete(op.encoding() + rest),
        spec_action_decodable(op.encoding() + rest),
        spec_action_size(op.encoding() + rest) == op.encoding().len(),
        op.decoded_from(op.encoding() + rest),
{
    let d = op.encoding() + rest;
    super::lemma_roundtrip(op.query, rest);
    lemma_ctrl_byte(op_code::ACTION_QUERY, op.group, op.response);
    assert(tail(d, 1) =~= op.query.encoding() + rest);
    assert(d[0] == ctrl_byte(op_code::ACTION_QUERY, op.group, op.response));
}

/// A decoded query action.
#[derive(Copy, Clone, Eq, PartialEq, Ord, PartialOrd, Hash, Debug)]
pub struct DecodedActionQueryRef<'data> {
    /// Group with next action
    pub group: bool,
    /// Ask for a response (a status)
    pub response: bool,
    /// Action condition
    pub query: DecodedQueryRef<'data>,
}

impl<'data> DecodedActionQueryRef<'data> {
    /// `self` is the action encoded at the start of `data`.
    pub open spec fn decoded_from(self, data: Seq<u8>) -> bool {
        &&& self.group == (data[0] & 0x80 != 0)
        &&& self.response == (data[0] & 0x40 != 0)
        &&& self.query.decoded_from(tail(data, 1))
    }

    /// `e` is the error of decoding `data`, which does not start with an action that decodes.
    pub open spec fn reports(e: QuerySizeError, data: Seq<u8>) -> bool {
        if data.len() == 0 {
            e == QuerySizeError::MissingBytes
        } else if spec_complete(tail(data, 1)) {
            e == QuerySizeError::BadEncodedRange
        } else {
            super::size_answer(Err::<(), QuerySizeError>(e), tail(data, 1))
        }
    }

    pub fn as_encodable(self) -> (r: ActionQueryRef<'data>)
        ensures
            r.group == self.group,
            r.response == self.response,
            r.query == self.query.spec_as_encodable(),
    {
        ActionQueryRef {
            group: self.group,
            response: self.response,
            query: self.query.as_encodable(),
        }
    }

    /// # Errors
    /// Fails if the input is too short, if its query code is not supported, or if its range is
    /// invalid.
    pub fn decode(data: &'data [u8]) -> (r: Result<
        WithByteSize<DecodedActionQueryRef<'data>>,
        QuerySizeError<'data>,
    >)
        ensures
            r is Ok <==> spec_action_decodable(data@),
            r matches Ok(w) ==> w.item.decoded_from(data@) && w.byte_size == spec_action_size(
                data@,
            ),
            r matches Err(e) ==> Self::reports(e, data@),
    {
        let decoder = Self::start_decoding(data)?;
        match decoder.item.complete_decoding() {
            Ok(w) => Ok(w),
            Err(e) => Err(QuerySizeError::from(e)),
        }
    }

    /// # Errors
    /// Fails if the input is too short, if its query code is not supported, or if it has a
    /// bitmap and its range is invalid.
    pub fn start_decoding(data: &'data [u8]) -> (r: Result<
        WithByteSize<EncodedActionQuery<'data>>,
        QuerySizeError<'data>,
    >)
        ensures
            r is Ok <==> spec_action_complete(data@),
            r matches Ok(w) ==> w.item.bytes() == data@ && w.byte_size == spec_action_size(
                data@,
            ),
            data@.len() == 0 ==> r matches Err(QuerySizeError::MissingBytes),
            data@.len() >= 1 ==> super::size_answer(r, tail(data@, 1)),
    {
        let decoder = EncodedActionQuery::new(data);
        let size = decoder.encoded_size()?;
        Ok(WithByteSize { item: decoder, byte_size: size })
    }

    /// # Errors
    /// Fails if the input is too short, if its query code is not supported, or if it has a
    /// bitmap and its range is invalid.
    pub fn start_decoding_mut(data: &mut [u8]) -> (r: Result<
        WithByteSize<EncodedActionQueryMut<'_>>,
        QuerySizeError<'_>,
    >)
        ensures
            r is Err ==> final(data)@ == old(data)@,
            r matches Ok(w) ==> final(data)@ == final(w.item.data)@,
            r is Ok <==> spec_action_complete(old(data)@),
            r matches Ok(w) ==> w.item.bytes() == old(data)@ && w.byte_size == spec_action_size(
                old(data)@,
            ),
            old(data)@.len() == 0 ==> r matches Err(QuerySizeError::MissingBytes),
            old(data)@.len() >= 1 ==> super::size_answer(r, tail(old(data)@, 1)),
    {
        let len = data.len();
        if len < 2 {
            return Err(QuerySizeError::MissingBytes);
        }
        let code = (data[1] >> 5u8) & 7u8;
        if code != COMPARISON_WITH_VALUE && code != COMPARISON_WITH_RANGE {
            proof {
                assert(tail(tail(data@, 1), 1) =~= tail(data@, 2));
            }
            return Err(
                QuerySizeError::UnsupportedQueryCode(
                    UnsupportedQueryCode { code, remaining_data: skip(data, 2) },
                ),
            );
        }
        let size = match EncodedActionQuery::new(&*data).encoded_size() {
            Ok(size) => size,
            Err(QuerySizeError::BadEncodedRange) => {
                return Err(QuerySizeError::BadEncodedRange);
            },
            Err(_) => {
                return Err(QuerySizeError::MissingBytes);
            },
        };
        Ok(WithByteSize { item: EncodedActionQueryMut::new(data), byte_size: size })
    }
}

/// Read access to an encoded query action.
pub struct EncodedActionQuery<'data> {
    data: &'data [u8],
}

impl<'data> EncodedActionQuery<'data> {
    /// The bytes this reader looks at.
    pub closed spec fn bytes(&self) -> Seq<u8> {
        self.data@
    }

    /// The bytes hold an action whose size can be measured.
    pub open spec fn wf(&self) -> bool {
        spec_action_complete(self.bytes())
    }

    pub fn new(data: &'data [u8]) -> (r: Self)
        ensures
            r.bytes() == data@,
    {
        Self { data }
    }

    pub fn group(&self) -> (r: bool)
        requires
            self.bytes().len() >= 1,
        ensures
            r == (self.bytes()[0] & 0x80 != 0),
    {
        self.data[0] & flag::GROUP != 0
    }

    pub fn response(&self) -> (r: bool)
        requires
            self.bytes().len() >= 1,
        ensures
            r == (self.bytes()[0] & 0x40 != 0),
    {
        self.data[0] & flag::RESPONSE != 0
    }

    pub fn query(&self) -> (r: EncodedQuery<'data>)
        requires
            self.bytes().len() >= 1,
        ensures
            r.bytes() == tail(self.bytes(), 1),
    {
        EncodedQuery::new(skip(self.data, 1))
    }

    /// # Errors
    /// Fails if the input is too short, if its query code is not supported, or if it has a
    /// bitmap and its range is invalid.
    pub fn encoded_size(&self) -> (r: Result<usize, QuerySizeError<'data>>)
        ensures
            r is Ok <==> self.wf(),
            r matches Ok(size) ==> size == spec_action_size(self.bytes()),
            self.bytes().len() == 0 ==> r matches Err(QuerySizeError::MissingBytes),
            self.bytes().len() >= 1 ==> super::size_answer(r, tail(self.bytes(), 1)),
    {
        if self.data.len() == 0 {
            return Err(QuerySizeError::MissingBytes);
        }
        let size = self.query().encoded_size()?;
        Ok(1 + size)
    }

    /// # Errors
    /// Fails if the query compares to a range that is invalid.
    pub fn complete_decoding(&self) -> (r: Result<
        WithByteSize<DecodedActionQueryRef<'data>>,
        QueryError<'data>,
    >)
        requires
            self.wf(),
        ensures
            r is Ok <==> spec_action_decodable(self.bytes()),
            r matches Ok(w) ==> w.item.decoded_from(self.bytes()) && w.byte_size
                == spec_action_size(self.bytes()),
            r matches Err(e) ==> e == QueryError::BadEncodedRange,
    {
        let query = self.query().complete_decoding()?;
        Ok(
            WithByteSize {
                item: DecodedActionQueryRef {
                    group: self.group(),
                    response: self.response(),
                    query: query.item,
                },
                byte_size: 1 + query.byte_size,
            },
        )
    }
}

/// Write access to an encoded query action.
pub struct EncodedActionQueryMut<'data> {
    /// The bytes of the item, which this accessor edits in place.
    pub data: &'data mut [u8],
}

impl<'data> EncodedActionQueryMut<'data> {
    /// The bytes this accessor looks at.
    pub open spec fn bytes(&self) -> Seq<u8> {
        self.data@
    }

    /// The bytes hold an action whose size can be measured.
    pub open spec fn wf(&self) -> bool {
        spec_action_complete(self.bytes())
    }

    pub fn new(data: &'data mut [u8]) -> (r: Self)
        ensures
            final(data)@ == final(r.data)@,
            r.bytes() == old(data)@,
    {
        Self { data }
    }

    /// Read only view of the same bytes.
    pub fn as_ref(&self) -> (r: EncodedActionQuery<'_>)
        ensures
            r.bytes() == self.bytes(),
    {
        EncodedActionQuery::new(&*self.data)
    }

    pub fn group(&self) -> (r: bool)
        requires
            self.bytes().len() >= 1,
        ensures
            r == (self.bytes()[0] & 0x80 != 0),
    {
        self.as_ref().group()
    }

    pub fn response(&self) -> (r: bool)
        requires
            self.bytes().len() >= 1,
        ensures
            r == (self.bytes()[0] & 0x40 != 0),
    {
        self.as_ref().response()
    }

    pub fn query(&self) -> (r: EncodedQuery<'_>)
        requires
            self.bytes().len() >= 1,
        ensures
            r.bytes() == tail(self.bytes(), 1),
    {
        self.as_ref().query()
    }

    pub fn set_group(&mut self, group: bool)
        requires
            old(self).bytes().len() >= 1,
        ensures
            final(final(self).data)@ == final(old(self).data)@,
            final(self).bytes() == old(self).bytes().update(
                0,
                with_flag(old(self).bytes()[0], flag::GROUP, group),
            ),
            (final(self).bytes()[0] & 0x80 != 0) == group,
            final(self).bytes()[0] & 0x40 == old(self).bytes()[0] & 0x40,
            final(self).bytes()[0] & 0x3F == old(self).bytes()[0] & 0x3F,
    {
        proof {
            lemma_flag7(self.data@[0], group);
        }
        if group {
            self.data[0] = self.data[0] | flag::GROUP;
        } else {
            self.data[0] = self.data[0] & !flag::GROUP;
        }
    }

    pub fn set_response(&mut self, response: bool)
        requires
            old(self).bytes().len() >= 1,
        ensures
            final(final(self).data)@ == final(old(self).data)@,
            final(self).bytes() == old(self).bytes().update(
                0,
                with_flag(old(self).bytes()[0], flag::RESPONSE, response),
            ),
            (final(self).bytes()[0] & 0x40 != 0) == response,
            final(self).bytes()[0] & 0x80 == old(self).bytes()[0] & 0x80,
            final(self).bytes()[0] & 0x3F == old(self).bytes()[0] & 0x3F,
    {
        proof {
            lemma_flag6(self.data@[0], response);
        }
        if response {
            self.data[0] = self.data[0] | flag::RESPONSE;
        } else {
            self.data[0] = self.data[0] & !flag::RESPONSE;
        }
    }

    /// Mutable accessor on the query.
    pub fn query_mut(&mut self) -> (r: EncodedQueryMut<'_>)
        requires
            old(self).bytes().len() >= 1,
        ensures
            final(final(self).data)@ == final(old(self).data)@,
            r.bytes() == tail(old(self).bytes(), 1),
            final(self).bytes() == replaced(old(self).bytes(), 1, old(self).bytes().len() as int, final(r.data)@),
    {
        let len = self.data.len();
        EncodedQueryMut::new(slice_mut(self.data, 1, len))
    }

    /// # Errors
    /// Fails if the input is too short, if its query code is not supported, or if it has a
    /// bitmap and its range is invalid.
    pub fn encoded_size(&self) -> (r: Result<usize, QuerySizeError<'_>>)
        ensures
            r is Ok <==> self.wf(),
            r matches Ok(size) ==> size == spec_action_size(self.bytes()),
    {
        self.as_ref().encoded_size()
    }

    /// # Errors
    /// Fails if the query compares to a range that is invalid.
    pub fn complete_decoding(&self) -> (r: Result<
        WithByteSize<DecodedActionQueryRef<'_>>,
        QueryError<'_>,
    >)
        requires
            self.wf(),
        ensures
            r is Ok <==> spec_action_decodable(self.bytes()),
            r matches Ok(w) ==> w.item.decoded_from(self.bytes()) && w.byte_size
                == spec_action_size(self.bytes()),
    {
        self.as_ref().complete_decoding()
    }
}

/// Executes next action group depending on a condition
#[derive(Eq, PartialEq, Ord, PartialOrd, Hash, Debug)]
pub struct ActionQuery {
    /// Group with next action
    pub group: bool,
    /// Ask for a response (a status)
    pub response: bool,
    /// Action condition
    pub query: Query,
}

impl ActionQuery {
    /// `r` holds the same action as `self`.
    pub open spec fn represents(self, r: ActionQueryRef) -> bool {
        &&& self.group == r.group
        &&& self.response == r.response
        &&& self.query.represents(r.query)
    }

    pub fn as_ref(&self) -> (r: ActionQueryRef<'_>)
        ensures
            self.represents(r),
    {
        ActionQueryRef { group: self.group, response: self.response, query: self.query.borrow() }
    }
}

} // verus!
