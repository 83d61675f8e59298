//! Action reading the properties of a file.
use crate::decodable::{splice, written_at_head, SizeError, WithByteSize};
use crate::v1_2::action::defines::FileId;
use crate::v1_2::define::flag::{ctrl_byte, lemma_ctrl_byte, lemma_flag6, lemma_flag7, with_flag};
use crate::v1_2::define::{flag, op_code};
use vstd::prelude::*;

verus! {

/// Maximum byte size of an encoded `ReadFileProperties`
pub const MAX_SIZE: usize = 2;

/// This action has a fixed size
pub const SIZE: usize = 2;

/// Reads the properties of a file
#[derive(Copy, Clone, Eq, PartialEq, Ord, PartialOrd, Hash, Debug)]
pub struct ReadFilePropertiesRef {
    /// Group with next action
    pub group: bool,
    /// Ask for a response (status)
    pub response: bool,
    /// File ID of the file to read
    pub file_id: FileId,
}

impl ReadFilePropertiesRef {
    /// Bytes of the encoded action.
    pub open spec fn encoding(self) -> Seq<u8> {
        seq![ctrl_byte(op_code::READ_FILE_PROPERTIES, self.group, self.response), self.file_id.0]
    }

    /// The action encoded at the start of `data`.
    pub open spec fn decoded(data: Seq<u8>) -> ReadFilePropertiesRef {
        ReadFilePropertiesRef {
            group: data[0] & 0x80 != 0,
            response: data[0] & 0x40 != 0,
            file_id: FileId(data[1]),
        }
    }

    /// `data` starts with a complete encoded action.
    pub open spec fn complete(data: Seq<u8>) -> bool {
        data.len() >= SIZE
    }

    pub fn new(group: bool, response: bool, file_id: FileId) -> (r: Self)
        ensures
            r == (ReadFilePropertiesRef { group, response, file_id }),
    {
        Self { group, response, file_id }
    }

    fn byte(&self) -> (r: u8)
        ensures
            r == ctrl_byte(op_code::READ_FILE_PROPERTIES, self.group, self.response),
    {
        op_code::READ_FILE_PROPERTIES | if self.group {
            flag::GROUP
        } else {
            0
        } | if self.response {
            flag::RESPONSE
        } else {
            0
        }
    }

    /// Encodes the Item into a fixed size array
    pub fn encode_to_array(&self) -> (r: [u8; 2])
        ensures
            r@ == self.encoding(),
    {
        let r = [self.byte(), self.file_id.u8()];
        assert(r@ =~= self.encoding());
        r
    }

    pub fn to_owned(&self) -> (r: ReadFileProperties)
        ensures
            r.group == self.group,
            r.response == self.response,
            r.file_id == self.file_id,
    {
        ReadFileProperties { group: self.group, response: self.response, file_id: self.file_id }
    }

    /// Size in bytes of the encoded action.
    pub fn encoded_size(&self) -> (r: usize)
        ensures
            r == self.encoding().len(),
    {
        SIZE
    }

    /// Writes the encoded action at the start of `out`.
    ///
    /// # Errors
    /// Fails with the required size if `out` is too small.
    pub fn encode_in(&self, out: &mut [u8]) -> (r: Result<usize, usize>)
        ensures
            r is Ok <==> old(out)@.len() >= self.encoding().len(),
            r matches Ok(size) ==> size == self.encoding().len() && written_at_head(
                final(out)@,
                old(out)@,
                self.encoding(),
            ),
            r matches Err(size) ==> size == self.encoding().len() && final(out)@ == old(out)@,
    {
        if out.len() < SIZE {
            return Err(SIZE);
        }
        out[0] = self.byte();
        out[1] = self.file_id.u8();
        assert(out@ =~= splice(old(out)@, 0, self.encoding()));
        Ok(SIZE)
    }

    /// # Errors
    /// Fails if the input is too short.
    pub fn decode(data: &[u8]) -> (r: Result<WithByteSize<ReadFilePropertiesRef>, SizeError>)
        ensures
            r is Ok <==> Self::complete(data@),
            r matches Ok(w) ==> w.item == Self::decoded(data@) && w.byte_size == SIZE,
    {
        let decoder = Self::start_decoding(data)?;
        Ok(decoder.item.complete_decoding())
    }

    /// # Errors
    /// Fails if the input is too short.
    pub fn start_decoding(data: &[u8]) -> (r: Result<
        WithByteSize<EncodedReadFileProperties<'_>>,
        SizeError,
    >)
        ensures
            r is Ok <==> Self::complete(data@),
            r matches Ok(w) ==> w.item.bytes() == data@ && w.byte_size == SIZE,
    {
        if data.len() < SIZE {
            return Err(SizeError::MissingBytes);
        }
        Ok(WithByteSize { item: EncodedReadFileProperties::new(data), byte_size: SIZE })
    }

    /// # Errors
    /// Fails if the input is too short.
    pub fn start_decoding_mut(data: &mut [u8]) -> (r: Result<
        WithByteSize<EncodedReadFilePropertiesMut<'_>>,
        SizeError,
    >)
        ensures
            r is Err ==> final(data)@ == old(data)@,
            r matches Ok(w) ==> final(data)@ == final(w.item.data)@,
            r is Ok <==> Self::complete(old(data)@),
            r matches Ok(w) ==> w.item.bytes() == old(data)@ && w.byte_size == SIZE,
    {
        if data.len() < SIZE {
            return Err(SizeError::MissingBytes);
        }
        Ok(WithByteSize { item: EncodedReadFilePropertiesMut::new(data), byte_size: SIZE })
    }
}

/// Decoding an encoded `ReadFileProperties` gives it back, whatever follows it.
pub proof fn lemma_roundtrip(op: ReadFilePropertiesRef, rest: Seq<u8>)
    ensures
        ReadFilePropertiesRef::complete(op.encoding() + rest),
        ReadFilePropertiesRef::decoded(op.encoding() + rest) == op,
{
    lemma_ctrl_byte(op_code::READ_FILE_PROPERTIES, op.group, op.response);
    let d = op.encoding() + rest;
    assert(d[0] == ctrl_byte(op_code::READ_FILE_PROPERTIES, op.group, op.response));
    assert(d[1] == op.file_id.0);
}

/// Read access to an encoded `ReadFileProperties`.
pub struct EncodedReadFileProperties<'data> {
    data: &'data [u8],
}

impl<'data> EncodedReadFileProperties<'data> {
    /// The bytes this reader looks at.
    pub closed spec fn bytes(&self) -> Seq<u8> {
        self.data@
    }

    /// The bytes hold a complete action.
    pub open spec fn wf(&self) -> bool {
        ReadFilePropertiesRef::complete(self.bytes())
    }

    pub fn new(data: &'data [u8]) -> (r: Self)
        ensures
            r.bytes() == data@,
    {
        Self { data }
    }

    pub fn group(&self) -> (r: bool)
        requires
            self.wf(),
        ensures
            r == ReadFilePropertiesRef::decoded(self.bytes()).group,
    {
        self.data[0] & flag::GROUP != 0
    }

    pub fn response(&self) -> (r: bool)
        requires
            self.wf(),
        ensures
            r == ReadFilePropertiesRef::decoded(self.bytes()).response,
    {
        self.data[0] & flag::RESPONSE != 0
    }

    pub fn file_id(&self) -> (r: FileId)
        requires
            self.wf(),
        ensures
            r == ReadFilePropertiesRef::decoded(self.bytes()).file_id,
    {
        FileId::new(self.data[1])
    }

    pub fn encoded_size_unchecked(&self) -> (r: usize)
        ensures
            r == SIZE,
    {
        SIZE
    }

    /// # Errors
    /// Fails if the input is too short.
    pub fn encoded_size(&self) -> (r: Result<usize, SizeError>)
        ensures
            r is Ok <==> self.wf(),
            r matches Ok(size) ==> size == SIZE,
    {
        if self.data.len() < SIZE {
            return Err(SizeError::MissingBytes);
        }
        Ok(SIZE)
    }

    pub fn complete_decoding(&self) -> (r: WithByteSize<ReadFilePropertiesRef>)
        requires
            self.wf(),
        ensures
            r.item == ReadFilePropertiesRef::decoded(self.bytes()),
            r.byte_size == SIZE,
    {
        WithByteSize {
            item: ReadFilePropertiesRef {
                group: self.group(),
                response: self.response(),
                file_id: self.file_id(),
            },
            byte_size: SIZE,
        }
    }
}

/// Write access to an encoded `ReadFileProperties`.
pub struct EncodedReadFilePropertiesMut<'data> {
    /// The bytes of the item, which this accessor edits in place.
    pub data: &'data mut [u8],
}

impl<'data> EncodedReadFilePropertiesMut<'data> {
    /// The bytes this accessor looks at.
    pub open spec fn bytes(&self) -> Seq<u8> {
        self.data@
    }

    /// The bytes hold a complete action.
    pub open spec fn wf(&self) -> bool {
        ReadFilePropertiesRef::complete(self.bytes())
    }

    pub fn new(data: &'data mut [u8]) -> (r: Self)
        ensures
            final(data)@ == final(r.data)@,
            r.bytes() == old(data)@,
    {
        Self { data }
    }

    /// Read only view of the same bytes.
    pub fn as_ref(&self) -> (r: EncodedReadFileProperties<'_>)
        ensures
            r.bytes() == self.bytes(),
    {
        EncodedReadFileProperties::new(&*self.data)
    }

    pub fn group(&self) -> (r: bool)
        requires
            self.wf(),
        ensures
            r == ReadFilePropertiesRef::decoded(self.bytes()).group,
    {
        self.as_ref().group()
    }

    pub fn response(&self) -> (r: bool)
        requires
            self.wf(),
        ensures
            r == ReadFilePropertiesRef::decoded(self.bytes()).response,
    {
        self.as_ref().response()
    }

    pub fn encoded_size_unchecked(&self) -> (r: usize)
        ensures
            r == SIZE,
    {
        SIZE
    }

    pub fn set_group(&mut self, group: bool)
        requires
            old(self).wf(),
        ensures
            final(final(self).data)@ == final(old(self).data)@,
            final(self).bytes() == old(self).bytes().update(
                0,
                with_flag(old(self).bytes()[0], flag::GROUP, group),
            ),
            ReadFilePropertiesRef::decoded(final(self).bytes()) == (ReadFilePropertiesRef {
                group,
                ..ReadFilePropertiesRef::decoded(old(self).bytes())
            }),
    {
        proof {
            lemma_flag7(self.data@[0], group);
        }
        if group {
            self.data[0] = self.data[0] | flag::GROUP;
        } else {
            self.data[0] = self.data[0] & !flag::GROUP;
        }
    }

    pub fn set_response(&mut self, response: bool)
        requires
            old(self).wf(),
        ensures
            final(final(self).data)@ == final(old(self).data)@,
            final(self).bytes() == old(self).bytes().update(
                0,
                with_flag(old(self).bytes()[0], flag::RESPONSE, response),
            ),
            ReadFilePropertiesRef::decoded(final(self).bytes()) == (ReadFilePropertiesRef {
                response,
                ..ReadFilePropertiesRef::decoded(old(self).bytes())
            }),
    {
        proof {
            lemma_flag6(self.data@[0], response);
        }
        if response {
            self.data[0] = self.data[0] | flag::RESPONSE;
        } else {
            self.data[0] = self.data[0] & !flag::RESPONSE;
        }
    }

    /// # Errors
    /// Fails if the input is too short.
    pub fn encoded_size(&self) -> (r: Result<usize, SizeError>)
        ensures
            r is Ok <==> self.wf(),
            r matches Ok(size) ==> size == SIZE,
    {
        self.as_ref().encoded_size()
    }

    pub fn complete_decoding(&self) -> (r: WithByteSize<ReadFilePropertiesRef>)
        requires
            self.wf(),
        ensures
            r.item == ReadFilePropertiesRef::decoded(self.bytes()),
            r.byte_size == SIZE,
    {
        self.as_ref().complete_decoding()
    }
}

/// Reads the properties of a file
#[derive(Copy, Clone, Eq, PartialEq, Ord, PartialOrd, Hash, Debug)]
pub struct ReadFileProperties {
    /// Group with next action
    pub group: bool,
    /// Ask for a response (status)
    pub response: bool,
    /// File ID of the file to read
    pub file_id: FileId,
}

impl ReadFileProperties {
    pub fn as_ref(&self) -> (r: ReadFilePropertiesRef)
        ensures
            r.group == self.group,
            r.response == self.response,
            r.file_id == self.file_id,
    {
        ReadFilePropertiesRef { group: self.group, response: self.response, file_id: self.file_id }
    }
}

} // verus!
