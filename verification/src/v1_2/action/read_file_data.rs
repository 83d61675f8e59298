//! Action reading data from a file.
use crate::decodable::{
    lemma_splice_byte, lemma_splice_concat, skip, skip_mut, slice_mut, tail, replaced, written_at_head, SizeError,
    WithByteSize,
};
use crate::v1_2::action::defines::FileId;
use crate::v1_2::define::flag::{ctrl_byte, lemma_ctrl_byte, lemma_flag6, lemma_flag7, with_flag};
use crate::v1_2::define::{flag, op_code};
use crate::varint::{self, EncodedVarint, EncodedVarintMut, Varint};
use vstd::prelude::*;

verus! {


broadcast use varint::group_varint_value;

/// Maximum byte size of an encoded `ReadFileData`
pub const MAX_SIZE: usize = 10;

/// Read data from a file.
#[derive(Copy, Clone, Eq, PartialEq, Ord, PartialOrd, Hash, Debug)]
pub struct ReadFileDataRef {
    /// Group with next action
    pub group: bool,
    /// Ask for a response (read data via ReturnFileData)
    ///
    /// Generally true unless you just want to trigger a read on the filesystem
    pub response: bool,
    /// File ID of the file to read
    pub file_id: FileId,
    /// Offset at which to start the reading
    pub offset: Varint,
    /// Number of bytes to read after offset
    pub length: Varint,
}

/// Byte size of the offset field of an encoded action.
pub open spec fn spec_offset_size(data: Seq<u8>) -> int {
    varint::spec_encoded_size(tail(data, 2))
}

impl ReadFileDataRef {
    /// Bytes of the encoded action.
    pub open spec fn encoding(self) -> Seq<u8> {
        seq![ctrl_byte(op_code::READ_FILE_DATA, self.group, self.response), self.file_id.0]
            + varint::spec_encoding(self.offset@) + varint::spec_encoding(self.length@)
    }

    /// `data` starts with a complete encoded action.
    pub open spec fn complete(data: Seq<u8>) -> bool {
        &&& data.len() >= 3
        &&& varint::spec_complete(tail(data, 2))
        &&& varint::spec_complete(tail(data, 2 + spec_offset_size(data)))
    }

    /// Byte size of the action encoded at the start of `data`.
    pub open spec fn decoded_size(data: Seq<u8>) -> int {
        2 + spec_offset_size(data) + varint::spec_encoded_size(tail(data, 2 + spec_offset_size(data)))
    }

    /// The action encoded at the start of `data`.
    pub open spec fn decoded(data: Seq<u8>) -> ReadFileDataRef {
        ReadFileDataRef {
            group: data[0] & 0x80 != 0,
            response: data[0] & 0x40 != 0,
            file_id: FileId(data[1]),
            offset: varint::from_value(varint::spec_decoded(tail(data, 2))),
            length: varint::from_value(
                varint::spec_decoded(tail(data, 2 + spec_offset_size(data))),
            ),
        }
    }

    /// Most common builder `ReadFileData` builder.
    ///
    /// group = false
    /// response = true
    pub fn new(file_id: FileId, offset: Varint, length: Varint) -> (r: Self)
        ensures
            r == (ReadFileDataRef { group: false, response: true, file_id, offset, length }),
    {
        Self { group: false, response: true, file_id, offset, length }
    }

    pub fn to_owned(&self) -> (r: ReadFileData)
        ensures
            r.group == self.group,
            r.response == self.response,
            r.file_id == self.file_id,
            r.offset == self.offset,
            r.length == self.length,
    {
        ReadFileData {
            group: self.group,
            response: self.response,
            file_id: self.file_id,
            offset: self.offset,
            length: self.length,
        }
    }

    /// Size in bytes of the encoded action.
    pub fn encoded_size(&self) -> (r: usize)
        ensures
            r == self.encoding().len(),
    {
        2 + self.offset.encoded_size() + self.length.encoded_size()
    }

    /// Writes the encoded action at the start of `out`.
    ///
    /// # Errors
    /// Fails with the required size if `out` is too small.
    pub fn encode_in(&self, out: &mut [u8]) -> (r: Result<usize, usize>)
        ensures
            r is Ok <==> old(out)@.len() >= self.encoding().len(),
            r matches Ok(size) ==> size == self.encoding().len() && written_at_head(
                final(out)@,
                old(out)@,
                self.encoding(),
            ),
            r matches Err(size) ==> size == self.encoding().len() && final(out)@ == old(out)@,
    {
        let size = self.encoded_size();
        if out.len() < size {
            return Err(size);
        }
        let ghost before = out@;
        let ctrl = op_code::READ_FILE_DATA | if self.group {
            flag::GROUP
        } else {
            0
        } | if self.response {
            flag::RESPONSE
        } else {
            0
        };
        let ghost head = seq![ctrl, self.file_id.0];
        proof {
            lemma_splice_byte(out@, 0, ctrl);
        }
        out[0] = ctrl;
        proof {
            lemma_splice_byte(out@, 1, self.file_id.0);
            lemma_splice_concat(before, 0, seq![ctrl], seq![self.file_id.0]);
            assert(seq![ctrl] + seq![self.file_id.0] =~= head);
        }
        out[1] = self.file_id.u8();
        let offset_size = self.offset.encode_at(out, 2);
        proof {
            lemma_splice_concat(before, 0, head, varint::spec_encoding(self.offset@));
        }
        self.length.encode_at(out, 2 + offset_size);
        proof {
            lemma_splice_concat(
                before,
                0,
                head + varint::spec_encoding(self.offset@),
                varint::spec_encoding(self.length@),
            );
            assert(head + varint::spec_encoding(self.offset@) + varint::spec_encoding(self.length@)
                =~= self.encoding());
        }
        Ok(size)
    }

    /// # Errors
    /// Fails if the input is too short.
    pub fn decode(data: &[u8]) -> (r: Result<WithByteSize<ReadFileDataRef>, SizeError>)
        ensures
            r is Ok <==> Self::complete(data@),
            r matches Ok(w) ==> w.item == Self::decoded(data@) && w.byte_size
                == Self::decoded_size(data@),
    {
        let decoder = Self::start_decoding(data)?;
        Ok(decoder.item.complete_decoding())
    }

    /// Decodes an action whose completeness is already known.
    pub fn decode_unchecked(data: &[u8]) -> (r: WithByteSize<ReadFileDataRef>)
        requires
            Self::complete(data@),
        ensures
            r.item == Self::decoded(data@),
            r.byte_size == Self::decoded_size(data@),
    {
        EncodedReadFileData::new(data).complete_decoding()
    }

    /// # Errors
    /// Fails if the input is too short.
    pub fn start_decoding(data: &[u8]) -> (r: Result<
        WithByteSize<EncodedReadFileData<'_>>,
        SizeError,
    >)
        ensures
            r is Ok <==> Self::complete(data@),
            r matches Ok(w) ==> w.item.bytes() == data@ && w.byte_size == Self::decoded_size(
                data@,
            ),
    {
        let decoder = EncodedReadFileData::new(data);
        let size = decoder.encoded_size()?;
        Ok(WithByteSize { item: decoder, byte_size: size })
    }

    /// # Errors
    /// Fails if the input is too short.
    pub fn start_decoding_mut(data: &mut [u8]) -> (r: Result<
        WithByteSize<EncodedReadFileDataMut<'_>>,
        SizeError,
    >)
        ensures
            r is Err ==> final(data)@ == old(data)@,
            r matches Ok(w) ==> final(data)@ == final(w.item.data)@,
            r is Ok <==> Self::complete(old(data)@),
            r matches Ok(w) ==> w.item.bytes() == old(data)@ && w.byte_size
                == Self::decoded_size(old(data)@),
    {
        let size = EncodedReadFileData::new(&*data).encoded_size()?;
        Ok(WithByteSize { item: EncodedReadFileDataMut::new(data), byte_size: size })
    }
}

/// Decoding an encoded `ReadFileData` gives it back, whatever follows it.
pub proof fn lemma_roundtrip(op: ReadFileDataRef, rest: Seq<u8>)
    requires
        op.offset@ <= varint::U32_MAX,
        op.length@ <= varint::U32_MAX,
    ensures
        ReadFileDataRef::complete(op.encoding() + rest),
        ReadFileDataRef::decoded_size(op.encoding() + rest) == op.encoding().len(),
        ReadFileDataRef::decoded(op.encoding() + rest) == op,
{
    let d = op.encoding() + rest;
    let eo = varint::spec_encoding(op.offset@);
    let el = varint::spec_encoding(op.length@);
    lemma_ctrl_byte(op_code::READ_FILE_DATA, op.group, op.response);
    varint::lemma_roundtrip(op.offset@, el + rest);
    varint::lemma_roundtrip(op.length@, rest);
    assert(tail(d, 2) =~= eo + (el + rest));
    assert(tail(d, 2 + eo.len() as int) =~= el + rest);
    assert(d[0] == ctrl_byte(op_code::READ_FILE_DATA, op.group, op.response));
    assert(d[1] == op.file_id.0);
}

/// Read access to an encoded `ReadFileData`.
pub struct EncodedReadFileData<'data> {
    data: &'data [u8],
}

impl<'data> EncodedReadFileData<'data> {
    /// The bytes this reader looks at.
    pub closed spec fn bytes(&self) -> Seq<u8> {
        self.data@
    }

    /// The bytes hold a complete action.
    pub open spec fn wf(&self) -> bool {
        ReadFileDataRef::complete(self.bytes())
    }

    pub fn new(data: &'data [u8]) -> (r: Self)
        ensures
            r.bytes() == data@,
    {
        Self { data }
    }

    pub fn group(&self) -> (r: bool)
        requires
            self.wf(),
        ensures
            r == ReadFileDataRef::decoded(self.bytes()).group,
    {
        self.data[0] & flag::GROUP != 0
    }

    pub fn response(&self) -> (r: bool)
        requires
            self.wf(),
        ensures
            r == ReadFileDataRef::decoded(self.bytes()).response,
    {
        self.data[0] & flag::RESPONSE != 0
    }

    pub fn file_id(&self) -> (r: FileId)
        requires
            self.wf(),
        ensures
            r == ReadFileDataRef::decoded(self.bytes()).file_id,
    {
        FileId(self.data[1])
    }

    pub fn offset(&self) -> (r: EncodedVarint<'data>)
        requires
            self.wf(),
        ensures
            r.bytes() == tail(self.bytes(), 2),
            r.wf(),
    {
        Varint::start_decoding_unchecked(skip(self.data, 2))
    }

    pub fn length(&self) -> (r: EncodedVarint<'data>)
        requires
            self.wf(),
        ensures
            r.bytes() == tail(self.bytes(), 2 + spec_offset_size(self.bytes())),
            r.wf(),
    {
        let offset_size = (self.data[2] / 64) as usize + 1;
        Varint::start_decoding_unchecked(skip(self.data, 2 + offset_size))
    }

    /// Byte size of the encoded action.
    pub fn encoded_size_unchecked(&self) -> (r: usize)
        requires
            self.wf(),
        ensures
            r == ReadFileDataRef::decoded_size(self.bytes()),
    {
        let offset_size = self.offset().encoded_size_unchecked();
        let length_size = self.length().encoded_size_unchecked();
        2 + offset_size + length_size
    }

    /// # Errors
    /// Fails if the input is too short.
    pub fn encoded_size(&self) -> (r: Result<usize, SizeError>)
        ensures
            r is Ok <==> self.wf(),
            r matches Ok(size) ==> size == ReadFileDataRef::decoded_size(self.bytes()),
    {
        let len = self.data.len();
        if len < 3 {
            return Err(SizeError::MissingBytes);
        }
        let offset_size = (self.data[2] / 64) as usize + 1;
        if len < 3 + offset_size {
            return Err(SizeError::MissingBytes);
        }
        let length_size = (self.data[2 + offset_size] / 64) as usize + 1;
        if len < 2 + offset_size + length_size {
            return Err(SizeError::MissingBytes);
        }
        Ok(2 + offset_size + length_size)
    }

    pub fn complete_decoding(&self) -> (r: WithByteSize<ReadFileDataRef>)
        requires
            self.wf(),
        ensures
            r.item == ReadFileDataRef::decoded(self.bytes()),
            r.byte_size == ReadFileDataRef::decoded_size(self.bytes()),
    {
        let offset = self.offset().complete_decoding();
        let length = self.length().complete_decoding();
        WithByteSize {
            item: ReadFileDataRef {
                group: self.group(),
                response: self.response(),
                file_id: self.file_id(),
                offset: offset.item,
                length: length.item,
            },
            byte_size: 2 + offset.byte_size + length.byte_size,
        }
    }
}

/// Write access to an encoded `ReadFileData`.
pub struct EncodedReadFileDataMut<'data> {
    /// The bytes of the item, which this accessor edits in place.
    pub data: &'data mut [u8],
}

impl<'data> EncodedReadFileDataMut<'data> {
    /// The bytes this accessor looks at.
    pub open spec fn bytes(&self) -> Seq<u8> {
        self.data@
    }

    /// The bytes hold a complete action.
    pub open spec fn wf(&self) -> bool {
        ReadFileDataRef::complete(self.bytes())
    }

    pub fn new(data: &'data mut [u8]) -> (r: Self)
        ensures
            final(data)@ == final(r.data)@,
            r.bytes() == old(data)@,
    {
        Self { data }
    }

    /// Read only view of the same bytes.
    pub fn as_ref(&self) -> (r: EncodedReadFileData<'_>)
        ensures
            r.bytes() == self.bytes(),
    {
        EncodedReadFileData::new(&*self.data)
    }

    pub fn group(&self) -> (r: bool)
        requires
            self.wf(),
        ensures
            r == ReadFileDataRef::decoded(self.bytes()).group,
    {
        self.as_ref().group()
    }

    pub fn response(&self) -> (r: bool)
        requires
            self.wf(),
        ensures
            r == ReadFileDataRef::decoded(self.bytes()).response,
    {
        self.as_ref().response()
    }

    pub fn file_id(&self) -> (r: FileId)
        requires
            self.wf(),
        ensures
            r == ReadFileDataRef::decoded(self.bytes()).file_id,
    {
        self.as_ref().file_id()
    }

    pub fn offset(&self) -> (r: EncodedVarint<'_>)
        requires
            self.wf(),
        ensures
            r.bytes() == tail(self.bytes(), 2),
            r.wf(),
    {
        self.as_ref().offset()
    }

    pub fn length(&self) -> (r: EncodedVarint<'_>)
        requires
            self.wf(),
        ensures
            r.bytes() == tail(self.bytes(), 2 + spec_offset_size(self.bytes())),
            r.wf(),
    {
        self.as_ref().length()
    }

    /// Byte size of the encoded action.
    pub fn encoded_size_unchecked(&self) -> (r: usize)
        requires
            self.wf(),
        ensures
            r == ReadFileDataRef::decoded_size(self.bytes()),
    {
        self.as_ref().encoded_size_unchecked()
    }

    pub fn set_group(&mut self, group: bool)
        requires
            old(self).wf(),
        ensures
            final(final(self).data)@ == final(old(self).data)@,
            final(self).bytes() == old(self).bytes().update(
                0,
                with_flag(old(self).bytes()[0], flag::GROUP, group),
            ),
            final(self).wf(),
            ReadFileDataRef::decoded(final(self).bytes()) == (ReadFileDataRef {
                group,
                ..ReadFileDataRef::decoded(old(self).bytes())
            }),
    {
        proof {
            lemma_flag7(self.data@[0], group);
        }
        let ghost before = self.data@;
        if group {
            self.data[0] = self.data[0] | flag::GROUP;
        } else {
            self.data[0] = self.data[0] & !flag::GROUP;
        }
        assert(tail(self.data@, 2) =~= tail(before, 2));
        assert(tail(self.data@, 2 + spec_offset_size(before)) =~= tail(
            before,
            2 + spec_offset_size(before),
        ));
    }

    pub fn set_response(&mut self, response: bool)
        requires
            old(self).wf(),
        ensures
            final(final(self).data)@ == final(old(self).data)@,
            final(self).bytes() == old(self).bytes().update(
                0,
                with_flag(old(self).bytes()[0], flag::RESPONSE, response),
            ),
            final(self).wf(),
            ReadFileDataRef::decoded(final(self).bytes()) == (ReadFileDataRef {
                response,
                ..ReadFileDataRef::decoded(old(self).bytes())
            }),
    {
        proof {
            lemma_flag6(self.data@[0], response);
        }
        let ghost before = self.data@;
        if response {
            self.data[0] = self.data[0] | flag::RESPONSE;
        } else {
            self.data[0] = self.data[0] & !flag::RESPONSE;
        }
        assert(tail(self.data@, 2) =~= tail(before, 2));
        assert(tail(self.data@, 2 + spec_offset_size(before)) =~= tail(
            before,
            2 + spec_offset_size(before),
        ));
    }

    pub fn set_file_id(&mut self, file_id: FileId)
        requires
            old(self).wf(),
        ensures
            final(final(self).data)@ == final(old(self).data)@,
            final(self).bytes() == old(self).bytes().update(1, file_id.0),
            final(self).wf(),
            ReadFileDataRef::decoded(final(self).bytes()) == (ReadFileDataRef {
                file_id,
                ..ReadFileDataRef::decoded(old(self).bytes())
            }),
    {
        let ghost before = self.data@;
        self.data[1] = file_id.u8();
        assert(tail(self.data@, 2) =~= tail(before, 2));
        assert(tail(self.data@, 2 + spec_offset_size(before)) =~= tail(
            before,
            2 + spec_offset_size(before),
        ));
    }

    /// Mutable accessor on the offset field.
    pub fn offset_mut(&mut self) -> (r: EncodedVarintMut<'_>)
        requires
            old(self).wf(),
        ensures
            final(final(self).data)@ == final(old(self).data)@,
            r.bytes() == old(self).bytes().subrange(2, 2 + spec_offset_size(old(self).bytes())),
            r.wf(),
            final(self).bytes() == replaced(old(self).bytes(), 2, 2 + spec_offset_size(old(self).bytes()), final(r.data)@),
    {
        let offset_size = (self.data[2] / 64) as usize + 1;
        Varint::start_decoding_unchecked_mut(slice_mut(self.data, 2, 2 + offset_size))
    }

    /// Mutable accessor on the length field.
    pub fn length_mut(&mut self) -> (r: EncodedVarintMut<'_>)
        requires
            old(self).wf(),
        ensures
            final(final(self).data)@ == final(old(self).data)@,
            r.bytes() == old(self).bytes().subrange(
                2 + spec_offset_size(old(self).bytes()),
                ReadFileDataRef::decoded_size(old(self).bytes()),
            ),
            r.wf(),
            final(self).bytes() == replaced(old(self).bytes(), 2 + spec_offset_size(old(self).bytes()), ReadFileDataRef::decoded_size(old(self).bytes()), final(r.data)@),
    {
        let offset_size = (self.data[2] / 64) as usize + 1;
        let start = 2 + offset_size;
        let length_size = (self.data[start] / 64) as usize + 1;
        Varint::start_decoding_unchecked_mut(slice_mut(self.data, start, start + length_size))
    }

    /// # Errors
    /// Fails if the input is too short.
    pub fn encoded_size(&self) -> (r: Result<usize, SizeError>)
        ensures
            r is Ok <==> self.wf(),
            r matches Ok(size) ==> size == ReadFileDataRef::decoded_size(self.bytes()),
    {
        self.as_ref().encoded_size()
    }

    pub fn complete_decoding(&self) -> (r: WithByteSize<ReadFileDataRef>)
        requires
            self.wf(),
        ensures
            r.item == ReadFileDataRef::decoded(self.bytes()),
            r.byte_size == ReadFileDataRef::decoded_size(self.bytes()),
    {
        self.as_ref().complete_decoding()
    }
}

/// Read data from a file.
#[derive(Copy, Clone, Eq, PartialEq, Ord, PartialOrd, Hash, Debug)]
pub struct ReadFileData {
    /// Group with next action
    pub group: bool,
    /// Ask for a response (read data via ReturnFileData)
    ///
    /// Generally true unless you just want to trigger a read on the filesystem
    pub response: bool,
    /// File ID of the file to read
    pub file_id: FileId,
    /// Offset at which to start the reading
    pub offset: Varint,
    /// Number of bytes to read after offset
    pub length: Varint,
}

impl ReadFileData {
    pub fn as_ref(&self) -> (r: ReadFileDataRef)
        ensures
            r.group == self.group,
            r.response == self.response,
            r.file_id == self.file_id,
            r.offset == self.offset,
            r.length == self.length,
    {
        ReadFileDataRef {
            group: self.group,
            response: self.response,
            file_id: self.file_id,
            offset: self.offset,
            length: self.length,
        }
    }
}

} // verus!
