//! Action writing data to a file.
use crate::decodable::{SizeError, WithByteSize, copy_at, lemma_splice_byte, lemma_splice_concat, skip, skip_mut, slice_mut, splice, tail, replaced, written_at_head};
use crate::define::{EncodableData, EncodableDataRef};
use crate::v1_2::action::defines::FileId;
use crate::v1_2::define::flag::{
    control_byte, ctrl_byte, lemma_ctrl_byte, lemma_flag6, lemma_flag7, with_flag,
};
use crate::v1_2::define::{flag, op_code};
use crate::varint::{self, EncodedVarint, EncodedVarintMut, Varint};
use vstd::prelude::*;

verus! {


broadcast use varint::group_varint_value;

/// Writes data to a file.
#[derive(Copy, Clone, Eq, PartialEq, Ord, PartialOrd, Hash, Debug)]
pub struct WriteFileDataRef<'data> {
    /// Group with next action
    pub group: bool,
    /// Ask for a response (a status)
    pub response: bool,
    /// File ID of the file to read
    pub file_id: FileId,
    /// Offset at which to start the reading
    pub offset: Varint,
    /// Data to write
    pub data: EncodableDataRef<'data>,
}

/// Byte size of the offset field of an encoded action.
pub open spec fn spec_offset_size(data: Seq<u8>) -> int {
    varint::spec_encoded_size(tail(data, 2))
}

/// Byte size of the length field of an encoded action.
pub open spec fn spec_length_size(data: Seq<u8>) -> int {
    varint::spec_encoded_size(tail(data, 2 + spec_offset_size(data)))
}

/// Payload length of an encoded action.
pub open spec fn spec_length(data: Seq<u8>) -> int {
    varint::spec_decoded(tail(data, 2 + spec_offset_size(data))) as int
}

/// Position of the payload in an encoded action.
pub open spec fn spec_payload_start(data: Seq<u8>) -> int {
    2 + spec_offset_size(data) + spec_length_size(data)
}

impl<'data> WriteFileDataRef<'data> {
    /// Bytes of the encoded action.
    pub open spec fn encoding(self) -> Seq<u8> {
        seq![ctrl_byte(op_code::WRITE_FILE_DATA, self.group, self.response), self.file_id.0]
            + varint::spec_encoding(self.offset@) + varint::spec_encoding(
            self.data@.len() as u32,
        ) + self.data@
    }

    /// `data` starts with a complete encoded action.
    pub open spec fn complete(data: Seq<u8>) -> bool {
        &&& data.len() >= 3
        &&& varint::spec_complete(tail(data, 2))
        &&& varint::spec_complete(tail(data, 2 + spec_offset_size(data)))
        &&& data.len() >= spec_payload_start(data) + spec_length(data)
    }

    /// Byte size of the action encoded at the start of `data`.
    pub open spec fn decoded_size(data: Seq<u8>) -> int {
        spec_payload_start(data) + spec_length(data)
    }

    /// `self` is the action encoded at the start of `data`.
    pub open spec fn decoded_from(self, data: Seq<u8>) -> bool {
        &&& self.group == (data[0] & 0x80 != 0)
        &&& self.response == (data[0] & 0x40 != 0)
        &&& self.file_id == FileId(data[1])
        &&& self.offset@ == varint::spec_decoded(tail(data, 2))
        &&& self.data@ == data.subrange(
            spec_payload_start(data),
            spec_payload_start(data) + spec_length(data),
        )
    }

    /// Most common builder `WriteFileData` builder.
    ///
    /// group = false
    /// response = true
    pub fn new(file_id: FileId, offset: Varint, data: EncodableDataRef<'data>) -> (r: Self)
        ensures
            r == (WriteFileDataRef { group: false, response: true, file_id, offset, data }),
    {
        Self { group: false, response: true, file_id, offset, data }
    }

    pub fn to_owned(&self) -> (r: WriteFileData)
        ensures
            r.group == self.group,
            r.response == self.response,
            r.file_id == self.file_id,
            r.offset == self.offset,
            r.data@ == self.data@,
    {
        WriteFileData {
            group: self.group,
            response: self.response,
            file_id: self.file_id,
            offset: self.offset,
            data: self.data.to_owned(),
        }
    }

    /// Size in bytes of the encoded action.
    pub fn encoded_size(&self) -> (r: usize)
        ensures
            r == self.encoding().len(),
    {
        let length = self.data.length();
        2 + self.offset.encoded_size() + length.encoded_size() + self.data.len()
    }

    /// Writes the encoded action at the start of `out`.
    ///
    /// # Errors
    /// Fails with the required size if `out` is too small.
    pub fn encode_in(&self, out: &mut [u8]) -> (r: Result<usize, usize>)
        ensures
            r is Ok <==> old(out)@.len() >= self.encoding().len(),
            r matches Ok(size) ==> size == self.encoding().len() && written_at_head(
                final(out)@,
                old(out)@,
                self.encoding(),
            ),
            r matches Err(size) ==> size == self.encoding().len() && final(out)@ == old(out)@,
    {
        let size = self.encoded_size();
        if out.len() < size {
            return Err(size);
        }
        let ghost before = out@;
        let ctrl = control_byte(op_code::WRITE_FILE_DATA, self.group, self.response);
        let ghost head = seq![ctrl, self.file_id.0];
        proof {
            lemma_splice_byte(out@, 0, ctrl);
        }
        out[0] = ctrl;
        proof {
            lemma_splice_byte(out@, 1, self.file_id.0);
            lemma_splice_concat(before, 0, seq![ctrl], seq![self.file_id.0]);
            assert(seq![ctrl] + seq![self.file_id.0] =~= head);
        }
        out[1] = self.file_id.u8();
        let offset_size = self.offset.encode_at(out, 2);
        let ghost eo = varint::spec_encoding(self.offset@);
        proof {
            lemma_splice_concat(before, 0, head, eo);
        }
        let length = self.data.length();
        let length_size = length.encode_at(out, 2 + offset_size);
        let ghost el = varint::spec_encoding(length@);
        proof {
            lemma_splice_concat(before, 0, head + eo, el);
        }
        copy_at(out, 2 + offset_size + length_size, self.data.data());
        proof {
            lemma_splice_concat(before, 0, head + eo + el, self.data@);
            assert(head + eo + el + self.data@ =~= self.encoding());
        }
        Ok(size)
    }

    /// # Errors
    /// Fails if the input is too short.
    pub fn decode(data: &'data [u8]) -> (r: Result<WithByteSize<WriteFileDataRef<'data>>, SizeError>)
        ensures
            r is Ok <==> Self::complete(data@),
            r matches Ok(w) ==> w.item.decoded_from(data@) && w.byte_size == Self::decoded_size(
                data@,
            ),
    {
        let decoder = Self::start_decoding(data)?;
        Ok(decoder.item.complete_decoding())
    }

    /// # Errors
    /// Fails if the input is too short.
    pub fn start_decoding(data: &'data [u8]) -> (r: Result<
        WithByteSize<EncodedWriteFileData<'data>>,
        SizeError,
    >)
        ensures
            r is Ok <==> Self::complete(data@),
            r matches Ok(w) ==> w.item.bytes() == data@ && w.byte_size == Self::decoded_size(
                data@,
            ),
    {
        let decoder = EncodedWriteFileData::new(data);
        let size = decoder.encoded_size()?;
        Ok(WithByteSize { item: decoder, byte_size: size })
    }

    /// # Errors
    /// Fails if the input is too short.
    pub fn start_decoding_mut(data: &mut [u8]) -> (r: Result<
        WithByteSize<EncodedWriteFileDataMut<'_>>,
        SizeError,
    >)
        ensures
            r is Err ==> final(data)@ == old(data)@,
            r matches Ok(w) ==> final(data)@ == final(w.item.data)@,
            r is Ok <==> Self::complete(old(data)@),
            r matches Ok(w) ==> w.item.bytes() == old(data)@ && w.byte_size
                == Self::decoded_size(old(data)@),
    {
        let size = EncodedWriteFileData::new(&*data).encoded_size()?;
        Ok(WithByteSize { item: EncodedWriteFileDataMut::new(data), byte_size: size })
    }
}

/// Decoding an encoded `WriteFileData` gives it back, whatever follows it.
pub proof fn lemma_roundtrip(op: WriteFileDataRef, rest: Seq<u8>)
    requires
        op.offset@ <= varint::U32_MAX,
        op.data@.len() <= varint::U32_MAX,
    ensures
        WriteFileDataRef::complete(op.encoding() + rest),
        WriteFileDataRef::decoded_size(op.encoding() + rest) == op.encoding().len(),
        op.decoded_from(op.encoding() + rest),
{
    let d = op.encoding() + rest;
    let eo = varint::spec_encoding(op.offset@);
    let el = varint::spec_encoding(op.data@.len() as u32);
    lemma_ctrl_byte(op_code::WRITE_FILE_DATA, op.group, op.response);
    varint::lemma_roundtrip(op.offset@, el + op.data@ + rest);
    varint::lemma_roundtrip(op.data@.len() as u32, op.data@ + rest);
    assert(tail(d, 2) =~= eo + (el + op.data@ + rest));
    assert(tail(d, 2 + eo.len() as int) =~= el + (op.data@ + rest));
    let start: int = 2 + eo.len() as int + el.len() as int;
    assert(d.subrange(start, start + op.data@.len()) =~= op.data@);
    assert(d[0] == ctrl_byte(op_code::WRITE_FILE_DATA, op.group, op.response));
    assert(d[1] == op.file_id.0);
}

/// Read access to an encoded `WriteFileData`.
pub struct EncodedWriteFileData<'data> {
    data: &'data [u8],
}

impl<'data> EncodedWriteFileData<'data> {
    /// The bytes this reader looks at.
    pub closed spec fn bytes(&self) -> Seq<u8> {
        self.data@
    }

    /// The bytes hold a complete action.
    pub open spec fn wf(&self) -> bool {
        WriteFileDataRef::complete(self.bytes())
    }

    pub fn new(data: &'data [u8]) -> (r: Self)
        ensures
            r.bytes() == data@,
    {
        Self { data }
    }

    pub fn group(&self) -> (r: bool)
        requires
            self.wf(),
        ensures
            r == (self.bytes()[0] & 0x80 != 0),
    {
        self.data[0] & flag::GROUP != 0
    }

    pub fn response(&self) -> (r: bool)
        requires
            self.wf(),
        ensures
            r == (self.bytes()[0] & 0x40 != 0),
    {
        self.data[0] & flag::RESPONSE != 0
    }

    pub fn file_id(&self) -> (r: FileId)
        requires
            self.wf(),
        ensures
            r == FileId(self.bytes()[1]),
    {
        FileId(self.data[1])
    }

    pub fn offset(&self) -> (r: EncodedVarint<'data>)
        requires
            self.wf(),
        ensures
            r.bytes() == tail(self.bytes(), 2),
            r.wf(),
    {
        Varint::start_decoding_unchecked(skip(self.data, 2))
    }

    pub fn length(&self) -> (r: EncodedVarint<'data>)
        requires
            self.wf(),
        ensures
            r.bytes() == tail(self.bytes(), 2 + spec_offset_size(self.bytes())),
            r.wf(),
    {
        let offset_size = self.offset().encoded_size_unchecked();
        Varint::start_decoding_unchecked(skip(self.data, 2 + offset_size))
    }

    /// Return the payload
    pub fn data(&self) -> (r: &'data [u8])
        requires
            self.wf(),
        ensures
            r@ == self.bytes().subrange(
                spec_payload_start(self.bytes()),
                spec_payload_start(self.bytes()) + spec_length(self.bytes()),
            ),
    {
        let offset_size = self.offset().encoded_size_unchecked();
        let length = self.length().complete_decoding();
        let start = 2 + offset_size + length.byte_size;
        let payload = skip(self.data, start);
        let r = crate::decodable::take(payload, length.item.usize());
        assert(r@ =~= self.data@.subrange(start as int, start + length.item@));
        r
    }

    /// Byte size of the encoded action.
    pub fn encoded_size_unchecked(&self) -> (r: usize)
        requires
            self.wf(),
        ensures
            r == WriteFileDataRef::decoded_size(self.bytes()),
    {
        let offset_size = self.offset().encoded_size_unchecked();
        let length = self.length().complete_decoding();
        2 + offset_size + length.byte_size + length.item.usize()
    }

    /// # Errors
    /// Fails if the input is too short.
    pub fn encoded_size(&self) -> (r: Result<usize, SizeError>)
        ensures
            r is Ok <==> self.wf(),
            r matches Ok(size) ==> size == WriteFileDataRef::decoded_size(self.bytes()),
    {
        let len = self.data.len();
        if len < 3 {
            return Err(SizeError::MissingBytes);
        }
        let offset_size = (self.data[2] / 64) as usize + 1;
        if len < 3 + offset_size {
            return Err(SizeError::MissingBytes);
        }
        let length = Varint::decode(skip(self.data, 2 + offset_size));
        match length {
            Err(e) => Err(e),
            Ok(length) => {
                if len - (2 + offset_size + length.byte_size) < length.item.usize() {
                    return Err(SizeError::MissingBytes);
                }
                Ok(2 + offset_size + length.byte_size + length.item.usize())
            },
        }
    }

    pub fn complete_decoding(&self) -> (r: WithByteSize<WriteFileDataRef<'data>>)
        requires
            self.wf(),
        ensures
            r.item.decoded_from(self.bytes()),
            r.byte_size == WriteFileDataRef::decoded_size(self.bytes()),
    {
        let offset = self.offset().complete_decoding();
        let length = self.length().complete_decoding();
        let payload = self.data();
        WithByteSize {
            item: WriteFileDataRef {
                group: self.group(),
                response: self.response(),
                file_id: self.file_id(),
                offset: offset.item,
                data: EncodableDataRef::new_unchecked(payload),
            },
            byte_size: 2 + offset.byte_size + length.byte_size + length.item.usize(),
        }
    }
}

/// Write access to an encoded `WriteFileData`.
pub struct EncodedWriteFileDataMut<'data> {
    /// The bytes of the item, which this accessor edits in place.
    pub data: &'data mut [u8],
}

impl<'data> EncodedWriteFileDataMut<'data> {
    /// The bytes this accessor looks at.
    pub open spec fn bytes(&self) -> Seq<u8> {
        self.data@
    }

    /// The bytes hold a complete action.
    pub open spec fn wf(&self) -> bool {
        WriteFileDataRef::complete(self.bytes())
    }

    pub fn new(data: &'data mut [u8]) -> (r: Self)
        ensures
            final(data)@ == final(r.data)@,
            r.bytes() == old(data)@,
    {
        Self { data }
    }

    /// Read only view of the same bytes.
    pub fn as_ref(&self) -> (r: EncodedWriteFileData<'_>)
        ensures
            r.bytes() == self.bytes(),
    {
        EncodedWriteFileData::new(&*self.data)
    }

    pub fn group(&self) -> (r: bool)
        requires
            self.wf(),
        ensures
            r == (self.bytes()[0] & 0x80 != 0),
    {
        self.as_ref().group()
    }

    pub fn response(&self) -> (r: bool)
        requires
            self.wf(),
        ensures
            r == (self.bytes()[0] & 0x40 != 0),
    {
        self.as_ref().response()
    }

    pub fn file_id(&self) -> (r: FileId)
        requires
            self.wf(),
        ensures
            r == FileId(self.bytes()[1]),
    {
        self.as_ref().file_id()
    }

    pub fn offset(&self) -> (r: EncodedVarint<'_>)
        requires
            self.wf(),
        ensures
            r.bytes() == tail(self.bytes(), 2),
            r.wf(),
    {
        self.as_ref().offset()
    }

    pub fn length(&self) -> (r: EncodedVarint<'_>)
        requires
            self.wf(),
        ensures
            r.bytes() == tail(self.bytes(), 2 + spec_offset_size(self.bytes())),
            r.wf(),
    {
        self.as_ref().length()
    }

    /// Return the payload
    pub fn data(&self) -> (r: &[u8])
        requires
            self.wf(),
        ensures
            r@ == self.bytes().subrange(
                spec_payload_start(self.bytes()),
                spec_payload_start(self.bytes()) + spec_length(self.bytes()),
            ),
    {
        self.as_ref().data()
    }

    /// Byte size of the encoded action.
    pub fn encoded_size_unchecked(&self) -> (r: usize)
        requires
            self.wf(),
        ensures
            r == WriteFileDataRef::decoded_size(self.bytes()),
    {
        self.as_ref().encoded_size_unchecked()
    }

    pub fn set_group(&mut self, group: bool)
        requires
            old(self).wf(),
        ensures
            final(final(self).data)@ == final(old(self).data)@,
            final(self).bytes() == old(self).bytes().update(
                0,
                with_flag(old(self).bytes()[0], flag::GROUP, group),
            ),
            (final(self).bytes()[0] & 0x80 != 0) == group,
            final(self).bytes()[0] & 0x40 == old(self).bytes()[0] & 0x40,
            final(self).bytes()[0] & 0x3F == old(self).bytes()[0] & 0x3F,
    {
        proof {
            lemma_flag7(self.data@[0], group);
        }
        if group {
            self.data[0] = self.data[0] | flag::GROUP;
        } else {
            self.data[0] = self.data[0] & !flag::GROUP;
        }
    }

    pub fn set_response(&mut self, response: bool)
        requires
            old(self).wf(),
        ensures
            final(final(self).data)@ == final(old(self).data)@,
            final(self).bytes() == old(self).bytes().update(
                0,
                with_flag(old(self).bytes()[0], flag::RESPONSE, response),
            ),
            (final(self).bytes()[0] & 0x40 != 0) == response,
            final(self).bytes()[0] & 0x80 == old(self).bytes()[0] & 0x80,
            final(self).bytes()[0] & 0x3F == old(self).bytes()[0] & 0x3F,
    {
        proof {
            lemma_flag6(self.data@[0], response);
        }
        if response {
            self.data[0] = self.data[0] | flag::RESPONSE;
        } else {
            self.data[0] = self.data[0] & !flag::RESPONSE;
        }
    }

    pub fn set_file_id(&mut self, file_id: FileId)
        requires
            old(self).wf(),
        ensures
            final(final(self).data)@ == final(old(self).data)@,
            final(self).bytes() == old(self).bytes().update(1, file_id.0),
    {
        self.data[1] = file_id.u8();
    }

    /// Mutable accessor on the offset field.
    pub fn offset_mut(&mut self) -> (r: EncodedVarintMut<'_>)
        requires
            old(self).wf(),
        ensures
            final(final(self).data)@ == final(old(self).data)@,
            r.bytes() == old(self).bytes().subrange(2, 2 + spec_offset_size(old(self).bytes())),
            r.wf(),
            final(self).bytes() == replaced(old(self).bytes(), 2, 2 + spec_offset_size(old(self).bytes()), final(r.data)@),
    {
        let offset_size = (self.data[2] / 64) as usize + 1;
        Varint::start_decoding_unchecked_mut(slice_mut(self.data, 2, 2 + offset_size))
    }

    /// Mutable accessor on the length field.
    ///
    /// The length gives the size of the payload that follows it: changing one without the
    /// other breaks the encoding.
    pub fn length_mut(&mut self) -> (r: EncodedVarintMut<'_>)
        requires
            old(self).wf(),
        ensures
            final(final(self).data)@ == final(old(self).data)@,
            r.bytes() == old(self).bytes().subrange(
                2 + spec_offset_size(old(self).bytes()),
                spec_payload_start(old(self).bytes()),
            ),
            r.wf(),
            final(self).bytes() == replaced(old(self).bytes(), 2 + spec_offset_size(old(self).bytes()), spec_payload_start(old(self).bytes()), final(r.data)@),
    {
        let offset_size = (self.data[2] / 64) as usize + 1;
        let start = 2 + offset_size;
        let length_size = (self.data[start] / 64) as usize + 1;
        Varint::start_decoding_unchecked_mut(slice_mut(self.data, start, start + length_size))
    }

    /// Mutable access to the payload.
    pub fn data_mut(&mut self) -> (r: &mut [u8])
        requires
            old(self).wf(),
        ensures
            final(final(self).data)@ == final(old(self).data)@,
            r@ == old(self).bytes().subrange(
                spec_payload_start(old(self).bytes()),
                spec_payload_start(old(self).bytes()) + spec_length(old(self).bytes()),
            ),
            final(self).bytes() == old(self).bytes().subrange(
                0,
                spec_payload_start(old(self).bytes()),
            ) + final(r)@ + old(self).bytes().subrange(
                spec_payload_start(old(self).bytes()) + spec_length(old(self).bytes()),
                old(self).bytes().len() as int,
            ),
    {
        let offset_size = (self.data[2] / 64) as usize + 1;
        let length = Varint::decode_unchecked(skip(self.data, 2 + offset_size));
        let start = 2 + offset_size + length.byte_size;
        let end = start + length.item.usize();
        let payload = skip_mut(self.data, start);
        let (r, _) = payload.split_at_mut(end - start);
        assert(r@ =~= old(self).bytes().subrange(start as int, end as int));
        r
    }

    /// # Errors
    /// Fails if the input is too short.
    pub fn encoded_size(&self) -> (r: Result<usize, SizeError>)
        ensures
            r is Ok <==> self.wf(),
            r matches Ok(size) ==> size == WriteFileDataRef::decoded_size(self.bytes()),
    {
        self.as_ref().encoded_size()
    }

    pub fn complete_decoding(&self) -> (r: WithByteSize<WriteFileDataRef<'_>>)
        requires
            self.wf(),
        ensures
            r.item.decoded_from(self.bytes()),
            r.byte_size == WriteFileDataRef::decoded_size(self.bytes()),
    {
        self.as_ref().complete_decoding()
    }
}

/// Writes data to a file.
#[derive(Eq, PartialEq, Ord, PartialOrd, Hash, Debug)]
pub struct WriteFileData {
    /// Group with next action
    pub group: bool,
    /// Ask for a response (a status)
    pub response: bool,
    /// File ID of the file to read
    pub file_id: FileId,
    /// Offset at which to start the reading
    pub offset: Varint,
    /// Data to write
    pub data: EncodableData,
}

impl WriteFileData {
    pub fn as_ref(&self) -> (r: WriteFileDataRef<'_>)
        ensures
            r.group == self.group,
            r.response == self.response,
            r.file_id == self.file_id,
            r.offset == self.offset,
            r.data@ == self.data@,
    {
        WriteFileDataRef {
            group: self.group,
            response: self.response,
            file_id: self.file_id,
            offset: self.offset,
            data: self.data.as_ref(),
        }
    }
}

} // verus!
