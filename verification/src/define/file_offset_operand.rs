//! A file identifier followed by an offset in that file.
use crate::decodable::{skip, skip_mut, slice_mut, tail, replaced};
use crate::define::FileId;
use crate::varint::{self, EncodedVarint, EncodedVarintMut, Varint};
use vstd::prelude::*;

verus! {


/// `data` starts with a file identifier and a complete offset.
pub open spec fn spec_complete(data: Seq<u8>) -> bool {
    data.len() >= 2 && varint::spec_complete(tail(data, 1))
}

/// Read access to an encoded file offset operand.
pub struct EncodedFileOffsetOperand<'data> {
    data: &'data [u8],
}

impl<'data> EncodedFileOffsetOperand<'data> {
    /// The bytes this reader looks at.
    pub closed spec fn bytes(&self) -> Seq<u8> {
        self.data@
    }

    pub fn new(data: &'data [u8]) -> (r: Self)
        ensures
            r.bytes() == data@,
    {
        Self { data }
    }

    pub fn file_id(&self) -> (r: FileId)
        requires
            spec_complete(self.bytes()),
        ensures
            r == FileId(self.bytes()[0]),
    {
        FileId(self.data[0])
    }

    pub fn offset(&self) -> (r: EncodedVarint<'data>)
        requires
            spec_complete(self.bytes()),
        ensures
            r.bytes() == tail(self.bytes(), 1),
            r.wf(),
    {
        Varint::start_decoding_unchecked(skip(self.data, 1))
    }
}

/// Write access to an encoded file offset operand.
pub struct EncodedFileOffsetOperandMut<'data> {
    /// The bytes of the item, which this accessor edits in place.
    pub data: &'data mut [u8],
}

impl<'data> EncodedFileOffsetOperandMut<'data> {
    /// The bytes this accessor looks at.
    pub open spec fn bytes(&self) -> Seq<u8> {
        self.data@
    }

    pub fn new(data: &'data mut [u8]) -> (r: Self)
        ensures
            final(data)@ == final(r.data)@,
            r.bytes() == old(data)@,
    {
        Self { data }
    }

    pub fn file_id(&self) -> (r: FileId)
        requires
            spec_complete(self.bytes()),
        ensures
            r == FileId(self.bytes()[0]),
    {
        FileId(self.data[0])
    }

    pub fn set_file_id(&mut self, file_id: FileId)
        requires
            spec_complete(old(self).bytes()),
        ensures
            final(final(self).data)@ == final(old(self).data)@,
            final(self).bytes() == old(self).bytes().update(0, file_id.0),
    {
        self.data[0] = file_id.0;
    }

    pub fn offset_mut(&mut self) -> (r: EncodedVarintMut<'_>)
        requires
            spec_complete(old(self).bytes()),
        ensures
            final(final(self).data)@ == final(old(self).data)@,
            r.bytes() == old(self).bytes().subrange(
                1,
                1 + varint::spec_encoded_size(tail(old(self).bytes(), 1)),
            ),
            r.wf(),
            final(self).bytes() == replaced(
                old(self).bytes(),
                1,
                1 + varint::spec_encoded_size(tail(old(self).bytes(), 1)),
                final(r.data)@,
            ),
    {
        let offset_size = (self.data[1] / 64) as usize + 1;
        Varint::start_decoding_unchecked_mut(slice_mut(self.data, 1, 1 + offset_size))
    }
}

} // verus!
