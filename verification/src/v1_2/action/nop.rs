//! Action that does nothing.
use crate::decodable::{splice, written_at_head, SizeError, WithByteSize};
use crate::v1_2::define::flag::{ctrl_byte, lemma_ctrl_byte, lemma_flag6, lemma_flag7, with_flag};
use crate::v1_2::define::{flag, op_code};
use vstd::prelude::*;

verus! {

/// Maximum byte size of an encoded Nop
pub const MAX_SIZE: usize = 1;

/// This action has a fixed size
pub const SIZE: usize = 1;

/// Does nothing.
#[derive(Copy, Clone, Eq, PartialEq, Ord, PartialOrd, Hash, Debug)]
pub struct NopRef {
    /// Group with next action
    pub group: bool,
    /// Ask for a response (status)
    pub response: bool,
}

/// The byte of an encoded Nop holding `group` and `response`.
pub open spec fn spec_byte(group: bool, response: bool) -> u8 {
    ctrl_byte(op_code::NOP, group, response)
}

impl NopRef {
    /// Bytes of the encoded action.
    pub open spec fn encoding(self) -> Seq<u8> {
        seq![spec_byte(self.group, self.response)]
    }

    /// The action encoded at the start of `data`.
    pub open spec fn decoded(data: Seq<u8>) -> NopRef {
        NopRef { group: data[0] & 0x80 != 0, response: data[0] & 0x40 != 0 }
    }

    /// `data` starts with a complete encoded action.
    pub open spec fn complete(data: Seq<u8>) -> bool {
        data.len() >= SIZE
    }

    pub fn new(group: bool, response: bool) -> (r: Self)
        ensures
            r == (NopRef { group, response }),
    {
        Self { group, response }
    }

    fn byte(&self) -> (r: u8)
        ensures
            r == spec_byte(self.group, self.response),
    {
        op_code::NOP | if self.group {
            flag::GROUP
        } else {
            0
        } | if self.response {
            flag::RESPONSE
        } else {
            0
        }
    }

    /// Encodes the Item into a fixed size array
    pub fn encode_to_array(&self) -> (r: [u8; 1])
        ensures
            r@ == self.encoding(),
    {
        let r = [self.byte()];
        assert(r@ =~= self.encoding());
        r
    }

    pub fn to_owned(&self) -> (r: Nop)
        ensures
            r.group == self.group,
            r.response == self.response,
    {
        Nop { group: self.group, response: self.response }
    }

    /// Size in bytes of the encoded action.
    pub fn encoded_size(&self) -> (r: usize)
        ensures
            r == self.encoding().len(),
    {
        SIZE
    }

    /// Writes the encoded action at the start of `out`.
    ///
    /// # Errors
    /// Fails with the required size if `out` is too small.
    pub fn encode_in(&self, out: &mut [u8]) -> (r: Result<usize, usize>)
        ensures
            r is Ok <==> old(out)@.len() >= self.encoding().len(),
            r matches Ok(size) ==> size == self.encoding().len() && written_at_head(
                final(out)@,
                old(out)@,
                self.encoding(),
            ),
            r matches Err(size) ==> size == self.encoding().len() && final(out)@ == old(out)@,
    {
        if out.len() < SIZE {
            return Err(SIZE);
        }
        out[0] = self.byte();
        assert(out@ =~= splice(old(out)@, 0, self.encoding()));
        Ok(SIZE)
    }

    /// # Errors
    /// Fails if the input is empty.
    pub fn decode(data: &[u8]) -> (r: Result<WithByteSize<NopRef>, SizeError>)
        ensures
            r is Ok <==> Self::complete(data@),
            r matches Ok(w) ==> w.item == Self::decoded(data@) && w.byte_size == SIZE,
    {
        let decoder = Self::start_decoding(data)?;
        Ok(decoder.item.complete_decoding())
    }

    /// # Errors
    /// Fails if the input is empty.
    pub fn start_decoding(data: &[u8]) -> (r: Result<WithByteSize<EncodedNop<'_>>, SizeError>)
        ensures
            r is Ok <==> Self::complete(data@),
            r matches Ok(w) ==> w.item.bytes() == data@ && w.byte_size == SIZE,
    {
        if data.len() < SIZE {
            return Err(SizeError::MissingBytes);
        }
        Ok(WithByteSize { item: EncodedNop::new(data), byte_size: SIZE })
    }

    /// # Errors
    /// Fails if the input is empty.
    pub fn start_decoding_mut(data: &mut [u8]) -> (r: Result<
        WithByteSize<EncodedNopMut<'_>>,
        SizeError,
    >)
        ensures
            r is Err ==> final(data)@ == old(data)@,
            r matches Ok(w) ==> final(data)@ == final(w.item.data)@,
            r is Ok <==> Self::complete(old(data)@),
            r matches Ok(w) ==> w.item.bytes() == old(data)@ && w.byte_size == SIZE,
    {
        if data.len() < SIZE {
            return Err(SizeError::MissingBytes);
        }
        Ok(WithByteSize { item: EncodedNopMut::new(data), byte_size: SIZE })
    }
}

/// Decoding an encoded Nop gives it back, whatever follows it.
pub proof fn lemma_roundtrip(op: NopRef, rest: Seq<u8>)
    ensures
        NopRef::complete(op.encoding() + rest),
        NopRef::decoded(op.encoding() + rest) == op,
{
    lemma_ctrl_byte(op_code::NOP, op.group, op.response);
    assert((op.encoding() + rest)[0] == spec_byte(op.group, op.response));
}

/// Read access to an encoded Nop.
#[derive(Copy, Clone, Eq, PartialEq, Debug)]
pub struct EncodedNop<'data> {
    data: &'data [u8],
}

impl<'data> EncodedNop<'data> {
    /// The bytes this reader looks at.
    pub closed spec fn bytes(&self) -> Seq<u8> {
        self.data@
    }

    /// The bytes hold a complete action.
    pub open spec fn wf(&self) -> bool {
        NopRef::complete(self.bytes())
    }

    pub fn new(data: &'data [u8]) -> (r: Self)
        ensures
            r.bytes() == data@,
    {
        Self { data }
    }

    pub fn group(&self) -> (r: bool)
        requires
            self.wf(),
        ensures
            r == NopRef::decoded(self.bytes()).group,
    {
        self.data[0] & flag::GROUP != 0
    }

    pub fn response(&self) -> (r: bool)
        requires
            self.wf(),
        ensures
            r == NopRef::decoded(self.bytes()).response,
    {
        self.data[0] & flag::RESPONSE != 0
    }

    pub fn encoded_size_unchecked(&self) -> (r: usize)
        ensures
            r == SIZE,
    {
        SIZE
    }

    /// # Errors
    /// Fails if the input is empty.
    pub fn encoded_size(&self) -> (r: Result<usize, SizeError>)
        ensures
            r is Ok <==> self.wf(),
            r matches Ok(size) ==> size == SIZE,
    {
        if self.data.len() < SIZE {
            return Err(SizeError::MissingBytes);
        }
        Ok(SIZE)
    }

    pub fn complete_decoding(&self) -> (r: WithByteSize<NopRef>)
        requires
            self.wf(),
        ensures
            r.item == NopRef::decoded(self.bytes()),
            r.byte_size == SIZE,
    {
        WithByteSize {
            item: NopRef { group: self.group(), response: self.response() },
            byte_size: SIZE,
        }
    }
}

/// Write access to an encoded Nop.
#[derive(Eq, PartialEq, Debug)]
pub struct EncodedNopMut<'data> {
    /// The bytes of the item, which this accessor edits in place.
    pub data: &'data mut [u8],
}

impl<'data> EncodedNopMut<'data> {
    /// The bytes this accessor looks at.
    pub open spec fn bytes(&self) -> Seq<u8> {
        self.data@
    }

    /// The bytes hold a complete action.
    pub open spec fn wf(&self) -> bool {
        NopRef::complete(self.bytes())
    }

    pub fn new(data: &'data mut [u8]) -> (r: Self)
        ensures
            final(data)@ == final(r.data)@,
            r.bytes() == old(data)@,
    {
        Self { data }
    }

    /// Read only view of the same bytes.
    pub fn as_ref(&self) -> (r: EncodedNop<'_>)
        ensures
            r.bytes() == self.bytes(),
    {
        EncodedNop::new(&*self.data)
    }

    pub fn group(&self) -> (r: bool)
        requires
            self.wf(),
        ensures
            r == NopRef::decoded(self.bytes()).group,
    {
        self.as_ref().group()
    }

    pub fn response(&self) -> (r: bool)
        requires
            self.wf(),
        ensures
            r == NopRef::decoded(self.bytes()).response,
    {
        self.as_ref().response()
    }

    pub fn encoded_size_unchecked(&self) -> (r: usize)
        ensures
            r == SIZE,
    {
        SIZE
    }

    pub fn set_group(&mut self, group: bool)
        requires
            old(self).wf(),
        ensures
            final(final(self).data)@ == final(old(self).data)@,
            final(self).bytes() == old(self).bytes().update(
                0,
                with_flag(old(self).bytes()[0], flag::GROUP, group),
            ),
            NopRef::decoded(final(self).bytes()) == (NopRef { group, ..NopRef::decoded(old(self).bytes()) }),
    {
        proof {
            lemma_flag7(self.data@[0], group);
        }
        if group {
            self.data[0] = self.data[0] | flag::GROUP;
        } else {
            self.data[0] = self.data[0] & !flag::GROUP;
        }
    }

    pub fn set_response(&mut self, response: bool)
        requires
            old(self).wf(),
        ensures
            final(final(self).data)@ == final(old(self).data)@,
            final(self).bytes() == old(self).bytes().update(
                0,
                with_flag(old(self).bytes()[0], flag::RESPONSE, response),
            ),
            NopRef::decoded(final(self).bytes()) == (NopRef { response, ..NopRef::decoded(old(self).bytes()) }),
    {
        proof {
            lemma_flag6(self.data@[0], response);
        }
        if response {
            self.data[0] = self.data[0] | flag::RESPONSE;
        } else {
            self.data[0] = self.data[0] & !flag::RESPONSE;
        }
    }

    /// # Errors
    /// Fails if the input is empty.
    pub fn encoded_size(&self) -> (r: Result<usize, SizeError>)
        ensures
            r is Ok <==> self.wf(),
            r matches Ok(size) ==> size == SIZE,
    {
        self.as_ref().encoded_size()
    }

    pub fn complete_decoding(&self) -> (r: WithByteSize<NopRef>)
        requires
            self.wf(),
        ensures
            r.item == NopRef::decoded(self.bytes()),
            r.byte_size == SIZE,
    {
        self.as_ref().complete_decoding()
    }
}

/// Does nothing.
#[derive(Copy, Clone, Eq, PartialEq, Ord, PartialOrd, Hash, Debug)]
pub struct Nop {
    /// Group with next action
    pub group: bool,
    /// Ask for a response (status)
    pub response: bool,
}

impl Nop {
    pub fn borrow(&self) -> (r: NopRef)
        ensures
            r.group == self.group,
            r.response == self.response,
    {
        NopRef { group: self.group, response: self.response }
    }
}

} // verus!
