//! Status of the interface a command comes from.
//!
//! Encoded as the interface identifier, a Varint length, then the interface's own status. The
//! host interface has no status of its own.
pub mod define;

use crate::decodable::{WithByteSize, lemma_splice_byte, lemma_splice_concat, skip, skip_mut, slice_mut, splice, tail, replaced, written_at_head};
use crate::v1_2::dash7::interface_status::{
    self, lemma_d7_roundtrip, nls_consistent, spec_d7_complete, spec_d7_size, Dash7InterfaceStatus,
    Dash7InterfaceStatusRef, EncodedDash7InterfaceStatus, EncodedDash7InterfaceStatusMut,
};
use crate::v1_2::error::{StatusInterfaceSizeError, UnsupportedInterfaceId};
use crate::varint::{self, EncodedVarint, Varint};
use define::id::{InterfaceId, DASH7, HOST};
use vstd::prelude::*;

verus! {


broadcast use varint::group_varint_value;

/// Details from the interface the command is coming from
#[derive(Copy, Clone, Eq, PartialEq, Ord, PartialOrd, Hash, Debug)]
pub enum StatusInterfaceRef {
    Host,
    Dash7(Dash7InterfaceStatusRef),
}

/// Byte size of the length field of an encoded interface status.
pub open spec fn spec_len_size(data: Seq<u8>) -> int {
    varint::spec_encoded_size(tail(data, 1))
}

/// `data` is long enough to hold an interface identifier and a complete length field.
pub open spec fn spec_prefix(data: Seq<u8>) -> bool {
    data.len() >= 2 && varint::spec_complete(tail(data, 1))
}

/// The interface identifier of the status encoded at the start of `data` is supported.
pub open spec fn spec_supported(data: Seq<u8>) -> bool {
    data[0] == HOST || data[0] == DASH7
}

/// `data` starts with a complete interface status.
pub open spec fn spec_complete(data: Seq<u8>) -> bool {
    &&& spec_prefix(data)
    &&& spec_supported(data)
    &&& data[0] == DASH7 ==> spec_d7_complete(tail(data, 1 + spec_len_size(data)))
}

/// Byte size of the interface status encoded at the start of `data`.
pub open spec fn spec_size(data: Seq<u8>) -> int {
    1 + spec_len_size(data) + if data[0] == DASH7 {
        spec_d7_size(tail(data, 1 + spec_len_size(data)))
    } else {
        0int
    }
}

/// `e` reports the unsupported interface identifier of the status encoded at the start of
/// `data`.
pub open spec fn reports_unsupported(e: UnsupportedInterfaceId, data: Seq<u8>) -> bool {
    e.id == data[0] && e.remaining_data@ == tail(data, 1)
}

impl StatusInterfaceRef {
    /// Bytes of the encoded interface status.
    pub open spec fn encoding(self) -> Seq<u8> {
        match self {
            Self::Host => seq![HOST, 0u8],
            Self::Dash7(status) => seq![DASH7] + varint::spec_encoding(
                status.encoding().len() as u32,
            ) + status.encoding(),
        }
    }

    /// `self` is the interface status encoded at the start of `data`.
    pub open spec fn decoded_from(self, data: Seq<u8>) -> bool {
        match self {
            Self::Host => data[0] == HOST,
            Self::Dash7(status) => data[0] == DASH7 && status.decoded_from(
                tail(data, 1 + spec_len_size(data)),
            ),
        }
    }

    pub fn to_owned(&self) -> (r: StatusInterface)
        ensures
            r.represents(*self),
    {
        match self {
            Self::Host => StatusInterface::Host,
            Self::Dash7(status) => StatusInterface::Dash7(status.to_owned()),
        }
    }

    /// Size in bytes of the encoded interface status.
    pub fn encoded_size(&self) -> (r: usize)
        ensures
            r == self.encoding().len(),
            r <= 2 + interface_status::MAX_SIZE,
    {
        match self {
            Self::Host => 2,
            Self::Dash7(status) => {
                let len = Varint::new_unchecked(status.encoded_size() as u32);
                1 + len.encoded_size() + len.usize()
            },
        }
    }

    /// Writes the encoded interface status at the start of `out`.
    ///
    /// # Errors
    /// Fails with the required size if `out` is too small.
    pub fn encode_in(&self, out: &mut [u8]) -> (r: Result<usize, usize>)
        ensures
            r is Ok <==> old(out)@.len() >= self.encoding().len(),
            r matches Ok(size) ==> size == self.encoding().len() && written_at_head(
                final(out)@,
                old(out)@,
                self.encoding(),
            ),
            r matches Err(size) ==> size == self.encoding().len() && final(out)@ == old(out)@,
    {
        let size = self.encoded_size();
        if out.len() < size {
            return Err(size);
        }
        Ok(self.encode_at(out, 0))
    }

    /// Writes the encoded interface status at `pos` in `out`.
    pub fn encode_at(&self, out: &mut [u8], pos: usize) -> (size: usize)
        requires
            pos + self.encoding().len() <= old(out)@.len(),
        ensures
            size == self.encoding().len(),
            final(out)@ == splice(old(out)@, pos as int, self.encoding()),
    {
        let ghost before = out@;
        let n = out.len();
        match self {
            Self::Host => {
                out[pos] = HOST;
                out[pos + 1] = 0;
                assert(out@ =~= splice(before, pos as int, self.encoding()));
                2
            },
            Self::Dash7(status) => {
                proof {
                    lemma_splice_byte(out@, pos as int, DASH7);
                }
                out[pos] = DASH7;
                let len = Varint::new_unchecked(status.encoded_size() as u32);
                let len_size = len.encode_at(out, pos + 1);
                proof {
                    lemma_splice_concat(before, pos as int, seq![DASH7], varint::spec_encoding(len@));
                }
                let status_size = status.encode_at(out, pos + 1 + len_size);
                proof {
                    lemma_splice_concat(
                        before,
                        pos as int,
                        seq![DASH7] + varint::spec_encoding(len@),
                        status.encoding(),
                    );
                }
                1 + len_size + status_size
            },
        }
    }

    /// # Errors
    /// Fails if the input is too short or if its interface is not supported.
    pub fn decode(data: &[u8]) -> (r: Result<
        WithByteSize<StatusInterfaceRef>,
        StatusInterfaceSizeError<'_>,
    >)
        ensures
            r is Ok <==> spec_complete(data@),
            r matches Ok(w) ==> w.item.decoded_from(data@) && w.byte_size == spec_size(data@),
            (r matches Err(StatusInterfaceSizeError::UnsupportedInterfaceId(e))) <==> (
            spec_prefix(data@) && !spec_supported(data@)),
            r matches Err(StatusInterfaceSizeError::UnsupportedInterfaceId(e))
                ==> reports_unsupported(e, data@),
    {
        let decoder = Self::start_decoding(data)?;
        match decoder.item.complete_decoding() {
            Ok(w) => Ok(w),
            Err(e) => Err(StatusInterfaceSizeError::UnsupportedInterfaceId(e)),
        }
    }

    /// # Errors
    /// Fails if the input is too short or if its interface is not supported.
    pub fn start_decoding(data: &[u8]) -> (r: Result<
        WithByteSize<EncodedStatusInterface<'_>>,
        StatusInterfaceSizeError<'_>,
    >)
        ensures
            r is Ok <==> spec_complete(data@),
            r matches Ok(w) ==> w.item.bytes() == data@ && w.byte_size == spec_size(data@),
            (r matches Err(StatusInterfaceSizeError::UnsupportedInterfaceId(e))) <==> (
            spec_prefix(data@) && !spec_supported(data@)),
            r matches Err(StatusInterfaceSizeError::UnsupportedInterfaceId(e))
                ==> reports_unsupported(e, data@),
    {
        let decoder = EncodedStatusInterface::new(data);
        let size = decoder.encoded_size()?;
        Ok(WithByteSize { item: decoder, byte_size: size })
    }

    /// Reader on an interface status known to be complete.
    pub fn start_decoding_unchecked(data: &[u8]) -> (r: EncodedStatusInterface<'_>)
        requires
            spec_complete(data@),
        ensures
            r.bytes() == data@,
    {
        EncodedStatusInterface::new(data)
    }

    /// Mutable accessor on an interface status known to be complete.
    pub fn start_decoding_unchecked_mut(data: &mut [u8]) -> (r: EncodedStatusInterfaceMut<'_>)
        requires
            spec_complete(old(data)@),
        ensures
            final(data)@ == final(r.data)@,
            r.bytes() == old(data)@,
    {
        EncodedStatusInterfaceMut::new(data)
    }
}

/// Decoding an encoded interface status gives it back, whatever follows it.
pub proof fn lemma_roundtrip(op: StatusInterfaceRef, rest: Seq<u8>)
    requires
        op matches StatusInterfaceRef::Dash7(s) ==> nls_consistent(
            s.addressee_with_nls_state.addressee_view(),
            s.addressee_with_nls_state.nls_state_view(),
        ),
    ensures
        spec_complete(op.encoding() + rest),
        spec_size(op.encoding() + rest) == op.encoding().len(),
        op.decoded_from(op.encoding() + rest),
{
    let d = op.encoding() + rest;
    match op {
        StatusInterfaceRef::Host => {
            assert(d[0] == HOST);
            assert(d[1] == 0);
            assert(tail(d, 1)[0] == 0);
        },
        StatusInterfaceRef::Dash7(s) => {
            let e = s.encoding();
            let l = varint::spec_encoding(e.len() as u32);
            lemma_d7_roundtrip(s, rest);
            varint::lemma_roundtrip(e.len() as u32, e + rest);
            assert(d[0] == DASH7);
            assert(tail(d, 1) =~= l + (e + rest));
            assert(tail(d, 1 + l.len() as int) =~= e + rest);
        },
    }
}

/// Reader on the status of a supported interface.
pub enum EncodedStatusInterfaceKind<'data> {
    Host,
    Dash7(EncodedDash7InterfaceStatus<'data>),
}

/// Read access to an encoded interface status.
pub struct EncodedStatusInterface<'data> {
    data: &'data [u8],
}

impl<'data> EncodedStatusInterface<'data> {
    /// The bytes this reader looks at.
    pub closed spec fn bytes(&self) -> Seq<u8> {
        self.data@
    }

    /// The bytes hold a complete interface status.
    pub open spec fn wf(&self) -> bool {
        spec_complete(self.bytes())
    }

    pub fn new(data: &'data [u8]) -> (r: Self)
        ensures
            r.bytes() == data@,
    {
        Self { data }
    }

    /// # Errors
    /// Fails if the interface status id is unsupported.
    pub fn interface_id(&self) -> (r: Result<InterfaceId, UnsupportedInterfaceId<'data>>)
        requires
            self.bytes().len() >= 1,
        ensures
            r is Ok <==> spec_supported(self.bytes()),
            r matches Ok(i) ==> i.spec_code() == self.bytes()[0],
            r matches Err(e) ==> reports_unsupported(e, self.bytes()),
    {
        let byte = self.data[0];
        match InterfaceId::from(byte) {
            Ok(i) => Ok(i),
            Err(_) => Err(UnsupportedInterfaceId { id: byte, remaining_data: skip(self.data, 1) }),
        }
    }

    pub fn len_field(&self) -> (r: EncodedVarint<'data>)
        requires
            spec_prefix(self.bytes()),
        ensures
            r.bytes() == tail(self.bytes(), 1),
            r.wf(),
    {
        Varint::start_decoding_unchecked(skip(self.data, 1))
    }

    /// # Errors
    /// Fails if the interface status id is unsupported.
    pub fn status(&self) -> (r: Result<EncodedStatusInterfaceKind<'data>, UnsupportedInterfaceId<'data>>)
        requires
            spec_prefix(self.bytes()),
        ensures
            r is Ok <==> spec_supported(self.bytes()),
            r matches Err(e) ==> reports_unsupported(e, self.bytes()),
            r matches Ok(EncodedStatusInterfaceKind::Host) ==> self.bytes()[0] == HOST,
            r matches Ok(EncodedStatusInterfaceKind::Dash7(s)) ==> self.bytes()[0] == DASH7
                && s.bytes() == tail(self.bytes(), 1 + spec_len_size(self.bytes())),
    {
        let offset = 1 + self.len_field().encoded_size_unchecked();
        match self.interface_id()? {
            InterfaceId::Host => Ok(EncodedStatusInterfaceKind::Host),
            InterfaceId::Dash7 => Ok(
                EncodedStatusInterfaceKind::Dash7(
                    EncodedDash7InterfaceStatus::new(skip(self.data, offset)),
                ),
            ),
        }
    }

    /// # Errors
    /// Fails if the input is too short or if its interface is not supported.
    pub fn encoded_size(&self) -> (r: Result<usize, StatusInterfaceSizeError<'data>>)
        ensures
            r is Ok <==> self.wf(),
            r matches Ok(size) ==> size == spec_size(self.bytes()),
            (r matches Err(StatusInterfaceSizeError::UnsupportedInterfaceId(e))) <==> (
            spec_prefix(self.bytes()) && !spec_supported(self.bytes())),
            r matches Err(StatusInterfaceSizeError::UnsupportedInterfaceId(e))
                ==> reports_unsupported(e, self.bytes()),
    {
        let len = self.data.len();
        if len < 2 {
            return Err(StatusInterfaceSizeError::MissingBytes);
        }
        let len_size = (self.data[1] / 64) as usize + 1;
        if len < 1 + len_size {
            return Err(StatusInterfaceSizeError::MissingBytes);
        }
        let size = match self.status() {
            Err(e) => {
                return Err(StatusInterfaceSizeError::UnsupportedInterfaceId(e));
            },
            Ok(EncodedStatusInterfaceKind::Host) => 1 + len_size,
            Ok(EncodedStatusInterfaceKind::Dash7(status)) => match status.encoded_size() {
                Ok(size) => 1 + len_size + size,
                Err(_) => {
                    return Err(StatusInterfaceSizeError::MissingBytes);
                },
            },
        };
        Ok(size)
    }

    /// # Errors
    /// Fails if the interface status id is unsupported.
    pub fn complete_decoding(&self) -> (r: Result<
        WithByteSize<StatusInterfaceRef>,
        UnsupportedInterfaceId<'data>,
    >)
        requires
            self.wf(),
        ensures
            r is Ok,
            r matches Ok(w) ==> w.item.decoded_from(self.bytes()) && w.byte_size == spec_size(
                self.bytes(),
            ),
    {
        let offset = 1 + self.len_field().encoded_size_unchecked();
        match self.status()? {
            EncodedStatusInterfaceKind::Host => Ok(
                WithByteSize { item: StatusInterfaceRef::Host, byte_size: offset },
            ),
            EncodedStatusInterfaceKind::Dash7(status) => {
                let w = status.complete_decoding();
                Ok(
                    WithByteSize {
                        item: StatusInterfaceRef::Dash7(w.item),
                        byte_size: offset + w.byte_size,
                    },
                )
            },
        }
    }
}

/// Write access to the status of a supported interface.
pub enum EncodedStatusInterfaceKindMut<'data> {
    Host,
    Dash7(EncodedDash7InterfaceStatusMut<'data>),
}

/// Write access to an encoded interface status.
pub struct EncodedStatusInterfaceMut<'data> {
    /// The bytes of the item, which this accessor edits in place.
    pub data: &'data mut [u8],
}

impl<'data> EncodedStatusInterfaceMut<'data> {
    /// The bytes this accessor looks at.
    pub open spec fn bytes(&self) -> Seq<u8> {
        self.data@
    }

    /// The bytes hold a complete interface status.
    pub open spec fn wf(&self) -> bool {
        spec_complete(self.bytes())
    }

    pub fn new(data: &'data mut [u8]) -> (r: Self)
        ensures
            final(data)@ == final(r.data)@,
            r.bytes() == old(data)@,
    {
        Self { data }
    }

    /// Read only view of the same bytes.
    pub fn as_ref(&self) -> (r: EncodedStatusInterface<'_>)
        ensures
            r.bytes() == self.bytes(),
    {
        EncodedStatusInterface::new(&*self.data)
    }

    /// # Errors
    /// Fails if the interface status id is unsupported.
    pub fn interface_id(&self) -> (r: Result<InterfaceId, UnsupportedInterfaceId<'_>>)
        requires
            self.bytes().len() >= 1,
        ensures
            r is Ok <==> spec_supported(self.bytes()),
            r matches Ok(i) ==> i.spec_code() == self.bytes()[0],
    {
        self.as_ref().interface_id()
    }

    /// # Errors
    /// Fails if the interface status id is unsupported.
    pub fn status_mut(&mut self) -> (r: Result<
        EncodedStatusInterfaceKindMut<'_>,
        UnsupportedInterfaceId<'_>,
    >)
        requires
            spec_prefix(old(self).bytes()),
        ensures
            final(final(self).data)@ == final(old(self).data)@,
            r is Ok <==> spec_supported(old(self).bytes()),
            r matches Ok(EncodedStatusInterfaceKindMut::Host) ==> old(self).bytes()[0] == HOST,
            r matches Ok(EncodedStatusInterfaceKindMut::Dash7(s)) ==> old(self).bytes()[0]
                == DASH7 && s.bytes() == tail(old(self).bytes(), 1 + spec_len_size(old(self).bytes())),
            r matches Ok(EncodedStatusInterfaceKindMut::Dash7(s)) ==> final(self).bytes() == replaced(old(self).bytes(), 1 + spec_len_size(old(self).bytes()), old(self).bytes().len() as int, final(s.data)@),
            !(r matches Ok(EncodedStatusInterfaceKindMut::Dash7(_))) ==> final(self).bytes() == old(
                self,
            ).bytes(),
    {
        let byte = self.data[0];
        let offset = 1 + (self.data[1] / 64) as usize + 1;
        if byte == HOST {
            Ok(EncodedStatusInterfaceKindMut::Host)
        } else if byte == DASH7 {
            let len = self.data.len();
            Ok(
                EncodedStatusInterfaceKindMut::Dash7(
                    EncodedDash7InterfaceStatusMut::new(slice_mut(self.data, offset, len)),
                ),
            )
        } else {
            Err(UnsupportedInterfaceId { id: byte, remaining_data: skip(&*self.data, 1) })
        }
    }

    /// # Errors
    /// Fails if the input is too short or if its interface is not supported.
    pub fn encoded_size(&self) -> (r: Result<usize, StatusInterfaceSizeError<'_>>)
        ensures
            r is Ok <==> self.wf(),
            r matches Ok(size) ==> size == spec_size(self.bytes()),
    {
        self.as_ref().encoded_size()
    }

    /// # Errors
    /// Fails if the interface status id is unsupported.
    pub fn complete_decoding(&self) -> (r: Result<
        WithByteSize<StatusInterfaceRef>,
        UnsupportedInterfaceId<'_>,
    >)
        requires
            self.wf(),
        ensures
            r is Ok,
            r matches Ok(w) ==> w.item.decoded_from(self.bytes()) && w.byte_size == spec_size(
                self.bytes(),
            ),
    {
        self.as_ref().complete_decoding()
    }
}

/// Details from the interface the command is coming from
#[derive(Copy, Clone, Eq, PartialEq, Ord, PartialOrd, Hash, Debug)]
pub enum StatusInterface {
    Host,
    Dash7(Dash7InterfaceStatus),
}

impl StatusInterface {
    /// `r` holds the same interface status as `self`.
    pub open spec fn represents(self, r: StatusInterfaceRef) -> bool {
        match (self, r) {
            (Self::Host, StatusInterfaceRef::Host) => true,
            (Self::Dash7(o), StatusInterfaceRef::Dash7(s)) => o.represents(s),
            _ => false,
        }
    }

    pub fn as_ref(&self) -> (r: StatusInterfaceRef)
        ensures
            self.represents(r),
    {
        match self {
            Self::Host => StatusInterfaceRef::Host,
            Self::Dash7(status) => StatusInterfaceRef::Dash7(status.as_ref()),
        }
    }
}

} // verus!
