//! Status action.
//!
//! Encoded as a byte holding the op code and the status extension (2 high bits), then the
//! status of that extension.
pub mod define;
pub mod interface;

use crate::decodable::{WithByteSize, lemma_splice_byte, lemma_splice_concat, skip, skip_mut, slice_mut, splice, tail, replaced, written_at_head};
use crate::v1_2::define::op_code;
use crate::v1_2::error::{
    StatusDecodeError, StatusInterfaceSizeError, StatusSizeError, UnsupportedExtension,
};
use define::extension::{StatusExtension, INTERFACE};
use interface::{
    EncodedStatusInterface, EncodedStatusInterfaceMut, StatusInterface, StatusInterfaceRef,
};
use vstd::prelude::*;

verus! {


/// A status, borrowing what it holds.
#[derive(Copy, Clone, Eq, PartialEq, Ord, PartialOrd, Hash, Debug)]
pub enum StatusRef {
    Interface(StatusInterfaceRef),
}

/// First byte of a status action with the given extension.
pub open spec fn status_byte(extension: u8) -> u8 {
    (op_code::STATUS | (extension << 6u8)) as u8
}

/// The extension of a status byte reads back what was written in it.
pub proof fn lemma_status_byte(extension: u8)
    by (bit_vector)
    requires
        extension < 4,
    ensures
        status_byte(extension) >> 6u8 == extension,
{
}

/// Extension held by the first byte of an encoded status.
pub open spec fn spec_extension(data: Seq<u8>) -> u8 {
    data[0] >> 6u8
}

/// `data` starts with a complete status.
pub open spec fn spec_complete(data: Seq<u8>) -> bool {
    data.len() >= 1 && spec_extension(data) == INTERFACE && interface::spec_complete(tail(data, 1))
}

/// Byte size of the status encoded at the start of `data`.
pub open spec fn spec_size(data: Seq<u8>) -> int {
    1 + interface::spec_size(tail(data, 1))
}

/// The extension of the status encoded at the start of `data` is not supported.
pub open spec fn spec_unsupported_extension(data: Seq<u8>) -> bool {
    data.len() >= 1 && spec_extension(data) != INTERFACE
}

/// The interface of the status encoded at the start of `data` is not supported.
pub open spec fn spec_unsupported_interface(data: Seq<u8>) -> bool {
    &&& data.len() >= 1
    &&& spec_extension(data) == INTERFACE
    &&& interface::spec_prefix(tail(data, 1))
    &&& !interface::spec_supported(tail(data, 1))
}

/// `e` reports the unsupported extension of the status encoded at the start of `data`.
pub open spec fn reports_unsupported(e: UnsupportedExtension, data: Seq<u8>) -> bool {
    e.extension == spec_extension(data) && e.remaining_data@ == tail(data, 1)
}

/// `r` is what measuring the status encoded at the start of `data` answers.
pub open spec fn size_answer<T>(r: Result<T, StatusSizeError>, data: Seq<u8>) -> bool {
    &&& r is Ok <==> spec_complete(data)
    &&& (r matches Err(StatusSizeError::UnsupportedExtension(e)))
        <==> spec_unsupported_extension(data)
    &&& r matches Err(StatusSizeError::UnsupportedExtension(e)) ==> reports_unsupported(e, data)
    &&& (r matches Err(StatusSizeError::UnsupportedInterfaceId(e)))
        <==> spec_unsupported_interface(data)
    &&& r matches Err(StatusSizeError::UnsupportedInterfaceId(e))
        ==> interface::reports_unsupported(e, tail(data, 1))
}

impl StatusRef {
    /// Bytes of the encoded status.
    pub open spec fn encoding(self) -> Seq<u8> {
        match self {
            Self::Interface(status) => seq![status_byte(INTERFACE)] + status.encoding(),
        }
    }

    /// `self` is the status encoded at the start of `data`.
    pub open spec fn decoded_from(self, data: Seq<u8>) -> bool {
        match self {
            Self::Interface(status) => spec_extension(data) == INTERFACE && status.decoded_from(
                tail(data, 1),
            ),
        }
    }

    pub fn extension(&self) -> (r: StatusExtension)
        ensures
            r == StatusExtension::Interface,
    {
        match self {
            Self::Interface(_) => StatusExtension::Interface,
        }
    }

    pub fn to_owned(&self) -> (r: Status)
        ensures
            r.represents(*self),
    {
        match self {
            Self::Interface(status) => Status::Interface(status.to_owned()),
        }
    }

    /// Size in bytes of the encoded status.
    pub fn encoded_size(&self) -> (r: usize)
        ensures
            r == self.encoding().len(),
    {
        match self {
            Self::Interface(status) => 1 + status.encoded_size(),
        }
    }

    /// Writes the encoded status at the start of `out`.
    ///
    /// # Errors
    /// Fails with the required size if `out` is too small.
    pub fn encode_in(&self, out: &mut [u8]) -> (r: Result<usize, usize>)
        ensures
            r is Ok <==> old(out)@.len() >= self.encoding().len(),
            r matches Ok(size) ==> size == self.encoding().len() && written_at_head(
                final(out)@,
                old(out)@,
                self.encoding(),
            ),
            r matches Err(size) ==> size == self.encoding().len() && final(out)@ == old(out)@,
    {
        let size = self.encoded_size();
        if out.len() < size {
            return Err(size);
        }
        let ghost before = out@;
        match self {
            Self::Interface(status) => {
                let b = op_code::STATUS | (INTERFACE << 6u8);
                proof {
                    lemma_splice_byte(out@, 0, b);
                }
                out[0] = b;
                status.encode_at(out, 1);
                proof {
                    lemma_splice_concat(before, 0, seq![b], status.encoding());
                }
            },
        }
        Ok(size)
    }

    /// # Errors
    /// Fails if the input is too short, or if its extension or its interface is not supported.
    pub fn decode(data: &[u8]) -> (r: Result<WithByteSize<StatusRef>, StatusSizeError<'_>>)
        ensures
            size_answer(r, data@),
            r matches Ok(w) ==> w.item.decoded_from(data@) && w.byte_size == spec_size(data@),
    {
        let decoder = Self::start_decoding(data)?;
        match decoder.item.complete_decoding() {
            Ok(w) => Ok(w),
            Err(e) => Err(StatusSizeError::from(e)),
        }
    }

    /// # Errors
    /// Fails if the input is too short, or if its extension or its interface is not supported.
    pub fn start_decoding(data: &[u8]) -> (r: Result<
        WithByteSize<EncodedStatus<'_>>,
        StatusSizeError<'_>,
    >)
        ensures
            size_answer(r, data@),
            r matches Ok(w) ==> w.item.bytes() == data@ && w.byte_size == spec_size(data@),
    {
        let decoder = EncodedStatus::new(data);
        let size = decoder.encoded_size()?;
        Ok(WithByteSize { item: decoder, byte_size: size })
    }

    /// # Errors
    /// Fails if the input is too short, or if its extension or its interface is not supported.
    pub fn start_decoding_mut(data: &mut [u8]) -> (r: Result<
        WithByteSize<EncodedStatusMut<'_>>,
        StatusSizeError<'_>,
    >)
        ensures
            r is Err ==> final(data)@ == old(data)@,
            r matches Ok(w) ==> final(data)@ == final(w.item.data)@,
            r is Ok <==> spec_complete(old(data)@),
            r matches Ok(w) ==> w.item.bytes() == old(data)@ && w.byte_size == spec_size(
                old(data)@,
            ),
            (r matches Err(StatusSizeError::UnsupportedExtension(e)))
                <==> spec_unsupported_extension(old(data)@),
            (r matches Err(StatusSizeError::UnsupportedInterfaceId(e)))
                <==> spec_unsupported_interface(old(data)@),
    {
        let len = data.len();
        if len == 0 {
            return Err(StatusSizeError::MissingBytes);
        }
        let extension = data[0] >> 6u8;
        if extension != INTERFACE {
            return Err(
                StatusSizeError::UnsupportedExtension(
                    UnsupportedExtension { extension, remaining_data: skip(data, 1) },
                ),
            );
        }
        let size = match EncodedStatus::new(&*data).encoded_size() {
            Ok(size) => size,
            Err(StatusSizeError::UnsupportedInterfaceId(_)) => {
                let id = data[1];
                proof {
                    assert(tail(tail(data@, 1), 1) =~= tail(data@, 2));
                }
                return Err(
                    StatusSizeError::UnsupportedInterfaceId(
                        crate::v1_2::error::UnsupportedInterfaceId {
                            id,
                            remaining_data: skip(data, 2),
                        },
                    ),
                );
            },
            Err(_) => {
                return Err(StatusSizeError::MissingBytes);
            },
        };
        Ok(WithByteSize { item: EncodedStatusMut::new(data), byte_size: size })
    }
}

/// Decoding an encoded status gives it back, whatever follows it.
pub proof fn lemma_roundtrip(op: StatusRef, rest: Seq<u8>)
    requires
        op matches StatusRef::Interface(StatusInterfaceRef::Dash7(s))
            ==> crate::v1_2::dash7::interface_status::nls_consistent(
            s.addressee_with_nls_state.addressee_view(),
            s.addressee_with_nls_state.nls_state_view(),
        ),
    ensures
        spec_complete(op.encoding() + rest),
        spec_size(op.encoding() + rest) == op.encoding().len(),
        op.decoded_from(op.encoding() + rest),
{
    let d = op.encoding() + rest;
    match op {
        StatusRef::Interface(status) => {
            interface::lemma_roundtrip(status, rest);
            lemma_status_byte(INTERFACE);
            assert(d[0] == status_byte(INTERFACE));
            assert(tail(d, 1) =~= status.encoding() + rest);
        },
    }
}

/// Reader on a status of a supported extension.
pub enum ValidEncodedStatus<'data> {
    Interface(EncodedStatusInterface<'data>),
}

/// Read access to an encoded status.
pub struct EncodedStatus<'data> {
    data: &'data [u8],
}

impl<'data> EncodedStatus<'data> {
    /// The bytes this reader looks at.
    pub closed spec fn bytes(&self) -> Seq<u8> {
        self.data@
    }

    /// The bytes hold a complete status.
    pub open spec fn wf(&self) -> bool {
        spec_complete(self.bytes())
    }

    pub fn new(data: &'data [u8]) -> (r: Self)
        ensures
            r.bytes() == data@,
    {
        Self { data }
    }

    /// # Errors
    /// Fails if the status extension is unsupported.
    pub fn extension(&self) -> (r: Result<StatusExtension, UnsupportedExtension<'data>>)
        requires
            self.bytes().len() >= 1,
        ensures
            r is Ok <==> spec_extension(self.bytes()) == INTERFACE,
            r matches Ok(e) ==> e.spec_code() == spec_extension(self.bytes()),
            r matches Err(e) ==> reports_unsupported(e, self.bytes()),
    {
        let code = self.data[0] >> 6u8;
        match StatusExtension::from(code) {
            Ok(e) => Ok(e),
            Err(_) => Err(UnsupportedExtension { extension: code, remaining_data: skip(self.data, 1) }),
        }
    }

    /// # Errors
    /// Fails if the status extension is unsupported.
    pub fn status(&self) -> (r: Result<ValidEncodedStatus<'data>, UnsupportedExtension<'data>>)
        requires
            self.bytes().len() >= 1,
        ensures
            r is Ok <==> spec_extension(self.bytes()) == INTERFACE,
            r matches Err(e) ==> reports_unsupported(e, self.bytes()),
            r matches Ok(ValidEncodedStatus::Interface(s)) ==> s.bytes() == tail(self.bytes(), 1),
    {
        match self.extension()? {
            StatusExtension::Interface => Ok(
                ValidEncodedStatus::Interface(EncodedStatusInterface::new(skip(self.data, 1))),
            ),
        }
    }

    /// # Errors
    /// Fails if the input is too short, or if its extension or its interface is not supported.
    pub fn encoded_size(&self) -> (r: Result<usize, StatusSizeError<'data>>)
        ensures
            size_answer(r, self.bytes()),
            r matches Ok(size) ==> size == spec_size(self.bytes()),
    {
        if self.data.len() == 0 {
            return Err(StatusSizeError::MissingBytes);
        }
        match self.status() {
            Err(e) => Err(StatusSizeError::UnsupportedExtension(e)),
            Ok(ValidEncodedStatus::Interface(status)) => match status.encoded_size() {
                Ok(size) => Ok(1 + size),
                Err(e) => Err(StatusSizeError::from(e)),
            },
        }
    }

    /// # Errors
    /// Fails if the status extension or its interface is unsupported.
    pub fn complete_decoding(&self) -> (r: Result<WithByteSize<StatusRef>, StatusDecodeError<'data>>)
        requires
            self.wf(),
        ensures
            r is Ok,
            r matches Ok(w) ==> w.item.decoded_from(self.bytes()) && w.byte_size == spec_size(
                self.bytes(),
            ),
    {
        match self.status() {
            Err(e) => Err(StatusDecodeError::UnsupportedExtension(e)),
            Ok(ValidEncodedStatus::Interface(status)) => match status.complete_decoding() {
                Ok(w) => Ok(
                    WithByteSize { item: StatusRef::Interface(w.item), byte_size: 1 + w.byte_size },
                ),
                Err(e) => Err(StatusDecodeError::UnsupportedInterfaceId(e)),
            },
        }
    }
}

/// Write access to a status of a supported extension.
pub enum ValidEncodedStatusMut<'data> {
    Interface(EncodedStatusInterfaceMut<'data>),
}

/// Write access to an encoded status.
pub struct EncodedStatusMut<'data> {
    /// The bytes of the item, which this accessor edits in place.
    pub data: &'data mut [u8],
}

impl<'data> EncodedStatusMut<'data> {
    /// The bytes this accessor looks at.
    pub open spec fn bytes(&self) -> Seq<u8> {
        self.data@
    }

    /// The bytes hold a complete status.
    pub open spec fn wf(&self) -> bool {
        spec_complete(self.bytes())
    }

    pub fn new(data: &'data mut [u8]) -> (r: Self)
        ensures
            final(data)@ == final(r.data)@,
            r.bytes() == old(data)@,
    {
        Self { data }
    }

    /// Read only view of the same bytes.
    pub fn as_ref(&self) -> (r: EncodedStatus<'_>)
        ensures
            r.bytes() == self.bytes(),
    {
        EncodedStatus::new(&*self.data)
    }

    /// # Errors
    /// Fails if the status extension is unsupported.
    pub fn extension(&self) -> (r: Result<StatusExtension, UnsupportedExtension<'_>>)
        requires
            self.bytes().len() >= 1,
        ensures
            r is Ok <==> spec_extension(self.bytes()) == INTERFACE,
            r matches Err(e) ==> reports_unsupported(e, self.bytes()),
    {
        self.as_ref().extension()
    }

    /// # Errors
    /// Fails if the status extension is unsupported.
    pub fn status(&self) -> (r: Result<ValidEncodedStatus<'_>, UnsupportedExtension<'_>>)
        requires
            self.bytes().len() >= 1,
        ensures
            r is Ok <==> spec_extension(self.bytes()) == INTERFACE,
            r matches Ok(ValidEncodedStatus::Interface(s)) ==> s.bytes() == tail(self.bytes(), 1),
    {
        self.as_ref().status()
    }

    /// # Errors
    /// Fails if the status extension is unsupported.
    pub fn status_mut(&mut self) -> (r: Result<ValidEncodedStatusMut<'_>, UnsupportedExtension<'_>>)
        requires
            old(self).bytes().len() >= 1,
        ensures
            final(final(self).data)@ == final(old(self).data)@,
            r is Ok <==> spec_extension(old(self).bytes()) == INTERFACE,
            r matches Ok(ValidEncodedStatusMut::Interface(s)) ==> s.bytes() == tail(
                old(self).bytes(),
                1,
            ),
            r matches Ok(ValidEncodedStatusMut::Interface(s)) ==> final(self).bytes() == replaced(old(self).bytes(), 1, old(self).bytes().len() as int, final(s.data)@),
            r is Err ==> final(self).bytes() == old(self).bytes(),
    {
        let code = self.data[0] >> 6u8;
        if code == INTERFACE {
            let len = self.data.len();
            Ok(
                ValidEncodedStatusMut::Interface(
                    EncodedStatusInterfaceMut::new(slice_mut(self.data, 1, len)),
                ),
            )
        } else {
            Err(UnsupportedExtension { extension: code, remaining_data: skip(&*self.data, 1) })
        }
    }

    /// # Errors
    /// Fails if the input is too short, or if its extension or its interface is not supported.
    pub fn encoded_size(&self) -> (r: Result<usize, StatusSizeError<'_>>)
        ensures
            size_answer(r, self.bytes()),
            r matches Ok(size) ==> size == spec_size(self.bytes()),
    {
        self.as_ref().encoded_size()
    }

    /// # Errors
    /// Fails if the status extension or its interface is unsupported.
    pub fn complete_decoding(&self) -> (r: Result<WithByteSize<StatusRef>, StatusDecodeError<'_>>)
        requires
            self.wf(),
        ensures
            r is Ok,
            r matches Ok(w) ==> w.item.decoded_from(self.bytes()) && w.byte_size == spec_size(
                self.bytes(),
            ),
    {
        self.as_ref().complete_decoding()
    }
}

/// An owned status.
#[derive(Copy, Clone, Eq, PartialEq, Ord, PartialOrd, Hash, Debug)]
pub enum Status {
    Interface(StatusInterface),
}

impl Status {
    /// `r` holds the same status as `self`.
    pub open spec fn represents(self, r: StatusRef) -> bool {
        match (self, r) {
            (Self::Interface(o), StatusRef::Interface(s)) => o.represents(s),
        }
    }

    pub fn as_ref(&self) -> (r: StatusRef)
        ensures
            self.represents(r),
    {
        match self {
            Self::Interface(status) => StatusRef::Interface(status.as_ref()),
        }
    }
}

} // verus!
