//! Status of the Dash7 interface a packet was received on.
use super::addressee::{
    self, lemma_roundtrip as lemma_addressee_roundtrip, spec_nls_method, Addressee, AddresseeRef,
    EncodedAddressee, EncodedAddresseeMut, NlsMethod,
};
use crate::decodable::{SizeError, WithByteSize, clamp_end, copy_at, lemma_splice_byte, lemma_splice_concat, skip, skip_mut, slice_mut, splice, tail, take, replaced, written_at_head};
use vstd::prelude::*;

verus! {


/// Maximum byte size of an encoded `Dash7InterfaceStatus`
pub const MAX_SIZE: usize = 10 + addressee::MAX_SIZE + 5;

/// Byte size of an NLS state.
pub const NLS_STATE_SIZE: usize = 5;

/// An addressee, with the NLS state that its NLS method calls for.
#[derive(Copy, Clone, Eq, PartialEq, Ord, PartialOrd, Hash, Debug)]
pub struct AddresseeWithNlsStateRef {
    addressee: AddresseeRef,
    nls_state: Option<[u8; 5]>,
}

#[derive(Copy, Clone, Eq, PartialEq, Ord, PartialOrd, Hash, Debug)]
pub enum AddresseeWithNlsStateError {
    NlsMethodMismatchNlsStatePresence,
}

/// An NLS state is present exactly when the NLS method secures the link.
pub open spec fn nls_consistent(addressee: AddresseeRef, nls_state: Option<[u8; 5]>) -> bool {
    (addressee.nls_method != NlsMethod::NoSecurity) == (nls_state is Some)
}

/// The bytes of an optional NLS state.
pub open spec fn nls_bytes(nls_state: Option<[u8; 5]>) -> Seq<u8> {
    match nls_state {
        Some(s) => s@,
        None => seq![],
    }
}

/// The addressee encoded at the start of `data` announces an NLS state.
pub open spec fn spec_has_auth(data: Seq<u8>) -> bool {
    spec_nls_method(data) != NlsMethod::NoSecurity
}

/// End of the addressee that starts at `start` in `data`, or of `data` when it stops before.
pub open spec fn addressee_end(data: Seq<u8>, start: int) -> int {
    if data.len() <= start {
        data.len() as int
    } else {
        clamp_end(data, start + AddresseeRef::decoded_size(tail(data, start)))
    }
}

/// End of the addressee with NLS state that starts at `start` in `data`, or of `data` when it
/// stops before.
pub open spec fn awns_end(data: Seq<u8>, start: int) -> int {
    if data.len() <= start {
        data.len() as int
    } else {
        clamp_end(data, start + spec_awns_size(tail(data, start)))
    }
}

fn addressee_end_at(data: &[u8], start: usize) -> (r: usize)
    requires
        start <= data@.len(),
    ensures
        r == addressee_end(data@, start as int),
{
    let len = data.len();
    if len <= start {
        len
    } else {
        let size = EncodedAddressee::new(skip(data, start)).encoded_size_unchecked();
        if size <= len - start {
            start + size
        } else {
            len
        }
    }
}

fn awns_end_at(data: &[u8], start: usize) -> (r: usize)
    requires
        start <= data@.len(),
    ensures
        r == awns_end(data@, start as int),
{
    let len = data.len();
    if len <= start {
        len
    } else {
        let size = EncodedAddresseeWithNlsState::new(skip(data, start)).encoded_size_unchecked();
        if size <= len - start {
            start + size
        } else {
            len
        }
    }
}

/// Byte size of the addressee with NLS state encoded at the start of `data`.
pub open spec fn spec_awns_size(data: Seq<u8>) -> int {
    AddresseeRef::decoded_size(data) + if spec_has_auth(data) {
        5int
    } else {
        0int
    }
}

/// `data` starts with a complete addressee with NLS state.
pub open spec fn spec_awns_complete(data: Seq<u8>) -> bool {
    data.len() >= 1 && data.len() >= spec_awns_size(data)
}

impl AddresseeWithNlsStateRef {
    #[verifier::type_invariant]
    spec fn inv(self) -> bool {
        nls_consistent(self.addressee, self.nls_state)
    }

    pub closed spec fn addressee_view(&self) -> AddresseeRef {
        self.addressee
    }

    pub closed spec fn nls_state_view(&self) -> Option<[u8; 5]> {
        self.nls_state
    }

    /// Bytes of the encoded addressee and NLS state.
    pub open spec fn encoding(self) -> Seq<u8> {
        self.addressee_view().encoding() + nls_bytes(self.nls_state_view())
    }

    /// `self` is the addressee with NLS state encoded at the start of `data`.
    pub open spec fn decoded_from(self, data: Seq<u8>) -> bool {
        &&& self.addressee_view().decoded_from(data)
        &&& match self.nls_state_view() {
            Some(s) => spec_has_auth(data) && s@ == data.subrange(
                AddresseeRef::decoded_size(data),
                AddresseeRef::decoded_size(data) + 5,
            ),
            None => !spec_has_auth(data),
        }
    }

    /// Builds the pair, which the caller knows to be consistent.
    pub fn new_unchecked(addressee: AddresseeRef, nls_state: Option<[u8; 5]>) -> (r: Self)
        requires
            nls_consistent(addressee, nls_state),
        ensures
            r.addressee_view() == addressee,
            r.nls_state_view() == nls_state,
    {
        Self { addressee, nls_state }
    }

    /// # Errors
    /// Fails if the nls_method is None and the nls_state is defined or if the nls_method is
    /// not None and the nls_state is None.
    pub fn new(addressee: AddresseeRef, nls_state: Option<[u8; 5]>) -> (r: Result<
        Self,
        AddresseeWithNlsStateError,
    >)
        ensures
            r is Ok <==> nls_consistent(addressee, nls_state),
            r matches Ok(v) ==> v.addressee_view() == addressee && v.nls_state_view() == nls_state,
            r matches Err(e) ==> e == AddresseeWithNlsStateError::NlsMethodMismatchNlsStatePresence,
    {
        let security = match addressee.nls_method {
            NlsMethod::NoSecurity => false,
            _ => true,
        };
        if security == nls_state.is_some() {
            Ok(Self::new_unchecked(addressee, nls_state))
        } else {
            Err(AddresseeWithNlsStateError::NlsMethodMismatchNlsStatePresence)
        }
    }

    pub fn addressee(&self) -> (r: &AddresseeRef)
        ensures
            *r == self.addressee_view(),
    {
        &self.addressee
    }

    pub fn nls_state(&self) -> (r: &Option<[u8; 5]>)
        ensures
            *r == self.nls_state_view(),
    {
        &self.nls_state
    }

    /// The pair satisfies its invariant.
    pub(crate) fn lemma_valid(&self)
        ensures
            nls_consistent(self.addressee_view(), self.nls_state_view()),
    {
        proof {
            use_type_invariant(self);
        }
    }

    /// Size in bytes of the encoded addressee and NLS state.
    pub fn encoded_size(&self) -> (r: usize)
        ensures
            r == self.encoding().len(),
            r <= addressee::MAX_SIZE + NLS_STATE_SIZE,
    {
        let addressee_size = self.addressee.encoded_size();
        if self.nls_state.is_some() {
            addressee_size + NLS_STATE_SIZE
        } else {
            addressee_size
        }
    }

    /// Writes the encoded addressee and NLS state at `pos` in `out`.
    pub fn encode_at(&self, out: &mut [u8], pos: usize) -> (size: usize)
        requires
            pos + self.encoding().len() <= old(out)@.len(),
        ensures
            size == self.encoding().len(),
            final(out)@ == splice(old(out)@, pos as int, self.encoding()),
    {
        let ghost before = out@;
        let len = out.len();
        let size = self.addressee.encode_at(out, pos);
        match self.nls_state {
            Some(s) => {
                assert(self.encoding() == self.addressee.encoding() + s@);
                copy_at(out, pos + size, s.as_slice());
                proof {
                    lemma_splice_concat(before, pos as int, self.addressee.encoding(), s@);
                }
                size + NLS_STATE_SIZE
            },
            None => {
                assert(self.encoding() =~= self.addressee.encoding());
                size
            },
        }
    }

    pub fn to_owned(&self) -> (r: AddresseeWithNlsState)
        ensures
            r.addressee_view().as_ref_view() == self.addressee_view(),
            r.nls_state_view() == self.nls_state_view(),
    {
        proof {
            use_type_invariant(self);
        }
        AddresseeWithNlsState { addressee: self.addressee.to_owned(), nls_state: self.nls_state }
    }

    /// # Errors
    /// Fails if the input is too short.
    pub fn decode(data: &[u8]) -> (r: Result<WithByteSize<AddresseeWithNlsStateRef>, SizeError>)
        ensures
            r is Ok <==> spec_awns_complete(data@),
            r matches Ok(w) ==> w.item.decoded_from(data@) && w.byte_size == spec_awns_size(
                data@,
            ),
    {
        let decoder = Self::start_decoding(data)?;
        Ok(decoder.item.complete_decoding())
    }

    /// # Errors
    /// Fails if the input is too short.
    pub fn start_decoding(data: &[u8]) -> (r: Result<
        WithByteSize<EncodedAddresseeWithNlsState<'_>>,
        SizeError,
    >)
        ensures
            r is Ok <==> spec_awns_complete(data@),
            r matches Ok(w) ==> w.item.bytes() == data@ && w.byte_size == spec_awns_size(data@),
    {
        let decoder = EncodedAddresseeWithNlsState::new(data);
        let size = decoder.encoded_size()?;
        Ok(WithByteSize { item: decoder, byte_size: size })
    }

    /// # Errors
    /// Fails if the input is too short.
    pub fn start_decoding_mut(data: &mut [u8]) -> (r: Result<
        WithByteSize<EncodedAddresseeWithNlsStateMut<'_>>,
        SizeError,
    >)
        ensures
            r is Err ==> final(data)@ == old(data)@,
            r matches Ok(w) ==> final(data)@ == final(w.item.data)@,
            r is Ok <==> spec_awns_complete(old(data)@),
            r matches Ok(w) ==> w.item.bytes() == old(data)@ && w.byte_size == spec_awns_size(
                old(data)@,
            ),
    {
        let size = EncodedAddresseeWithNlsState::new(&*data).encoded_size()?;
        Ok(WithByteSize { item: EncodedAddresseeWithNlsStateMut::new(data), byte_size: size })
    }
}

/// Decoding an encoded addressee with NLS state gives it back, whatever follows it.
pub proof fn lemma_awns_roundtrip(op: AddresseeWithNlsStateRef, rest: Seq<u8>)
    requires
        nls_consistent(op.addressee_view(), op.nls_state_view()),
    ensures
        spec_awns_complete(op.encoding() + rest),
        spec_awns_size(op.encoding() + rest) == op.encoding().len(),
        op.decoded_from(op.encoding() + rest),
{
    let a = op.addressee_view();
    let n = nls_bytes(op.nls_state_view());
    let d = op.encoding() + rest;
    lemma_addressee_roundtrip(a, n + rest);
    assert(d =~= a.encoding() + (n + rest));
    let s = a.encoding().len() as int;
    assert(d.subrange(s, s + n.len()) =~= n);
    assert(d.subrange(2, s) =~= (a.encoding() + (n + rest)).subrange(2, s));
}

/// An owned addressee, with the NLS state that its NLS method calls for.
#[derive(Copy, Clone, Eq, PartialEq, Ord, PartialOrd, Hash, Debug)]
pub struct AddresseeWithNlsState {
    addressee: Addressee,
    nls_state: Option<[u8; 5]>,
}

impl AddresseeWithNlsState {
    #[verifier::type_invariant]
    spec fn inv(self) -> bool {
        (self.addressee.nls_method != NlsMethod::NoSecurity) == (self.nls_state is Some)
    }

    pub closed spec fn addressee_view(&self) -> Addressee {
        self.addressee
    }

    pub closed spec fn nls_state_view(&self) -> Option<[u8; 5]> {
        self.nls_state
    }

    pub fn as_ref(&self) -> (r: AddresseeWithNlsStateRef)
        ensures
            r.addressee_view() == self.addressee_view().as_ref_view(),
            r.nls_state_view() == self.nls_state_view(),
    {
        proof {
            use_type_invariant(self);
        }
        AddresseeWithNlsStateRef::new_unchecked(self.addressee.as_ref(), self.nls_state)
    }
}

/// Read access to an encoded addressee with NLS state.
pub struct EncodedAddresseeWithNlsState<'data> {
    data: &'data [u8],
}

impl<'data> EncodedAddresseeWithNlsState<'data> {
    /// The bytes this reader looks at.
    pub closed spec fn bytes(&self) -> Seq<u8> {
        self.data@
    }

    /// The bytes hold a complete addressee with NLS state.
    pub open spec fn wf(&self) -> bool {
        spec_awns_complete(self.bytes())
    }

    pub fn new(data: &'data [u8]) -> (r: Self)
        ensures
            r.bytes() == data@,
    {
        Self { data }
    }

    pub fn has_auth(&self) -> (r: bool)
        requires
            self.bytes().len() >= 1,
        ensures
            r == spec_has_auth(self.bytes()),
    {
        match self.addressee().nls_method() {
            NlsMethod::NoSecurity => false,
            _ => true,
        }
    }

    pub fn addressee(&self) -> (r: EncodedAddressee<'data>)
        ensures
            r.bytes() == self.bytes(),
    {
        EncodedAddressee::new(self.data)
    }

    pub fn nls_state(&self) -> (r: Option<&'data [u8]>)
        requires
            self.wf(),
        ensures
            r is Some <==> spec_has_auth(self.bytes()),
            r matches Some(s) ==> s@ == self.bytes().subrange(
                AddresseeRef::decoded_size(self.bytes()),
                AddresseeRef::decoded_size(self.bytes()) + 5,
            ),
    {
        if self.has_auth() {
            let size = self.addressee().encoded_size_unchecked();
            let s = take(skip(self.data, size), NLS_STATE_SIZE);
            assert(s@ =~= self.data@.subrange(size as int, size + 5));
            Some(s)
        } else {
            None
        }
    }

    /// Byte size announced by the first byte.
    pub fn encoded_size_unchecked(&self) -> (r: usize)
        requires
            self.bytes().len() >= 1,
        ensures
            r == spec_awns_size(self.bytes()),
    {
        let nls_state_size = if self.has_auth() {
            NLS_STATE_SIZE
        } else {
            0
        };
        self.addressee().encoded_size_unchecked() + nls_state_size
    }

    /// # Errors
    /// Fails if the input is too short.
    pub fn encoded_size(&self) -> (r: Result<usize, SizeError>)
        ensures
            r is Ok <==> self.wf(),
            r matches Ok(size) ==> size == spec_awns_size(self.bytes()),
    {
        if self.data.len() < 1 {
            return Err(SizeError::MissingBytes);
        }
        let size = self.encoded_size_unchecked();
        if self.data.len() < size {
            return Err(SizeError::MissingBytes);
        }
        Ok(size)
    }

    pub fn complete_decoding(&self) -> (r: WithByteSize<AddresseeWithNlsStateRef>)
        requires
            self.wf(),
        ensures
            r.item.decoded_from(self.bytes()),
            r.byte_size == spec_awns_size(self.bytes()),
    {
        let addressee = self.addressee().complete_decoding();
        let d = self.data;
        let size = addressee.byte_size;
        if self.has_auth() {
            let s = [d[size], d[size + 1], d[size + 2], d[size + 3], d[size + 4]];
            assert(s@ =~= d@.subrange(size as int, size + 5));
            WithByteSize {
                item: AddresseeWithNlsStateRef::new_unchecked(addressee.item, Some(s)),
                byte_size: size + NLS_STATE_SIZE,
            }
        } else {
            WithByteSize {
                item: AddresseeWithNlsStateRef::new_unchecked(addressee.item, None),
                byte_size: size,
            }
        }
    }
}

/// Write access to an encoded addressee with NLS state.
pub struct EncodedAddresseeWithNlsStateMut<'data> {
    /// The bytes of the item, which this accessor edits in place.
    pub data: &'data mut [u8],
}

impl<'data> EncodedAddresseeWithNlsStateMut<'data> {
    /// The bytes this accessor looks at.
    pub open spec fn bytes(&self) -> Seq<u8> {
        self.data@
    }

    /// The bytes hold a complete addressee with NLS state.
    pub open spec fn wf(&self) -> bool {
        spec_awns_complete(self.bytes())
    }

    pub fn new(data: &'data mut [u8]) -> (r: Self)
        ensures
            final(data)@ == final(r.data)@,
            r.bytes() == old(data)@,
    {
        Self { data }
    }

    /// Read only view of the same bytes.
    pub fn as_ref(&self) -> (r: EncodedAddresseeWithNlsState<'_>)
        ensures
            r.bytes() == self.bytes(),
    {
        EncodedAddresseeWithNlsState::new(&*self.data)
    }

    pub fn has_auth(&self) -> (r: bool)
        requires
            self.bytes().len() >= 1,
        ensures
            r == spec_has_auth(self.bytes()),
    {
        self.as_ref().has_auth()
    }

    pub fn addressee(&self) -> (r: EncodedAddressee<'_>)
        ensures
            r.bytes() == self.bytes(),
    {
        self.as_ref().addressee()
    }

    pub fn nls_state(&self) -> (r: Option<&[u8]>)
        requires
            self.wf(),
        ensures
            r is Some <==> spec_has_auth(self.bytes()),
            r matches Some(s) ==> s@ == self.bytes().subrange(
                AddresseeRef::decoded_size(self.bytes()),
                AddresseeRef::decoded_size(self.bytes()) + 5,
            ),
    {
        self.as_ref().nls_state()
    }

    /// Byte size announced by the first byte.
    pub fn encoded_size_unchecked(&self) -> (r: usize)
        requires
            self.bytes().len() >= 1,
        ensures
            r == spec_awns_size(self.bytes()),
    {
        self.as_ref().encoded_size_unchecked()
    }

    /// Mutable accessor on the addressee; the NLS state after it is out of its reach.
    pub fn addressee_mut(&mut self) -> (r: EncodedAddresseeMut<'_>)
        ensures
            final(final(self).data)@ == final(old(self).data)@,
            r.bytes() == old(self).bytes().subrange(0, addressee_end(old(self).bytes(), 0)),
            final(self).bytes() == replaced(old(self).bytes(), 0, addressee_end(old(self).bytes(), 0), final(r.data)@),
    {
        let end = addressee_end_at(&*self.data, 0);
        EncodedAddresseeMut::new(slice_mut(self.data, 0, end))
    }

    /// Mutable access to the NLS state, when there is one.
    pub fn nls_state_mut(&mut self) -> (r: Option<&mut [u8]>)
        requires
            old(self).wf(),
        ensures
            final(final(self).data)@ == final(old(self).data)@,
            r is Some <==> spec_has_auth(old(self).bytes()),
            r matches Some(s) ==> s@ == old(self).bytes().subrange(
                AddresseeRef::decoded_size(old(self).bytes()),
                AddresseeRef::decoded_size(old(self).bytes()) + 5,
            ),
            r matches Some(s) ==> final(self).bytes() == old(self).bytes().subrange(
                0,
                AddresseeRef::decoded_size(old(self).bytes()),
            ) + final(s)@ + tail(old(self).bytes(), AddresseeRef::decoded_size(old(self).bytes()) + 5),
            r is None ==> final(self).bytes() == old(self).bytes(),
    {
        if self.has_auth() {
            let size = self.addressee().encoded_size_unchecked();
            let (s, _) = skip_mut(self.data, size).split_at_mut(NLS_STATE_SIZE);
            assert(s@ =~= old(self).bytes().subrange(size as int, size + 5));
            Some(s)
        } else {
            None
        }
    }

    /// # Errors
    /// Fails if the input is too short.
    pub fn encoded_size(&self) -> (r: Result<usize, SizeError>)
        ensures
            r is Ok <==> self.wf(),
            r matches Ok(size) ==> size == spec_awns_size(self.bytes()),
    {
        self.as_ref().encoded_size()
    }

    pub fn complete_decoding(&self) -> (r: WithByteSize<AddresseeWithNlsStateRef>)
        requires
            self.wf(),
        ensures
            r.item.decoded_from(self.bytes()),
            r.byte_size == spec_awns_size(self.bytes()),
    {
        self.as_ref().complete_decoding()
    }
}


/// Status of the Dash7 interface a packet was received on.
#[derive(Copy, Clone, Eq, PartialEq, Ord, PartialOrd, Hash, Debug)]
pub struct Dash7InterfaceStatusRef {
    pub ch_header: u8,
    pub ch_idx: u16,
    pub rxlev: u8,
    pub lb: u8,
    pub snr: u8,
    pub status: u8,
    pub token: u8,
    pub seq: u8,
    pub resp_to: u8,
    pub addressee_with_nls_state: AddresseeWithNlsStateRef,
}

/// `data` starts with a complete Dash7 interface status.
pub open spec fn spec_d7_complete(data: Seq<u8>) -> bool {
    data.len() >= 11 && spec_awns_complete(tail(data, 10))
}

/// Byte size of the Dash7 interface status encoded at the start of `data`.
pub open spec fn spec_d7_size(data: Seq<u8>) -> int {
    10 + spec_awns_size(tail(data, 10))
}

/// Channel index held by an encoded Dash7 interface status (little endian).
pub open spec fn spec_ch_idx(data: Seq<u8>) -> u16 {
    (data[1] + 256 * data[2]) as u16
}

impl Dash7InterfaceStatusRef {
    /// Bytes of the encoded status.
    pub open spec fn encoding(self) -> Seq<u8> {
        seq![
            self.ch_header,
            (self.ch_idx % 256) as u8,
            (self.ch_idx / 256) as u8,
            self.rxlev,
            self.lb,
            self.snr,
            self.status,
            self.token,
            self.seq,
            self.resp_to,
        ] + self.addressee_with_nls_state.encoding()
    }

    /// `self` is the status encoded at the start of `data`.
    pub open spec fn decoded_from(self, data: Seq<u8>) -> bool {
        &&& self.ch_header == data[0]
        &&& self.ch_idx == spec_ch_idx(data)
        &&& self.rxlev == data[3]
        &&& self.lb == data[4]
        &&& self.snr == data[5]
        &&& self.status == data[6]
        &&& self.token == data[7]
        &&& self.seq == data[8]
        &&& self.resp_to == data[9]
        &&& self.addressee_with_nls_state.decoded_from(tail(data, 10))
    }

    pub fn to_owned(&self) -> (r: Dash7InterfaceStatus)
        ensures
            r.represents(*self),
    {
        Dash7InterfaceStatus {
            ch_header: self.ch_header,
            ch_idx: self.ch_idx,
            rxlev: self.rxlev,
            lb: self.lb,
            snr: self.snr,
            status: self.status,
            token: self.token,
            seq: self.seq,
            resp_to: self.resp_to,
            addressee_with_nls_state: self.addressee_with_nls_state.to_owned(),
        }
    }

    /// Size in bytes of the encoded status.
    pub fn encoded_size(&self) -> (r: usize)
        ensures
            r == self.encoding().len(),
            r <= MAX_SIZE,
    {
        10 + self.addressee_with_nls_state.encoded_size()
    }

    /// Writes the encoded status at `pos` in `out`.
    pub fn encode_at(&self, out: &mut [u8], pos: usize) -> (size: usize)
        requires
            pos + self.encoding().len() <= old(out)@.len(),
        ensures
            size == self.encoding().len(),
            final(out)@ == splice(old(out)@, pos as int, self.encoding()),
    {
        let ghost before = out@;
        let len = out.len();
        out[pos] = self.ch_header;
        out[pos + 1] = (self.ch_idx % 256) as u8;
        out[pos + 2] = (self.ch_idx / 256) as u8;
        out[pos + 3] = self.rxlev;
        out[pos + 4] = self.lb;
        out[pos + 5] = self.snr;
        out[pos + 6] = self.status;
        out[pos + 7] = self.token;
        out[pos + 8] = self.seq;
        out[pos + 9] = self.resp_to;
        let ghost head = seq![
            self.ch_header,
            (self.ch_idx % 256) as u8,
            (self.ch_idx / 256) as u8,
            self.rxlev,
            self.lb,
            self.snr,
            self.status,
            self.token,
            self.seq,
            self.resp_to,
        ];
        assert(out@ =~= splice(before, pos as int, head));
        let size = self.addressee_with_nls_state.encode_at(out, pos + 10);
        proof {
            lemma_splice_concat(before, pos as int, head, self.addressee_with_nls_state.encoding());
        }
        10 + size
    }

    /// Writes the encoded status at the start of `out`.
    ///
    /// # Errors
    /// Fails with the required size if `out` is too small.
    pub fn encode_in(&self, out: &mut [u8]) -> (r: Result<usize, usize>)
        ensures
            r is Ok <==> old(out)@.len() >= self.encoding().len(),
            r matches Ok(size) ==> size == self.encoding().len() && written_at_head(
                final(out)@,
                old(out)@,
                self.encoding(),
            ),
            r matches Err(size) ==> size == self.encoding().len() && final(out)@ == old(out)@,
    {
        let size = self.encoded_size();
        if out.len() < size {
            return Err(size);
        }
        Ok(self.encode_at(out, 0))
    }

    /// # Errors
    /// Fails if the input is too short.
    pub fn decode(data: &[u8]) -> (r: Result<WithByteSize<Dash7InterfaceStatusRef>, SizeError>)
        ensures
            r is Ok <==> spec_d7_complete(data@),
            r matches Ok(w) ==> w.item.decoded_from(data@) && w.byte_size == spec_d7_size(data@),
    {
        let decoder = Self::start_decoding(data)?;
        Ok(decoder.item.complete_decoding())
    }

    /// Decodes a status known to be complete.
    pub fn decode_unchecked(data: &[u8]) -> (r: WithByteSize<Dash7InterfaceStatusRef>)
        requires
            spec_d7_complete(data@),
        ensures
            r.item.decoded_from(data@),
            r.byte_size == spec_d7_size(data@),
    {
        EncodedDash7InterfaceStatus::new(data).complete_decoding()
    }

    /// # Errors
    /// Fails if the input is too short.
    pub fn start_decoding(data: &[u8]) -> (r: Result<
        WithByteSize<EncodedDash7InterfaceStatus<'_>>,
        SizeError,
    >)
        ensures
            r is Ok <==> spec_d7_complete(data@),
            r matches Ok(w) ==> w.item.bytes() == data@ && w.byte_size == spec_d7_size(data@),
    {
        let decoder = EncodedDash7InterfaceStatus::new(data);
        let size = decoder.encoded_size()?;
        Ok(WithByteSize { item: decoder, byte_size: size })
    }

    /// Reader on a status known to be complete.
    pub fn start_decoding_unchecked(data: &[u8]) -> (r: EncodedDash7InterfaceStatus<'_>)
        requires
            spec_d7_complete(data@),
        ensures
            r.bytes() == data@,
    {
        EncodedDash7InterfaceStatus::new(data)
    }

    /// # Errors
    /// Fails if the input is too short.
    pub fn start_decoding_mut(data: &mut [u8]) -> (r: Result<
        WithByteSize<EncodedDash7InterfaceStatusMut<'_>>,
        SizeError,
    >)
        ensures
            r is Err ==> final(data)@ == old(data)@,
            r matches Ok(w) ==> final(data)@ == final(w.item.data)@,
            r is Ok <==> spec_d7_complete(old(data)@),
            r matches Ok(w) ==> w.item.bytes() == old(data)@ && w.byte_size == spec_d7_size(
                old(data)@,
            ),
    {
        let size = EncodedDash7InterfaceStatus::new(&*data).encoded_size()?;
        Ok(WithByteSize { item: EncodedDash7InterfaceStatusMut::new(data), byte_size: size })
    }
}

/// Decoding an encoded Dash7 interface status gives it back, whatever follows it.
pub proof fn lemma_d7_roundtrip(op: Dash7InterfaceStatusRef, rest: Seq<u8>)
    requires
        nls_consistent(
            op.addressee_with_nls_state.addressee_view(),
            op.addressee_with_nls_state.nls_state_view(),
        ),
    ensures
        spec_d7_complete(op.encoding() + rest),
        spec_d7_size(op.encoding() + rest) == op.encoding().len(),
        op.decoded_from(op.encoding() + rest),
{
    let d = op.encoding() + rest;
    let a = op.addressee_with_nls_state;
    lemma_awns_roundtrip(a, rest);
    assert(tail(d, 10) =~= a.encoding() + rest);
    assert(d[1] == (op.ch_idx % 256) as u8);
    assert(d[2] == (op.ch_idx / 256) as u8);
    assert(spec_ch_idx(d) == op.ch_idx);
}

/// Read access to an encoded Dash7 interface status.
pub struct EncodedDash7InterfaceStatus<'data> {
    data: &'data [u8],
}

impl<'data> EncodedDash7InterfaceStatus<'data> {
    /// The bytes this reader looks at.
    pub closed spec fn bytes(&self) -> Seq<u8> {
        self.data@
    }

    /// The bytes hold a complete status.
    pub open spec fn wf(&self) -> bool {
        spec_d7_complete(self.bytes())
    }

    pub fn new(data: &'data [u8]) -> (r: Self)
        ensures
            r.bytes() == data@,
    {
        Self { data }
    }

    pub fn ch_header(&self) -> (r: u8)
        requires
            self.bytes().len() >= 10,
        ensures
            r == self.bytes()[0],
    {
        self.data[0]
    }

    pub fn ch_idx(&self) -> (r: u16)
        requires
            self.bytes().len() >= 10,
        ensures
            r == spec_ch_idx(self.bytes()),
    {
        self.data[1] as u16 + 256 * (self.data[2] as u16)
    }

    pub fn rxlev(&self) -> (r: u8)
        requires
            self.bytes().len() >= 10,
        ensures
            r == self.bytes()[3],
    {
        self.data[3]
    }

    pub fn lb(&self) -> (r: u8)
        requires
            self.bytes().len() >= 10,
        ensures
            r == self.bytes()[4],
    {
        self.data[4]
    }

    pub fn snr(&self) -> (r: u8)
        requires
            self.bytes().len() >= 10,
        ensures
            r == self.bytes()[5],
    {
        self.data[5]
    }

    pub fn status(&self) -> (r: u8)
        requires
            self.bytes().len() >= 10,
        ensures
            r == self.bytes()[6],
    {
        self.data[6]
    }

    pub fn token(&self) -> (r: u8)
        requires
            self.bytes().len() >= 10,
        ensures
            r == self.bytes()[7],
    {
        self.data[7]
    }

    pub fn seq(&self) -> (r: u8)
        requires
            self.bytes().len() >= 10,
        ensures
            r == self.bytes()[8],
    {
        self.data[8]
    }

    pub fn resp_to(&self) -> (r: u8)
        requires
            self.bytes().len() >= 10,
        ensures
            r == self.bytes()[9],
    {
        self.data[9]
    }

    pub fn addressee(&self) -> (r: EncodedAddressee<'data>)
        requires
            self.bytes().len() >= 10,
        ensures
            r.bytes() == tail(self.bytes(), 10),
    {
        EncodedAddressee::new(skip(self.data, 10))
    }

    pub fn addressee_with_nls_state(&self) -> (r: EncodedAddresseeWithNlsState<'data>)
        requires
            self.bytes().len() >= 10,
        ensures
            r.bytes() == tail(self.bytes(), 10),
    {
        EncodedAddresseeWithNlsState::new(skip(self.data, 10))
    }

    /// Byte size announced by the addressee.
    pub fn encoded_size_unchecked(&self) -> (r: usize)
        requires
            self.bytes().len() >= 11,
        ensures
            r == spec_d7_size(self.bytes()),
    {
        10 + self.addressee_with_nls_state().encoded_size_unchecked()
    }

    /// # Errors
    /// Fails if the input is too short.
    pub fn encoded_size(&self) -> (r: Result<usize, SizeError>)
        ensures
            r is Ok <==> self.wf(),
            r matches Ok(size) ==> size == spec_d7_size(self.bytes()),
    {
        if self.data.len() < 11 {
            return Err(SizeError::MissingBytes);
        }
        let size = self.encoded_size_unchecked();
        if self.data.len() < size {
            return Err(SizeError::MissingBytes);
        }
        Ok(size)
    }

    pub fn complete_decoding(&self) -> (r: WithByteSize<Dash7InterfaceStatusRef>)
        requires
            self.wf(),
        ensures
            r.item.decoded_from(self.bytes()),
            r.byte_size == spec_d7_size(self.bytes()),
    {
        let end = self.addressee_with_nls_state().complete_decoding();
        WithByteSize {
            item: Dash7InterfaceStatusRef {
                ch_header: self.ch_header(),
                ch_idx: self.ch_idx(),
                rxlev: self.rxlev(),
                lb: self.lb(),
                snr: self.snr(),
                status: self.status(),
                token: self.token(),
                seq: self.seq(),
                resp_to: self.resp_to(),
                addressee_with_nls_state: end.item,
            },
            byte_size: 10 + end.byte_size,
        }
    }
}

/// Write access to an encoded Dash7 interface status.
pub struct EncodedDash7InterfaceStatusMut<'data> {
    /// The bytes of the item, which this accessor edits in place.
    pub data: &'data mut [u8],
}

impl<'data> EncodedDash7InterfaceStatusMut<'data> {
    /// The bytes this accessor looks at.
    pub open spec fn bytes(&self) -> Seq<u8> {
        self.data@
    }

    /// The bytes hold a complete status.
    pub open spec fn wf(&self) -> bool {
        spec_d7_complete(self.bytes())
    }

    pub fn new(data: &'data mut [u8]) -> (r: Self)
        ensures
            final(data)@ == final(r.data)@,
            r.bytes() == old(data)@,
    {
        Self { data }
    }

    /// Read only view of the same bytes.
    pub fn as_ref(&self) -> (r: EncodedDash7InterfaceStatus<'_>)
        ensures
            r.bytes() == self.bytes(),
    {
        EncodedDash7InterfaceStatus::new(&*self.data)
    }

    pub fn ch_header(&self) -> (r: u8)
        requires
            self.bytes().len() >= 10,
        ensures
            r == self.bytes()[0],
    {
        self.as_ref().ch_header()
    }

    pub fn ch_idx(&self) -> (r: u16)
        requires
            self.bytes().len() >= 10,
        ensures
            r == spec_ch_idx(self.bytes()),
    {
        self.as_ref().ch_idx()
    }

    pub fn rxlev(&self) -> (r: u8)
        requires
            self.bytes().len() >= 10,
        ensures
            r == self.bytes()[3],
    {
        self.as_ref().rxlev()
    }

    pub fn lb(&self) -> (r: u8)
        requires
            self.bytes().len() >= 10,
        ensures
            r == self.bytes()[4],
    {
        self.as_ref().lb()
    }

    pub fn snr(&self) -> (r: u8)
        requires
            self.bytes().len() >= 10,
        ensures
            r == self.bytes()[5],
    {
        self.as_ref().snr()
    }

    pub fn status(&self) -> (r: u8)
        requires
            self.bytes().len() >= 10,
        ensures
            r == self.bytes()[6],
    {
        self.as_ref().status()
    }

    pub fn token(&self) -> (r: u8)
        requires
            self.bytes().len() >= 10,
        ensures
            r == self.bytes()[7],
    {
        self.as_ref().token()
    }

    pub fn seq(&self) -> (r: u8)
        requires
            self.bytes().len() >= 10,
        ensures
            r == self.bytes()[8],
    {
        self.as_ref().seq()
    }

    pub fn resp_to(&self) -> (r: u8)
        requires
            self.bytes().len() >= 10,
        ensures
            r == self.bytes()[9],
    {
        self.as_ref().resp_to()
    }

    pub fn addressee(&self) -> (r: EncodedAddressee<'_>)
        requires
            self.bytes().len() >= 10,
        ensures
            r.bytes() == tail(self.bytes(), 10),
    {
        self.as_ref().addressee()
    }

    pub fn addressee_with_nls_state(&self) -> (r: EncodedAddresseeWithNlsState<'_>)
        requires
            self.bytes().len() >= 10,
        ensures
            r.bytes() == tail(self.bytes(), 10),
    {
        self.as_ref().addressee_with_nls_state()
    }

    /// Byte size announced by the addressee.
    pub fn encoded_size_unchecked(&self) -> (r: usize)
        requires
            self.bytes().len() >= 11,
        ensures
            r == spec_d7_size(self.bytes()),
    {
        self.as_ref().encoded_size_unchecked()
    }

    pub fn set_ch_header(&mut self, ch_header: u8)
        requires
            old(self).bytes().len() >= 10,
        ensures
            final(final(self).data)@ == final(old(self).data)@,
            final(self).bytes() == old(self).bytes().update(0, ch_header),
    {
        self.data[0] = ch_header;
    }

    pub fn set_ch_idx(&mut self, ch_idx: u16)
        requires
            old(self).bytes().len() >= 10,
        ensures
            final(final(self).data)@ == final(old(self).data)@,
            final(self).bytes() == old(self).bytes().update(1, (ch_idx % 256) as u8).update(
                2,
                (ch_idx / 256) as u8,
            ),
            spec_ch_idx(final(self).bytes()) == ch_idx,
    {
        self.data[1] = (ch_idx % 256) as u8;
        self.data[2] = (ch_idx / 256) as u8;
    }

    pub fn set_rxlev(&mut self, rxlev: u8)
        requires
            old(self).bytes().len() >= 10,
        ensures
            final(final(self).data)@ == final(old(self).data)@,
            final(self).bytes() == old(self).bytes().update(3, rxlev),
    {
        self.data[3] = rxlev;
    }

    pub fn set_lb(&mut self, lb: u8)
        requires
            old(self).bytes().len() >= 10,
        ensures
            final(final(self).data)@ == final(old(self).data)@,
            final(self).bytes() == old(self).bytes().update(4, lb),
    {
        self.data[4] = lb;
    }

    pub fn set_snr(&mut self, snr: u8)
        requires
            old(self).bytes().len() >= 10,
        ensures
            final(final(self).data)@ == final(old(self).data)@,
            final(self).bytes() == old(self).bytes().update(5, snr),
    {
        self.data[5] = snr;
    }

    pub fn set_status(&mut self, status: u8)
        requires
            old(self).bytes().len() >= 10,
        ensures
            final(final(self).data)@ == final(old(self).data)@,
            final(self).bytes() == old(self).bytes().update(6, status),
    {
        self.data[6] = status;
    }

    pub fn set_token(&mut self, token: u8)
        requires
            old(self).bytes().len() >= 10,
        ensures
            final(final(self).data)@ == final(old(self).data)@,
            final(self).bytes() == old(self).bytes().update(7, token),
    {
        self.data[7] = token;
    }

    pub fn set_seq(&mut self, seq: u8)
        requires
            old(self).bytes().len() >= 10,
        ensures
            final(final(self).data)@ == final(old(self).data)@,
            final(self).bytes() == old(self).bytes().update(8, seq),
    {
        self.data[8] = seq;
    }

    pub fn set_resp_to(&mut self, resp_to: u8)
        requires
            old(self).bytes().len() >= 10,
        ensures
            final(final(self).data)@ == final(old(self).data)@,
            final(self).bytes() == old(self).bytes().update(9, resp_to),
    {
        self.data[9] = resp_to;
    }

    /// Mutable accessor on the addressee.
    pub fn addressee_mut(&mut self) -> (r: EncodedAddresseeMut<'_>)
        requires
            old(self).bytes().len() >= 10,
        ensures
            final(final(self).data)@ == final(old(self).data)@,
            r.bytes() == old(self).bytes().subrange(10, addressee_end(old(self).bytes(), 10)),
            final(self).bytes() == replaced(old(self).bytes(), 10, addressee_end(old(self).bytes(), 10), final(r.data)@),
    {
        let end = addressee_end_at(&*self.data, 10);
        EncodedAddresseeMut::new(slice_mut(self.data, 10, end))
    }

    /// Mutable accessor on the addressee and its NLS state.
    pub fn addressee_with_nls_state_mut(&mut self) -> (r: EncodedAddresseeWithNlsStateMut<'_>)
        requires
            old(self).bytes().len() >= 10,
        ensures
            final(final(self).data)@ == final(old(self).data)@,
            r.bytes() == old(self).bytes().subrange(10, awns_end(old(self).bytes(), 10)),
            final(self).bytes() == replaced(old(self).bytes(), 10, awns_end(old(self).bytes(), 10), final(r.data)@),
    {
        let end = awns_end_at(&*self.data, 10);
        EncodedAddresseeWithNlsStateMut::new(slice_mut(self.data, 10, end))
    }

    /// # Errors
    /// Fails if the input is too short.
    pub fn encoded_size(&self) -> (r: Result<usize, SizeError>)
        ensures
            r is Ok <==> self.wf(),
            r matches Ok(size) ==> size == spec_d7_size(self.bytes()),
    {
        self.as_ref().encoded_size()
    }

    pub fn complete_decoding(&self) -> (r: WithByteSize<Dash7InterfaceStatusRef>)
        requires
            self.wf(),
        ensures
            r.item.decoded_from(self.bytes()),
            r.byte_size == spec_d7_size(self.bytes()),
    {
        self.as_ref().complete_decoding()
    }
}

/// Owned status of the Dash7 interface a packet was received on.
#[derive(Copy, Clone, Eq, PartialEq, Ord, PartialOrd, Hash, Debug)]
pub struct Dash7InterfaceStatus {
    ch_header: u8,
    ch_idx: u16,
    rxlev: u8,
    lb: u8,
    snr: u8,
    status: u8,
    token: u8,
    seq: u8,
    resp_to: u8,
    addressee_with_nls_state: AddresseeWithNlsState,
}

impl Dash7InterfaceStatus {
    /// `r` holds the same status as `self`.
    pub closed spec fn represents(self, r: Dash7InterfaceStatusRef) -> bool {
        &&& r.ch_header == self.ch_header
        &&& r.ch_idx == self.ch_idx
        &&& r.rxlev == self.rxlev
        &&& r.lb == self.lb
        &&& r.snr == self.snr
        &&& r.status == self.status
        &&& r.token == self.token
        &&& r.seq == self.seq
        &&& r.resp_to == self.resp_to
        &&& r.addressee_with_nls_state.addressee_view()
            == self.addressee_with_nls_state.addressee_view().as_ref_view()
        &&& r.addressee_with_nls_state.nls_state_view()
            == self.addressee_with_nls_state.nls_state_view()
    }

    pub fn as_ref(&self) -> (r: Dash7InterfaceStatusRef)
        ensures
            self.represents(r),
    {
        Dash7InterfaceStatusRef {
            ch_header: self.ch_header,
            ch_idx: self.ch_idx,
            rxlev: self.rxlev,
            lb: self.lb,
            snr: self.snr,
            status: self.status,
            token: self.token,
            seq: self.seq,
            resp_to: self.resp_to,
            addressee_with_nls_state: self.addressee_with_nls_state.as_ref(),
        }
    }
}

} // verus!
