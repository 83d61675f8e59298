//! Addressee of a Dash7 packet: who a packet is sent to or comes from.
//!
//! Encoded as a byte holding the identifier type (bits 4 to 6) and the NLS method (4 low bits),
//! then the access class, then the identifier on 0, 1, 2 or 8 bytes.
use crate::decodable::{copy_at, splice, written_at_head, SizeError, WithByteSize};
use vstd::prelude::*;

verus! {

/// Maximum byte size of an encoded `an Addressee`
pub const MAX_SIZE: usize = 2 + 8;

#[derive(Copy, Clone, Eq, PartialEq, Ord, PartialOrd, Hash, Debug)]
pub struct AccessClass(pub u8);

impl AccessClass {
    pub fn u8(self) -> (r: u8)
        ensures
            r == self.0,
    {
        let Self(n) = self;
        n
    }

    pub fn specifier(self) -> (r: u8)
        ensures
            r == self.0 >> 4u8,
            r == self.0 / 16,
    {
        let n = self.u8();
        assert(n >> 4u8 == n / 16) by (bit_vector);
        n >> 4
    }

    pub fn mask(self) -> (r: u8)
        ensures
            r == self.0 & 0x0F,
            r == self.0 % 16,
    {
        let n = self.u8();
        assert(n & 0x0F == n % 16) by (bit_vector);
        n & 0x0F
    }
}

/// Network layer security method.
#[derive(Copy, Clone, Eq, PartialEq, Ord, PartialOrd, Hash, Debug)]
pub enum NlsMethod {
    NoSecurity,
    AesCtr,
    AesCbcMac128,
    AesCbcMac64,
    AesCbcMac32,
    AesCcm128,
    AesCcm64,
    AesCcm32,
    Rfu8,
    Rfu9,
    Rfu10,
    Rfu11,
    Rfu12,
    Rfu13,
    Rfu14,
    Rfu15,
}

impl NlsMethod {
    /// Value of the method, on 4 bits.
    pub open spec fn spec_code(self) -> u8 {
        match self {
            Self::NoSecurity => 0,
            Self::AesCtr => 1,
            Self::AesCbcMac128 => 2,
            Self::AesCbcMac64 => 3,
            Self::AesCbcMac32 => 4,
            Self::AesCcm128 => 5,
            Self::AesCcm64 => 6,
            Self::AesCcm32 => 7,
            Self::Rfu8 => 8,
            Self::Rfu9 => 9,
            Self::Rfu10 => 10,
            Self::Rfu11 => 11,
            Self::Rfu12 => 12,
            Self::Rfu13 => 13,
            Self::Rfu14 => 14,
            Self::Rfu15 => 15,
        }
    }

    /// Method of a 4 bits value (`NoSecurity` for a larger value).
    pub open spec fn spec_from(n: u8) -> Self {
        if n == 1 {
            Self::AesCtr
        } else if n == 2 {
            Self::AesCbcMac128
        } else if n == 3 {
            Self::AesCbcMac64
        } else if n == 4 {
            Self::AesCbcMac32
        } else if n == 5 {
            Self::AesCcm128
        } else if n == 6 {
            Self::AesCcm64
        } else if n == 7 {
            Self::AesCcm32
        } else if n == 8 {
            Self::Rfu8
        } else if n == 9 {
            Self::Rfu9
        } else if n == 10 {
            Self::Rfu10
        } else if n == 11 {
            Self::Rfu11
        } else if n == 12 {
            Self::Rfu12
        } else if n == 13 {
            Self::Rfu13
        } else if n == 14 {
            Self::Rfu14
        } else if n == 15 {
            Self::Rfu15
        } else {
            Self::NoSecurity
        }
    }

    /// Value of the method, on 4 bits.
    pub fn code(self) -> (r: u8)
        ensures
            r == self.spec_code(),
            r < 16,
    {
        match self {
            Self::NoSecurity => 0,
            Self::AesCtr => 1,
            Self::AesCbcMac128 => 2,
            Self::AesCbcMac64 => 3,
            Self::AesCbcMac32 => 4,
            Self::AesCcm128 => 5,
            Self::AesCcm64 => 6,
            Self::AesCcm32 => 7,
            Self::Rfu8 => 8,
            Self::Rfu9 => 9,
            Self::Rfu10 => 10,
            Self::Rfu11 => 11,
            Self::Rfu12 => 12,
            Self::Rfu13 => 13,
            Self::Rfu14 => 14,
            Self::Rfu15 => 15,
        }
    }

    /// Decodes a value known to be on 4 bits.
    pub fn from_unchecked(n: u8) -> (r: Self)
        requires
            n < 16,
        ensures
            r == Self::spec_from(n),
            r.spec_code() == n,
    {
        match n {
            1 => Self::AesCtr,
            2 => Self::AesCbcMac128,
            3 => Self::AesCbcMac64,
            4 => Self::AesCbcMac32,
            5 => Self::AesCcm128,
            6 => Self::AesCcm64,
            7 => Self::AesCcm32,
            8 => Self::Rfu8,
            9 => Self::Rfu9,
            10 => Self::Rfu10,
            11 => Self::Rfu11,
            12 => Self::Rfu12,
            13 => Self::Rfu13,
            14 => Self::Rfu14,
            15 => Self::Rfu15,
            _ => Self::NoSecurity,
        }
    }
}

/// Kind of identifier of an addressee.
#[derive(Copy, Clone, Eq, PartialEq, Structural, Ord, PartialOrd, Hash, Debug)]
pub enum AddresseeIdentifierType {
    Nbid,
    Noid,
    Uid,
    Vid,
}

impl AddresseeIdentifierType {
    /// Value of the identifier type.
    pub open spec fn spec_code(self) -> u8 {
        match self {
            Self::Nbid => 0,
            Self::Noid => 1,
            Self::Uid => 2,
            Self::Vid => 3,
        }
    }

    /// Byte size of an identifier of this type.
    pub open spec fn spec_size(self) -> int {
        match self {
            Self::Nbid => 1,
            Self::Noid => 0,
            Self::Uid => 8,
            Self::Vid => 2,
        }
    }

    /// Identifier type of a value (`Nbid` for a value above 3).
    pub open spec fn spec_from(n: u8) -> Self {
        if n == 1 {
            Self::Noid
        } else if n == 2 {
            Self::Uid
        } else if n == 3 {
            Self::Vid
        } else {
            Self::Nbid
        }
    }

    /// Value of the identifier type.
    pub fn code(self) -> (r: u8)
        ensures
            r == self.spec_code(),
            r < 4,
    {
        match self {
            Self::Nbid => 0,
            Self::Noid => 1,
            Self::Uid => 2,
            Self::Vid => 3,
        }
    }

    pub fn encoded_size(&self) -> (r: usize)
        ensures
            r == self.spec_size(),
    {
        match self {
            Self::Nbid => 1,
            Self::Noid => 0,
            Self::Uid => 8,
            Self::Vid => 2,
        }
    }

    /// Decodes an identifier type; a value above 3 gives `Nbid`.
    pub fn from_unchecked(n: u8) -> (r: Self)
        ensures
            r == Self::spec_from(n),
            n < 4 ==> r.spec_code() == n,
    {
        match n {
            1 => Self::Noid,
            2 => Self::Uid,
            3 => Self::Vid,
            _ => Self::Nbid,
        }
    }
}

/// Identifier of an addressee.
#[derive(Copy, Clone, Eq, PartialEq, Ord, PartialOrd, Hash, Debug)]
pub enum AddresseeIdentifierRef {
    Nbid(u8),
    Noid,
    Uid([u8; 8]),
    Vid([u8; 2]),
}

impl AddresseeIdentifierRef {
    /// Encoded bytes of the identifier.
    pub open spec fn bytes(self) -> Seq<u8> {
        match self {
            Self::Nbid(n) => seq![n],
            Self::Noid => seq![],
            Self::Uid(id) => id@,
            Self::Vid(id) => id@,
        }
    }

    /// Type of the identifier.
    pub open spec fn spec_id_type(self) -> AddresseeIdentifierType {
        match self {
            Self::Nbid(_) => AddresseeIdentifierType::Nbid,
            Self::Noid => AddresseeIdentifierType::Noid,
            Self::Uid(_) => AddresseeIdentifierType::Uid,
            Self::Vid(_) => AddresseeIdentifierType::Vid,
        }
    }

    pub fn id_type(&self) -> (r: AddresseeIdentifierType)
        ensures
            r == self.spec_id_type(),
    {
        match self {
            Self::Nbid(_) => AddresseeIdentifierType::Nbid,
            Self::Noid => AddresseeIdentifierType::Noid,
            Self::Uid(_) => AddresseeIdentifierType::Uid,
            Self::Vid(_) => AddresseeIdentifierType::Vid,
        }
    }

    pub fn encoded_size(&self) -> (r: usize)
        ensures
            r == self.bytes().len(),
            r == self.spec_id_type().spec_size(),
    {
        match self {
            Self::Nbid(_) => 1,
            Self::Noid => 0,
            Self::Uid(_) => 8,
            Self::Vid(_) => 2,
        }
    }

    pub fn to_owned(&self) -> (r: AddresseeIdentifier)
        ensures
            r.as_spec_ref() == *self,
    {
        match self {
            Self::Nbid(n) => AddresseeIdentifier::Nbid(*n),
            Self::Noid => AddresseeIdentifier::Noid,
            Self::Uid(uid) => AddresseeIdentifier::Uid(*uid),
            Self::Vid(vid) => AddresseeIdentifier::Vid(*vid),
        }
    }
}

/// Owned identifier of an addressee.
#[derive(Copy, Clone, Eq, PartialEq, Ord, PartialOrd, Hash, Debug)]
pub enum AddresseeIdentifier {
    Nbid(u8),
    Noid,
    Uid([u8; 8]),
    Vid([u8; 2]),
}

impl AddresseeIdentifier {
    /// The same identifier, borrowed.
    pub open spec fn as_spec_ref(self) -> AddresseeIdentifierRef {
        match self {
            Self::Nbid(n) => AddresseeIdentifierRef::Nbid(n),
            Self::Noid => AddresseeIdentifierRef::Noid,
            Self::Uid(uid) => AddresseeIdentifierRef::Uid(uid),
            Self::Vid(vid) => AddresseeIdentifierRef::Vid(vid),
        }
    }

    pub fn as_ref(&self) -> (r: AddresseeIdentifierRef)
        ensures
            r == self.as_spec_ref(),
    {
        match self {
            Self::Nbid(n) => AddresseeIdentifierRef::Nbid(*n),
            Self::Noid => AddresseeIdentifierRef::Noid,
            Self::Uid(uid) => AddresseeIdentifierRef::Uid(*uid),
            Self::Vid(vid) => AddresseeIdentifierRef::Vid(*vid),
        }
    }
}

/// First byte of an encoded addressee.
pub open spec fn addressee_byte(id_type: u8, nls_method: u8) -> u8 {
    (id_type << 4u8) | nls_method
}

/// The fields of the first byte of an addressee read back what was written in it.
pub proof fn lemma_addressee_byte(id_type: u8, nls_method: u8)
    by (bit_vector)
    requires
        id_type < 4,
        nls_method < 16,
    ensures
        (addressee_byte(id_type, nls_method) >> 4u8) & 0x07u8 == id_type,
        addressee_byte(id_type, nls_method) & 0x0Fu8 == nls_method,
{
}

/// Identifier type held by the first byte of an encoded addressee.
pub open spec fn spec_id_type(data: Seq<u8>) -> AddresseeIdentifierType {
    AddresseeIdentifierType::spec_from((data[0] >> 4u8) & 0x07u8)
}

/// NLS method held by the first byte of an encoded addressee.
pub open spec fn spec_nls_method(data: Seq<u8>) -> NlsMethod {
    NlsMethod::spec_from(data[0] & 0x0Fu8)
}

/// Addressee of a packet.
#[derive(Copy, Clone, Eq, PartialEq, Ord, PartialOrd, Hash, Debug)]
pub struct AddresseeRef {
    pub nls_method: NlsMethod,
    pub access_class: AccessClass,
    pub identifier: AddresseeIdentifierRef,
}

impl AddresseeRef {
    /// Bytes of the encoded addressee.
    pub open spec fn encoding(self) -> Seq<u8> {
        seq![
            addressee_byte(self.identifier.spec_id_type().spec_code(), self.nls_method.spec_code()),
            self.access_class.0,
        ] + self.identifier.bytes()
    }

    /// `data` starts with a complete encoded addressee.
    pub open spec fn complete(data: Seq<u8>) -> bool {
        data.len() >= 1 && data.len() >= Self::decoded_size(data)
    }

    /// Byte size of the addressee encoded at the start of `data`.
    pub open spec fn decoded_size(data: Seq<u8>) -> int {
        2 + spec_id_type(data).spec_size()
    }

    /// `self` is the addressee encoded at the start of `data`.
    pub open spec fn decoded_from(self, data: Seq<u8>) -> bool {
        &&& self.nls_method == spec_nls_method(data)
        &&& self.access_class == AccessClass(data[1])
        &&& self.identifier.spec_id_type() == spec_id_type(data)
        &&& self.identifier.bytes() == data.subrange(2, Self::decoded_size(data))
    }

    pub fn to_owned(&self) -> (r: Addressee)
        ensures
            r.as_ref_view() == *self,
    {
        Addressee {
            nls_method: self.nls_method,
            access_class: self.access_class,
            identifier: self.identifier.to_owned(),
        }
    }

    /// Size in bytes of the encoded addressee.
    pub fn encoded_size(&self) -> (r: usize)
        ensures
            r == self.encoding().len(),
            r <= MAX_SIZE,
    {
        2 + self.identifier.id_type().encoded_size()
    }

    /// Writes the encoded addressee at `pos` in `out`.
    pub fn encode_at(&self, out: &mut [u8], pos: usize) -> (size: usize)
        requires
            pos + self.encoding().len() <= old(out)@.len(),
        ensures
            size == self.encoding().len(),
            final(out)@ == splice(old(out)@, pos as int, self.encoding()),
    {
        let id_type = self.identifier.id_type();
        let ty = id_type.code();
        let nls = self.nls_method.code();
        out[pos] = (ty << 4u8) | nls;
        out[pos + 1] = self.access_class.u8();
        match self.identifier {
            AddresseeIdentifierRef::Nbid(n) => {
                out[pos + 2] = n;
            },
            AddresseeIdentifierRef::Noid => {},
            AddresseeIdentifierRef::Uid(id) => {
                let ghost mid = out@;
                copy_at(out, pos + 2, id.as_slice());
            },
            AddresseeIdentifierRef::Vid(id) => {
                copy_at(out, pos + 2, id.as_slice());
            },
        }
        assert(out@ =~= splice(old(out)@, pos as int, self.encoding()));
        2 + id_type.encoded_size()
    }

    /// Writes the encoded addressee at the start of `out`.
    ///
    /// # Errors
    /// Fails with the required size if `out` is too small.
    pub fn encode_in(&self, out: &mut [u8]) -> (r: Result<usize, usize>)
        ensures
            r is Ok <==> old(out)@.len() >= self.encoding().len(),
            r matches Ok(size) ==> size == self.encoding().len() && written_at_head(
                final(out)@,
                old(out)@,
                self.encoding(),
            ),
            r matches Err(size) ==> size == self.encoding().len() && final(out)@ == old(out)@,
    {
        let size = self.encoded_size();
        if out.len() < size {
            return Err(size);
        }
        Ok(self.encode_at(out, 0))
    }

    /// # Errors
    /// Fails if the input is too short.
    pub fn decode(data: &[u8]) -> (r: Result<WithByteSize<AddresseeRef>, SizeError>)
        ensures
            r is Ok <==> Self::complete(data@),
            r matches Ok(w) ==> w.item.decoded_from(data@) && w.byte_size == Self::decoded_size(
                data@,
            ),
    {
        let decoder = Self::start_decoding(data)?;
        Ok(decoder.item.complete_decoding())
    }

    /// # Errors
    /// Fails if the input is too short.
    pub fn start_decoding(data: &[u8]) -> (r: Result<WithByteSize<EncodedAddressee<'_>>, SizeError>)
        ensures
            r is Ok <==> Self::complete(data@),
            r matches Ok(w) ==> w.item.bytes() == data@ && w.byte_size == Self::decoded_size(
                data@,
            ),
    {
        let decoder = EncodedAddressee::new(data);
        let size = decoder.encoded_size()?;
        Ok(WithByteSize { item: decoder, byte_size: size })
    }

    /// Reader on an addressee known to be complete.
    pub fn start_decoding_unchecked(data: &[u8]) -> (r: EncodedAddressee<'_>)
        requires
            Self::complete(data@),
        ensures
            r.bytes() == data@,
    {
        EncodedAddressee::new(data)
    }

    /// # Errors
    /// Fails if the input is too short.
    pub fn start_decoding_mut(data: &mut [u8]) -> (r: Result<
        WithByteSize<EncodedAddresseeMut<'_>>,
        SizeError,
    >)
        ensures
            r is Err ==> final(data)@ == old(data)@,
            r matches Ok(w) ==> final(data)@ == final(w.item.data)@,
            r is Ok <==> Self::complete(old(data)@),
            r matches Ok(w) ==> w.item.bytes() == old(data)@ && w.byte_size
                == Self::decoded_size(old(data)@),
    {
        let size = EncodedAddressee::new(&*data).encoded_size()?;
        Ok(WithByteSize { item: EncodedAddresseeMut::new(data), byte_size: size })
    }

    /// Mutable accessor on an addressee known to be complete.
    pub fn start_decoding_unchecked_mut(data: &mut [u8]) -> (r: EncodedAddresseeMut<'_>)
        requires
            Self::complete(old(data)@),
        ensures
            final(data)@ == final(r.data)@,
            r.bytes() == old(data)@,
    {
        EncodedAddresseeMut::new(data)
    }
}

/// Decoding an encoded addressee gives it back, whatever follows it.
pub proof fn lemma_roundtrip(op: AddresseeRef, rest: Seq<u8>)
    ensures
        AddresseeRef::complete(op.encoding() + rest),
        AddresseeRef::decoded_size(op.encoding() + rest) == op.encoding().len(),
        op.decoded_from(op.encoding() + rest),
{
    let d = op.encoding() + rest;
    let ty = op.identifier.spec_id_type();
    lemma_addressee_byte(ty.spec_code(), op.nls_method.spec_code());
    assert(d[0] == addressee_byte(ty.spec_code(), op.nls_method.spec_code()));
    assert(d[1] == op.access_class.0);
    assert(spec_id_type(d) == ty);
    assert(d.subrange(2, 2 + ty.spec_size()) =~= op.identifier.bytes());
}

/// Read access to an encoded addressee.
pub struct EncodedAddressee<'data> {
    data: &'data [u8],
}

impl<'data> EncodedAddressee<'data> {
    /// The bytes this reader looks at.
    pub closed spec fn bytes(&self) -> Seq<u8> {
        self.data@
    }

    /// The bytes hold a complete addressee.
    pub open spec fn wf(&self) -> bool {
        AddresseeRef::complete(self.bytes())
    }

    pub fn new(data: &'data [u8]) -> (r: Self)
        ensures
            r.bytes() == data@,
    {
        Self { data }
    }

    pub fn id_type(&self) -> (r: AddresseeIdentifierType)
        requires
            self.bytes().len() >= 1,
        ensures
            r == spec_id_type(self.bytes()),
    {
        AddresseeIdentifierType::from_unchecked((self.data[0] >> 4u8) & 0x07)
    }

    pub fn nls_method(&self) -> (r: NlsMethod)
        requires
            self.bytes().len() >= 1,
        ensures
            r == spec_nls_method(self.bytes()),
    {
        let b = self.data[0];
        assert(b & 0x0F < 16) by (bit_vector);
        NlsMethod::from_unchecked(b & 0x0F)
    }

    pub fn access_class(&self) -> (r: AccessClass)
        requires
            self.bytes().len() >= 2,
        ensures
            r == AccessClass(self.bytes()[1]),
    {
        AccessClass(self.data[1])
    }

    pub fn identifier(&self) -> (r: AddresseeIdentifierRef)
        requires
            self.wf(),
        ensures
            r.spec_id_type() == spec_id_type(self.bytes()),
            r.bytes() == self.bytes().subrange(2, AddresseeRef::decoded_size(self.bytes())),
    {
        let d = self.data;
        let r = match self.id_type() {
            AddresseeIdentifierType::Nbid => AddresseeIdentifierRef::Nbid(d[2]),
            AddresseeIdentifierType::Noid => AddresseeIdentifierRef::Noid,
            AddresseeIdentifierType::Uid => AddresseeIdentifierRef::Uid(
                [d[2], d[3], d[4], d[5], d[6], d[7], d[8], d[9]],
            ),
            AddresseeIdentifierType::Vid => AddresseeIdentifierRef::Vid([d[2], d[3]]),
        };
        assert(r.bytes() =~= self.data@.subrange(2, AddresseeRef::decoded_size(self.data@)));
        r
    }

    /// Byte size announced by the first byte.
    pub fn encoded_size_unchecked(&self) -> (r: usize)
        requires
            self.bytes().len() >= 1,
        ensures
            r == AddresseeRef::decoded_size(self.bytes()),
    {
        2 + self.id_type().encoded_size()
    }

    /// # Errors
    /// Fails if the input is too short.
    pub fn encoded_size(&self) -> (r: Result<usize, SizeError>)
        ensures
            r is Ok <==> self.wf(),
            r matches Ok(size) ==> size == AddresseeRef::decoded_size(self.bytes()),
    {
        if self.data.len() < 1 {
            return Err(SizeError::MissingBytes);
        }
        let size = self.encoded_size_unchecked();
        if self.data.len() < size {
            return Err(SizeError::MissingBytes);
        }
        Ok(size)
    }

    pub fn complete_decoding(&self) -> (r: WithByteSize<AddresseeRef>)
        requires
            self.wf(),
        ensures
            r.item.decoded_from(self.bytes()),
            r.byte_size == AddresseeRef::decoded_size(self.bytes()),
    {
        let identifier = self.identifier();
        WithByteSize {
            item: AddresseeRef {
                nls_method: self.nls_method(),
                access_class: self.access_class(),
                identifier,
            },
            byte_size: 2 + identifier.encoded_size(),
        }
    }
}

/// Write access to an encoded addressee.
pub struct EncodedAddresseeMut<'data> {
    /// The bytes of the item, which this accessor edits in place.
    pub data: &'data mut [u8],
}

#[derive(Clone, Eq, PartialEq, Ord, PartialOrd, Hash, Debug)]
pub enum AddresseeSetNlsMethodError {
    /// The requested nls method change implies an nls_state field size change. Thus is impossible.
    NlsStateMismatch,
}

#[derive(Clone, Eq, PartialEq, Ord, PartialOrd, Hash, Debug)]
pub enum AddresseeSetIdentifierError {
    /// The given identifier byte size does not match the encoded identifier byte size.
    IdMismatch,
}

/// First byte of an addressee with another identifier type.
pub open spec fn with_id_type(b: u8, id_type: u8) -> u8 {
    (b & 0x0Fu8) | (id_type << 4u8)
}

/// First byte of an addressee with another NLS method.
pub open spec fn with_nls_method(b: u8, nls_method: u8) -> u8 {
    (b & 0xF0u8) | nls_method
}

/// Changing a field of the first byte of an addressee leaves the other unchanged.
pub proof fn lemma_addressee_byte_set(b: u8, id_type: u8, nls_method: u8)
    by (bit_vector)
    requires
        id_type < 4,
        nls_method < 16,
    ensures
        (with_id_type(b, id_type) >> 4u8) & 0x07u8 == id_type,
        with_id_type(b, id_type) & 0x0Fu8 == b & 0x0Fu8,
        with_nls_method(b, nls_method) & 0x0Fu8 == nls_method,
        (with_nls_method(b, nls_method) >> 4u8) & 0x07u8 == (b >> 4u8) & 0x07u8,
{
}

impl<'data> EncodedAddresseeMut<'data> {
    /// The bytes this accessor looks at.
    pub open spec fn bytes(&self) -> Seq<u8> {
        self.data@
    }

    /// The bytes hold a complete addressee.
    pub open spec fn wf(&self) -> bool {
        AddresseeRef::complete(self.bytes())
    }

    pub fn new(data: &'data mut [u8]) -> (r: Self)
        ensures
            final(data)@ == final(r.data)@,
            r.bytes() == old(data)@,
    {
        Self { data }
    }

    /// Read only view of the same bytes.
    pub fn as_ref(&self) -> (r: EncodedAddressee<'_>)
        ensures
            r.bytes() == self.bytes(),
    {
        EncodedAddressee::new(&*self.data)
    }

    pub fn id_type(&self) -> (r: AddresseeIdentifierType)
        requires
            self.bytes().len() >= 1,
        ensures
            r == spec_id_type(self.bytes()),
    {
        self.as_ref().id_type()
    }

    pub fn nls_method(&self) -> (r: NlsMethod)
        requires
            self.bytes().len() >= 1,
        ensures
            r == spec_nls_method(self.bytes()),
    {
        self.as_ref().nls_method()
    }

    pub fn access_class(&self) -> (r: AccessClass)
        requires
            self.bytes().len() >= 2,
        ensures
            r == AccessClass(self.bytes()[1]),
    {
        self.as_ref().access_class()
    }

    pub fn identifier(&self) -> (r: AddresseeIdentifierRef)
        requires
            self.wf(),
        ensures
            r.spec_id_type() == spec_id_type(self.bytes()),
            r.bytes() == self.bytes().subrange(2, AddresseeRef::decoded_size(self.bytes())),
    {
        self.as_ref().identifier()
    }

    /// Byte size announced by the first byte.
    pub fn encoded_size_unchecked(&self) -> (r: usize)
        requires
            self.bytes().len() >= 1,
        ensures
            r == AddresseeRef::decoded_size(self.bytes()),
    {
        self.as_ref().encoded_size_unchecked()
    }

    /// Changes the identifier type.
    ///
    /// The identifier that follows is left as it is: change it accordingly.
    pub fn set_id_type(&mut self, ty: AddresseeIdentifierType)
        requires
            old(self).bytes().len() >= 1,
        ensures
            final(final(self).data)@ == final(old(self).data)@,
            final(self).bytes() == old(self).bytes().update(
                0,
                with_id_type(old(self).bytes()[0], ty.spec_code()),
            ),
            spec_id_type(final(self).bytes()) == ty,
            spec_nls_method(final(self).bytes()) == spec_nls_method(old(self).bytes()),
    {
        let code = ty.code();
        proof {
            lemma_addressee_byte_set(self.data@[0], code, 0);
        }
        self.data[0] = (self.data[0] & 0x0F) | (code << 4u8);
    }

    /// Changes the NLS method, whatever the size of the NLS state that follows the addressee.
    pub fn set_nls_method_unchecked(&mut self, nls_method: NlsMethod)
        requires
            old(self).bytes().len() >= 1,
        ensures
            final(final(self).data)@ == final(old(self).data)@,
            final(self).bytes() == old(self).bytes().update(
                0,
                with_nls_method(old(self).bytes()[0], nls_method.spec_code()),
            ),
            spec_nls_method(final(self).bytes()) == nls_method,
            spec_id_type(final(self).bytes()) == spec_id_type(old(self).bytes()),
    {
        let code = nls_method.code();
        proof {
            lemma_addressee_byte_set(self.data@[0], 0, code);
        }
        self.data[0] = (self.data[0] & 0xF0) | code;
    }

    /// # Errors
    /// Fails if the nls method change implies a nls_state field byte size change.
    pub fn set_nls_method(&mut self, nls_method: NlsMethod) -> (r: Result<
        (),
        AddresseeSetNlsMethodError,
    >)
        requires
            old(self).bytes().len() >= 1,
        ensures
            final(final(self).data)@ == final(old(self).data)@,
            r is Ok <==> ((spec_nls_method(old(self).bytes()) == NlsMethod::NoSecurity) == (nls_method
                == NlsMethod::NoSecurity)),
            r is Ok ==> final(self).bytes() == old(self).bytes().update(
                0,
                with_nls_method(old(self).bytes()[0], nls_method.spec_code()),
            ) && spec_nls_method(final(self).bytes()) == nls_method,
            r is Err ==> final(self).bytes() == old(self).bytes(),
    {
        let current_none = match self.nls_method() {
            NlsMethod::NoSecurity => true,
            _ => false,
        };
        let new_none = match nls_method {
            NlsMethod::NoSecurity => true,
            _ => false,
        };
        if current_none != new_none {
            return Err(AddresseeSetNlsMethodError::NlsStateMismatch);
        }
        self.set_nls_method_unchecked(nls_method);
        Ok(())
    }

    pub fn set_access_class(&mut self, access_class: AccessClass)
        requires
            old(self).bytes().len() >= 2,
        ensures
            final(final(self).data)@ == final(old(self).data)@,
            final(self).bytes() == old(self).bytes().update(1, access_class.0),
    {
        self.data[1] = access_class.u8();
    }

    /// Writes the bytes of an identifier, whatever the encoded identifier type.
    pub fn set_identifier_unchecked(&mut self, identifier: AddresseeIdentifierRef)
        requires
            old(self).bytes().len() >= 2 + identifier.bytes().len(),
        ensures
            final(final(self).data)@ == final(old(self).data)@,
            final(self).bytes() == splice(old(self).bytes(), 2, identifier.bytes()),
    {
        match identifier {
            AddresseeIdentifierRef::Nbid(n) => {
                self.data[2] = n;
            },
            AddresseeIdentifierRef::Noid => {},
            AddresseeIdentifierRef::Uid(id) => {
                copy_at(self.data, 2, id.as_slice());
            },
            AddresseeIdentifierRef::Vid(id) => {
                copy_at(self.data, 2, id.as_slice());
            },
        }
        assert(self.data@ =~= splice(old(self).bytes(), 2, identifier.bytes()));
    }

    /// # Errors
    /// Returns an error if the given identifier is not of the same type as the encoded one,
    /// because it would imply an encoded size mismatch.
    pub fn set_identifier(&mut self, identifier: AddresseeIdentifierRef) -> (r: Result<
        (),
        AddresseeSetIdentifierError,
    >)
        requires
            old(self).wf(),
        ensures
            final(final(self).data)@ == final(old(self).data)@,
            r is Ok <==> identifier.spec_id_type() == spec_id_type(old(self).bytes()),
            r is Ok ==> final(self).bytes() == splice(old(self).bytes(), 2, identifier.bytes()),
            r is Err ==> final(self).bytes() == old(self).bytes(),
    {
        if self.id_type() != identifier.id_type() {
            return Err(AddresseeSetIdentifierError::IdMismatch);
        }
        self.set_identifier_unchecked(identifier);
        Ok(())
    }

    /// # Errors
    /// Fails if the input is too short.
    pub fn encoded_size(&self) -> (r: Result<usize, SizeError>)
        ensures
            r is Ok <==> self.wf(),
            r matches Ok(size) ==> size == AddresseeRef::decoded_size(self.bytes()),
    {
        self.as_ref().encoded_size()
    }

    pub fn complete_decoding(&self) -> (r: WithByteSize<AddresseeRef>)
        requires
            self.wf(),
        ensures
            r.item.decoded_from(self.bytes()),
            r.byte_size == AddresseeRef::decoded_size(self.bytes()),
    {
        self.as_ref().complete_decoding()
    }
}

/// Owned addressee of a packet.
#[derive(Copy, Clone, Eq, PartialEq, Ord, PartialOrd, Hash, Debug)]
pub struct Addressee {
    pub nls_method: NlsMethod,
    pub access_class: AccessClass,
    pub identifier: AddresseeIdentifier,
}

impl Addressee {
    /// The same addressee, borrowed.
    pub open spec fn as_ref_view(self) -> AddresseeRef {
        AddresseeRef {
            nls_method: self.nls_method,
            access_class: self.access_class,
            identifier: self.identifier.as_spec_ref(),
        }
    }

    pub fn as_ref(&self) -> (r: AddresseeRef)
        ensures
            r == self.as_ref_view(),
    {
        AddresseeRef {
            nls_method: self.nls_method,
            access_class: self.access_class,
            identifier: self.identifier.as_ref(),
        }
    }
}

/// Each NLS method has the number that ALP gives it: no security 0, AES-CTR 1, AES-CBC-MAC-128 2,
/// AES-CBC-MAC-64 3, AES-CBC-MAC-32 4, AES-CCM-128 5, AES-CCM-64 6, AES-CCM-32 7, and 8 to 15
/// reserved; and decoding any 4 bits value gives the method of that number.
pub proof fn lemma_nls_method_numbers()
    ensures
        NlsMethod::NoSecurity.spec_code() == 0,
        NlsMethod::AesCtr.spec_code() == 1,
        NlsMethod::AesCbcMac128.spec_code() == 2,
        NlsMethod::AesCbcMac64.spec_code() == 3,
        NlsMethod::AesCbcMac32.spec_code() == 4,
        NlsMethod::AesCcm128.spec_code() == 5,
        NlsMethod::AesCcm64.spec_code() == 6,
        NlsMethod::AesCcm32.spec_code() == 7,
        NlsMethod::Rfu8.spec_code() == 8,
        NlsMethod::Rfu9.spec_code() == 9,
        NlsMethod::Rfu10.spec_code() == 10,
        NlsMethod::Rfu11.spec_code() == 11,
        NlsMethod::Rfu12.spec_code() == 12,
        NlsMethod::Rfu13.spec_code() == 13,
        NlsMethod::Rfu14.spec_code() == 14,
        NlsMethod::Rfu15.spec_code() == 15,
        forall|n: u8| n < 16 ==> (#[trigger] NlsMethod::spec_from(n)).spec_code() == n,
{
}

/// Each identifier type has the number that ALP gives it, and the byte size of its identifier:
/// NBID 0 on 1 byte, NOID 1 on no byte, UID 2 on 8 bytes, VID 3 on 2 bytes; decoding any 2 bits
/// value gives the type of that number.
pub proof fn lemma_identifier_type_numbers()
    ensures
        AddresseeIdentifierType::Nbid.spec_code() == 0,
        AddresseeIdentifierType::Noid.spec_code() == 1,
        AddresseeIdentifierType::Uid.spec_code() == 2,
        AddresseeIdentifierType::Vid.spec_code() == 3,
        AddresseeIdentifierType::Nbid.spec_size() == 1,
        AddresseeIdentifierType::Noid.spec_size() == 0,
        AddresseeIdentifierType::Uid.spec_size() == 8,
        AddresseeIdentifierType::Vid.spec_size() == 2,
        forall|n: u8| n < 4 ==> (#[trigger] AddresseeIdentifierType::spec_from(n)).spec_code() == n,
{
}

/// The first byte of an encoded addressee holds the number of its identifier type on bits 4
/// and 5 and the number of its NLS method on the low nibble; the second byte is its access
/// class.
pub proof fn lemma_addressee_first_bytes(op: AddresseeRef)
    ensures
        (op.encoding()[0] >> 4u8) & 0x07u8 == op.identifier.spec_id_type().spec_code(),
        op.encoding()[0] & 0x0Fu8 == op.nls_method.spec_code(),
        op.encoding()[1] == op.access_class.0,
        op.nls_method == NlsMethod::AesCbcMac128 ==> op.encoding()[0] & 0x0Fu8 == 2,
        op.nls_method == NlsMethod::AesCcm128 ==> op.encoding()[0] & 0x0Fu8 == 5,
{
    lemma_nls_method_numbers();
    lemma_identifier_type_numbers();
    lemma_addressee_byte(op.identifier.spec_id_type().spec_code(), op.nls_method.spec_code());
}

} // verus!
