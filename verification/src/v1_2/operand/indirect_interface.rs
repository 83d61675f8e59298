//! Interface through which an indirect forward action sends its payload.
use crate::codec::{StdError, WithOffset, WithSize};
use crate::decodable::{
    copy_at, lemma_splice_byte, lemma_splice_concat, skip, splice, tail, written_at_head,
};
use crate::v1_2::dash7::addressee::{
    addressee_byte, AddresseeIdentifier, AddresseeIdentifierType, NlsMethod,
};
use vstd::prelude::*;

verus! {

/// Dash7 interface whose configuration is overloaded by the given addressee.
#[derive(Clone, Copy, Debug, PartialEq, Eq)]
pub struct OverloadedIndirectInterface {
    /// File containing the `QoS`, `to` and `te` to use for the transmission
    pub interface_file_id: u8,
    pub nls_method: NlsMethod,
    pub access_class: u8,
    pub address: AddresseeIdentifier,
}

impl OverloadedIndirectInterface {
    /// Bytes of the encoded interface.
    pub open spec fn encoding(self) -> Seq<u8> {
        seq![
            self.interface_file_id,
            addressee_byte(
                self.address.as_spec_ref().spec_id_type().spec_code(),
                self.nls_method.spec_code(),
            ),
            self.access_class,
        ] + self.address.as_spec_ref().bytes()
    }

    pub fn encoded_size(&self) -> (r: usize)
        ensures
            r == self.encoding().len(),
    {
        3 + self.address.as_ref().encoded_size()
    }

    /// Writes the encoded interface at `pos` in `out`.
    pub fn encode_at(&self, out: &mut [u8], pos: usize) -> (r: usize)
        requires
            pos + self.encoding().len() <= old(out)@.len(),
        ensures
            r == self.encoding().len(),
            final(out)@ == splice(old(out)@, pos as int, self.encoding()),
    {
        let ghost before = out@;
        let address = self.address.as_ref();
        let head = (address.id_type().code() << 4u8) | self.nls_method.code();
        out[pos] = self.interface_file_id;
        out[pos + 1] = head;
        out[pos + 2] = self.access_class;
        let ghost h = seq![self.interface_file_id, head, self.access_class];
        assert(out@ =~= splice(before, pos as int, h));
        match address {
            crate::v1_2::dash7::addressee::AddresseeIdentifierRef::Nbid(n) => {
                proof {
                    lemma_splice_byte(out@, pos + 3, n);
                }
                out[pos + 3] = n;
            },
            crate::v1_2::dash7::addressee::AddresseeIdentifierRef::Noid => {},
            crate::v1_2::dash7::addressee::AddresseeIdentifierRef::Uid(id) => {
                copy_at(out, pos + 3, id.as_slice());
            },
            crate::v1_2::dash7::addressee::AddresseeIdentifierRef::Vid(id) => {
                copy_at(out, pos + 3, id.as_slice());
            },
        }
        proof {
            lemma_splice_concat(before, pos as int, h, address.bytes());
            assert(h + address.bytes() =~= self.encoding());
        }
        3 + address.encoded_size()
    }

    /// Writes the encoded interface at the start of `out`, which must be large enough.
    pub fn encode_in(&self, out: &mut [u8]) -> (r: usize)
        requires
            old(out)@.len() >= self.encoding().len(),
        ensures
            r == self.encoding().len(),
            written_at_head(final(out)@, old(out)@, self.encoding()),
    {
        self.encode_at(out, 0)
    }

    /// Type of the address held by the second byte of an encoded interface.
    pub open spec fn spec_address_type(data: Seq<u8>) -> AddresseeIdentifierType {
        AddresseeIdentifierType::spec_from((data[1] & 0x30u8) >> 4u8)
    }

    /// Byte size of the interface encoded at the start of `data`.
    pub open spec fn decoded_size(data: Seq<u8>) -> int {
        3 + Self::spec_address_type(data).spec_size()
    }

    /// `data` starts with a complete encoded interface.
    pub open spec fn complete(data: Seq<u8>) -> bool {
        data.len() >= 3 && data.len() >= Self::decoded_size(data)
    }

    /// `self` is the interface encoded at the start of `data`; the two high bits of the second
    /// byte are not read.
    pub open spec fn decoded_from(self, data: Seq<u8>) -> bool {
        &&& self.interface_file_id == data[0]
        &&& self.nls_method == NlsMethod::spec_from(data[1] & 0x0Fu8)
        &&& self.access_class == data[2]
        &&& self.address.as_spec_ref().spec_id_type() == Self::spec_address_type(data)
        &&& self.address.as_spec_ref().bytes() == data.subrange(3, Self::decoded_size(data))
    }

    /// Error of decoding the incomplete interface at the start of `data`, which stands at
    /// `offset` in the whole input.
    pub open spec fn decode_error(data: Seq<u8>, offset: int) -> WithOffset<StdError> {
        if data.len() < 3 {
            WithOffset { offset: offset as usize, value: StdError::MissingBytes((3 - data.len()) as usize) }
        } else {
            WithOffset {
                offset: (offset + 3) as usize,
                value: StdError::MissingBytes((Self::decoded_size(data) - data.len()) as usize),
            }
        }
    }

    /// # Errors
    /// Fails with the number of missing bytes if the input is too short.
    pub fn decode(out: &[u8]) -> (r: Result<WithSize<Self>, WithOffset<StdError>>)
        ensures
            r is Ok <==> Self::complete(out@),
            r matches Ok(w) ==> w.size == Self::decoded_size(out@) && w.value.decoded_from(out@),
            r matches Err(e) ==> e == Self::decode_error(out@, 0),
    {
        let len = out.len();
        if len < 3 {
            return Err(WithOffset::new_head(StdError::MissingBytes(3 - len)));
        }
        let b = out[1];
        assert((b & 0x30u8) >> 4u8 < 4) by (bit_vector);
        assert(b & 0x0Fu8 < 16) by (bit_vector);
        let ty = AddresseeIdentifierType::from_unchecked((b & 0x30) >> 4);
        let size = ty.encoded_size();
        if len < 3 + size {
            return Err(WithOffset::new(3, StdError::MissingBytes(3 + size - len)));
        }
        let nls_method = NlsMethod::from_unchecked(b & 0x0F);
        let address = match ty {
            AddresseeIdentifierType::Nbid => AddresseeIdentifier::Nbid(out[3]),
            AddresseeIdentifierType::Noid => AddresseeIdentifier::Noid,
            AddresseeIdentifierType::Uid => AddresseeIdentifier::Uid(
                [out[3], out[4], out[5], out[6], out[7], out[8], out[9], out[10]],
            ),
            AddresseeIdentifierType::Vid => AddresseeIdentifier::Vid([out[3], out[4]]),
        };
        let r = Self { interface_file_id: out[0], nls_method, access_class: out[2], address };
        proof {
            assert(r.address.as_spec_ref().bytes() =~= out@.subrange(3, 3 + size));
        }
        Ok(WithSize { value: r, size: 3 + size })
    }
}

/// Decoding an encoded overloaded interface gives it back, whatever follows it.
pub proof fn lemma_overloaded_roundtrip(op: OverloadedIndirectInterface, rest: Seq<u8>)
    ensures
        OverloadedIndirectInterface::complete(op.encoding() + rest),
        OverloadedIndirectInterface::decoded_size(op.encoding() + rest) == op.encoding().len(),
        op.decoded_from(op.encoding() + rest),
{
    let d = op.encoding() + rest;
    let t = op.address.as_spec_ref().spec_id_type().spec_code();
    let m = op.nls_method.spec_code();
    let b = addressee_byte(t, m);
    assert(d[1] == b);
    assert((b & 0x30u8) >> 4u8 == t && b & 0x0Fu8 == m) by (bit_vector)
        requires
            b == addressee_byte(t, m),
            t < 4,
            m < 16,
    ;
    assert(d.subrange(3, 3 + op.address.as_spec_ref().bytes().len() as int) =~= op.address.as_spec_ref().bytes());
}

/// Non Dash7 interface.
#[derive(Clone, Debug, PartialEq, Eq)]
pub struct NonOverloadedIndirectInterface {
    pub interface_file_id: u8,
    pub data: Vec<u8>,
}

impl NonOverloadedIndirectInterface {
    /// Bytes of the encoded interface.
    pub open spec fn encoding(self) -> Seq<u8> {
        seq![self.interface_file_id] + self.data@
    }

    pub fn encoded_size(&self) -> (r: usize)
        requires
            self.data@.len() < usize::MAX,
        ensures
            r == self.encoding().len(),
    {
        1 + self.data.len()
    }

    /// Writes the encoded interface at `pos` in `out`.
    pub fn encode_at(&self, out: &mut [u8], pos: usize) -> (r: usize)
        requires
            pos + self.encoding().len() <= old(out)@.len(),
        ensures
            r == self.encoding().len(),
            final(out)@ == splice(old(out)@, pos as int, self.encoding()),
    {
        let ghost before = out@;
        proof {
            lemma_splice_byte(out@, pos as int, self.interface_file_id);
        }
        out[pos] = self.interface_file_id;
        copy_at(out, pos + 1, self.data.as_slice());
        proof {
            lemma_splice_concat(before, pos as int, seq![self.interface_file_id], self.data@);
        }
        1 + self.data.len()
    }

    /// Writes the encoded interface at the start of `out`, which must be large enough.
    pub fn encode_in(&self, out: &mut [u8]) -> (r: usize)
        requires
            old(out)@.len() >= self.encoding().len(),
        ensures
            r == self.encoding().len(),
            written_at_head(final(out)@, old(out)@, self.encoding()),
    {
        self.encode_at(out, 0)
    }
}

/// Interface through which an indirect forward action sends its payload.
#[derive(Clone, Debug, PartialEq, Eq)]
pub enum IndirectInterface {
    Overloaded(OverloadedIndirectInterface),
    NonOverloaded(NonOverloadedIndirectInterface),
}

impl IndirectInterface {
    /// Bytes of the encoded interface.
    pub open spec fn encoding(self) -> Seq<u8> {
        match self {
            Self::Overloaded(v) => v.encoding(),
            Self::NonOverloaded(v) => v.encoding(),
        }
    }

    /// The interface is small enough for its size to be counted.
    pub open spec fn measurable(self) -> bool {
        self matches Self::NonOverloaded(v) ==> v.data@.len() < usize::MAX
    }

    pub fn encoded_size(&self) -> (r: usize)
        requires
            self.measurable(),
        ensures
            r == self.encoding().len(),
    {
        match self {
            Self::Overloaded(v) => v.encoded_size(),
            Self::NonOverloaded(v) => v.encoded_size(),
        }
    }

    /// Writes the encoded interface at `pos` in `out`.
    pub fn encode_at(&self, out: &mut [u8], pos: usize) -> (r: usize)
        requires
            pos + self.encoding().len() <= old(out)@.len(),
        ensures
            r == self.encoding().len(),
            final(out)@ == splice(old(out)@, pos as int, self.encoding()),
    {
        match self {
            Self::Overloaded(v) => v.encode_at(out, pos),
            Self::NonOverloaded(v) => v.encode_at(out, pos),
        }
    }

    /// Writes the encoded interface at the start of `out`, which must be large enough.
    pub fn encode_in(&self, out: &mut [u8]) -> (r: usize)
        requires
            old(out)@.len() >= self.encoding().len(),
        ensures
            r == self.encoding().len(),
            written_at_head(final(out)@, old(out)@, self.encoding()),
    {
        self.encode_at(out, 0)
    }

    /// Decodes the interface that follows the first byte of `out`, whose high bit tells it is
    /// overloaded. Only the overloaded interface can be decoded.
    ///
    /// # Errors
    /// Fails with the number of missing bytes if the input is too short.
    pub fn decode(out: &[u8]) -> (r: Result<WithSize<Self>, WithOffset<StdError>>)
        requires
            out@.len() >= 1 ==> out@[0] & 0x80 != 0,
        ensures
            out@.len() == 0 ==> r == Err::<WithSize<Self>, WithOffset<StdError>>(
                WithOffset { offset: 0, value: StdError::MissingBytes(1) },
            ),
            out@.len() >= 1 ==> (r is Ok <==> OverloadedIndirectInterface::complete(tail(out@, 1))),
            r matches Ok(w) ==> w.value matches Self::Overloaded(v) && v.decoded_from(tail(out@, 1))
                && w.size == 1 + OverloadedIndirectInterface::decoded_size(tail(out@, 1)),
            r matches Err(e) ==> e == (if out@.len() == 0 {
                WithOffset { offset: 0, value: StdError::MissingBytes(1) }
            } else {
                OverloadedIndirectInterface::decode_error(tail(out@, 1), 1)
            }),
    {
        if out.len() == 0 {
            return Err(WithOffset::new_head(StdError::MissingBytes(1)));
        }
        let rest = skip(out, 1);
        match OverloadedIndirectInterface::decode(rest) {
            Ok(w) => Ok(WithSize { value: Self::Overloaded(w.value), size: 1 + w.size }),
            Err(e) => Err(WithOffset::new(e.offset + 1, e.value)),
        }
    }
}

} // verus!
