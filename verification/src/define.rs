//! Operand types shared by every version of the protocol.
pub use crate::v1_2::action::defines::FileId;
use crate::varint;
use vstd::prelude::*;

pub mod file_offset_operand;
pub mod masked_range;

pub use masked_range::{MaskedRange, MaskedRangeRef};

verus! {

/// A byte payload whose length is encodable in a Varint.
#[derive(Copy, Clone, Eq, PartialEq, Ord, PartialOrd, Hash, Debug)]
pub struct EncodableDataRef<'data> {
    data: &'data [u8],
}

impl<'data> View for EncodableDataRef<'data> {
    type V = Seq<u8>;

    closed spec fn view(&self) -> Seq<u8> {
        self.data@
    }
}

impl<'data> EncodableDataRef<'data> {
    #[verifier::type_invariant]
    spec fn inv(self) -> bool {
        self.data@.len() <= varint::U32_MAX
    }

    /// # Errors
    /// Fails if the payload is too long for its length to be encoded in a Varint.
    pub fn new(data: &'data [u8]) -> (r: Result<Self, ()>)
        ensures
            r is Ok <==> data@.len() <= varint::U32_MAX,
            r matches Ok(d) ==> d@ == data@,
    {
        if data.len() > varint::U32_MAX as usize {
            Err(())
        } else {
            Ok(Self { data })
        }
    }

    pub fn new_unchecked(data: &'data [u8]) -> (r: Self)
        requires
            data@.len() <= varint::U32_MAX,
        ensures
            r@ == data@,
    {
        Self { data }
    }

    pub fn data(&self) -> (r: &'data [u8])
        ensures
            r@ == self@,
            r@.len() <= varint::U32_MAX,
    {
        proof {
            use_type_invariant(self);
        }
        self.data
    }

    pub fn len(&self) -> (r: usize)
        ensures
            r == self@.len(),
            r <= varint::U32_MAX,
    {
        proof {
            use_type_invariant(self);
        }
        self.data.len()
    }

    pub fn is_empty(&self) -> (r: bool)
        ensures
            r == (self@.len() == 0),
    {
        self.data.len() == 0
    }

    /// The payload length as a Varint.
    pub fn length(&self) -> (r: varint::Varint)
        ensures
            r@ == self@.len(),
    {
        proof {
            use_type_invariant(self);
        }
        varint::Varint::new_unchecked(self.data.len() as u32)
    }

    pub fn to_owned(&self) -> (r: EncodableData)
        ensures
            r@ == self@,
    {
        proof {
            use_type_invariant(self);
        }
        EncodableData { data: vstd::slice::slice_to_vec(self.data) }
    }
}

/// An owned byte payload whose length is encodable in a Varint.
#[derive(Eq, PartialEq, Ord, PartialOrd, Hash, Debug)]
pub struct EncodableData {
    data: Vec<u8>,
}

impl View for EncodableData {
    type V = Seq<u8>;

    closed spec fn view(&self) -> Seq<u8> {
        self.data@
    }
}

impl EncodableData {
    #[verifier::type_invariant]
    spec fn inv(self) -> bool {
        self.data@.len() <= varint::U32_MAX
    }

    /// # Errors
    /// Fails if the payload is too long for its length to be encoded in a Varint.
    pub fn new(data: Vec<u8>) -> (r: Result<Self, ()>)
        ensures
            r is Ok <==> data@.len() <= varint::U32_MAX,
            r matches Ok(d) ==> d@ == data@,
    {
        if data.len() > varint::U32_MAX as usize {
            Err(())
        } else {
            Ok(Self { data })
        }
    }

    pub fn as_ref(&self) -> (r: EncodableDataRef<'_>)
        ensures
            r@ == self@,
    {
        proof {
            use_type_invariant(self);
        }
        EncodableDataRef { data: self.data.as_slice() }
    }
}

/// A value to compare, possibly with a mask of the same length.
#[derive(Copy, Clone, Eq, PartialEq, Ord, PartialOrd, Hash, Debug)]
pub struct MaskedValueRef<'data> {
    value: EncodableDataRef<'data>,
    mask: Option<&'data [u8]>,
}

impl<'data> MaskedValueRef<'data> {
    #[verifier::type_invariant]
    spec fn inv(self) -> bool {
        self.mask matches Some(m) ==> m@.len() == self.value@.len()
    }

    /// The compared value.
    pub closed spec fn value_view(&self) -> Seq<u8> {
        self.value@
    }

    /// The mask, if any.
    pub closed spec fn mask_view(&self) -> Option<Seq<u8>> {
        match self.mask {
            Some(m) => Some(m@),
            None => None,
        }
    }

    /// # Errors
    /// Fails if the mask does not have the length of the value.
    pub fn new(value: EncodableDataRef<'data>, mask: Option<&'data [u8]>) -> (r: Result<Self, ()>)
        ensures
            r is Ok <==> (mask matches Some(m) ==> m@.len() == value@.len()),
            r matches Ok(v) ==> v.value_view() == value@ && v.mask_view() == (match mask {
                Some(m) => Some(m@),
                None => None::<Seq<u8>>,
            }),
    {
        match mask {
            Some(m) => {
                if m.len() != value.len() {
                    return Err(());
                }
            },
            None => {},
        }
        Ok(Self { value, mask })
    }

    pub fn new_unchecked(value: EncodableDataRef<'data>, mask: Option<&'data [u8]>) -> (r: Self)
        requires
            mask matches Some(m) ==> m@.len() == value@.len(),
        ensures
            r.value_view() == value@,
            r.mask_view() == (match mask {
                Some(m) => Some(m@),
                None => None::<Seq<u8>>,
            }),
    {
        Self { value, mask }
    }

    pub fn value(&self) -> (r: EncodableDataRef<'data>)
        ensures
            r@ == self.value_view(),
    {
        self.value
    }

    pub fn mask(&self) -> (r: Option<&'data [u8]>)
        ensures
            match r {
                Some(m) => self.mask_view() == Some(m@) && m@.len() == self.value_view().len(),
                None => self.mask_view() is None,
            },
    {
        proof {
            use_type_invariant(self);
        }
        self.mask
    }

    /// Byte length of the value (and of the mask).
    pub fn len(&self) -> (r: usize)
        ensures
            r == self.value_view().len(),
            r <= varint::U32_MAX,
    {
        self.value.len()
    }

    pub fn to_owned(&self) -> (r: MaskedValue)
        ensures
            r.value_view() == self.value_view(),
            r.mask_view() == self.mask_view(),
    {
        proof {
            use_type_invariant(self);
        }
        let mask = match self.mask {
            Some(m) => Some(vstd::slice::slice_to_vec(m)),
            None => None,
        };
        MaskedValue { value: self.value.to_owned(), mask }
    }
}

/// An owned value to compare, possibly with a mask of the same length.
#[derive(Eq, PartialEq, Ord, PartialOrd, Hash, Debug)]
pub struct MaskedValue {
    value: EncodableData,
    mask: Option<Vec<u8>>,
}

impl MaskedValue {
    #[verifier::type_invariant]
    spec fn inv(self) -> bool {
        self.mask matches Some(m) ==> m@.len() == self.value@.len()
    }

    /// The compared value.
    pub closed spec fn value_view(&self) -> Seq<u8> {
        self.value@
    }

    /// The mask, if any.
    pub closed spec fn mask_view(&self) -> Option<Seq<u8>> {
        match self.mask {
            Some(m) => Some(m@),
            None => None,
        }
    }

    /// # Errors
    /// Fails if the mask does not have the length of the value.
    pub fn new(value: EncodableData, mask: Option<Vec<u8>>) -> (r: Result<Self, ()>)
        ensures
            r is Ok <==> (mask matches Some(m) ==> m@.len() == value@.len()),
            r matches Ok(v) ==> v.value_view() == value@,
    {
        let ok = match &mask {
            Some(m) => m.len() == value.as_ref().len(),
            None => true,
        };
        if !ok {
            return Err(());
        }
        Ok(Self { value, mask })
    }

    pub fn as_ref(&self) -> (r: MaskedValueRef<'_>)
        ensures
            r.value_view() == self.value_view(),
            r.mask_view() == self.mask_view(),
    {
        proof {
            use_type_invariant(self);
        }
        let mask = match &self.mask {
            Some(m) => Some(m.as_slice()),
            None => None,
        };
        MaskedValueRef { value: self.value.as_ref(), mask }
    }
}

} // verus!
