//! Identifier of the interface a status comes from.
use crate::v1_2::error::InterfaceIdError;
use vstd::prelude::*;

verus! {

pub const HOST: u8 = 0;

pub const DASH7: u8 = 0xD7;

/// The supported interfaces.
#[derive(Copy, Clone, Eq, PartialEq, Ord, PartialOrd, Hash, Debug)]
pub enum InterfaceId {
    Host,
    Dash7,
}

impl InterfaceId {
    /// Value of the interface identifier.
    pub open spec fn spec_code(self) -> u8 {
        match self {
            Self::Host => HOST,
            Self::Dash7 => DASH7,
        }
    }

    /// Interface of an identifier (`Host` for an unsupported one).
    pub open spec fn spec_from(n: u8) -> Self {
        if n == DASH7 {
            Self::Dash7
        } else {
            Self::Host
        }
    }

    /// Value of the interface identifier.
    pub fn code(self) -> (r: u8)
        ensures
            r == self.spec_code(),
    {
        match self {
            Self::Host => HOST,
            Self::Dash7 => DASH7,
        }
    }

    /// Decodes an identifier known to be supported.
    pub fn from_unchecked(n: u8) -> (r: Self)
        requires
            n == HOST || n == DASH7,
        ensures
            r == Self::spec_from(n),
            r.spec_code() == n,
    {
        if n == DASH7 {
            Self::Dash7
        } else {
            Self::Host
        }
    }

    /// # Errors
    /// Returns an error if the identifier is not supported.
    pub fn from(n: u8) -> (r: Result<Self, InterfaceIdError>)
        ensures
            r is Ok <==> (n == HOST || n == DASH7),
            r matches Ok(i) ==> i.spec_code() == n && i == Self::spec_from(n),
            r matches Err(e) ==> e == (InterfaceIdError::Unsupported { id: n }),
    {
        match n {
            HOST => Ok(Self::Host),
            DASH7 => Ok(Self::Dash7),
            _ => Err(InterfaceIdError::Unsupported { id: n }),
        }
    }
}

/// The interfaces have the identifiers that ALP gives them: host 0x00, Dash7 0xD7; decoding an
/// identifier gives the interface of that identifier when there is one.
pub proof fn lemma_interface_id_numbers()
    ensures
        InterfaceId::Host.spec_code() == 0x00,
        InterfaceId::Dash7.spec_code() == 0xD7,
        InterfaceId::spec_from(0x00) == InterfaceId::Host,
        InterfaceId::spec_from(0xD7) == InterfaceId::Dash7,
{
}

} // verus!
