//! Kind of a status, on the 2 high bits of the action's first byte.
use crate::v1_2::error::StatusExtensionError;
use vstd::prelude::*;

verus! {

pub const ACTION: u8 = 0;

pub const INTERFACE: u8 = 1;

/// The supported kinds of status.
#[derive(Copy, Clone, Eq, PartialEq, Ord, PartialOrd, Hash, Debug)]
pub enum StatusExtension {
    Interface,
}

impl StatusExtension {
    /// Value of the extension, on 2 bits.
    pub open spec fn spec_code(self) -> u8 {
        match self {
            Self::Interface => INTERFACE,
        }
    }

    /// Value of the extension, on 2 bits.
    pub fn code(self) -> (r: u8)
        ensures
            r == self.spec_code(),
    {
        match self {
            Self::Interface => INTERFACE,
        }
    }

    /// # Errors
    /// Returns an error if the query code is unknown
    pub fn from(n: u8) -> (r: Result<Self, StatusExtensionError>)
        ensures
            r is Ok <==> n == INTERFACE,
            r matches Ok(e) ==> e.spec_code() == n,
            r matches Err(e) ==> e == if n <= 3 {
                StatusExtensionError::Unsupported { ext: n }
            } else {
                StatusExtensionError::Invalid
            },
    {
        match n {
            INTERFACE => Ok(Self::Interface),
            _ => {
                if n <= 3 {
                    Err(StatusExtensionError::Unsupported { ext: n })
                } else {
                    Err(StatusExtensionError::Invalid)
                }
            },
        }
    }
}

/// The status kinds have the numbers that ALP gives them: action status 0, interface status 1.
pub proof fn lemma_status_extension_numbers()
    ensures
        StatusExtension::Interface.spec_code() == 1,
        ACTION == 0,
        INTERFACE == 1,
{
}

} // verus!
