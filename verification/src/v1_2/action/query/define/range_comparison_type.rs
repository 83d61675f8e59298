//! Comparison made by a query against a range.
use crate::v1_2::error::QueryRangeComparisonTypeError;
use vstd::prelude::*;

verus! {

pub const NOT_IN_RANGE: u8 = 0;

pub const IN_RANGE: u8 = 1;

#[derive(Copy, Clone, Eq, PartialEq, Ord, PartialOrd, Hash, Debug)]
pub enum QueryRangeComparisonType {
    NotInRange,
    InRange,
    Rfu2,
    Rfu3,
    Rfu4,
    Rfu5,
    Rfu6,
    Rfu7,
}

impl QueryRangeComparisonType {
    /// Value of the comparison type, on 3 bits.
    pub open spec fn spec_code(self) -> u8 {
        match self {
            Self::NotInRange => NOT_IN_RANGE,
            Self::InRange => IN_RANGE,
            Self::Rfu2 => 2,
            Self::Rfu3 => 3,
            Self::Rfu4 => 4,
            Self::Rfu5 => 5,
            Self::Rfu6 => 6,
            Self::Rfu7 => 7,
        }
    }

    /// Comparison type of a 3 bits value.
    pub open spec fn spec_from(n: u8) -> Self {
        if n == NOT_IN_RANGE {
            Self::NotInRange
        } else if n == IN_RANGE {
            Self::InRange
        } else if n == 2 {
            Self::Rfu2
        } else if n == 3 {
            Self::Rfu3
        } else if n == 4 {
            Self::Rfu4
        } else if n == 5 {
            Self::Rfu5
        } else if n == 6 {
            Self::Rfu6
        } else {
            Self::Rfu7
        }
    }

    /// Value of the comparison type, on 3 bits.
    pub fn code(self) -> (r: u8)
        ensures
            r == self.spec_code(),
            r <= 7,
    {
        match self {
            Self::NotInRange => NOT_IN_RANGE,
            Self::InRange => IN_RANGE,
            Self::Rfu2 => 2,
            Self::Rfu3 => 3,
            Self::Rfu4 => 4,
            Self::Rfu5 => 5,
            Self::Rfu6 => 6,
            Self::Rfu7 => 7,
        }
    }

    /// Decodes a value known to be encoded on 3 bits.
    pub fn from_unchecked(n: u8) -> (r: Self)
        requires
            n <= 7,
        ensures
            r == Self::spec_from(n),
            r.spec_code() == n,
    {
        match n {
            NOT_IN_RANGE => Self::NotInRange,
            IN_RANGE => Self::InRange,
            2 => Self::Rfu2,
            3 => Self::Rfu3,
            4 => Self::Rfu4,
            5 => Self::Rfu5,
            6 => Self::Rfu6,
            _ => Self::Rfu7,
        }
    }

    /// # Errors
    /// Returns an error if n > 7
    pub fn from(n: u8) -> (r: Result<Self, QueryRangeComparisonTypeError>)
        ensures
            r is Ok <==> n <= 7,
            r matches Ok(t) ==> t == Self::spec_from(n) && t.spec_code() == n,
            r matches Err(e) ==> e == QueryRangeComparisonTypeError::Invalid,
    {
        if n > 7 {
            Err(QueryRangeComparisonTypeError::Invalid)
        } else {
            Ok(Self::from_unchecked(n))
        }
    }
}

/// Decoding the code of a comparison type gives it back.
pub proof fn lemma_range_comparison_type_roundtrip(t: QueryRangeComparisonType)
    ensures
        t.spec_code() <= 7,
        QueryRangeComparisonType::spec_from(t.spec_code()) == t,
{
}

/// Each range comparison type has the number that ALP gives it: not in range 0, in range 1,
/// and 2 to 7 reserved; and decoding any 3 bits value gives the type of that number.
pub proof fn lemma_range_comparison_type_numbers()
    ensures
        QueryRangeComparisonType::NotInRange.spec_code() == 0,
        QueryRangeComparisonType::InRange.spec_code() == 1,
        QueryRangeComparisonType::Rfu2.spec_code() == 2,
        QueryRangeComparisonType::Rfu3.spec_code() == 3,
        QueryRangeComparisonType::Rfu4.spec_code() == 4,
        QueryRangeComparisonType::Rfu5.spec_code() == 5,
        QueryRangeComparisonType::Rfu6.spec_code() == 6,
        QueryRangeComparisonType::Rfu7.spec_code() == 7,
        forall|n: u8| n <= 7 ==> (#[trigger] QueryRangeComparisonType::spec_from(n)).spec_code() == n,
{
}

} // verus!
