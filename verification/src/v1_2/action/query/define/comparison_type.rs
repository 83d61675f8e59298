//! Comparison made by a query against a value.
use crate::v1_2::error::QueryComparisonTypeError;
use vstd::prelude::*;

verus! {

pub const INEQUAL: u8 = 0;

pub const EQUAL: u8 = 1;

pub const LESS_THAN: u8 = 2;

pub const LESS_THAN_OR_EQUAL: u8 = 3;

pub const GREATER_THAN: u8 = 4;

pub const GREATER_THAN_OR_EQUAL: u8 = 5;

#[derive(Copy, Clone, Eq, PartialEq, Ord, PartialOrd, Hash, Debug)]
pub enum QueryComparisonType {
    Inequal,
    Equal,
    LessThan,
    LessThanOrEqual,
    GreaterThan,
    GreaterThanOrEqual,
    Rfu6,
    Rfu7,
}

impl QueryComparisonType {
    /// Value of the comparison type, on 3 bits.
    pub open spec fn spec_code(self) -> u8 {
        match self {
            Self::Inequal => INEQUAL,
            Self::Equal => EQUAL,
            Self::LessThan => LESS_THAN,
            Self::LessThanOrEqual => LESS_THAN_OR_EQUAL,
            Self::GreaterThan => GREATER_THAN,
            Self::GreaterThanOrEqual => GREATER_THAN_OR_EQUAL,
            Self::Rfu6 => 6,
            Self::Rfu7 => 7,
        }
    }

    /// Comparison type of a 3 bits value.
    pub open spec fn spec_from(n: u8) -> Self {
        if n == INEQUAL {
            Self::Inequal
        } else if n == EQUAL {
            Self::Equal
        } else if n == LESS_THAN {
            Self::LessThan
        } else if n == LESS_THAN_OR_EQUAL {
            Self::LessThanOrEqual
        } else if n == GREATER_THAN {
            Self::GreaterThan
        } else if n == GREATER_THAN_OR_EQUAL {
            Self::GreaterThanOrEqual
        } else if n == 6 {
            Self::Rfu6
        } else {
            Self::Rfu7
        }
    }

    /// Value of the comparison type, on 3 bits.
    pub fn code(self) -> (r: u8)
        ensures
            r == self.spec_code(),
            r <= 7,
    {
        match self {
            Self::Inequal => INEQUAL,
            Self::Equal => EQUAL,
            Self::LessThan => LESS_THAN,
            Self::LessThanOrEqual => LESS_THAN_OR_EQUAL,
            Self::GreaterThan => GREATER_THAN,
            Self::GreaterThanOrEqual => GREATER_THAN_OR_EQUAL,
            Self::Rfu6 => 6,
            Self::Rfu7 => 7,
        }
    }

    /// Decodes a value known to be encoded on 3 bits.
    pub fn from_unchecked(n: u8) -> (r: Self)
        requires
            n <= 7,
        ensures
            r == Self::spec_from(n),
            r.spec_code() == n,
    {
        match n {
            INEQUAL => Self::Inequal,
            EQUAL => Self::Equal,
            LESS_THAN => Self::LessThan,
            LESS_THAN_OR_EQUAL => Self::LessThanOrEqual,
            GREATER_THAN => Self::GreaterThan,
            GREATER_THAN_OR_EQUAL => Self::GreaterThanOrEqual,
            6 => Self::Rfu6,
            _ => Self::Rfu7,
        }
    }

    /// # Errors
    /// Returns an error if n > 7
    pub fn from(n: u8) -> (r: Result<Self, QueryComparisonTypeError>)
        ensures
            r is Ok <==> n <= 7,
            r matches Ok(t) ==> t == Self::spec_from(n) && t.spec_code() == n,
            r matches Err(e) ==> e == QueryComparisonTypeError::Invalid,
    {
        if n > 7 {
            Err(QueryComparisonTypeError::Invalid)
        } else {
            Ok(Self::from_unchecked(n))
        }
    }
}

/// Each comparison type has the number that ALP gives it: inequal 0, equal 1, less than 2,
/// less than or equal 3, greater than 4, greater than or equal 5, and 6 and 7 reserved; and
/// decoding any 3 bits value gives the comparison type of that number.
pub proof fn lemma_comparison_type_numbers()
    ensures
        QueryComparisonType::Inequal.spec_code() == 0,
        QueryComparisonType::Equal.spec_code() == 1,
        QueryComparisonType::LessThan.spec_code() == 2,
        QueryComparisonType::LessThanOrEqual.spec_code() == 3,
        QueryComparisonType::GreaterThan.spec_code() == 4,
        QueryComparisonType::GreaterThanOrEqual.spec_code() == 5,
        QueryComparisonType::Rfu6.spec_code() == 6,
        QueryComparisonType::Rfu7.spec_code() == 7,
        forall|n: u8| n <= 7 ==> (#[trigger] QueryComparisonType::spec_from(n)).spec_code() == n,
{
}

/// Decoding the code of a comparison type gives it back.
pub proof fn lemma_comparison_type_roundtrip(t: QueryComparisonType)
    ensures
        t.spec_code() <= 7,
        QueryComparisonType::spec_from(t.spec_code()) == t,
{
}

} // verus!
