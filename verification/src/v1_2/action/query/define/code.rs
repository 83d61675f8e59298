//! Kind of a query, on the 3 high bits of its first byte.
use crate::v1_2::define::flag::with_flag;
use crate::v1_2::error::QueryCodeError;
use vstd::prelude::*;

verus! {

pub const NON_VOID: u8 = 0;

pub const COMPARISON_WITH_ZERO: u8 = 1;

pub const COMPARISON_WITH_VALUE: u8 = 2;

pub const COMPARISON_WITH_OTHER_FILE: u8 = 3;

pub const COMPARISON_WITH_RANGE: u8 = 4;

pub const STRING_TOKEN_SEARCH: u8 = 7;

/// The supported kinds of query.
#[derive(Copy, Clone, Eq, PartialEq, Ord, PartialOrd, Hash, Debug)]
pub enum QueryCode {
    ComparisonWithValue,
    ComparisonWithRange,
}

impl QueryCode {
    /// Value of the query code, on 3 bits.
    pub open spec fn spec_code(self) -> u8 {
        match self {
            Self::ComparisonWithValue => COMPARISON_WITH_VALUE,
            Self::ComparisonWithRange => COMPARISON_WITH_RANGE,
        }
    }

    /// Query code of a value, if it is supported.
    pub open spec fn spec_from(n: u8) -> Option<Self> {
        if n == COMPARISON_WITH_VALUE {
            Some(Self::ComparisonWithValue)
        } else if n == COMPARISON_WITH_RANGE {
            Some(Self::ComparisonWithRange)
        } else {
            None
        }
    }

    /// Value of the query code, on 3 bits.
    pub fn code(self) -> (r: u8)
        ensures
            r == self.spec_code(),
            r <= 7,
    {
        match self {
            Self::ComparisonWithValue => COMPARISON_WITH_VALUE,
            Self::ComparisonWithRange => COMPARISON_WITH_RANGE,
        }
    }

    /// # Errors
    /// Returns an error if the query code is unknown
    pub fn from(n: u8) -> (r: Result<Self, QueryCodeError>)
        ensures
            r is Ok <==> Self::spec_from(n) is Some,
            r matches Ok(c) ==> Self::spec_from(n) == Some(c) && c.spec_code() == n,
            r matches Err(e) ==> e == if n <= 7 {
                QueryCodeError::Unsupported { code: n }
            } else {
                QueryCodeError::Invalid
            },
    {
        match n {
            COMPARISON_WITH_VALUE => Ok(Self::ComparisonWithValue),
            COMPARISON_WITH_RANGE => Ok(Self::ComparisonWithRange),
            _ => {
                if n <= 7 {
                    Err(QueryCodeError::Unsupported { code: n })
                } else {
                    Err(QueryCodeError::Invalid)
                }
            },
        }
    }
}

/// First byte of a query: its code on the 3 high bits, then the mask and signed data flags and
/// the comparison type on the 3 low bits.
pub open spec fn query_byte(code: u8, mask: bool, signed: bool, comparison: u8) -> u8 {
    (code << 5u8) | (if mask {
        0x10u8
    } else {
        0u8
    }) | (if signed {
        0x08u8
    } else {
        0u8
    }) | comparison
}

/// First byte of a query.
pub fn query_first_byte(code: QueryCode, mask: bool, signed: bool, comparison: u8) -> (r: u8)
    requires
        comparison <= 7,
    ensures
        r == query_byte(code.spec_code(), mask, signed, comparison),
{
    let c = code.code();
    (c << 5u8) | (if mask {
        0x10u8
    } else {
        0u8
    }) | (if signed {
        0x08u8
    } else {
        0u8
    }) | comparison
}

/// The fields of the first byte of a query read back what was written in it.
pub proof fn lemma_query_byte(code: u8, mask: bool, signed: bool, comparison: u8)
    by (bit_vector)
    requires
        code <= 7,
        comparison <= 7,
    ensures
        (query_byte(code, mask, signed, comparison) >> 5u8) & 7u8 == code,
        (query_byte(code, mask, signed, comparison) & 0x10u8 == 0x10u8) == mask,
        (query_byte(code, mask, signed, comparison) & 0x08u8 == 0x08u8) == signed,
        query_byte(code, mask, signed, comparison) & 0x07u8 == comparison,
{
}

/// Setting a flag of the first byte of a query leaves its other fields unchanged.
pub proof fn lemma_query_flag(b: u8, m: u8, v: bool)
    by (bit_vector)
    requires
        m == 0x10u8 || m == 0x08u8,
    ensures
        (with_flag(b, m, v) & m == m) == v,
        (with_flag(b, m, v) >> 5u8) & 7u8 == (b >> 5u8) & 7u8,
        with_flag(b, m, v) & 0x07u8 == b & 0x07u8,
        m == 0x10u8 ==> with_flag(b, m, v) & 0x08u8 == b & 0x08u8,
        m == 0x08u8 ==> with_flag(b, m, v) & 0x10u8 == b & 0x10u8,
{
}

/// First byte of a query with another comparison type.
pub open spec fn with_comparison(b: u8, comparison: u8) -> u8 {
    (b & !0x07u8) | comparison
}

/// Setting the comparison type of the first byte of a query leaves its other fields unchanged.
pub proof fn lemma_query_comparison(b: u8, comparison: u8)
    by (bit_vector)
    requires
        comparison <= 7,
    ensures
        with_comparison(b, comparison) & 0x07u8 == comparison,
        (with_comparison(b, comparison) >> 5u8) & 7u8 == (b >> 5u8) & 7u8,
        with_comparison(b, comparison) & 0x10u8 == b & 0x10u8,
        with_comparison(b, comparison) & 0x08u8 == b & 0x08u8,
{
}

/// First byte of a query with another query code.
pub open spec fn with_code(b: u8, code: u8) -> u8 {
    (b & 0x1Fu8) | (code << 5u8)
}

/// Setting the code of the first byte of a query leaves its other bits unchanged.
pub proof fn lemma_query_code(b: u8, code: u8)
    by (bit_vector)
    requires
        code <= 7,
    ensures
        (with_code(b, code) >> 5u8) & 7u8 == code,
        with_code(b, code) & 0x1Fu8 == b & 0x1Fu8,
{
}

/// Decoding the value of a query code gives it back.
pub proof fn lemma_query_code_roundtrip(c: QueryCode)
    ensures
        c.spec_code() <= 7,
        QueryCode::spec_from(c.spec_code()) == Some(c),
{
}

/// Each supported query kind has the number that ALP gives it: comparison with a value 2,
/// comparison with a range 4; decoding a number gives the kind of that number, and the other
/// kinds (non void 0, comparison with zero 1, with another file 3, token search 7) have those
/// numbers.
pub proof fn lemma_query_code_numbers()
    ensures
        QueryCode::ComparisonWithValue.spec_code() == 2,
        QueryCode::ComparisonWithRange.spec_code() == 4,
        NON_VOID == 0,
        COMPARISON_WITH_ZERO == 1,
        COMPARISON_WITH_VALUE == 2,
        COMPARISON_WITH_OTHER_FILE == 3,
        COMPARISON_WITH_RANGE == 4,
        STRING_TOKEN_SEARCH == 7,
        forall|n: u8| (#[trigger] QueryCode::spec_from(n)) matches Some(c) ==> c.spec_code() == n,
        forall|c: QueryCode| QueryCode::spec_from(#[trigger] c.spec_code()) == Some(c),
{
}

} // verus!
