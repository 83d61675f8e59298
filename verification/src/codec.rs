//! Result and error types of the fixed layout operands.
use vstd::prelude::*;

verus! {

/// Generic decoding error of the simple operands.
#[derive(Copy, Clone, PartialEq, Eq, Debug)]
pub enum StdError {
    /// The number of bytes that were missing.
    MissingBytes(usize),
}

/// A decoded value along with the number of bytes it occupied.
#[derive(Copy, Clone, PartialEq, Eq, Debug)]
pub struct WithSize<T> {
    pub value: T,
    pub size: usize,
}

/// A decoding error along with the offset where it was detected.
#[derive(Copy, Clone, PartialEq, Eq, Debug)]
pub struct WithOffset<T> {
    pub offset: usize,
    pub value: T,
}

impl<T> WithOffset<T> {
    pub fn new_head(value: T) -> (r: Self)
        ensures
            r.offset == 0,
            r.value == value,
    {
        WithOffset { offset: 0, value }
    }

    pub fn new(offset: usize, value: T) -> (r: Self)
        ensures
            r.offset == offset,
            r.value == value,
    {
        WithOffset { offset, value }
    }
}

/// Parsing error of the variable size unsigned integer.
#[derive(Copy, Clone, PartialEq, Eq, Debug)]
pub enum ParseError {
    /// Some bytes are missing, possibly with their number.
    MissingBytes(Option<usize>),
}

/// A parsed value along with the number of bytes read.
#[derive(Copy, Clone, PartialEq, Eq, Debug)]
pub struct ParseValue<T> {
    pub value: T,
    pub data_read: usize,
}

pub type ParseResult<T> = Result<ParseValue<T>, ParseError>;

} // verus!
