//! Errors of the range query decoders.
pub use crate::v1_2::error::{
    QueryRangeError, QueryRangeSetError, QueryRangeSetLooselyError, QueryRangeSizeError,
};
