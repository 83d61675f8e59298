//! Errors of the query decoders.
pub mod comparison_with_range;

pub use crate::v1_2::error::{QueryError, QuerySizeError, UnsupportedQueryCode};
