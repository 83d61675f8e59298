//! Errors of the status decoders.
pub mod interface;

pub use crate::v1_2::error::{StatusDecodeError, StatusSizeError, UnsupportedExtension};
