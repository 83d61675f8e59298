//! Errors of the action decoders, grouped by action.
pub mod query;
pub mod status;

pub use crate::v1_2::error::{ActionDecodeError, ActionSizeError, UnsupportedOpCode};
