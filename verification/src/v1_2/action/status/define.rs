//! Codes found in the first byte of a status action.
pub mod extension;

pub use crate::v1_2::error::StatusExtensionError;
pub use extension::StatusExtension;
