//! Errors of the interface status decoders.
pub use crate::v1_2::error::StatusInterfaceSizeError as InterfaceStatusSizeError;
pub use crate::v1_2::error::UnsupportedInterfaceId;
