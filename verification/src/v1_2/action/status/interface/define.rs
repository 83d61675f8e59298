//! Identifiers of the interfaces a status can come from.
pub mod id;

pub use id::InterfaceId;
