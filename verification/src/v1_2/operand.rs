//! Operands of the fixed layout actions.
pub mod action_status;
pub mod indirect_interface;
pub mod permission;

pub use action_status::ActionStatus;
pub use indirect_interface::{
    IndirectInterface, NonOverloadedIndirectInterface, OverloadedIndirectInterface,
};
pub use permission::{Permission, PermissionDecodingError};
