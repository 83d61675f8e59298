//! Constants of the specification.
pub mod flag;
pub mod op_code;
