//! Dash7 specific operands.
pub mod addressee;
pub mod interface_status;
