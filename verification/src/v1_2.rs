//! Dash7 ALP, version 1.2 of the specification.
pub mod action;
pub mod dash7;
pub mod define;
pub mod error;
pub mod data;
pub mod operand;
