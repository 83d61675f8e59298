//! Version 5.3 of the WizziLab firmware.
pub mod action;
pub mod dash7;
