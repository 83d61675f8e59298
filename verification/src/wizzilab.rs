//! Extensions of the WizziLab modems.
pub mod v5_3;
