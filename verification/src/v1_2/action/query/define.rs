//! Codes found in the first byte of a query.
pub mod code;
pub mod comparison_type;
pub mod range_comparison_type;

pub use code::QueryCode;
pub use comparison_type::QueryComparisonType;
pub use range_comparison_type::QueryRangeComparisonType;
