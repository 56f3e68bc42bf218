//! Checked arithmetic with descriptive errors, and tools for reporting
//! errors together with the chain of their causes.

pub mod decimal;
pub mod error;
pub mod ops;
pub mod result;
