//! Architecture support.
pub mod arm64;
