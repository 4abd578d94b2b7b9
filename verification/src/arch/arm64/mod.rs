//! ARMv8-A (AArch64).
pub mod cpu;
pub mod setup;
