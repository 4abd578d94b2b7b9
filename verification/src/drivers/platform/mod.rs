//! Platform code that runs before the device drivers.
pub mod brcm;
