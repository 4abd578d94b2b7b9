//! Verified core logic of the kruspix kernel for the Raspberry Pi.
pub mod arch;
pub mod drivers;
pub mod hash;
pub mod mmu;
pub mod once_slot;
pub mod ring_array;
pub mod text;
