//! Hardware random number generators.
pub mod bcm2835_rng;
