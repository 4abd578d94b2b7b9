//! The BCM2835 power management watchdog.
pub mod bcm2835_pm;
pub mod bcm2835_wdt;
