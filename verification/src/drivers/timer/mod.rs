//! System timers and alarms.
pub mod arm_generic_timer;
pub mod bcm2835_system_timer;
