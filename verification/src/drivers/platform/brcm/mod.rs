//! Broadcom SoCs.
pub mod bcm2835_aux_uart;
