//! The mini UART at its fixed Raspberry Pi 3 address, for printing before the drivers run.
use vstd::prelude::*;

use super::serial::bcm2835_aux_uart::{console_bytes, crlf};
use vstd::string::StringSliceAdditionalSpecFns;


verus! {

pub const AUX_BASE: usize = 0x3F21_5000;
/// The data register.
pub const AUX_MU_IO_REG: usize = 0x3F21_5040;
/// The line status register.
pub const AUX_MU_LSR_REG: usize = 0x3F21_5054;
/// Line status: the transmitter can take a byte.
pub const TX_EMPTY: u8 = 0x20;

/// The early mini UART.
pub struct MiniUart;

impl MiniUart {
    /// The transmitter takes a byte, by the line status `lsr`.
    pub fn tx_empty(&self, lsr: u8) -> (b: bool)
        ensures
            b == (lsr & TX_EMPTY != 0),
    {
        (lsr & TX_EMPTY) != 0
    }

    /// The bytes sent for `s`: every line feed preceded by a carriage return.
    pub fn write_str(&self, s: &str) -> (out: Vec<u8>)
        requires
            2 * s.spec_bytes().len() <= usize::MAX,
        ensures
            out@ == crlf(s.spec_bytes()),
    {
        let bytes = s.as_bytes();
        console_bytes(bytes)
    }
}

} // verus!
