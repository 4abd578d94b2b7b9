//! Clock providers.
pub mod bcm2835_aux;
pub mod fixed_clock;

use vstd::prelude::*;

verus! {

/// Why a clock operation failed.
#[derive(Debug, Clone, Copy, PartialEq, Eq, Structural)]
pub enum ClockError {
    RateNotSupported,
}

pub type ClockResult<T> = Result<T, ClockError>;

} // verus!
