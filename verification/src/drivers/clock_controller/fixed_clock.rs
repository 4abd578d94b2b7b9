//! A clock of fixed frequency (`fixed-clock`).
use vstd::prelude::*;

use super::{ClockError, ClockResult};
use crate::drivers::{DriverInitError, DriverRegistry};

verus! {

/// A clock that always runs at one frequency.
pub struct FixedClockDevice {
    id: String,
    frequency_hz: u64,
}

impl FixedClockDevice {
    pub closed spec fn spec_id(&self) -> Seq<char> {
        self.id@
    }

    pub closed spec fn spec_frequency(&self) -> u64 {
        self.frequency_hz
    }

    pub fn new(id: String, frequency_hz: u64) -> (d: Self)
        ensures
            d.spec_id() == id@,
            d.spec_frequency() == frequency_hz,
    {
        FixedClockDevice { id, frequency_hz }
    }

    pub fn name(&self) -> (s: &str)
        ensures
            s@ == self.spec_id(),
    {
        self.id.as_str()
    }

    /// Nothing to start: always succeeds.
    pub fn startup(&self) -> (r: ClockResult<()>)
        ensures
            r is Ok,
    {
        Ok(())
    }

    pub fn shutdown(&self) -> (r: ClockResult<()>)
        ensures
            r is Ok,
    {
        Ok(())
    }

    pub fn enable(&self) -> (r: ClockResult<()>)
        ensures
            r is Ok,
    {
        Ok(())
    }

    pub fn disable(&self) -> (r: ClockResult<()>)
        ensures
            r is Ok,
    {
        Ok(())
    }

    /// The frequency of the clock.
    pub fn get_rate(&self) -> (hz: u64)
        ensures
            hz == self.spec_frequency(),
    {
        self.frequency_hz
    }

    /// Accepts only the clock's own frequency; any other rate is `RateNotSupported`.
    pub fn set_rate(&self, hz: u64) -> (r: ClockResult<()>)
        ensures
            r == (if hz == self.spec_frequency() {
                Ok::<(), ClockError>(())
            } else {
                Err::<(), ClockError>(ClockError::RateNotSupported)
            }),
    {
        if hz == self.frequency_hz {
            Ok(())
        } else {
            Err(ClockError::RateNotSupported)
        }
    }
}

/// The frequency of a fixed clock node: `#clock-cells` must be 0 (else a device tree error)
/// and `clock-frequency` present (else a device tree error) and readable as a frequency (else
/// the device fails).
pub fn node_frequency(clock_cells: Option<Option<u32>>, clock_frequency: Option<Option<u64>>) -> (r:
    Result<u64, DriverInitError>)
    ensures
        r == (match clock_cells {
            Some(Some(0u32)) => match clock_frequency {
                None => Err::<u64, DriverInitError>(DriverInitError::DeviceTreeError),
                Some(None) => Err::<u64, DriverInitError>(DriverInitError::DeviceFailed),
                Some(Some(f)) => Ok::<u64, DriverInitError>(f),
            },
            _ => Err::<u64, DriverInitError>(DriverInitError::DeviceTreeError),
        }),
{
    match clock_cells {
        Some(Some(0)) => {},
        _ => {
            return Err(DriverInitError::DeviceTreeError);
        },
    }
    match clock_frequency {
        None => Err(DriverInitError::DeviceTreeError),
        Some(None) => Err(DriverInitError::DeviceFailed),
        Some(Some(f)) => Ok(f),
    }
}

/// The driver of fixed clocks.
pub struct FixedClockDriver {
    pub dev_registry: DriverRegistry<FixedClockDevice>,
}

impl FixedClockDriver {
    pub fn new() -> (d: Self)
        ensures
            d.dev_registry.view() == Map::<Seq<char>, FixedClockDevice>::empty(),
    {
        FixedClockDriver { dev_registry: DriverRegistry::new() }
    }

    pub fn compatible(&self) -> (c: &'static str)
        ensures
            c@ == "fixed-clock"@,
    {
        "fixed-clock"
    }
}

} // verus!
