//! The BCM2835 auxiliary peripherals clock gate (`brcm,bcm2835-aux`): the mini UART and the two
//! auxiliary SPI controllers.
use vstd::prelude::*;

use crate::drivers::{DriverInitError, DriverRegistry};

verus! {

pub const AUX_IRQ_OFFSET: usize = 0x0;
pub const AUX_ENABLES_OFFSET: usize = 0x4;

pub const CLOCK_SPECIFIER_UART: u32 = 0;
pub const CLOCK_SPECIFIER_SPI1: u32 = 1;
pub const CLOCK_SPECIFIER_SPI2: u32 = 2;

/// The auxiliary clock gate.
pub struct ClockDevice {
    id: String,
    reg_base: usize,
}

impl ClockDevice {
    pub closed spec fn spec_id(&self) -> Seq<char> {
        self.id@
    }

    pub closed spec fn spec_reg_base(&self) -> usize {
        self.reg_base
    }

    pub fn new(id: String, reg_base: usize) -> (d: Self)
        ensures
            d.spec_id() == id@,
            d.spec_reg_base() == reg_base,
    {
        ClockDevice { id, reg_base }
    }

    pub fn name(&self) -> (s: &str)
        ensures
            s@ == self.spec_id(),
    {
        self.id.as_str()
    }
}

/// The checks of the node: one clock cell and one register region.
pub fn check_node(clock_cells: Option<u32>, reg_regions: Option<usize>) -> (r: Result<(), DriverInitError>)
    ensures
        r is Ok <==> (clock_cells == Some(1u32) && reg_regions == Some(1usize)),
        r is Err ==> r == Err::<(), DriverInitError>(DriverInitError::DeviceTreeError),
{
    match clock_cells {
        Some(1) => {},
        _ => {
            return Err(DriverInitError::DeviceTreeError);
        },
    }
    match reg_regions {
        Some(1) => Ok(()),
        _ => Err(DriverInitError::DeviceTreeError),
    }
}

/// The driver of the auxiliary clock gate.
pub struct ClockDriver {
    pub dev_registry: DriverRegistry<ClockDevice>,
}

impl ClockDriver {
    pub fn new() -> (d: Self)
        ensures
            d.dev_registry.view() == Map::<Seq<char>, ClockDevice>::empty(),
    {
        ClockDriver { dev_registry: DriverRegistry::new() }
    }

    pub fn compatible(&self) -> (c: &'static str)
        ensures
            c@ == "brcm,bcm2835-aux"@,
    {
        "brcm,bcm2835-aux"
    }
}

} // verus!
