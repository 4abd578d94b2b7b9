//! Stopping the watchdog early in boot, before the driver runs.
use vstd::prelude::*;

use super::bcm2835_pm::{PM_PASSWORD, PM_RSTC_REG_OFFSET, PM_RSTC_WRCFG_FULL_RESET, PM_WDOG_REG_OFFSET};
use crate::drivers::interrupt_controller::RegisterWrite;

verus! {

/// The physical address of the power management block.
pub const PM_BASE: usize = 0x3F10_0000;

/// The register writes that disable the watchdog, given the reset control value `rstc`: the
/// full-reset configuration cleared, the countdown zeroed.
pub fn bcm2835_wdt_disable(rstc: u32) -> (w: (RegisterWrite, RegisterWrite))
    ensures
        w.0 == (RegisterWrite {
            offset: PM_RSTC_REG_OFFSET,
            value: PM_PASSWORD | (rstc & !PM_RSTC_WRCFG_FULL_RESET),
        }),
        w.1 == (RegisterWrite { offset: PM_WDOG_REG_OFFSET, value: PM_PASSWORD }),
{
    (
        RegisterWrite { offset: PM_RSTC_REG_OFFSET, value: PM_PASSWORD | (rstc & !PM_RSTC_WRCFG_FULL_RESET) },
        RegisterWrite { offset: PM_WDOG_REG_OFFSET, value: PM_PASSWORD },
    )
}

} // verus!
