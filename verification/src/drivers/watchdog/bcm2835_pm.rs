//! The watchdog of the BCM2835 power management block (`brcm,bcm2835-pm`): a 20-bit countdown
//! at 65536 Hz that resets the board when it runs out.
use vstd::prelude::*;

use crate::drivers::{DriverInitError, DriverRegistry};
use crate::drivers::interrupt_controller::RegisterWrite;

verus! {

pub const PM_RSTC_REG_OFFSET: usize = 0x1c;
pub const PM_RSTS_REG_OFFSET: usize = 0x20;
pub const PM_WDOG_REG_OFFSET: usize = 0x24;

pub const PM_WDOG_FREQUENCY_HZ: u64 = 65536;
pub const PM_WDOG_TIME_SET: u32 = 0x000fffff;
pub const PM_RSTC_WRCFG_CLR: u32 = 0xffffffcf;
pub const PM_RSTS_HADWRH_SET: u32 = 0x00000040;
pub const PM_RSTC_WRCFG_SET: u32 = 0x00000030;
pub const PM_RSTC_WRCFG_FULL_RESET: u32 = 0x00000020;
pub const PM_RSTC_RESET: u32 = 0x00000102;
pub const PM_RSTS_PARTITION_CLR: u32 = 0xfffffaaa;

/// Every write to a power management register carries this password.
pub const PM_PASSWORD: u32 = 0x5a000000;

/// The timeout of a new watchdog, in seconds.
pub const DEFAULT_TIMEOUT_SECS: u32 = 15;
pub const MAX_TIMEOUT_SECS: u32 = 15;
pub const MIN_TIMEOUT_SECS: u32 = 1;

/// The countdown ticks of `secs` seconds, as written to the 32-bit register (truncated).
pub open spec fn timeout_ticks_of(secs: u32) -> u32 {
    (secs * PM_WDOG_FREQUENCY_HZ) as u32
}

/// The watchdog.
pub struct WatchdogTimerDevice {
    id: String,
    reg_base: usize,
    timeout: u32,
}

impl WatchdogTimerDevice {
    pub closed spec fn spec_id(&self) -> Seq<char> {
        self.id@
    }

    pub closed spec fn spec_reg_base(&self) -> usize {
        self.reg_base
    }

    /// The timeout in seconds.
    pub closed spec fn spec_timeout(&self) -> u32 {
        self.timeout
    }

    /// A watchdog with the default timeout of 15 seconds.
    pub fn new(id: String, reg_base: usize) -> (d: Self)
        ensures
            d.spec_id() == id@,
            d.spec_reg_base() == reg_base,
            d.spec_timeout() == DEFAULT_TIMEOUT_SECS,
    {
        WatchdogTimerDevice { id, reg_base, timeout: DEFAULT_TIMEOUT_SECS }
    }

    /// The countdown ticks of the timeout.
    pub fn timeout_ticks(&self) -> (t: u32)
        ensures
            t == timeout_ticks_of(self.spec_timeout()),
    {
        let ticks = self.timeout as u64 * PM_WDOG_FREQUENCY_HZ;
        #[verifier::truncate]
        (ticks as u32)
    }

    /// The time in nanoseconds that `ticks` of the countdown register (its low 20 bits) stand
    /// for.
    pub fn ticks_to_duration(&self, ticks: u32) -> (ns: u64)
        ensures
            ns == (ticks & PM_WDOG_TIME_SET) * 1_000_000_000 / (PM_WDOG_FREQUENCY_HZ as int),
    {
        let t = (ticks & PM_WDOG_TIME_SET) as u64;
        assert(t <= 0xfffff) by (bit_vector)
            requires
                t == (ticks & 0xfffffu32) as u64,
        ;
        t * 1_000_000_000 / PM_WDOG_FREQUENCY_HZ
    }

    /// The watchdog runs: the reset configuration asks for a full reset.
    pub fn is_running(&self, rstc: u32) -> (b: bool)
        ensures
            b == (rstc & PM_RSTC_WRCFG_FULL_RESET != 0),
    {
        (rstc & PM_RSTC_WRCFG_FULL_RESET) != 0
    }

    /// The register writes that start the watchdog from reset control value `rstc`: the
    /// countdown loaded with the timeout, and a full reset configured.
    pub fn start(&self, rstc: u32) -> (w: (RegisterWrite, RegisterWrite))
        ensures
            w.0 == (RegisterWrite {
                offset: PM_WDOG_REG_OFFSET,
                value: (timeout_ticks_of(self.spec_timeout()) & PM_WDOG_TIME_SET) | PM_PASSWORD,
            }),
            w.1 == (RegisterWrite {
                offset: PM_RSTC_REG_OFFSET,
                value: (rstc & PM_RSTC_WRCFG_CLR) | PM_RSTC_WRCFG_FULL_RESET | PM_PASSWORD,
            }),
    {
        let ticks = self.timeout_ticks();
        (
            RegisterWrite { offset: PM_WDOG_REG_OFFSET, value: (ticks & PM_WDOG_TIME_SET) | PM_PASSWORD },
            RegisterWrite {
                offset: PM_RSTC_REG_OFFSET,
                value: (rstc & PM_RSTC_WRCFG_CLR) | PM_RSTC_WRCFG_FULL_RESET | PM_PASSWORD,
            },
        )
    }

    /// The register write that stops the watchdog.
    pub fn stop(&self) -> (w: RegisterWrite)
        ensures
            w == (RegisterWrite { offset: PM_RSTC_REG_OFFSET, value: PM_RSTC_RESET | PM_PASSWORD }),
    {
        RegisterWrite { offset: PM_RSTC_REG_OFFSET, value: PM_RSTC_RESET | PM_PASSWORD }
    }

    /// The register write that restarts the countdown.
    pub fn acknowledge(&self) -> (w: RegisterWrite)
        ensures
            w == (RegisterWrite {
                offset: PM_WDOG_REG_OFFSET,
                value: (timeout_ticks_of(self.spec_timeout()) & PM_WDOG_TIME_SET) | PM_PASSWORD,
            }),
    {
        let ticks = self.timeout_ticks();
        RegisterWrite { offset: PM_WDOG_REG_OFFSET, value: (ticks & PM_WDOG_TIME_SET) | PM_PASSWORD }
    }

    /// The timeout in seconds.
    pub fn get_default_timeout(&self) -> (s: u32)
        ensures
            s == self.spec_timeout(),
    {
        self.timeout
    }

    pub fn get_max_timeout(&self) -> (s: u32)
        ensures
            s == MAX_TIMEOUT_SECS,
    {
        MAX_TIMEOUT_SECS
    }

    pub fn get_min_timeout(&self) -> (s: u32)
        ensures
            s == MIN_TIMEOUT_SECS,
    {
        MIN_TIMEOUT_SECS
    }

    /// Sets the timeout to `secs` seconds, between 1 and 15.
    pub fn set_timeout(&mut self, secs: u64)
        requires
            MIN_TIMEOUT_SECS <= secs <= MAX_TIMEOUT_SECS,
        ensures
            final(self).spec_timeout() == secs,
            final(self).spec_id() == old(self).spec_id(),
            final(self).spec_reg_base() == old(self).spec_reg_base(),
    {
        self.timeout = secs as u32;
    }

    /// Takes the node's `timeout-sec` property, where it has one.
    pub fn configure_timeout(&mut self, timeout_sec: Option<u32>)
        ensures
            final(self).spec_timeout() == (match timeout_sec {
                Some(t) => t,
                None => old(self).spec_timeout(),
            }),
            final(self).spec_id() == old(self).spec_id(),
            final(self).spec_reg_base() == old(self).spec_reg_base(),
    {
        if let Some(t) = timeout_sec {
            self.timeout = t;
        }
    }
}

/// The `reg` region of the power management registers: the position of `"pm"` in
/// `reg-names`, else the first region.
pub fn pm_reg_index(reg_names: Option<&Vec<String>>) -> (i: usize)
    ensures
        match reg_names {
            None => i == 0,
            Some(names) => (i < names@.len() && names@[i as int]@ == "pm"@ && forall|k: int| 0 <= k < i ==> #[trigger] names@[k]@ != "pm"@)
                || (i == 0 && forall|k: int| 0 <= k < names@.len() ==> #[trigger] names@[k]@ != "pm"@),
        },
{
    match reg_names {
        None => 0,
        Some(names) => {
            let pm = String::from_str("pm");
            let mut k: usize = 0;
            while k < names.len()
                invariant
                    reg_names == Some(names),
                    0 <= k <= names@.len(),
                    pm@ == "pm"@,
                    forall|j: int| 0 <= j < k ==> #[trigger] names@[j]@ != "pm"@,
                decreases names.len() - k,
            {
                if names[k] == pm {
                    return k;
                }
                k += 1;
            }
            0
        },
    }
}

/// The node has two or three register regions.
pub fn check_reg_count(regions: Option<usize>) -> (r: Result<(), DriverInitError>)
    ensures
        r is Ok <==> (regions matches Some(n) && 2 <= n <= 3),
        r is Err ==> r == Err::<(), DriverInitError>(DriverInitError::DeviceTreeError),
{
    match regions {
        Some(n) => {
            if 2 <= n && n <= 3 {
                Ok(())
            } else {
                Err(DriverInitError::DeviceTreeError)
            }
        },
        None => Err(DriverInitError::DeviceTreeError),
    }
}

/// The driver of the watchdog and power management block.
pub struct WatchdogTimerAndPowerDriver {
    pub dev_registry: DriverRegistry<WatchdogTimerDevice>,
}

impl WatchdogTimerAndPowerDriver {
    pub fn new() -> (d: Self)
        ensures
            d.dev_registry.view() == Map::<Seq<char>, WatchdogTimerDevice>::empty(),
    {
        WatchdogTimerAndPowerDriver { dev_registry: DriverRegistry::new() }
    }

    pub fn compatible(&self) -> (c: &'static str)
        ensures
            c@ == "brcm,bcm2835-pm"@,
    {
        "brcm,bcm2835-pm"
    }
}

/// Every allowed timeout (1 to 15 seconds) fits the 20-bit countdown: writing it loses no
/// ticks.
pub proof fn lemma_timeout_fits_countdown(secs: u32)
    requires
        MIN_TIMEOUT_SECS <= secs <= MAX_TIMEOUT_SECS,
    ensures
        timeout_ticks_of(secs) == secs * 65536,
        timeout_ticks_of(secs) & PM_WDOG_TIME_SET == timeout_ticks_of(secs),
{
    let t = timeout_ticks_of(secs);
    assert(t == secs * 65536);
    assert(t <= 983040);
    assert(t & 0xfffffu32 == t) by (bit_vector)
        requires
            t <= 983040,
    ;
}

} // verus!
