//! The ARM generic timer (`arm,armv7-timer`), used through its virtual counter.
use vstd::prelude::*;

use crate::drivers::DriverRegistry;

verus! {

/// `CNTV_CTL_EL0` enable bit.
pub const CNTV_CTL_ENABLE: u64 = 0b1;
/// `CNTV_CTL_EL0` interrupt mask bit.
pub const CNTV_CTL_IMASK: u64 = 0b10;

/// The generic timer of a core.
pub struct GenericTimerDevice {
    id: String,
    clock_frequency: u64,
    virq: u32,
}

impl GenericTimerDevice {
    pub closed spec fn spec_id(&self) -> Seq<char> {
        self.id@
    }

    pub closed spec fn spec_frequency(&self) -> u64 {
        self.clock_frequency
    }

    pub closed spec fn spec_virq(&self) -> u32 {
        self.virq
    }

    pub fn new(id: String, clock_frequency: u64, virq: u32) -> (d: Self)
        ensures
            d.spec_id() == id@,
            d.spec_frequency() == clock_frequency,
            d.spec_virq() == virq,
    {
        GenericTimerDevice { id, clock_frequency, virq }
    }

    /// Takes the frequency that `CNTFRQ_EL0` reports, where it reports one (is not 0).
    pub fn set_counter_frequency(&mut self, cntfrq: u64)
        ensures
            final(self).spec_frequency() == (if cntfrq > 0 { cntfrq } else { old(self).spec_frequency() }),
            final(self).spec_id() == old(self).spec_id(),
            final(self).spec_virq() == old(self).spec_virq(),
    {
        if cntfrq > 0 {
            self.clock_frequency = cntfrq;
        }
    }

    pub fn frequency_hz(&self) -> (f: u64)
        ensures
            f == self.spec_frequency(),
    {
        self.clock_frequency
    }

    /// The largest tick count an alarm can be set ahead.
    pub fn max_ticks(&self) -> (m: u64)
        ensures
            m == u32::MAX,
    {
        u32::MAX as u64
    }

    pub fn virq(&self) -> (v: u32)
        ensures
            v == self.spec_virq(),
    {
        self.virq
    }

    /// The control value that arms the alarm: enabled, interrupt unmasked.
    pub fn schedule_control(&self) -> (c: u64)
        ensures
            c == CNTV_CTL_ENABLE,
    {
        CNTV_CTL_ENABLE
    }

    /// The control value that cancels the alarm: disabled, interrupt masked.
    pub fn cancel_control(&self) -> (c: u64)
        ensures
            c == CNTV_CTL_IMASK,
    {
        CNTV_CTL_IMASK
    }
}

/// The frequency of a timer node: its `clock-frequency`, or 0 (unknown) where it has none.
pub fn node_frequency(clock_frequency: Option<u64>) -> (f: u64)
    ensures
        f == (match clock_frequency {
            Some(x) => x,
            None => 0u64,
        }),
{
    match clock_frequency {
        Some(x) => x,
        None => 0,
    }
}

/// The driver of the generic timer.
pub struct GenericTimerDriver {
    pub dev_registry: DriverRegistry<GenericTimerDevice>,
}

impl GenericTimerDriver {
    pub fn new() -> (d: Self)
        ensures
            d.dev_registry.view() == Map::<Seq<char>, GenericTimerDevice>::empty(),
    {
        GenericTimerDriver { dev_registry: DriverRegistry::new() }
    }

    pub fn compatible(&self) -> (c: &'static str)
        ensures
            c@ == "arm,armv7-timer"@,
    {
        "arm,armv7-timer"
    }
}

} // verus!
