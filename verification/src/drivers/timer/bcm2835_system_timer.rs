//! The BCM2835 system timer (`brcm,bcm2835-system-timer`): a free-running 1 MHz counter with
//! compare register 3 as the system alarm.
use vstd::prelude::*;

use crate::drivers::DriverRegistry;
use crate::drivers::interrupt_controller::RegisterWrite;

verus! {

pub const CS_REG_OFFSET: usize = 0x00;
pub const CLO_REG_OFFSET: usize = 0x04;
pub const C3_REG_OFFSET: usize = 0x18;
pub const CS_REG_M3_BIT: u32 = 0x8;
/// The counter frequency of a node without `clock-frequency`.
pub const DEFAULT_TIMER_RATE: u64 = 1_000_000;

/// The system timer.
pub struct TimerDevice {
    id: String,
    reg_base: usize,
    clock_frequency: u64,
    virq: u32,
}

impl TimerDevice {
    pub closed spec fn spec_id(&self) -> Seq<char> {
        self.id@
    }

    pub closed spec fn spec_reg_base(&self) -> usize {
        self.reg_base
    }

    pub closed spec fn spec_frequency(&self) -> u64 {
        self.clock_frequency
    }

    pub closed spec fn spec_virq(&self) -> u32 {
        self.virq
    }

    pub fn new(id: String, reg_base: usize, clock_frequency: u64, virq: u32) -> (d: Self)
        ensures
            d.spec_id() == id@,
            d.spec_reg_base() == reg_base,
            d.spec_frequency() == clock_frequency,
            d.spec_virq() == virq,
    {
        TimerDevice { id, reg_base, clock_frequency, virq }
    }

    /// The register writes of the setup: the pending match of compare 3 cleared, the compare
    /// register zeroed.
    pub fn global_setup(&self) -> (w: Vec<RegisterWrite>)
        ensures
            w@ == seq![
                RegisterWrite { offset: CS_REG_OFFSET, value: CS_REG_M3_BIT },
                RegisterWrite { offset: C3_REG_OFFSET, value: 0 },
            ],
    {
        let mut w: Vec<RegisterWrite> = Vec::new();
        w.push(RegisterWrite { offset: CS_REG_OFFSET, value: CS_REG_M3_BIT });
        w.push(RegisterWrite { offset: C3_REG_OFFSET, value: 0 });
        w
    }

    /// The counter, from its lower 32 bits.
    pub fn counter(&self, lower: u32) -> (c: u64)
        ensures
            c == lower,
    {
        lower as u64
    }

    pub fn frequency_hz(&self) -> (f: u64)
        ensures
            f == self.spec_frequency(),
    {
        self.clock_frequency
    }

    pub fn max_ticks(&self) -> (m: u64)
        ensures
            m == u32::MAX,
    {
        u32::MAX as u64
    }

    pub fn virq(&self) -> (v: u32)
        ensures
            v == self.spec_virq(),
    {
        self.virq
    }

    /// The compare write that raises the alarm when the counter reaches `ticks`.
    pub fn schedule_at(&self, ticks: u64) -> (w: RegisterWrite)
        requires
            ticks < u32::MAX,
        ensures
            w == (RegisterWrite { offset: C3_REG_OFFSET, value: ticks as u32 }),
    {
        RegisterWrite { offset: C3_REG_OFFSET, value: ticks as u32 }
    }

    /// The write that acknowledges and cancels the alarm.
    pub fn cancel(&self) -> (w: RegisterWrite)
        ensures
            w == (RegisterWrite { offset: CS_REG_OFFSET, value: CS_REG_M3_BIT }),
    {
        RegisterWrite { offset: CS_REG_OFFSET, value: CS_REG_M3_BIT }
    }
}

/// The counter rate of a timer node: its `clock-frequency`, 1 MHz where it has none.
pub fn timer_rate(clock_frequency: Option<u64>) -> (r: u64)
    ensures
        r == (match clock_frequency {
            Some(x) => x,
            None => DEFAULT_TIMER_RATE,
        }),
{
    match clock_frequency {
        Some(x) => x,
        None => DEFAULT_TIMER_RATE,
    }
}

/// The driver of the system timer.
pub struct TimerDriver {
    pub dev_registry: DriverRegistry<TimerDevice>,
}

impl TimerDriver {
    pub fn new() -> (d: Self)
        ensures
            d.dev_registry.view() == Map::<Seq<char>, TimerDevice>::empty(),
    {
        TimerDriver { dev_registry: DriverRegistry::new() }
    }

    pub fn compatible(&self) -> (c: &'static str)
        ensures
            c@ == "brcm,bcm2835-system-timer"@,
    {
        "brcm,bcm2835-system-timer"
    }
}

} // verus!
