//! The BCM2836 per-core local interrupt controller (`brcm,bcm2836-l1-intc`): 12 hardware
//! interrupts, the four core timers, the four core mailboxes, the GPU, the PMU, AXI and the local
//! timer.
use vstd::prelude::*;

use super::{IrqError, IrqResult, RegisterUpdate, RegisterWrite};
use crate::drivers::DriverRegistry;

verus! {

pub const HWIRQ_COUNT: u32 = 12;
pub const HWIRQ_CNTPSIRQ: u32 = 0;
pub const HWIRQ_CNTPNSIRQ: u32 = 1;
pub const HWIRQ_CNTHPIRQ: u32 = 2;
pub const HWIRQ_CNTVIRQ: u32 = 3;
pub const HWIRQ_MAILBOX_0: u32 = 4;
pub const HWIRQ_MAILBOX_1: u32 = 5;
pub const HWIRQ_MAILBOX_2: u32 = 6;
pub const HWIRQ_MAILBOX_3: u32 = 7;
pub const HWIRQ_GPU: u32 = 8;
pub const HWIRQ_PMU: u32 = 9;
pub const HWIRQ_AXI: u32 = 10;
pub const HWIRQ_LOCAL_TIMER: u32 = 11;

pub const CORE_UNRELATED_DEST_IRQ_CORE_0: u32 = 0;

pub const GPU_INT_ROUTING_REG_OFFSET: usize = 0xc;
pub const PMU_INT_ROUTING_SET_REG_OFFSET: usize = 0x10;
pub const PMU_INT_ROUTING_CLR_REG_OFFSET: usize = 0x14;
pub const LOCAL_TIMER_INT_ROUTING_REG_OFFSET: usize = 0x24;
pub const AXI_OUTSTANDING_IRQ_REG_OFFSET: usize = 0x30;
pub const LOCAL_TIMER_CTRL_AND_STATUS_REG_OFFSET: usize = 0x34;
pub const CORE_TIMERS_INT_CTRL_REG_OFFSET: usize = 0x40;
pub const CORE_MBOX_INT_CTRL_REG_OFFSET: usize = 0x50;
pub const CORE_IRQ_SOURCE_REG_OFFSET: usize = 0x60;

/// What enabling or disabling an interrupt does to the controller.
#[derive(Debug, Clone, Copy, PartialEq, Eq, Structural)]
pub enum IrqSwitch {
    /// Nothing: the GPU interrupt is always enabled.
    Nothing,
    /// A read-modify-write of one bit of a register.
    Update(RegisterUpdate),
    /// A write of a whole register.
    Write(RegisterWrite),
}

/// The bit update of a per-core register: the register of core `core_id` follows the one of
/// core 0 at a distance of four bytes per core.
pub open spec fn core_related(reg_offset: usize, core_id: usize, bit: u32, set: bool) -> RegisterUpdate {
    RegisterUpdate { offset: (reg_offset + core_id * 4) as usize, bit, set }
}

/// What enabling (`enable`) or disabling interrupt `hwirq` on core `core_id` does.
pub open spec fn irq_switch(hwirq: u32, core_id: usize, enable: bool) -> IrqSwitch {
    if hwirq == HWIRQ_GPU {
        IrqSwitch::Nothing
    } else if hwirq < 4 {
        IrqSwitch::Update(core_related(CORE_TIMERS_INT_CTRL_REG_OFFSET, core_id, hwirq, enable))
    } else if hwirq < 8 {
        IrqSwitch::Update(
            core_related(CORE_MBOX_INT_CTRL_REG_OFFSET, core_id, (hwirq - 4) as u32, enable),
        )
    } else if hwirq == HWIRQ_PMU {
        IrqSwitch::Write(
            RegisterWrite {
                offset: if enable { PMU_INT_ROUTING_SET_REG_OFFSET } else { PMU_INT_ROUTING_CLR_REG_OFFSET },
                value: 1u32 << (core_id as u32),
            },
        )
    } else if hwirq == HWIRQ_AXI {
        IrqSwitch::Update(RegisterUpdate { offset: AXI_OUTSTANDING_IRQ_REG_OFFSET, bit: 20, set: enable })
    } else {
        IrqSwitch::Update(
            RegisterUpdate { offset: LOCAL_TIMER_CTRL_AND_STATUS_REG_OFFSET, bit: 29, set: enable },
        )
    }
}

/// The local interrupt controller.
pub struct InterruptControllerDevice {
    id: String,
    reg_base: usize,
}

impl InterruptControllerDevice {
    pub closed spec fn spec_id(&self) -> Seq<char> {
        self.id@
    }

    pub closed spec fn spec_reg_base(&self) -> usize {
        self.reg_base
    }

    pub fn new(id: String, reg_base: usize) -> (d: Self)
        ensures
            d.spec_id() == id@,
            d.spec_reg_base() == reg_base,
    {
        InterruptControllerDevice { id, reg_base }
    }

    pub fn id(&self) -> (s: &str)
        ensures
            s@ == self.spec_id(),
    {
        self.id.as_str()
    }

    /// The bit update of the per-core register at `reg_offset` for core `core_id`.
    pub fn update_core_related_reg(&self, reg_offset: usize, core_id: usize, bit: u32, enable: bool) -> (u:
        RegisterUpdate)
        requires
            reg_offset + core_id * 4 <= usize::MAX,
        ensures
            u == core_related(reg_offset, core_id, bit, enable),
    {
        RegisterUpdate { offset: reg_offset + core_id * 4, bit, set: enable }
    }

    /// The bit update of the shared register at `reg_offset`.
    pub fn update_core_unrelated_reg(&self, reg_offset: usize, bit: u32, enable: bool) -> (u: RegisterUpdate)
        ensures
            u == (RegisterUpdate { offset: reg_offset, bit, set: enable }),
    {
        RegisterUpdate { offset: reg_offset, bit, set: enable }
    }

    pub fn enable_timer_interrupt(&self, hwirq: u32, core_id: usize) -> (u: RegisterUpdate)
        requires
            hwirq < 4,
            core_id < 4,
        ensures
            u == core_related(CORE_TIMERS_INT_CTRL_REG_OFFSET, core_id, hwirq, true),
    {
        self.update_core_related_reg(CORE_TIMERS_INT_CTRL_REG_OFFSET, core_id, hwirq, true)
    }

    pub fn disable_timer_interrupt(&self, hwirq: u32, core_id: usize) -> (u: RegisterUpdate)
        requires
            hwirq < 4,
            core_id < 4,
        ensures
            u == core_related(CORE_TIMERS_INT_CTRL_REG_OFFSET, core_id, hwirq, false),
    {
        self.update_core_related_reg(CORE_TIMERS_INT_CTRL_REG_OFFSET, core_id, hwirq, false)
    }

    pub fn enable_mailbox_interrupt(&self, hwirq: u32, core_id: usize) -> (u: RegisterUpdate)
        requires
            4 <= hwirq < 8,
            core_id < 4,
        ensures
            u == core_related(CORE_MBOX_INT_CTRL_REG_OFFSET, core_id, (hwirq - 4) as u32, true),
    {
        self.update_core_related_reg(CORE_MBOX_INT_CTRL_REG_OFFSET, core_id, hwirq - 4, true)
    }

    pub fn disable_mailbox_interrupt(&self, hwirq: u32, core_id: usize) -> (u: RegisterUpdate)
        requires
            4 <= hwirq < 8,
            core_id < 4,
        ensures
            u == core_related(CORE_MBOX_INT_CTRL_REG_OFFSET, core_id, (hwirq - 4) as u32, false),
    {
        self.update_core_related_reg(CORE_MBOX_INT_CTRL_REG_OFFSET, core_id, hwirq - 4, false)
    }

    pub fn enable_pmu_interrupt(&self, core_id: usize) -> (w: RegisterWrite)
        requires
            core_id < 4,
        ensures
            w == (RegisterWrite { offset: PMU_INT_ROUTING_SET_REG_OFFSET, value: 1u32 << (core_id as u32) }),
    {
        RegisterWrite { offset: PMU_INT_ROUTING_SET_REG_OFFSET, value: 1u32 << (core_id as u32) }
    }

    pub fn disable_pmu_interrupt(&self, core_id: usize) -> (w: RegisterWrite)
        requires
            core_id < 4,
        ensures
            w == (RegisterWrite { offset: PMU_INT_ROUTING_CLR_REG_OFFSET, value: 1u32 << (core_id as u32) }),
    {
        RegisterWrite { offset: PMU_INT_ROUTING_CLR_REG_OFFSET, value: 1u32 << (core_id as u32) }
    }

    pub fn enable_axi_interrupt(&self) -> (u: RegisterUpdate)
        ensures
            u == (RegisterUpdate { offset: AXI_OUTSTANDING_IRQ_REG_OFFSET, bit: 20, set: true }),
    {
        self.update_core_unrelated_reg(AXI_OUTSTANDING_IRQ_REG_OFFSET, 20, true)
    }

    pub fn disable_axi_interrupt(&self) -> (u: RegisterUpdate)
        ensures
            u == (RegisterUpdate { offset: AXI_OUTSTANDING_IRQ_REG_OFFSET, bit: 20, set: false }),
    {
        self.update_core_unrelated_reg(AXI_OUTSTANDING_IRQ_REG_OFFSET, 20, false)
    }

    pub fn enable_local_timer_interrupt(&self) -> (u: RegisterUpdate)
        ensures
            u == (RegisterUpdate { offset: LOCAL_TIMER_CTRL_AND_STATUS_REG_OFFSET, bit: 29, set: true }),
    {
        self.update_core_unrelated_reg(LOCAL_TIMER_CTRL_AND_STATUS_REG_OFFSET, 29, true)
    }

    pub fn disable_local_timer_interrupt(&self) -> (u: RegisterUpdate)
        ensures
            u == (RegisterUpdate { offset: LOCAL_TIMER_CTRL_AND_STATUS_REG_OFFSET, bit: 29, set: false }),
    {
        self.update_core_unrelated_reg(LOCAL_TIMER_CTRL_AND_STATUS_REG_OFFSET, 29, false)
    }

    /// What enabling interrupt `hwirq` on core `core_id` does.
    pub fn enable(&self, hwirq: u32, core_id: usize) -> (s: IrqSwitch)
        requires
            hwirq < HWIRQ_COUNT,
            core_id < 4,
        ensures
            s == irq_switch(hwirq, core_id, true),
    {
        if hwirq == HWIRQ_GPU {
            IrqSwitch::Nothing
        } else if hwirq < 4 {
            IrqSwitch::Update(self.enable_timer_interrupt(hwirq, core_id))
        } else if hwirq < 8 {
            IrqSwitch::Update(self.enable_mailbox_interrupt(hwirq, core_id))
        } else if hwirq == HWIRQ_PMU {
            IrqSwitch::Write(self.enable_pmu_interrupt(core_id))
        } else if hwirq == HWIRQ_AXI {
            IrqSwitch::Update(self.enable_axi_interrupt())
        } else {
            IrqSwitch::Update(self.enable_local_timer_interrupt())
        }
    }

    /// What disabling interrupt `hwirq` on core `core_id` does.
    pub fn disable(&self, hwirq: u32, core_id: usize) -> (s: IrqSwitch)
        requires
            hwirq < HWIRQ_COUNT,
            core_id < 4,
        ensures
            s == irq_switch(hwirq, core_id, false),
    {
        if hwirq == HWIRQ_GPU {
            IrqSwitch::Nothing
        } else if hwirq < 4 {
            IrqSwitch::Update(self.disable_timer_interrupt(hwirq, core_id))
        } else if hwirq < 8 {
            IrqSwitch::Update(self.disable_mailbox_interrupt(hwirq, core_id))
        } else if hwirq == HWIRQ_PMU {
            IrqSwitch::Write(self.disable_pmu_interrupt(core_id))
        } else if hwirq == HWIRQ_AXI {
            IrqSwitch::Update(self.disable_axi_interrupt())
        } else {
            IrqSwitch::Update(self.disable_local_timer_interrupt())
        }
    }

    /// The register of core `core_id` that names its pending interrupt sources.
    pub fn core_irq_source_offset(&self, core_id: usize) -> (o: usize)
        requires
            core_id < 4,
        ensures
            o == CORE_IRQ_SOURCE_REG_OFFSET + core_id * 4,
    {
        CORE_IRQ_SOURCE_REG_OFFSET + core_id * 4
    }

    /// The interrupt to serve next: the lowest bit of the core's interrupt source register.
    pub fn pending_hwirq(&self, pending: u32) -> (r: Option<u32>)
        ensures
            r == (if pending == 0 {
                None
            } else {
                Some(pending.trailing_zeros())
            }),
    {
        if pending == 0 {
            return None;
        }
        Some(pending.trailing_zeros())
    }

    /// Translates a device tree interrupt specifier `<hwirq>`.
    pub fn xlate(&self, specifier: &Vec<u32>) -> (r: IrqResult<u32>)
        ensures
            r == (if specifier@.len() >= 1 && specifier@[0] < HWIRQ_COUNT {
                Ok::<u32, IrqError>(specifier@[0])
            } else {
                Err::<u32, IrqError>(IrqError::TranslationFailed)
            }),
    {
        if specifier.len() < 1 {
            return Err(IrqError::TranslationFailed);
        }
        let hwirq = specifier[0];
        if hwirq < HWIRQ_COUNT {
            Ok(hwirq)
        } else {
            Err(IrqError::TranslationFailed)
        }
    }

    /// The register writes of the one-time setup: GPU interrupts and the local timer routed to
    /// core 0, the PMU routed nowhere; the AXI and local timer interrupt enables (bits 20 and 29
    /// of their registers) are cleared by the returned updates.
    pub fn global_setup(&self) -> (r: (Vec<RegisterWrite>, Vec<RegisterUpdate>))
        ensures
            r.0@ == seq![
                RegisterWrite { offset: GPU_INT_ROUTING_REG_OFFSET, value: 0 },
                RegisterWrite { offset: PMU_INT_ROUTING_CLR_REG_OFFSET, value: u32::MAX },
                RegisterWrite { offset: LOCAL_TIMER_INT_ROUTING_REG_OFFSET, value: CORE_UNRELATED_DEST_IRQ_CORE_0 },
            ],
            r.1@ == seq![
                RegisterUpdate { offset: AXI_OUTSTANDING_IRQ_REG_OFFSET, bit: 20, set: false },
                RegisterUpdate { offset: LOCAL_TIMER_CTRL_AND_STATUS_REG_OFFSET, bit: 29, set: false },
            ],
    {
        let mut w: Vec<RegisterWrite> = Vec::new();
        w.push(RegisterWrite { offset: GPU_INT_ROUTING_REG_OFFSET, value: 0 });
        w.push(RegisterWrite { offset: PMU_INT_ROUTING_CLR_REG_OFFSET, value: u32::MAX });
        w.push(
            RegisterWrite {
                offset: LOCAL_TIMER_INT_ROUTING_REG_OFFSET,
                value: CORE_UNRELATED_DEST_IRQ_CORE_0,
            },
        );
        let mut u: Vec<RegisterUpdate> = Vec::new();
        u.push(self.disable_axi_interrupt());
        u.push(self.disable_local_timer_interrupt());
        (w, u)
    }

    /// The register writes of the per-core setup of core `core_id`: its timer and mailbox
    /// interrupts all disabled.
    pub fn local_setup(&self, core_id: usize) -> (w: Vec<RegisterWrite>)
        requires
            core_id < 4,
        ensures
            w@ == seq![
                RegisterWrite { offset: (CORE_TIMERS_INT_CTRL_REG_OFFSET + core_id * 4) as usize, value: 0 },
                RegisterWrite { offset: (CORE_MBOX_INT_CTRL_REG_OFFSET + core_id * 4) as usize, value: 0 },
            ],
    {
        let core_offset = core_id * 4;
        let mut w: Vec<RegisterWrite> = Vec::new();
        w.push(RegisterWrite { offset: CORE_TIMERS_INT_CTRL_REG_OFFSET + core_offset, value: 0 });
        w.push(RegisterWrite { offset: CORE_MBOX_INT_CTRL_REG_OFFSET + core_offset, value: 0 });
        w
    }
}

/// The driver of the local interrupt controller.
pub struct InterruptControllerDriver {
    pub dev_registry: DriverRegistry<InterruptControllerDevice>,
}

impl InterruptControllerDriver {
    pub fn new() -> (d: Self)
        ensures
            d.dev_registry.view() == Map::<Seq<char>, InterruptControllerDevice>::empty(),
    {
        InterruptControllerDriver { dev_registry: DriverRegistry::new() }
    }

    pub fn compatible(&self) -> (c: &'static str)
        ensures
            c@ == "brcm,bcm2836-l1-intc"@,
    {
        "brcm,bcm2836-l1-intc"
    }
}

/// Enabling and disabling an interrupt touch the same register and bit; for a bit update,
/// disabling after enabling leaves the bit clear and every other bit as it was.
pub proof fn lemma_enable_then_disable(hwirq: u32, core_id: usize, value: u32)
    requires
        hwirq < HWIRQ_COUNT,
        core_id < 4,
    ensures
        match (irq_switch(hwirq, core_id, true), irq_switch(hwirq, core_id, false)) {
            (IrqSwitch::Update(on), IrqSwitch::Update(off)) => {
                &&& on.offset == off.offset
                &&& on.bit == off.bit
                &&& on.bit < 32
                &&& super::with_bit(super::with_bit(value, on.bit, true), off.bit, false)
                    == super::with_bit(value, on.bit, false)
            },
            (IrqSwitch::Write(on), IrqSwitch::Write(off)) => on.value == off.value,
            (IrqSwitch::Nothing, IrqSwitch::Nothing) => true,
            _ => false,
        },
{
    if hwirq != HWIRQ_GPU && hwirq != HWIRQ_PMU {
        let on = match irq_switch(hwirq, core_id, true) {
            IrqSwitch::Update(u) => u,
            _ => RegisterUpdate { offset: 0, bit: 0, set: true },
        };
        super::lemma_update_reg_last_wins(value, on.bit, true, false);
    }
}

} // verus!
