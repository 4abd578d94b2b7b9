//! The BCM2836 ARM control interrupt controller (`brcm,bcm2836-armctrl-ic`): 72 hardware
//! interrupts in three banks, the basic bank 0..=7, bank 1 8..=39 and bank 2 40..=71.
use vstd::prelude::*;

use super::{IrqError, IrqResult, RegisterWrite};
use crate::drivers::{DriverInitError, DriverRegistry};

verus! {

pub const HWIRQ_COUNT: u32 = 72;
pub const HWIRQ_BASIC_RANGE_START: u32 = 0;
pub const HWIRQ_BASIC_RANGE_END: u32 = 7;
pub const HWIRQ_1_RANGE_START: u32 = 8;
pub const HWIRQ_1_RANGE_END: u32 = 39;
pub const HWIRQ_2_RANGE_START: u32 = 40;
pub const HWIRQ_2_RANGE_END: u32 = 71;

pub const IRQ_BASIC_PENDING_REG_OFFSET: usize = 0x0;
pub const IRQ_PENDING_1_REG_OFFSET: usize = 0x4;
pub const IRQ_PENDING_2_REG_OFFSET: usize = 0x8;
pub const FIQ_CTRL_REG_OFFSET: usize = 0xC;
pub const ENABLE_IRQS_1_REG_OFFSET: usize = 0x10;
pub const ENABLE_IRQS_2_REG_OFFSET: usize = 0x14;
pub const ENABLE_BASIC_IRQS_REG_OFFSET: usize = 0x18;
pub const DISABLE_IRQS_1_REG_OFFSET: usize = 0x1C;
pub const DISABLE_IRQS_2_REG_OFFSET: usize = 0x20;
pub const DISABLE_BASIC_IRQS_REG_OFFSET: usize = 0x24;

/// The register and bit that enable (`enable`) or disable hardware interrupt `hwirq`: the bit
/// of the interrupt within its bank in the bank's enable or disable register.
pub open spec fn irq_switch(hwirq: u32, enable: bool) -> RegisterWrite {
    if hwirq <= HWIRQ_BASIC_RANGE_END {
        RegisterWrite {
            offset: if enable { ENABLE_BASIC_IRQS_REG_OFFSET } else { DISABLE_BASIC_IRQS_REG_OFFSET },
            value: 1u32 << hwirq,
        }
    } else if hwirq <= HWIRQ_1_RANGE_END {
        RegisterWrite {
            offset: if enable { ENABLE_IRQS_1_REG_OFFSET } else { DISABLE_IRQS_1_REG_OFFSET },
            value: 1u32 << ((hwirq - HWIRQ_1_RANGE_START) as u32),
        }
    } else {
        RegisterWrite {
            offset: if enable { ENABLE_IRQS_2_REG_OFFSET } else { DISABLE_IRQS_2_REG_OFFSET },
            value: 1u32 << ((hwirq - HWIRQ_2_RANGE_START) as u32),
        }
    }
}

/// The hardware interrupt that the pending registers name first (`None` when nothing is
/// pending): the lowest pending bit of the basic register, where bits 8 and 9 stand for the
/// lowest pending bit of bank 1 and bank 2, and bits 10 to 20 for selected interrupts of banks
/// 1 and 2. Bit 20 gives 102 (its number plus 42 past the start of bank 2), which lies beyond
/// the `HWIRQ_COUNT` interrupts that `enable` and `disable` accept; GPU interrupt 62, which the
/// bit stands for, is number 70.
pub open spec fn pending_irq(pending_basic: u32, pending_1: u32, pending_2: u32) -> Option<u32> {
    let next = pending_basic.trailing_zeros();
    if pending_basic == 0 {
        None
    } else if next <= HWIRQ_BASIC_RANGE_END {
        Some(next)
    } else if next == 8 {
        if pending_1 == 0 {
            None
        } else {
            Some((pending_1.trailing_zeros() + HWIRQ_1_RANGE_START) as u32)
        }
    } else if next == 9 {
        if pending_2 == 0 {
            None
        } else {
            Some((pending_2.trailing_zeros() + HWIRQ_2_RANGE_START) as u32)
        }
    } else if next == 10 {
        Some((next - 3 + HWIRQ_1_RANGE_START) as u32)
    } else if next <= 12 {
        Some((next - 2 + HWIRQ_1_RANGE_START) as u32)
    } else if next <= 14 {
        Some((next + 5 + HWIRQ_1_RANGE_START) as u32)
    } else if next <= 19 {
        Some((next + 38 + HWIRQ_1_RANGE_START) as u32)
    } else {
        Some((next + 42 + HWIRQ_2_RANGE_START) as u32)
    }
}

/// The hardware interrupt of a two-cell specifier `<bank number>`, or `None` where the bank is
/// not 0, 1 or 2 or the number lies outside the bank.
pub open spec fn xlate_irq(bank: u32, number: u32) -> Option<u32> {
    if bank == 0 {
        if number > HWIRQ_BASIC_RANGE_END {
            None
        } else {
            Some(number)
        }
    } else if bank == 1 {
        if number + HWIRQ_1_RANGE_START > HWIRQ_1_RANGE_END {
            None
        } else {
            Some((number + HWIRQ_1_RANGE_START) as u32)
        }
    } else if bank == 2 {
        if number + HWIRQ_2_RANGE_START > HWIRQ_2_RANGE_END {
            None
        } else {
            Some((number + HWIRQ_2_RANGE_START) as u32)
        }
    } else {
        None
    }
}

/// An ARM control interrupt controller.
pub struct InterruptControllerDevice {
    path: String,
    reg_base: usize,
    virq_base: Option<u32>,
}

impl InterruptControllerDevice {
    pub closed spec fn spec_path(&self) -> Seq<char> {
        self.path@
    }

    pub closed spec fn spec_reg_base(&self) -> usize {
        self.reg_base
    }

    pub closed spec fn spec_virq_base(&self) -> Option<u32> {
        self.virq_base
    }

    /// The controller of the node at `path`, with its registers mapped at `reg_base`.
    pub fn new(path: String, reg_base: usize) -> (d: Self)
        ensures
            d.spec_path() == path@,
            d.spec_reg_base() == reg_base,
            d.spec_virq_base() is None,
    {
        InterruptControllerDevice { path, reg_base, virq_base: None }
    }

    pub fn path(&self) -> (p: &str)
        ensures
            p@ == self.spec_path(),
    {
        self.path.as_str()
    }

    /// The register writes of the one-time setup: FIQ off, every interrupt disabled.
    pub fn global_setup(&self) -> (w: Vec<RegisterWrite>)
        ensures
            w@ == seq![
                RegisterWrite { offset: FIQ_CTRL_REG_OFFSET, value: 0 },
                RegisterWrite { offset: DISABLE_IRQS_1_REG_OFFSET, value: u32::MAX },
                RegisterWrite { offset: DISABLE_IRQS_2_REG_OFFSET, value: u32::MAX },
                RegisterWrite { offset: DISABLE_BASIC_IRQS_REG_OFFSET, value: u32::MAX },
            ],
    {
        let mut w: Vec<RegisterWrite> = Vec::new();
        w.push(RegisterWrite { offset: FIQ_CTRL_REG_OFFSET, value: 0 });
        w.push(RegisterWrite { offset: DISABLE_IRQS_1_REG_OFFSET, value: u32::MAX });
        w.push(RegisterWrite { offset: DISABLE_IRQS_2_REG_OFFSET, value: u32::MAX });
        w.push(RegisterWrite { offset: DISABLE_BASIC_IRQS_REG_OFFSET, value: u32::MAX });
        w
    }

    /// Records the first virtual interrupt number of the controller; fails where one is set.
    pub fn set_virq_base(&mut self, virq_base: u32) -> (r: IrqResult<()>)
        ensures
            r is Ok <==> old(self).spec_virq_base() is None,
            r is Ok ==> final(self).spec_virq_base() == Some(virq_base),
            r is Err ==> r == Err::<(), IrqError>(IrqError::InvalidVirq) && final(self).spec_virq_base()
                == old(self).spec_virq_base(),
            final(self).spec_path() == old(self).spec_path(),
            final(self).spec_reg_base() == old(self).spec_reg_base(),
    {
        if self.virq_base.is_some() {
            return Err(IrqError::InvalidVirq);
        }
        self.virq_base = Some(virq_base);
        Ok(())
    }

    pub fn enable_basic_irq(&self, hwirq: u32) -> (w: RegisterWrite)
        requires
            hwirq <= HWIRQ_BASIC_RANGE_END,
        ensures
            w == irq_switch(hwirq, true),
    {
        RegisterWrite { offset: ENABLE_BASIC_IRQS_REG_OFFSET, value: 1u32 << hwirq }
    }

    pub fn enable_irq_1(&self, hwirq: u32) -> (w: RegisterWrite)
        requires
            HWIRQ_1_RANGE_START <= hwirq <= HWIRQ_1_RANGE_END,
        ensures
            w == irq_switch(hwirq, true),
    {
        RegisterWrite { offset: ENABLE_IRQS_1_REG_OFFSET, value: 1u32 << (hwirq - HWIRQ_1_RANGE_START) }
    }

    pub fn enable_irq_2(&self, hwirq: u32) -> (w: RegisterWrite)
        requires
            HWIRQ_2_RANGE_START <= hwirq <= HWIRQ_2_RANGE_END,
        ensures
            w == irq_switch(hwirq, true),
    {
        RegisterWrite { offset: ENABLE_IRQS_2_REG_OFFSET, value: 1u32 << (hwirq - HWIRQ_2_RANGE_START) }
    }

    pub fn disable_basic_irq(&self, hwirq: u32) -> (w: RegisterWrite)
        requires
            hwirq <= HWIRQ_BASIC_RANGE_END,
        ensures
            w == irq_switch(hwirq, false),
    {
        RegisterWrite { offset: DISABLE_BASIC_IRQS_REG_OFFSET, value: 1u32 << hwirq }
    }

    pub fn disable_irq_1(&self, hwirq: u32) -> (w: RegisterWrite)
        requires
            HWIRQ_1_RANGE_START <= hwirq <= HWIRQ_1_RANGE_END,
        ensures
            w == irq_switch(hwirq, false),
    {
        RegisterWrite { offset: DISABLE_IRQS_1_REG_OFFSET, value: 1u32 << (hwirq - HWIRQ_1_RANGE_START) }
    }

    pub fn disable_irq_2(&self, hwirq: u32) -> (w: RegisterWrite)
        requires
            HWIRQ_2_RANGE_START <= hwirq <= HWIRQ_2_RANGE_END,
        ensures
            w == irq_switch(hwirq, false),
    {
        RegisterWrite { offset: DISABLE_IRQS_2_REG_OFFSET, value: 1u32 << (hwirq - HWIRQ_2_RANGE_START) }
    }

    /// The register write that enables hardware interrupt `hwirq`.
    pub fn enable(&self, hwirq: u32) -> (w: RegisterWrite)
        requires
            hwirq < HWIRQ_COUNT,
        ensures
            w == irq_switch(hwirq, true),
    {
        if hwirq <= HWIRQ_BASIC_RANGE_END {
            self.enable_basic_irq(hwirq)
        } else if hwirq <= HWIRQ_1_RANGE_END {
            self.enable_irq_1(hwirq)
        } else {
            self.enable_irq_2(hwirq)
        }
    }

    /// The register write that disables hardware interrupt `hwirq`.
    pub fn disable(&self, hwirq: u32) -> (w: RegisterWrite)
        requires
            hwirq < HWIRQ_COUNT,
        ensures
            w == irq_switch(hwirq, false),
    {
        if hwirq <= HWIRQ_BASIC_RANGE_END {
            self.disable_basic_irq(hwirq)
        } else if hwirq <= HWIRQ_1_RANGE_END {
            self.disable_irq_1(hwirq)
        } else {
            self.disable_irq_2(hwirq)
        }
    }

    /// The hardware interrupt to serve next, decoded from the basic pending register and, where
    /// it points there, the pending register of bank 1 or bank 2.
    pub fn pending_hwirq(&self, pending_basic: u32, pending_1: u32, pending_2: u32) -> (r: Option<u32>)
        requires
            pending_basic == 0 || pending_basic.trailing_zeros() <= 20,
        ensures
            r == pending_irq(pending_basic, pending_1, pending_2),
    {
        if pending_basic == 0 {
            return None;
        }
        let next = pending_basic.trailing_zeros();
        if next <= HWIRQ_BASIC_RANGE_END {
            Some(next)
        } else if next == 8 {
            if pending_1 == 0 {
                return None;
            }
            proof {
                vstd::std_specs::bits::axiom_u32_trailing_zeros(pending_1);
            }
            Some(pending_1.trailing_zeros() + HWIRQ_1_RANGE_START)
        } else if next == 9 {
            if pending_2 == 0 {
                return None;
            }
            proof {
                vstd::std_specs::bits::axiom_u32_trailing_zeros(pending_2);
            }
            Some(pending_2.trailing_zeros() + HWIRQ_2_RANGE_START)
        } else if next == 10 {
            Some(next - 3 + HWIRQ_1_RANGE_START)
        } else if next <= 12 {
            Some(next - 2 + HWIRQ_1_RANGE_START)
        } else if next <= 14 {
            Some(next + 5 + HWIRQ_1_RANGE_START)
        } else if next <= 19 {
            Some(next + 38 + HWIRQ_1_RANGE_START)
        } else {
            Some(next + 42 + HWIRQ_2_RANGE_START)
        }
    }

    /// Translates a device tree interrupt specifier `<bank number>`.
    pub fn xlate(&self, specifier: &Vec<u32>) -> (r: IrqResult<u32>)
        requires
            specifier@.len() >= 2 && specifier@[0] == 1 ==> specifier@[1] <= u32::MAX - HWIRQ_1_RANGE_START,
            specifier@.len() >= 2 && specifier@[0] == 2 ==> specifier@[1] <= u32::MAX - HWIRQ_2_RANGE_START,
        ensures
            specifier@.len() < 2 ==> r == Err::<u32, IrqError>(IrqError::TranslationFailed),
            specifier@.len() >= 2 ==> r == match xlate_irq(specifier@[0], specifier@[1]) {
                Some(h) => Ok::<u32, IrqError>(h),
                None => Err::<u32, IrqError>(IrqError::TranslationFailed),
            },
    {
        if specifier.len() < 2 {
            return Err(IrqError::TranslationFailed);
        }
        let bank = specifier[0];
        let int_num = specifier[1];
        if bank == 0 {
            if int_num > HWIRQ_BASIC_RANGE_END {
                return Err(IrqError::TranslationFailed);
            }
            Ok(int_num)
        } else if bank == 1 {
            let hwirq = int_num + HWIRQ_1_RANGE_START;
            if hwirq > HWIRQ_1_RANGE_END {
                return Err(IrqError::TranslationFailed);
            }
            Ok(hwirq)
        } else if bank == 2 {
            let hwirq = int_num + HWIRQ_2_RANGE_START;
            if hwirq > HWIRQ_2_RANGE_END {
                return Err(IrqError::TranslationFailed);
            }
            Ok(hwirq)
        } else {
            Err(IrqError::TranslationFailed)
        }
    }
}

/// The checks of a controller node: it is an interrupt controller, with two interrupt cells,
/// and one register region.
pub fn check_node(is_interrupt_controller: bool, interrupt_cells: Option<u32>, reg_regions: Option<usize>) -> (r:
    Result<(), DriverInitError>)
    ensures
        r is Ok <==> (is_interrupt_controller && interrupt_cells == Some(2u32) && reg_regions == Some(
            1usize,
        )),
        r is Err ==> r == Err::<(), DriverInitError>(DriverInitError::DeviceTreeError),
{
    if !is_interrupt_controller {
        return Err(DriverInitError::DeviceTreeError);
    }
    match interrupt_cells {
        Some(2) => {},
        _ => {
            return Err(DriverInitError::DeviceTreeError);
        },
    }
    match reg_regions {
        Some(1) => Ok(()),
        _ => Err(DriverInitError::DeviceTreeError),
    }
}

/// The driver of the ARM control interrupt controller.
pub struct InterruptControllerDriver {
    pub dev_registry: DriverRegistry<InterruptControllerDevice>,
}

impl InterruptControllerDriver {
    pub fn new() -> (d: Self)
        ensures
            d.dev_registry.view() == Map::<Seq<char>, InterruptControllerDevice>::empty(),
    {
        InterruptControllerDriver { dev_registry: DriverRegistry::new() }
    }

    pub fn compatible(&self) -> (c: &'static str)
        ensures
            c@ == "brcm,bcm2836-armctrl-ic"@,
    {
        "brcm,bcm2836-armctrl-ic"
    }
}

/// A translated specifier enables and disables the bit of its number in the enable and
/// disable register of its bank: bank 0 the basic registers, banks 1 and 2 their own.
pub proof fn lemma_xlate_then_switch(bank: u32, number: u32, enable: bool)
    requires
        number <= u32::MAX - HWIRQ_2_RANGE_START,
        xlate_irq(bank, number) is Some,
    ensures
        ({
            let h = xlate_irq(bank, number)->0;
            &&& h < HWIRQ_COUNT
            &&& irq_switch(h, enable).value == 1u32 << number
            &&& irq_switch(h, enable).offset == if bank == 0 {
                if enable { ENABLE_BASIC_IRQS_REG_OFFSET } else { DISABLE_BASIC_IRQS_REG_OFFSET }
            } else if bank == 1 {
                if enable { ENABLE_IRQS_1_REG_OFFSET } else { DISABLE_IRQS_1_REG_OFFSET }
            } else {
                if enable { ENABLE_IRQS_2_REG_OFFSET } else { DISABLE_IRQS_2_REG_OFFSET }
            }
        }),
{
}

/// Enabling and disabling an interrupt write the same bit, each to its own register.
pub proof fn lemma_enable_disable_same_bit(hwirq: u32)
    requires
        hwirq < HWIRQ_COUNT,
    ensures
        irq_switch(hwirq, true).value == irq_switch(hwirq, false).value,
        irq_switch(hwirq, true).offset != irq_switch(hwirq, false).offset,
{
}

} // verus!
