use lib::drivers::interrupt_controller::bcm2836_armctrl_ic as armctrl;
use lib::drivers::interrupt_controller::bcm2836_l1_intc as l1;
use lib::drivers::interrupt_controller::{update_reg, IrqError, RegisterUpdate, RegisterWrite};
use lib::drivers::DriverInitError;

#[test]
fn update_reg_sets_and_clears() {
    assert_eq!(update_reg(0b1000, 1, true), 0b1010);
    assert_eq!(update_reg(0b1010, 3, false), 0b0010);
    assert_eq!(update_reg(update_reg(0, 31, true), 31, false), 0);
}

#[test]
fn armctrl_enable_disable_registers() {
    let dev = armctrl::InterruptControllerDevice::new("/soc/ic".to_string(), 0x3f00_b200);
    assert_eq!(dev.path(), "/soc/ic");
    assert_eq!(dev.enable(3), RegisterWrite { offset: 0x18, value: 1 << 3 });
    assert_eq!(dev.enable(8), RegisterWrite { offset: 0x10, value: 1 });
    assert_eq!(dev.enable(39), RegisterWrite { offset: 0x10, value: 1 << 31 });
    assert_eq!(dev.enable(40), RegisterWrite { offset: 0x14, value: 1 });
    assert_eq!(dev.disable(71), RegisterWrite { offset: 0x20, value: 1 << 31 });
    assert_eq!(dev.disable(0), RegisterWrite { offset: 0x24, value: 1 });
    assert_eq!(dev.disable(9), RegisterWrite { offset: 0x1C, value: 2 });
    let setup = dev.global_setup();
    assert_eq!(setup[0], RegisterWrite { offset: 0xC, value: 0 });
    assert_eq!(setup.len(), 4);
}

#[test]
fn armctrl_pending_decode() {
    let dev = armctrl::InterruptControllerDevice::new("/ic".to_string(), 0);
    assert_eq!(dev.pending_hwirq(0, 0, 0), None);
    assert_eq!(dev.pending_hwirq(0b100, 0, 0), Some(2));
    assert_eq!(dev.pending_hwirq(1 << 8, 1 << 29, 0), Some(37));
    assert_eq!(dev.pending_hwirq(1 << 8, 0, 0), None);
    assert_eq!(dev.pending_hwirq(1 << 9, 0, 1 << 17), Some(57));
    assert_eq!(dev.pending_hwirq(1 << 9, 0, 0), None);
    assert_eq!(dev.pending_hwirq(1 << 10, 0, 0), Some(15));
    assert_eq!(dev.pending_hwirq(1 << 11, 0, 0), Some(17));
    assert_eq!(dev.pending_hwirq(1 << 12, 0, 0), Some(18));
    assert_eq!(dev.pending_hwirq(1 << 13, 0, 0), Some(26));
    assert_eq!(dev.pending_hwirq(1 << 14, 0, 0), Some(27));
    assert_eq!(dev.pending_hwirq(1 << 15, 0, 0), Some(61));
    assert_eq!(dev.pending_hwirq(1 << 19, 0, 0), Some(65));
    assert_eq!(dev.pending_hwirq(1 << 20, 0, 0), Some(102));
}

#[test]
fn armctrl_xlate() {
    let mut dev = armctrl::InterruptControllerDevice::new("/ic".to_string(), 0);
    assert_eq!(dev.xlate(&vec![0, 7]), Ok(7));
    assert_eq!(dev.xlate(&vec![0, 8]), Err(IrqError::TranslationFailed));
    assert_eq!(dev.xlate(&vec![1, 31]), Ok(39));
    assert_eq!(dev.xlate(&vec![1, 32]), Err(IrqError::TranslationFailed));
    assert_eq!(dev.xlate(&vec![2, 0]), Ok(40));
    assert_eq!(dev.xlate(&vec![3, 0]), Err(IrqError::TranslationFailed));
    assert_eq!(dev.xlate(&vec![1]), Err(IrqError::TranslationFailed));
    assert_eq!(dev.xlate(&vec![0, u32::MAX]), Err(IrqError::TranslationFailed));
    assert_eq!(dev.xlate(&vec![3, u32::MAX]), Err(IrqError::TranslationFailed));
    assert_eq!(dev.set_virq_base(100), Ok(()));
    assert_eq!(dev.set_virq_base(200), Err(IrqError::InvalidVirq));
    assert_eq!(armctrl::check_node(true, Some(2), Some(1)), Ok(()));
    assert_eq!(armctrl::check_node(false, Some(2), Some(1)), Err(DriverInitError::DeviceTreeError));
    assert_eq!(armctrl::check_node(true, Some(3), Some(1)), Err(DriverInitError::DeviceTreeError));
    assert_eq!(armctrl::check_node(true, Some(2), Some(2)), Err(DriverInitError::DeviceTreeError));
    assert_eq!(armctrl::InterruptControllerDriver::new().compatible(), "brcm,bcm2836-armctrl-ic");
}

#[test]
fn l1_enable_disable() {
    let dev = l1::InterruptControllerDevice::new("/soc/local".to_string(), 0x4000_0000);
    assert_eq!(dev.id(), "/soc/local");
    assert_eq!(dev.enable(l1::HWIRQ_GPU, 0), l1::IrqSwitch::Nothing);
    assert_eq!(dev.enable(1, 2), l1::IrqSwitch::Update(RegisterUpdate { offset: 0x48, bit: 1, set: true }));
    assert_eq!(dev.disable(5, 1), l1::IrqSwitch::Update(RegisterUpdate { offset: 0x54, bit: 1, set: false }));
    assert_eq!(dev.enable(9, 3), l1::IrqSwitch::Write(RegisterWrite { offset: 0x10, value: 1 << 3 }));
    assert_eq!(dev.disable(9, 3), l1::IrqSwitch::Write(RegisterWrite { offset: 0x14, value: 1 << 3 }));
    assert_eq!(dev.enable(10, 0), l1::IrqSwitch::Update(RegisterUpdate { offset: 0x30, bit: 20, set: true }));
    assert_eq!(dev.disable(11, 0), l1::IrqSwitch::Update(RegisterUpdate { offset: 0x34, bit: 29, set: false }));
}

#[test]
fn l1_pending_xlate_and_setup() {
    let dev = l1::InterruptControllerDevice::new("/l".to_string(), 0);
    assert_eq!(dev.pending_hwirq(0), None);
    assert_eq!(dev.pending_hwirq(0b1000_1000), Some(3));
    assert_eq!(dev.core_irq_source_offset(2), 0x68);
    assert_eq!(dev.xlate(&vec![11]), Ok(11));
    assert_eq!(dev.xlate(&vec![12]), Err(IrqError::TranslationFailed));
    assert_eq!(dev.xlate(&vec![]), Err(IrqError::TranslationFailed));
    let (writes, updates) = dev.global_setup();
    assert_eq!(writes.len(), 3);
    assert_eq!(updates, vec![
        RegisterUpdate { offset: 0x30, bit: 20, set: false },
        RegisterUpdate { offset: 0x34, bit: 29, set: false },
    ]);
    assert_eq!(dev.local_setup(1), vec![
        RegisterWrite { offset: 0x44, value: 0 },
        RegisterWrite { offset: 0x54, value: 0 },
    ]);
    assert_eq!(l1::InterruptControllerDriver::new().compatible(), "brcm,bcm2836-l1-intc");
}
