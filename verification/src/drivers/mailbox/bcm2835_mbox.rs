//! The BCM2835 mailbox (`brcm,bcm2835-mbox`): mailbox 0 carries words from the VideoCore,
//! mailbox 1 words to it.
use vstd::prelude::*;

use super::{MailboxError, MailboxResult};
use crate::drivers::DriverRegistry;
use crate::drivers::interrupt_controller::RegisterWrite;

verus! {

pub const MBOX_0_REG_OFFSET: usize = 0x0;
pub const MBOX_1_REG_OFFSET: usize = 0x20;

pub const MBOX_RW_OFFSET: usize = 0x0;
pub const MBOX_PEEK_OFFSET: usize = 0x10;
pub const MBOX_SENDER_OFFSET: usize = 0x14;
pub const MBOX_STATUS_OFFSET: usize = 0x18;
pub const MBOX_CONFIG_OFFSET: usize = 0x1c;

/// The configuration register of mailbox 0.
pub const MBOX_0_CONFIG_REG_OFFSET: usize = MBOX_0_REG_OFFSET + MBOX_CONFIG_OFFSET;
/// The data register of mailbox 1.
pub const MBOX_1_RW_REG_OFFSET: usize = MBOX_1_REG_OFFSET + MBOX_RW_OFFSET;

pub const MBOX_0_CH_8_ARM_VC_TAGS: u32 = 8;

pub const MBOX_STATUS_EMPTY: u32 = 0x4000_0000;
pub const MBOX_STATUS_FULL: u32 = 0x8000_0000;

/// Mailbox 0 holds a word: the status register does not report it empty.
pub fn mbox_0_has_message(status: u32) -> (b: bool)
    ensures
        b == (status & MBOX_STATUS_EMPTY == 0),
{
    (status & MBOX_STATUS_EMPTY) == 0
}

/// A mailbox device: its registers and whether it is enabled.
pub struct MailboxDevice {
    id: String,
    reg_base: usize,
    enabled: bool,
}

impl MailboxDevice {
    pub closed spec fn spec_enabled(&self) -> bool {
        self.enabled
    }

    pub closed spec fn spec_id(&self) -> Seq<char> {
        self.id@
    }

    pub closed spec fn spec_reg_base(&self) -> usize {
        self.reg_base
    }

    /// A disabled mailbox of the node `id` with registers at `reg_base`.
    pub fn new(id: String, reg_base: usize) -> (d: Self)
        ensures
            d.spec_id() == id@,
            d.spec_reg_base() == reg_base,
            !d.spec_enabled(),
    {
        MailboxDevice { id, reg_base, enabled: false }
    }

    /// The configuration write that turns the data-available interrupt of mailbox 0 on.
    pub fn enable_interrupts(&self) -> (w: RegisterWrite)
        ensures
            w == (RegisterWrite { offset: MBOX_0_CONFIG_REG_OFFSET, value: 1 }),
    {
        RegisterWrite { offset: MBOX_0_CONFIG_REG_OFFSET, value: 1 }
    }

    /// The configuration write that turns the interrupts of mailbox 0 off.
    pub fn disable_interrupts(&self) -> (w: RegisterWrite)
        ensures
            w == (RegisterWrite { offset: MBOX_0_CONFIG_REG_OFFSET, value: 0 }),
    {
        RegisterWrite { offset: MBOX_0_CONFIG_REG_OFFSET, value: 0 }
    }

    /// Enables the mailbox; returns the configuration write that enables its interrupt.
    pub fn enable(&mut self) -> (w: RegisterWrite)
        ensures
            final(self).spec_enabled(),
            final(self).spec_id() == old(self).spec_id(),
            final(self).spec_reg_base() == old(self).spec_reg_base(),
            w == (RegisterWrite { offset: MBOX_0_CONFIG_REG_OFFSET, value: 1 }),
    {
        self.enabled = true;
        self.enable_interrupts()
    }

    /// Disables the mailbox; returns the configuration write that disables its interrupt.
    pub fn disable(&mut self) -> (w: RegisterWrite)
        ensures
            !final(self).spec_enabled(),
            final(self).spec_id() == old(self).spec_id(),
            final(self).spec_reg_base() == old(self).spec_reg_base(),
            w == (RegisterWrite { offset: MBOX_0_CONFIG_REG_OFFSET, value: 0 }),
    {
        let w = self.disable_interrupts();
        self.enabled = false;
        w
    }

    /// The write that sends `data`: to the data register of mailbox 1, when the mailbox is
    /// enabled; `MailboxDisabled` otherwise.
    pub fn send(&self, data: u32) -> (r: MailboxResult<RegisterWrite>)
        ensures
            r == (if self.spec_enabled() {
                Ok::<RegisterWrite, MailboxError>(
                    RegisterWrite { offset: MBOX_1_RW_REG_OFFSET, value: data },
                )
            } else {
                Err::<RegisterWrite, MailboxError>(MailboxError::MailboxDisabled)
            }),
    {
        if !self.enabled {
            return Err(MailboxError::MailboxDisabled);
        }
        Ok(RegisterWrite { offset: MBOX_1_RW_REG_OFFSET, value: data })
    }

    /// There is room to send, given the status register `status` of mailbox 1: the mailbox is
    /// enabled and not full.
    pub fn ready(&self, status: u32) -> (b: bool)
        ensures
            b == (self.spec_enabled() && status & MBOX_STATUS_FULL == 0),
    {
        if !self.enabled {
            return false;
        }
        (status & MBOX_STATUS_FULL) == 0
    }
}

/// The driver of the mailbox.
pub struct MailboxDriver {
    pub dev_registry: DriverRegistry<MailboxDevice>,
}

impl MailboxDriver {
    pub fn new() -> (d: Self)
        ensures
            d.dev_registry.view() == Map::<Seq<char>, MailboxDevice>::empty(),
    {
        MailboxDriver { dev_registry: DriverRegistry::new() }
    }

    pub fn compatible(&self) -> (c: &'static str)
        ensures
            c@ == "brcm,bcm2835-mbox"@,
    {
        "brcm,bcm2835-mbox"
    }
}

} // verus!
