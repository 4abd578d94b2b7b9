//! Interrupt controllers: which register an enable or disable touches, how pending interrupts
//! are decoded, and how device tree interrupt specifiers translate to hardware interrupts.
pub mod bcm2836_armctrl_ic;
pub mod bcm2836_l1_intc;

use vstd::prelude::*;

verus! {

/// Why an interrupt could not be set up.
#[derive(Debug, Clone, Copy, PartialEq, Eq, Structural)]
pub enum IrqError {
    InvalidVirq,
    TranslationFailed,
}

pub type IrqResult<T> = Result<T, IrqError>;

/// A write of `value` to the register at `offset` from the controller base.
#[derive(Debug, Clone, Copy, PartialEq, Eq, Structural)]
pub struct RegisterWrite {
    pub offset: usize,
    pub value: u32,
}

/// A read-modify-write of the register at `offset`: bit `bit` set (`set`) or cleared.
#[derive(Debug, Clone, Copy, PartialEq, Eq, Structural)]
pub struct RegisterUpdate {
    pub offset: usize,
    pub bit: u32,
    pub set: bool,
}

/// `value` with bit `bit` set or cleared.
pub open spec fn with_bit(value: u32, bit: u32, set: bool) -> u32 {
    if set {
        value | (1u32 << bit)
    } else {
        value & !(1u32 << bit)
    }
}

/// The new value of a register that held `value`, after `update_reg`-style modification.
pub fn update_reg(value: u32, bit: u32, enable: bool) -> (v: u32)
    requires
        bit < 32,
    ensures
        v == with_bit(value, bit, enable),
{
    if enable {
        value | (1u32 << bit)
    } else {
        value & !(1u32 << bit)
    }
}

/// Setting and then clearing a bit (or the other way round) leaves the bit as the last write
/// made it and every other bit as it was.
pub proof fn lemma_update_reg_last_wins(value: u32, bit: u32, first: bool, second: bool)
    requires
        bit < 32,
    ensures
        with_bit(with_bit(value, bit, first), bit, second) == with_bit(value, bit, second),
{
    let m = 1u32 << bit;
    assert((value | m) | m == value | m) by (bit_vector);
    assert((value & !m) | m == value | m) by (bit_vector);
    assert((value | m) & !m == value & !m) by (bit_vector);
    assert((value & !m) & !m == value & !m) by (bit_vector);
}

} // verus!
