//! Task contexts.
use vstd::prelude::*;

verus! {

/// The saved state of a task: its callee-saved registers x19 to x30, its stack pointer and its
/// interrupt mask (DAIF).
pub struct ArchContext {
    pub x19_x30: [usize; 12],
    pub stack_pointer: usize,
    pub daif: usize,
}

impl ArchContext {
    /// The context of a new task on the stack that ends at `stack_end`: it starts at
    /// `trampoline` (in x30) with `entry` in x19 and `cleanup` in x20, on a 16-byte aligned stack
    /// pointer at least 16 bytes below the end of the stack, with interrupts unmasked.
    pub fn new(stack_end: usize, entry: usize, cleanup: usize, trampoline: usize) -> (c: Self)
        requires
            stack_end >= 16,
        ensures
            c.x19_x30@ == seq![entry, cleanup, 0, 0, 0, 0, 0, 0, 0, 0, 0, trampoline],
            c.stack_pointer == (stack_end - 16) as usize & !0xFusize,
            c.stack_pointer % 16 == 0,
            stack_end - 31 <= c.stack_pointer <= stack_end - 16,
            c.daif == 0,
    {
        let mut x19_x30 = [0usize; 12];
        x19_x30[0] = entry;
        x19_x30[1] = cleanup;
        x19_x30[11] = trampoline;
        let top = stack_end - 16;
        let sp = top & !0xFusize;
        assert(sp % 16 == 0 && sp <= top && top - sp <= 15) by (bit_vector)
            requires
                sp == top & !0xFusize,
        ;
        assert(x19_x30@ =~= seq![entry, cleanup, 0, 0, 0, 0, 0, 0, 0, 0, 0, trampoline]);
        ArchContext { x19_x30, stack_pointer: sp, daif: 0 }
    }
}

} // verus!
