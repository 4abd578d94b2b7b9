//! The Raspberry Pi firmware (system controller) interface.
pub mod bcm2835_firmware;
pub mod property;
pub mod tag;

use vstd::prelude::*;

use crate::once_slot::OnceSlot;

verus! {

/// The framebuffer that the firmware allocated.
#[derive(Clone, Copy, Debug, PartialEq, Eq, Structural)]
pub struct FramebufferInfo {
    pub bus_addr: u32,
    pub size: u32,
    pub pitch: u32,
    pub width: u32,
    pub height: u32,
    pub depth: u32,
}

/// The VideoCore firmware's display and framebuffer operations.
pub trait SystemFirmware {
    /// This firmware may report `preferred` as the display's preferred resolution. A firmware
    /// states here what it does; where it states nothing, any answer may come.
    open spec fn preferred_answer(&self, preferred: Option<(u32, u32)>) -> bool {
        true
    }

    /// This firmware may answer a request for a `width` x `height` framebuffer of `depth` bits
    /// per pixel with `answer`.
    open spec fn framebuffer_answer(
        &self,
        width: u32,
        height: u32,
        depth: u32,
        answer: Result<FramebufferInfo, ()>,
    ) -> bool {
        true
    }

    /// The resolution the attached display prefers, if it reports one.
    fn get_preferred_resolution(&self) -> (p: Option<(u32, u32)>)
        ensures
            self.preferred_answer(p),
    ;

    /// Asks the firmware for a framebuffer of the given geometry.
    fn init_framebuffer(&self, width: u32, height: u32, depth: u32) -> (a: Result<FramebufferInfo, ()>)
        ensures
            self.framebuffer_answer(width, height, depth, a),
    ;
}

/// Registers the system firmware; fails when one is registered already.
pub fn register_rpi_firmware<F>(slot: &mut OnceSlot<F>, fw: F) -> (r: Result<(), ()>)
    ensures
        r is Ok <==> old(slot).spec_get() is None,
        r is Ok ==> final(slot).spec_get() == Some(fw),
        r is Err ==> final(slot).spec_get() == old(slot).spec_get(),
{
    match slot.set(fw) {
        Ok(()) => Ok(()),
        Err(_) => Err(()),
    }
}

/// The registered system firmware, if any.
pub fn get_rpi_firmware<F>(slot: &OnceSlot<F>) -> (f: Option<&F>)
    ensures
        f == (match slot.spec_get() {
            Some(x) => Some(&x),
            None => None,
        }),
{
    slot.get()
}

} // verus!
