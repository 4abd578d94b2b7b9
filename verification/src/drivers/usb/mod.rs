//! USB host support: the protocol core, device and hub enumeration, and the BCM2708 (DWC OTG)
//! host controller logic.
pub mod bcm2708_usb;
pub mod enumeration;
pub mod usb_core;

use vstd::prelude::*;

use crate::once_slot::OnceSlot;

verus! {

/// Registers the system USB host controller; fails when one is registered already.
pub fn register_host_controller<C>(slot: &mut OnceSlot<C>, controller: C) -> (r: Result<(), ()>)
    ensures
        r is Ok <==> old(slot).spec_get() is None,
        r is Ok ==> final(slot).spec_get() == Some(controller),
        r is Err ==> final(slot).spec_get() == old(slot).spec_get(),
{
    match slot.set(controller) {
        Ok(()) => Ok(()),
        Err(_) => Err(()),
    }
}

/// The registered system USB host controller, if any.
pub fn get_host_controller<C>(slot: &OnceSlot<C>) -> (c: Option<&C>)
    ensures
        c == (match slot.spec_get() {
            Some(x) => Some(&x),
            None => None,
        }),
{
    slot.get()
}

} // verus!
