//! DMA engines: two-dimensional memory copies done by a DMA controller.
pub mod bcm2835_dma;

use vstd::prelude::*;

use crate::once_slot::OnceSlot;

verus! {

/// Why a DMA copy did not happen.
#[derive(Debug, Clone, Copy, PartialEq, Eq, Structural)]
pub enum DmaError {
    Unavailable,
    Busy,
    InvalidTransfer,
    Timeout,
    Fault,
}

/// A two-dimensional copy: `row_count` rows of `row_len_bytes` bytes, the source and destination
/// rows `src_stride` and `dst_stride` bytes apart past the end of a row.
#[derive(Debug, Clone, Copy, PartialEq, Eq, Structural)]
pub struct Dma2DTransfer {
    pub src_bus_addr: u32,
    pub dst_bus_addr: u32,
    pub row_len_bytes: u32,
    pub row_count: u32,
    pub src_stride: u32,
    pub dst_stride: u32,
}

/// A DMA engine that copies memory regions.
pub trait DmaEngine {
    /// This engine may end `transfer` with `failure` (`None` for a completed copy). An engine
    /// states here what it does; where it states nothing, any outcome may come.
    open spec fn copy_outcome(&self, transfer: Dma2DTransfer, failure: Option<DmaError>) -> bool {
        true
    }

    /// Performs `transfer` and waits for it to finish.
    fn copy_2d(&self, transfer: Dma2DTransfer) -> (r: Result<(), DmaError>)
        ensures
            self.copy_outcome(
                transfer,
                match r {
                    Ok(_) => None,
                    Err(e) => Some(e),
                },
            ),
    ;
}

/// Registers the system DMA engine; fails when one is registered already.
pub fn register_dma_engine<E>(slot: &mut OnceSlot<E>, engine: E) -> (r: Result<(), ()>)
    ensures
        r is Ok <==> old(slot).spec_get() is None,
        r is Ok ==> final(slot).spec_get() == Some(engine),
        r is Err ==> final(slot).spec_get() == old(slot).spec_get(),
{
    match slot.set(engine) {
        Ok(()) => Ok(()),
        Err(_) => Err(()),
    }
}

/// The registered system DMA engine, if any.
pub fn get_dma_engine<E>(slot: &OnceSlot<E>) -> (e: Option<&E>)
    ensures
        e == (match slot.spec_get() {
            Some(x) => Some(&x),
            None => None,
        }),
{
    slot.get()
}

} // verus!
