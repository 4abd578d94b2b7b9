//! The BCM2835 mini UART (`brcm,bcm2835-aux-uart`) as the system console.
use vstd::prelude::*;

use crate::drivers::{DriverInitError, DriverRegistry};

verus! {

pub const AUX_MU_IO_REG_OFFSET: usize = 0x0;
pub const AUX_MU_IER_REG_OFFSET: usize = 0x4;
pub const AUX_MU_IIR_REG_OFFSET: usize = 0x8;
pub const AUX_MU_LCR_REG_OFFSET: usize = 0xC;
pub const AUX_MU_MCR_REG_OFFSET: usize = 0x10;
pub const AUX_MU_LSR_REG_OFFSET: usize = 0x14;
pub const AUX_MU_MSR_REG_OFFSET: usize = 0x18;
pub const AUX_MU_SCRATCH_OFFSET: usize = 0x1C;
pub const AUX_MU_CNTL_REG_OFFSET: usize = 0x20;
pub const AUX_MU_STAT_REG_OFFSET: usize = 0x24;
pub const AUX_MU_BAUD_REG_OFFSET: usize = 0x28;
/// Line status: the transmitter can take a byte.
pub const TX_EMPTY: u32 = 0x20;

/// The bytes a terminal needs for `s`: every line feed preceded by a carriage return.
pub open spec fn crlf(s: Seq<u8>) -> Seq<u8>
    decreases s.len(),
{
    if s.len() == 0 {
        Seq::empty()
    } else {
        crlf(s.drop_last()) + if s.last() == 0x0A {
            seq![0x0Du8, 0x0Au8]
        } else {
            seq![s.last()]
        }
    }
}

/// The bytes to transmit for `s`: every line feed preceded by a carriage return.
pub fn console_bytes(s: &[u8]) -> (out: Vec<u8>)
    requires
        2 * s@.len() <= usize::MAX,
    ensures
        out@ == crlf(s@),
{
    let mut out: Vec<u8> = Vec::new();
    let mut i: usize = 0;
    while i < s.len()
        invariant
            0 <= i <= s@.len(),
            out@ == crlf(s@.take(i as int)),
        decreases s@.len() - i,
    {
        assert(s@.take(i + 1).drop_last() =~= s@.take(i as int));
        if s[i] == 0x0A {
            out.push(0x0D);
        }
        out.push(s[i]);
        i += 1;
        proof {
            let t = s@.take(i as int);
            assert(t.last() == s@[i - 1]);
        }
    }
    assert(s@.take(i as int) =~= s@);
    out
}

/// The transmitter takes a byte, by the line status register `lsr`.
pub fn tx_ready(lsr: u32) -> (b: bool)
    ensures
        b == (lsr & TX_EMPTY != 0),
{
    (lsr & TX_EMPTY) != 0
}

/// The mini UART.
pub struct MiniUartDevice {
    id: String,
    reg_base: usize,
}

impl MiniUartDevice {
    pub closed spec fn spec_id(&self) -> Seq<char> {
        self.id@
    }

    pub closed spec fn spec_reg_base(&self) -> usize {
        self.reg_base
    }

    pub fn new(id: String, reg_base: usize) -> (d: Self)
        ensures
            d.spec_id() == id@,
            d.spec_reg_base() == reg_base,
    {
        MiniUartDevice { id, reg_base }
    }

    pub fn id(&self) -> (s: &str)
        ensures
            s@ == self.spec_id(),
    {
        self.id.as_str()
    }
}

/// The node has one register region.
pub fn check_reg_count(regions: Option<usize>) -> (r: Result<(), DriverInitError>)
    ensures
        r is Ok <==> regions == Some(1usize),
        r is Err ==> r == Err::<(), DriverInitError>(DriverInitError::DeviceTreeError),
{
    match regions {
        Some(1) => Ok(()),
        _ => Err(DriverInitError::DeviceTreeError),
    }
}

/// The driver of the mini UART, with the register base of the early console.
pub struct MiniUartDriver {
    pub early_reg_base: usize,
    pub dev_registry: DriverRegistry<MiniUartDevice>,
}

impl MiniUartDriver {
    /// A driver without early console.
    pub fn new() -> (d: Self)
        ensures
            d.early_reg_base == 0,
            d.dev_registry.view() == Map::<Seq<char>, MiniUartDevice>::empty(),
    {
        MiniUartDriver { early_reg_base: 0, dev_registry: DriverRegistry::new() }
    }

    pub fn compatible(&self) -> (c: &'static str)
        ensures
            c@ == "brcm,bcm2835-aux-uart"@,
    {
        "brcm,bcm2835-aux-uart"
    }

    /// Takes `addr` as the early console's register base, unless one was set before; returns
    /// whether it was taken.
    pub fn early_init(&mut self, addr: usize) -> (taken: bool)
        ensures
            taken == (old(self).early_reg_base == 0),
            final(self).early_reg_base == (if taken { addr } else { old(self).early_reg_base }),
            final(self).dev_registry == old(self).dev_registry,
    {
        if self.early_reg_base == 0 {
            self.early_reg_base = addr;
            true
        } else {
            false
        }
    }

    pub fn early_reg_base(&self) -> (a: usize)
        ensures
            a == self.early_reg_base,
    {
        self.early_reg_base
    }
}

/// The number of line feeds in `s`.
pub open spec fn line_feeds(s: Seq<u8>) -> nat
    decreases s.len(),
{
    if s.len() == 0 {
        0
    } else {
        line_feeds(s.drop_last()) + if s.last() == 0x0A { 1nat } else { 0nat }
    }
}

/// The console output is the input with one carriage return added per line feed, and every
/// line feed in it directly follows a carriage return.
pub proof fn lemma_crlf_shape(s: Seq<u8>)
    ensures
        crlf(s).len() == s.len() + line_feeds(s),
        forall|i: int| 0 <= i < crlf(s).len() && #[trigger] crlf(s)[i] == 0x0A ==> i > 0 && crlf(s)[i - 1]
            == 0x0D,
    decreases s.len(),
{
    if s.len() > 0 {
        lemma_crlf_shape(s.drop_last());
        let prev = crlf(s.drop_last());
        let tail = if s.last() == 0x0A {
            seq![0x0Du8, 0x0Au8]
        } else {
            seq![s.last()]
        };
        assert(crlf(s) == prev + tail);
        assert forall|i: int| 0 <= i < crlf(s).len() && #[trigger] crlf(s)[i] == 0x0A implies i > 0
            && crlf(s)[i - 1] == 0x0D by {
            if i < prev.len() {
                assert(crlf(s)[i] == prev[i]);
                assert(prev[i] == 0x0A);
                assert(crlf(s)[i - 1] == prev[i - 1]);
            } else {
                assert(s.last() == 0x0A);
                assert(i == prev.len() + 1);
            }
        }
    }
}

} // verus!
