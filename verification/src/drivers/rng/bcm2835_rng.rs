//! The BCM2835 hardware random number generator (`brcm,bcm2835-rng`): a FIFO of random 32-bit
//! words whose fill level the status register reports in its top byte.
use vstd::prelude::*;

use crate::drivers::DriverRegistry;
use crate::drivers::interrupt_controller::RegisterWrite;

verus! {

pub const RNG_CTRL_REG_OFFSET: usize = 0x00;
pub const RNG_STATUS_REG_OFFSET: usize = 0x04;
pub const RNG_DATA_REG_OFFSET: usize = 0x08;
pub const RNG_RBGEN_BIT: u32 = 0x1;
pub const UNIT_SIZE: usize = 4;
pub const RNG_FIFO_SIZE: usize = 4;
/// Microseconds to wait for one FIFO word.
pub const RNG_WAIT_PER_UNIT_US: usize = 34;
pub const RNG_WARMUP_COUNT: u32 = 0x40000;
/// The number of waits for data before a blocking read gives up: one second's worth.
pub const RNG_READ_RETRIES: isize = 7352;

/// The number of random bytes in the FIFO, from the status register.
pub fn available_bytes(status: u32) -> (n: usize)
    ensures
        n == (status >> 24u32) * 4,
{
    let units = status >> 24;
    assert(units < 256) by (bit_vector)
        requires
            units == status >> 24u32,
    ;
    units as usize * UNIT_SIZE
}

/// A read keeps waiting for data: none is available yet, the caller wants to wait, and retries
/// remain.
pub fn keep_waiting(available: usize, wait: bool, retries: isize) -> (b: bool)
    ensures
        b == (available == 0 && wait && retries > 0),
{
    !(available > 0 || !wait || retries <= 0)
}

/// What a look at the status register decides for a read into a buffer.
#[derive(Clone, Copy, Debug, PartialEq, Eq, Structural)]
pub enum RngPoll {
    /// Nothing yet: wait one FIFO word's time and look again, with `retries` left.
    Wait { retries: isize },
    /// Copy `bytes` bytes, reading `words` data words.
    Read { bytes: usize, words: usize },
}

/// One look at the status register `status` during a read into a buffer of `buffer_len` bytes,
/// with `retries` waits left: wait (one retry fewer) while nothing is available, the caller
/// waits and retries remain; else copy what is available, at most the buffer, one data word
/// for every four bytes or part of them. A read thus looks at most `retries + 1` times.
pub fn rng_poll_step(retries: isize, status: u32, wait: bool, buffer_len: usize) -> (p: RngPoll)
    ensures
        ({
            let available = (status >> 24u32) * 4;
            let bytes = if available < buffer_len { available } else { buffer_len as int };
            p == if available == 0 && wait && retries > 0 {
                RngPoll::Wait { retries: (retries - 1) as isize }
            } else {
                RngPoll::Read { bytes: bytes as usize, words: ((bytes + 3) / 4) as usize }
            }
        }),
{
    let available = available_bytes(status);
    if keep_waiting(available, wait, retries) {
        return RngPoll::Wait { retries: retries - 1 };
    }
    let bytes = if available < buffer_len {
        available
    } else {
        buffer_len
    };
    RngPoll::Read { bytes, words: bytes / 4 + if bytes % 4 == 0 { 0 } else { 1 } }
}

/// Byte `j` (0 = least significant) of `word`.
pub open spec fn le_byte(word: u32, j: int) -> u8 {
    ((word >> ((8 * j) as u32)) & 0xff) as u8
}

/// The random device.
pub struct RngDevice {
    id: String,
    reg_base: usize,
}

impl RngDevice {
    pub closed spec fn spec_id(&self) -> Seq<char> {
        self.id@
    }

    pub closed spec fn spec_reg_base(&self) -> usize {
        self.reg_base
    }

    pub fn new(id: String, reg_base: usize) -> (d: Self)
        ensures
            d.spec_id() == id@,
            d.spec_reg_base() == reg_base,
    {
        RngDevice { id, reg_base }
    }

    pub fn name(&self) -> (s: &str)
        ensures
            s@ == self.spec_id(),
    {
        self.id.as_str()
    }

    /// The register writes that start the generator, given its control register `ctrl`: where
    /// it is not running yet, the warm-up count and then the enable bit.
    pub fn enable(&self, ctrl: u32) -> (w: Vec<RegisterWrite>)
        ensures
            w@ == (if ctrl & RNG_RBGEN_BIT == 0 {
                seq![
                    RegisterWrite { offset: RNG_STATUS_REG_OFFSET, value: RNG_WARMUP_COUNT },
                    RegisterWrite { offset: RNG_CTRL_REG_OFFSET, value: RNG_RBGEN_BIT },
                ]
            } else {
                Seq::<RegisterWrite>::empty()
            }),
    {
        let mut w: Vec<RegisterWrite> = Vec::new();
        if (ctrl & RNG_RBGEN_BIT) == 0 {
            w.push(RegisterWrite { offset: RNG_STATUS_REG_OFFSET, value: RNG_WARMUP_COUNT });
            w.push(RegisterWrite { offset: RNG_CTRL_REG_OFFSET, value: RNG_RBGEN_BIT });
        }
        w
    }

    /// The register write that stops the generator.
    pub fn disable(&self) -> (w: RegisterWrite)
        ensures
            w == (RegisterWrite { offset: RNG_CTRL_REG_OFFSET, value: 0 }),
    {
        RegisterWrite { offset: RNG_CTRL_REG_OFFSET, value: 0 }
    }

    /// Fills `buffer` with as many random bytes as are available (`available` bytes) and fit,
    /// taking them from the FIFO words `words` (read from the data register one after the other)
    /// least significant byte first. Returns the number of bytes written.
    pub fn read(&self, buffer: &mut [u8], words: &Vec<u32>, available: usize) -> (n: usize)
        requires
            words@.len() * 4 >= if available < old(buffer)@.len() { available as int } else { old(buffer)@.len() as int },
        ensures
            n == (if available < old(buffer)@.len() { available } else { old(buffer)@.len() as usize }),
            final(buffer)@.len() == old(buffer)@.len(),
            forall|k: int| 0 <= k < n ==> #[trigger] final(buffer)@[k] == le_byte(words@[k / 4], k % 4),
            forall|k: int| n <= k < old(buffer)@.len() ==> #[trigger] final(buffer)@[k] == old(buffer)@[k],
    {
        let n = if available < buffer.len() {
            available
        } else {
            buffer.len()
        };
        let mut k: usize = 0;
        while k < n
            invariant
                0 <= k <= n,
                n <= buffer@.len(),
                buffer@.len() == old(buffer)@.len(),
                words@.len() * 4 >= n,
                forall|j: int| 0 <= j < k ==> #[trigger] buffer@[j] == le_byte(words@[j / 4], j % 4),
                forall|j: int| k <= j < buffer@.len() ==> #[trigger] buffer@[j] == old(buffer)@[j],
            decreases n - k,
        {
            let word = words[k / 4];
            let shift = (8 * (k % 4)) as u32;
            let byte = ((word >> shift) & 0xff) as u8;
            buffer[k] = byte;
            k += 1;
        }
        n
    }
}

/// The node names a property the driver does not support: clocks or resets.
pub fn has_unsupported_props(names: &Vec<String>) -> (b: bool)
    ensures
        b == exists|k: int|
            0 <= k < names@.len() && (#[trigger] names@[k]@ == "clocks"@ || names@[k]@ == "clock-names"@
                || names@[k]@ == "resets"@ || names@[k]@ == "reset-names"@),
{
    let clocks = String::from_str("clocks");
    let clock_names = String::from_str("clock-names");
    let resets = String::from_str("resets");
    let reset_names = String::from_str("reset-names");
    let mut k: usize = 0;
    while k < names.len()
        invariant
            0 <= k <= names@.len(),
            clocks@ == "clocks"@,
            clock_names@ == "clock-names"@,
            resets@ == "resets"@,
            reset_names@ == "reset-names"@,
            forall|j: int|
                0 <= j < k ==> !(#[trigger] names@[j]@ == "clocks"@ || names@[j]@ == "clock-names"@
                    || names@[j]@ == "resets"@ || names@[j]@ == "reset-names"@),
        decreases names.len() - k,
    {
        if names[k] == clocks || names[k] == clock_names || names[k] == resets || names[k]
            == reset_names {
            return true;
        }
        k += 1;
    }
    false
}

/// The driver of the random number generator.
pub struct RngDriver {
    pub dev_registry: DriverRegistry<RngDevice>,
}

impl RngDriver {
    pub fn new() -> (d: Self)
        ensures
            d.dev_registry.view() == Map::<Seq<char>, RngDevice>::empty(),
    {
        RngDriver { dev_registry: DriverRegistry::new() }
    }

    pub fn compatible(&self) -> (c: &'static str)
        ensures
            c@ == "brcm,bcm2835-rng"@,
    {
        "brcm,bcm2835-rng"
    }
}

} // verus!
