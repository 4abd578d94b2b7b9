//! Framebuffer displays: the pixel memory of a 32-bpp framebuffer, drawing primitives on it, the
//! BCM2708 firmware framebuffer and a text console.
pub mod bcm2708_fb;
pub mod drawing;
pub mod fb_console;

use vstd::prelude::*;

use crate::once_slot::OnceSlot;

verus! {

/// Width of a console glyph in pixels.
pub const FONT_WIDTH: u32 = 8;
/// Height of a console glyph in pixels (one bitmap byte per row).
pub const FONT_HEIGHT: u32 = 16;

/// The memory of a 32-bpp framebuffer: `height` scanlines of `pitch` bytes, one `u32`
/// (0xAARRGGBB) per pixel. Pixel `(x, y)` is word `y * pitch / 4 + x`; the words of a scanline
/// past `width` are padding.
pub struct FrameBufferMemory {
    width: u32,
    height: u32,
    pitch: u32,
    bus_addr: u32,
    pixels: Vec<u32>,
}

/// `y * stride + x` differs for two distinct pixels of a scanline stride.
pub proof fn lemma_offset_distinct(stride: int, x1: int, y1: int, x2: int, y2: int)
    requires
        0 <= x1 < stride,
        0 <= x2 < stride,
        0 <= y1,
        0 <= y2,
        x1 != x2 || y1 != y2,
    ensures
        y1 * stride + x1 != y2 * stride + x2,
{
    if y1 < y2 {
        assert(y1 * stride + x1 < y2 * stride + x2) by (nonlinear_arith)
            requires
                0 <= x1 < stride,
                0 <= x2,
                y1 < y2,
        ;
    } else if y2 < y1 {
        assert(y2 * stride + x2 < y1 * stride + x1) by (nonlinear_arith)
            requires
                0 <= x2 < stride,
                0 <= x1,
                y2 < y1,
        ;
    }
}

/// A pixel of the first `height` scanlines lies in a buffer of `height * stride` words.
pub proof fn lemma_offset_bound(stride: int, height: int, x: int, y: int)
    requires
        0 <= x < stride,
        0 <= y < height,
    ensures
        0 <= y * stride + x < height * stride,
{
    assert(0 <= y * stride + x < height * stride) by (nonlinear_arith)
        requires
            0 <= x < stride,
            0 <= y < height,
    ;
}

impl View for FrameBufferMemory {
    type V = Seq<u32>;

    /// The words of the buffer, scanline after scanline.
    closed spec fn view(&self) -> Seq<u32> {
        self.pixels@
    }
}

impl FrameBufferMemory {
    pub closed spec fn spec_width(&self) -> u32 {
        self.width
    }

    pub closed spec fn spec_height(&self) -> u32 {
        self.height
    }

    pub closed spec fn spec_pitch(&self) -> u32 {
        self.pitch
    }

    pub closed spec fn spec_bus_addr(&self) -> u32 {
        self.bus_addr
    }

    /// Words per scanline.
    pub open spec fn stride(&self) -> int {
        (self.spec_pitch() / 4) as int
    }

    /// The word index of pixel `(x, y)`.
    pub open spec fn offset(&self, x: int, y: int) -> int {
        y * self.stride() + x
    }

    /// The colour of pixel `(x, y)` (of any word `x` of scanline `y`).
    pub open spec fn pixel(&self, x: int, y: int) -> u32 {
        self@[self.offset(x, y)]
    }

    /// A scanline holds at least `width` pixels and the buffer holds `height` scanlines.
    pub open spec fn wf(&self) -> bool {
        &&& self.spec_width() * 4 <= self.spec_pitch()
        &&& self@.len() == self.spec_height() * self.stride()
        &&& self@.len() <= usize::MAX
    }

    /// The geometry (width, height, pitch, bus address) of two buffers is the same.
    pub open spec fn same_geometry(&self, other: &Self) -> bool {
        &&& self.spec_width() == other.spec_width()
        &&& self.spec_height() == other.spec_height()
        &&& self.spec_pitch() == other.spec_pitch()
        &&& self.spec_bus_addr() == other.spec_bus_addr()
    }

    /// A black (all-zero) framebuffer of the given geometry, or `None` where a scanline of
    /// `pitch` bytes cannot hold `width` pixels or the buffer does not fit in memory.
    pub fn new(width: u32, height: u32, pitch: u32, bus_addr: u32) -> (fb: Option<Self>)
        ensures
            fb is Some <==> (width * 4 <= pitch && height * (pitch / 4) <= usize::MAX),
            fb matches Some(f) ==> {
                &&& f.wf()
                &&& f.spec_width() == width
                &&& f.spec_height() == height
                &&& f.spec_pitch() == pitch
                &&& f.spec_bus_addr() == bus_addr
                &&& forall|i: int| 0 <= i < f@.len() ==> #[trigger] f@[i] == 0
            },
    {
        if (width as u64) * 4 > pitch as u64 {
            return None;
        }
        let stride = (pitch / 4) as u64;
        assert((height as u64) * stride <= 0xffff_ffff * 0xffff_ffff) by (nonlinear_arith)
            requires
                height <= 0xffff_ffff,
                stride <= 0xffff_ffff,
        ;
        let total = (height as u64) * stride;
        if total > usize::MAX as u64 {
            return None;
        }
        let len = total as usize;
        let mut pixels: Vec<u32> = Vec::new();
        let mut i: usize = 0;
        while i < len
            invariant
                0 <= i <= len,
                pixels@.len() == i,
                forall|k: int| 0 <= k < i ==> #[trigger] pixels@[k] == 0,
            decreases len - i,
        {
            pixels.push(0);
            i += 1;
        }
        Some(FrameBufferMemory { width, height, pitch, bus_addr, pixels })
    }

    pub fn width(&self) -> (w: u32)
        ensures
            w == self.spec_width(),
    {
        self.width
    }

    pub fn height(&self) -> (h: u32)
        ensures
            h == self.spec_height(),
    {
        self.height
    }

    pub fn pitch(&self) -> (p: u32)
        ensures
            p == self.spec_pitch(),
    {
        self.pitch
    }

    pub fn bus_addr(&self) -> (a: u32)
        ensures
            a == self.spec_bus_addr(),
    {
        self.bus_addr
    }

    /// The word at `offset`.
    pub fn read_word(&self, offset: usize) -> (c: u32)
        requires
            offset < self@.len(),
        ensures
            c == self@[offset as int],
    {
        self.pixels[offset]
    }

    /// Stores `color` in the word at `offset`.
    pub fn write_word(&mut self, offset: usize, color: u32)
        requires
            offset < old(self)@.len(),
        ensures
            final(self)@ == old(self)@.update(offset as int, color),
            final(self).same_geometry(old(self)),
    {
        self.pixels.set(offset, color);
    }
}

/// A framebuffer display device.
pub trait FrameBufferDevice {
    /// The horizontal resolution in pixels.
    fn width(&self) -> u32;

    /// The vertical resolution in pixels.
    fn height(&self) -> u32;

    /// The size of a scanline in bytes.
    fn pitch(&self) -> u32;

    /// The bits per pixel.
    fn depth_bpp(&self) -> u32;

    /// Fills the whole framebuffer with a 32-bit ARGB colour.
    fn fill(&mut self, color: u32);

    /// Writes the pixel `(x, y)`; coordinates outside the framebuffer are ignored.
    fn write_pixel(&mut self, x: u32, y: u32, color: u32);
}

/// The registered framebuffer, if any.
pub fn get_framebuffer<F>(slot: &OnceSlot<F>) -> (f: Option<&F>)
    ensures
        f == (match slot.spec_get() {
            Some(x) => Some(&x),
            None => None,
        }),
{
    slot.get()
}

/// Registers `fb` as the system framebuffer; fails when one is registered already.
pub fn register_framebuffer<F>(slot: &mut OnceSlot<F>, fb: F) -> (r: Result<(), ()>)
    ensures
        r is Ok <==> old(slot).spec_get() is None,
        r is Ok ==> final(slot).spec_get() == Some(fb),
        r is Err ==> final(slot).spec_get() == old(slot).spec_get(),
{
    match slot.set(fb) {
        Ok(()) => Ok(()),
        Err(_) => Err(()),
    }
}

} // verus!
