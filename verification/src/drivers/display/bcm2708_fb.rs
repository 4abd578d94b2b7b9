//! The framebuffer that the Raspberry Pi firmware allocates (`brcm,bcm2708-fb`).
use vstd::prelude::*;

use super::{FrameBufferMemory, lemma_offset_bound, lemma_offset_distinct};
use crate::drivers::{DriverInitError, DriverRegistry};
use crate::drivers::syscon::{FramebufferInfo, SystemFirmware};

verus! {

/// Strips the VideoCore bus alias bits from a firmware-reported framebuffer address.
///
/// On the Pi 3 the VideoCore returns addresses in the `0xC000_0000` L2-cached alias range; the
/// ARM sees the memory at the address without the two top bits.
pub fn strip_vc_bus_alias(bus_addr: u32) -> (a: usize)
    ensures
        a == bus_addr & 0x3FFF_FFFF,
{
    (bus_addr & 0x3FFF_FFFF) as usize
}

/// The firmware framebuffer is usable: 32 bits per pixel, a scanline holds the width, and the
/// scanlines fit in the allocation.
pub open spec fn framebuffer_usable(info: FramebufferInfo) -> bool {
    &&& info.depth == 32
    &&& info.width * 4 <= info.pitch
    &&& info.height * info.pitch <= info.size
}

/// Checks the geometry that the firmware reported.
pub fn check_framebuffer_info(info: &FramebufferInfo) -> (r: Result<(), DriverInitError>)
    ensures
        r is Ok <==> framebuffer_usable(*info),
        r is Err ==> r == Err::<(), DriverInitError>(DriverInitError::DeviceFailed),
{
    if info.depth != 32 {
        return Err(DriverInitError::DeviceFailed);
    }
    assert((info.height as u64) * (info.pitch as u64) <= 0xffff_ffff * 0xffff_ffff) by (nonlinear_arith)
        requires
            info.height <= 0xffff_ffff,
            info.pitch <= 0xffff_ffff,
    ;
    if (info.width as u64) * 4 > info.pitch as u64 || (info.height as u64) * (info.pitch as u64)
        > info.size as u64 {
        return Err(DriverInitError::DeviceFailed);
    }
    Ok(())
}

/// The resolution asked for when the display reports none.
pub const DEFAULT_WIDTH: u32 = 1920;
pub const DEFAULT_HEIGHT: u32 = 1080;

/// The resolution to ask the firmware for: the display's preferred one, else 1920x1080.
pub open spec fn spec_requested_resolution(preferred: Option<(u32, u32)>) -> (u32, u32) {
    match preferred {
        Some(p) => p,
        None => (DEFAULT_WIDTH, DEFAULT_HEIGHT),
    }
}

pub fn requested_resolution(preferred: Option<(u32, u32)>) -> (r: (u32, u32))
    ensures
        r == spec_requested_resolution(preferred),
{
    match preferred {
        Some(p) => p,
        None => (DEFAULT_WIDTH, DEFAULT_HEIGHT),
    }
}

/// What a framebuffer request comes to once the firmware answered `answer`: `DeviceFailed` where
/// the firmware refused or reported an unusable geometry, else the ARM physical address of the
/// framebuffer (the bus alias stripped) and its geometry.
pub open spec fn framebuffer_outcome(answer: Result<FramebufferInfo, ()>) -> Result<
    (usize, FramebufferInfo),
    DriverInitError,
> {
    match answer {
        Err(_) => Err(DriverInitError::DeviceFailed),
        Ok(info) => if framebuffer_usable(info) {
            Ok(((info.bus_addr & 0x3FFF_FFFF) as usize, info))
        } else {
            Err(DriverInitError::DeviceFailed)
        },
    }
}

/// Checks the firmware's answer to a framebuffer request (see [`framebuffer_outcome`]).
pub fn accept_framebuffer(answer: Result<FramebufferInfo, ()>) -> (r: Result<
    (usize, FramebufferInfo),
    DriverInitError,
>)
    ensures
        r == framebuffer_outcome(answer),
{
    let info = match answer {
        Ok(info) => info,
        Err(()) => {
            return Err(DriverInitError::DeviceFailed);
        },
    };
    check_framebuffer_info(&info)?;
    let phys_addr = strip_vc_bus_alias(info.bus_addr);
    Ok((phys_addr, info))
}

/// Asks the firmware for a 32-bpp framebuffer at the display's preferred resolution (1920x1080
/// when it reports none) and checks what came back (see [`accept_framebuffer`]). On success
/// returns the ARM physical address of the framebuffer and its geometry.
pub fn request_framebuffer<F: SystemFirmware>(firmware: &F) -> (r: Result<
    (usize, FramebufferInfo),
    DriverInitError,
>)
    ensures
        exists|preferred: Option<(u32, u32)>, answer: Result<FramebufferInfo, ()>|
            {
                &&& firmware.preferred_answer(preferred)
                &&& #[trigger] firmware.framebuffer_answer(
                    spec_requested_resolution(preferred).0,
                    spec_requested_resolution(preferred).1,
                    32,
                    answer,
                )
                &&& r == framebuffer_outcome(answer)
            },
        r matches Ok((phys, info)) ==> framebuffer_usable(info) && phys == info.bus_addr
            & 0x3FFF_FFFF,
        r matches Err(e) ==> e == DriverInitError::DeviceFailed,
{
    let preferred = firmware.get_preferred_resolution();
    let (width, height) = requested_resolution(preferred);
    let answer = firmware.init_framebuffer(width, height, 32);
    let r = accept_framebuffer(answer);
    assert(firmware.framebuffer_answer(
        spec_requested_resolution(preferred).0,
        spec_requested_resolution(preferred).1,
        32,
        answer,
    ));
    r
}

/// The firmware framebuffer: its mapped memory and its depth.
pub struct Bcm2708Fb {
    id: String,
    fb: FrameBufferMemory,
    depth: u32,
}

impl Bcm2708Fb {
    pub closed spec fn spec_memory(&self) -> FrameBufferMemory {
        self.fb
    }

    pub closed spec fn spec_depth(&self) -> u32 {
        self.depth
    }

    pub closed spec fn spec_id(&self) -> Seq<char> {
        self.id@
    }

    /// The framebuffer `id` whose memory is `fb`, of the geometry the firmware reported.
    pub fn new(id: String, fb: FrameBufferMemory, info: &FramebufferInfo) -> (d: Self)
        requires
            fb.spec_width() == info.width,
            fb.spec_height() == info.height,
            fb.spec_pitch() == info.pitch,
        ensures
            d.spec_memory() == fb,
            d.spec_depth() == info.depth,
            d.spec_id() == id@,
    {
        Bcm2708Fb { id, fb, depth: info.depth }
    }

    pub fn id(&self) -> (s: &str)
        ensures
            s@ == self.spec_id(),
    {
        self.id.as_str()
    }

    pub fn width(&self) -> (w: u32)
        ensures
            w == self.spec_memory().spec_width(),
    {
        self.fb.width()
    }

    pub fn height(&self) -> (h: u32)
        ensures
            h == self.spec_memory().spec_height(),
    {
        self.fb.height()
    }

    pub fn pitch(&self) -> (p: u32)
        ensures
            p == self.spec_memory().spec_pitch(),
    {
        self.fb.pitch()
    }

    /// The framebuffer memory.
    pub fn memory(&self) -> (m: &FrameBufferMemory)
        ensures
            *m == self.spec_memory(),
    {
        &self.fb
    }

    pub fn depth_bpp(&self) -> (d: u32)
        ensures
            d == self.spec_depth(),
    {
        self.depth
    }

    /// Paints every visible pixel `color`; the padding past `width` is left alone.
    pub fn fill(&mut self, color: u32)
        requires
            old(self).spec_memory().wf(),
        ensures
            final(self).spec_memory().wf(),
            final(self).spec_memory().same_geometry(&old(self).spec_memory()),
            final(self).spec_depth() == old(self).spec_depth(),
            final(self).spec_id() == old(self).spec_id(),
            forall|px: int, py: int|
                0 <= px < old(self).spec_memory().stride() && 0 <= py < old(self).spec_memory().spec_height()
                    ==> #[trigger] final(self).spec_memory().pixel(px, py) == if px < old(self).spec_memory().spec_width() {
                    color
                } else {
                    old(self).spec_memory().pixel(px, py)
                },
    {
        let ghost old_fb = self.fb;
        let ghost s = old_fb.stride();
        let width = self.fb.width();
        let height = self.fb.height();
        let stride = (self.fb.pitch() / 4) as usize;
        let mut y: u32 = 0;
        while y < height
            invariant
                self.fb.wf(),
                self.depth == old(self).depth,
                self.id == old(self).id,
                self.fb.same_geometry(&old_fb),
                self.fb@.len() == old_fb@.len(),
                old_fb.wf(),
                s == old_fb.stride(),
                stride == s,
                width == old_fb.spec_width(),
                height == old_fb.spec_height(),
                0 <= y <= height,
                forall|px: int, py: int|
                    0 <= px < s && 0 <= py < height ==> #[trigger] self.fb.pixel(px, py) == if py < y
                        && px < width {
                        color
                    } else {
                        old_fb.pixel(px, py)
                    },
            decreases height - y,
        {
            let mut x: u32 = 0;
            while x < width
                invariant
                    self.fb.wf(),
                    self.depth == old(self).depth,
                    self.id == old(self).id,
                    self.fb.same_geometry(&old_fb),
                    self.fb@.len() == old_fb@.len(),
                    old_fb.wf(),
                    s == old_fb.stride(),
                    stride == s,
                    width == old_fb.spec_width(),
                    height == old_fb.spec_height(),
                    0 <= y < height,
                    0 <= x <= width,
                    forall|px: int, py: int|
                        0 <= px < s && 0 <= py < height ==> #[trigger] self.fb.pixel(px, py) == if (py
                            < y || (py == y && px < x)) && px < width {
                            color
                        } else {
                            old_fb.pixel(px, py)
                        },
                decreases width - x,
            {
                proof {
                    lemma_offset_bound(s, height as int, x as int, y as int);
                }
                let off = y as usize * stride + x as usize;
                let ghost before = self.fb;
                self.fb.write_word(off, color);
                proof {
                    assert forall|px: int, py: int|
                        0 <= px < s && 0 <= py < height implies #[trigger] self.fb.pixel(px, py) == if (py
                        < y || (py == y && px < x + 1)) && px < width {
                            color
                        } else {
                            old_fb.pixel(px, py)
                        } by {
                        lemma_offset_bound(s, height as int, px, py);
                        if px != x || py != y {
                            lemma_offset_distinct(s, px, py, x as int, y as int);
                            assert(self.fb.pixel(px, py) == before.pixel(px, py));
                        }
                    }
                }
                x += 1;
            }
            y += 1;
        }
    }

    /// Paints pixel `(x, y)` `color`; coordinates off screen are ignored.
    pub fn write_pixel(&mut self, x: u32, y: u32, color: u32)
        requires
            old(self).spec_memory().wf(),
        ensures
            final(self).spec_memory().wf(),
            final(self).spec_memory().same_geometry(&old(self).spec_memory()),
            final(self).spec_depth() == old(self).spec_depth(),
            final(self).spec_id() == old(self).spec_id(),
            forall|px: int, py: int|
                0 <= px < old(self).spec_memory().stride() && 0 <= py < old(self).spec_memory().spec_height()
                    ==> #[trigger] final(self).spec_memory().pixel(px, py) == if px == x && py == y && x
                    < old(self).spec_memory().spec_width() {
                    color
                } else {
                    old(self).spec_memory().pixel(px, py)
                },
    {
        if x >= self.fb.width() || y >= self.fb.height() {
            return;
        }
        let ghost old_fb = self.fb;
        let ghost s = old_fb.stride();
        let stride = (self.fb.pitch() / 4) as usize;
        proof {
            lemma_offset_bound(s, old_fb.spec_height() as int, x as int, y as int);
        }
        let off = y as usize * stride + x as usize;
        self.fb.write_word(off, color);
        proof {
            assert forall|px: int, py: int|
                0 <= px < s && 0 <= py < old_fb.spec_height() implies #[trigger] self.fb.pixel(px, py)
                == if px == x && py == y && x < old_fb.spec_width() {
                    color
                } else {
                    old_fb.pixel(px, py)
                } by {
                lemma_offset_bound(s, old_fb.spec_height() as int, px, py);
                if px != x || py != y {
                    lemma_offset_distinct(s, px, py, x as int, y as int);
                }
            }
        }
    }
}

/// The driver of the firmware framebuffer: the framebuffers it brought up, by device tree path.
pub struct Bcm2708FbDriver {
    pub dev_registry: DriverRegistry<Bcm2708Fb>,
}

impl Bcm2708FbDriver {
    pub fn new() -> (d: Self)
        ensures
            d.dev_registry.view() == Map::<Seq<char>, Bcm2708Fb>::empty(),
    {
        Bcm2708FbDriver { dev_registry: DriverRegistry::new() }
    }

    /// The compatible string of the driver.
    pub fn compatible(&self) -> (c: &'static str)
        ensures
            c@ == "brcm,bcm2708-fb"@,
    {
        "brcm,bcm2708-fb"
    }
}

/// The ARM address of a firmware framebuffer lies in the first GiB, and stripping the alias
/// again changes nothing.
pub proof fn lemma_strip_alias(bus_addr: u32)
    ensures
        bus_addr & 0x3FFF_FFFF < 0x4000_0000,
        (bus_addr & 0x3FFF_FFFF) & 0x3FFF_FFFF == bus_addr & 0x3FFF_FFFF,
{
    assert(bus_addr & 0x3FFF_FFFF < 0x4000_0000) by (bit_vector);
    assert((bus_addr & 0x3FFF_FFFF) & 0x3FFF_FFFF == bus_addr & 0x3FFF_FFFF) by (bit_vector);
}

} // verus!
