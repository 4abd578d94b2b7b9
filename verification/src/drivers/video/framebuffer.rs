//! A framebuffer requested from the firmware in one property message, and text drawn on it.
use vstd::prelude::*;
use vstd::string::StrSliceExecFns;

use crate::drivers::display::{lemma_offset_bound, lemma_offset_distinct, FrameBufferMemory};

verus! {

/// The framebuffer the firmware allocated.
#[derive(Debug, Clone, Copy, PartialEq, Eq, Structural)]
pub struct Framebuffer {
    pub width: u32,
    pub height: u32,
    pub pitch: u32,
    /// The ARM physical address of the pixels.
    pub buffer_addr: u32,
}

/// The words of the property message that asks for a `width` x `height`, 32-bpp framebuffer:
/// physical and virtual size, virtual offset, depth, pixel order, allocation (16-byte aligned)
/// and pitch.
pub open spec fn request_words(width: u32, height: u32) -> Seq<u32> {
    seq![
        140u32, 0u32,
        0x00048003, 8, 8, width, height,
        0x00048004, 8, 8, width, height,
        0x00048009, 8, 8, 0, 0,
        0x00048005, 4, 4, 32,
        0x00048006, 4, 4, 1,
        0x00040001, 8, 8, 0, 0,
        0x00040008, 4, 4, 0,
        0,
    ]
}

/// Bit `col` of a scanline of the legacy font, least significant first, lights pixel `col`.
pub open spec fn font_bit(byte: u8, col: int) -> bool {
    (byte >> (col as u8)) & 1u8 == 1u8
}

/// Pixel `(px, py)` of `mem` after character `code` of `font` is drawn at `(x, y)` in `color`.
pub open spec fn char_pixel(
    mem: FrameBufferMemory,
    font: Seq<u8>,
    code: int,
    x: int,
    y: int,
    color: u32,
    px: int,
    py: int,
) -> u32 {
    if x <= px < x + 8 && y <= py < y + 16 && font_bit(font[code * 16 + (py - y)], px - x) {
        color
    } else {
        mem.pixel(px, py)
    }
}

/// Pixel `(px, py)` of `mem` after `text` is drawn from `(x, y)` in `color`, one character
/// every 8 pixels.
pub open spec fn text_pixel(
    mem: FrameBufferMemory,
    font: Seq<u8>,
    text: Seq<char>,
    x: int,
    y: int,
    color: u32,
    px: int,
    py: int,
) -> u32 {
    if x <= px < x + 8 * text.len() && y <= py < y + 16 && font_bit(
        font[(text[(px - x) / 8] as int) * 16 + (py - y)],
        (px - x) % 8,
    ) {
        color
    } else {
        mem.pixel(px, py)
    }
}

/// An offset `d` below `8 * (i + 1)` lies in cell `d / 8` at column `d % 8`: cell `i` from
/// `8 * i` on, an earlier one below.
proof fn lemma_cell_of(d: int, i: int)
    requires
        0 <= d < 8 * (i + 1),
        0 <= i,
    ensures
        d >= 8 * i ==> d / 8 == i && d % 8 == d - 8 * i,
        d < 8 * i ==> d / 8 < i,
        0 <= d % 8 < 8,
{
}

impl Framebuffer {
    /// The property message that asks for a `width` x `height` framebuffer.
    pub fn request_message(width: u32, height: u32) -> (msg: [u32; 35])
        ensures
            msg@ == request_words(width, height),
    {
        let msg: [u32; 35] = [
            35 * 4, 0,
            0x00048003, 8, 8, width, height,
            0x00048004, 8, 8, width, height,
            0x00048009, 8, 8, 0, 0,
            0x00048005, 4, 4, 32,
            0x00048006, 4, 4, 1,
            0x00040001, 8, 8, 0, 0,
            0x00040008, 4, 4, 0,
            0,
        ];
        assert(msg@ =~= request_words(width, height));
        msg
    }

    /// The framebuffer of the firmware's answer: where the call went through and the firmware
    /// allocated a buffer (word 28 is not 0), its size (words 5 and 6), pitch (word 33) and
    /// address (word 28 without the bus alias bits).
    pub fn new(call_succeeded: bool, msg: &[u32; 35]) -> (r: Result<Self, &'static str>)
        ensures
            r is Ok <==> (call_succeeded && msg@[28] != 0),
            r matches Ok(fb) ==> fb == (Framebuffer {
                width: msg@[5],
                height: msg@[6],
                pitch: msg@[33],
                buffer_addr: msg@[28] & 0x3FFF_FFFF,
            }),
    {
        if call_succeeded && msg[28] != 0 {
            Ok(
                Framebuffer {
                    width: msg[5],
                    height: msg[6],
                    pitch: msg[33],
                    buffer_addr: msg[28] & 0x3FFF_FFFF,
                },
            )
        } else {
            Err("Failed to initialize framebuffer")
        }
    }

    /// Draws character `c` of `font` (16 bytes a glyph, one a scanline, indexed by the
    /// character's code) at `(x, y)` in `color` on `mem`, the memory of this framebuffer: the
    /// pixels of set bits (bit 0 the left-most) take `color`, all others keep theirs. The glyph
    /// must lie in the font and its cell in the framebuffer's scanlines.
    pub fn put_char(&self, mem: &mut FrameBufferMemory, font: &[u8], c: char, x: u32, y: u32, color: u32)
        requires
            old(mem).wf(),
            old(mem).spec_pitch() == self.pitch,
            (c as int) * 16 + 16 <= font@.len(),
            x + 8 <= old(mem).stride(),
            y + 16 <= old(mem).spec_height(),
        ensures
            final(mem).wf(),
            final(mem).same_geometry(old(mem)),
            forall|px: int, py: int|
                0 <= px < old(mem).stride() && 0 <= py < old(mem).spec_height() ==> #[trigger] final(mem).pixel(px, py)
                    == char_pixel(*old(mem), font@, c as int, x as int, y as int, color, px, py),
    {
        let ghost old_mem = *mem;
        let ghost s = old_mem.stride();
        let ghost h = old_mem.spec_height();
        let stride = (mem.pitch() / 4) as usize;
        let base = (c as u32) as usize * 16;
        let mut row: u32 = 0;
        while row < 16
            invariant
                mem.wf(),
                mem.same_geometry(&old_mem),
                old_mem.wf(),
                s == old_mem.stride(),
                stride == s,
                h == old_mem.spec_height(),
                base == (c as int) * 16,
                base + 16 <= font@.len(),
                x + 8 <= s,
                y + 16 <= h,
                0 <= row <= 16,
                forall|px: int, py: int|
                    0 <= px < s && 0 <= py < h ==> #[trigger] mem.pixel(px, py) == if py < y + row {
                        char_pixel(old_mem, font@, c as int, x as int, y as int, color, px, py)
                    } else {
                        old_mem.pixel(px, py)
                    },
            decreases 16 - row,
        {
            let byte = font[base + row as usize];
            let py = y + row;
            let mut col: u32 = 0;
            while col < 8
                invariant
                    mem.wf(),
                    mem.same_geometry(&old_mem),
                    old_mem.wf(),
                    s == old_mem.stride(),
                    stride == s,
                    h == old_mem.spec_height(),
                    base == (c as int) * 16,
                    base + 16 <= font@.len(),
                    x + 8 <= s,
                    y + 16 <= h,
                    0 <= row < 16,
                    py == y + row,
                    byte == font@[base + row],
                    0 <= col <= 8,
                    forall|px: int, py2: int|
                        0 <= px < s && 0 <= py2 < h ==> #[trigger] mem.pixel(px, py2) == if py2 < py || (py2
                            == py && px < x + col) {
                            char_pixel(old_mem, font@, c as int, x as int, y as int, color, px, py2)
                        } else {
                            old_mem.pixel(px, py2)
                        },
                decreases 8 - col,
            {
                let px = x + col;
                if (byte >> (col as u8)) & 1u8 == 1u8 {
                    proof {
                        lemma_offset_bound(s, h as int, px as int, py as int);
                    }
                    let off = py as usize * stride + px as usize;
                    let ghost before = *mem;
                    mem.write_word(off, color);
                    proof {
                        assert forall|qx: int, qy: int|
                            0 <= qx < s && 0 <= qy < h implies #[trigger] mem.pixel(qx, qy) == if qy < py || (
                            qy == py && qx < x + col + 1) {
                            char_pixel(old_mem, font@, c as int, x as int, y as int, color, qx, qy)
                        } else {
                            old_mem.pixel(qx, qy)
                        } by {
                            lemma_offset_bound(s, h as int, qx, qy);
                            if qx != px || qy != py {
                                lemma_offset_distinct(s, qx, qy, px as int, py as int);
                                assert(mem.pixel(qx, qy) == before.pixel(qx, qy));
                            }
                        }
                    }
                }
                col += 1;
            }
            row += 1;
        }
    }

    /// Draws the characters of `text` one after the other, 8 pixels apart, from `(x, y)` (see
    /// [`Framebuffer::put_char`]). The glyphs must lie in the font and the text in the
    /// framebuffer's scanlines.
    pub fn print(&self, mem: &mut FrameBufferMemory, font: &[u8], text: &str, x: u32, y: u32, color: u32)
        requires
            old(mem).wf(),
            old(mem).spec_pitch() == self.pitch,
            forall|k: int| 0 <= k < text@.len() ==> (#[trigger] text@[k] as int) * 16 + 16 <= font@.len(),
            x + 8 * text@.len() <= old(mem).stride(),
            y + 16 <= old(mem).spec_height(),
        ensures
            final(mem).wf(),
            final(mem).same_geometry(old(mem)),
            forall|px: int, py: int|
                0 <= px < old(mem).stride() && 0 <= py < old(mem).spec_height() ==> #[trigger] final(mem).pixel(px, py)
                    == text_pixel(*old(mem), font@, text@, x as int, y as int, color, px, py),
    {
        let ghost old_mem = *mem;
        let ghost s = old_mem.stride();
        let ghost h = old_mem.spec_height();
        let len = text.unicode_len();
        let mut i: usize = 0;
        while i < len
            invariant
                mem.wf(),
                mem.same_geometry(&old_mem),
                mem.spec_pitch() == self.pitch,
                old_mem.wf(),
                s == old_mem.stride(),
                h == old_mem.spec_height(),
                len == text@.len(),
                forall|k: int| 0 <= k < text@.len() ==> (#[trigger] text@[k] as int) * 16 + 16 <= font@.len(),
                x + 8 * text@.len() <= s,
                y + 16 <= h,
                0 <= i <= len,
                forall|px: int, py: int|
                    0 <= px < s && 0 <= py < h ==> #[trigger] mem.pixel(px, py) == text_pixel(
                        old_mem,
                        font@,
                        text@.take(i as int),
                        x as int,
                        y as int,
                        color,
                        px,
                        py,
                    ),
            decreases len - i,
        {
            let c = text.get_char(i);
            let cx = x + 8 * i as u32;
            let ghost before = *mem;
            self.put_char(mem, font, c, cx, y, color);
            proof {
                let t = text@.take(i as int);
                let t1 = text@.take(i + 1);
                assert forall|px: int, py: int|
                    0 <= px < s && 0 <= py < h implies #[trigger] mem.pixel(px, py) == text_pixel(
                    old_mem,
                    font@,
                    t1,
                    x as int,
                    y as int,
                    color,
                    px,
                    py,
                ) by {
                    assert(mem.pixel(px, py) == char_pixel(before, font@, c as int, cx as int, y as int, color, px, py));
                    assert(before.pixel(px, py) == text_pixel(old_mem, font@, t, x as int, y as int, color, px, py));
                    if x <= px < x + 8 * (i + 1) {
                        lemma_cell_of(px - x, i as int);
                        if px - x >= 8 * i {
                            assert(t1[i as int] == c);
                        } else {
                            assert(t1[(px - x) / 8] == t[(px - x) / 8]);
                        }
                    }
                }
            }
            i += 1;
        }
        assert(text@.take(i as int) =~= text@);
    }
}

} // verus!
