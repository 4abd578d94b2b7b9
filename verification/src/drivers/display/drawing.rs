//! Software drawing primitives for a 32-bpp framebuffer.
//!
//! [`DrawingContext`] holds the framebuffer memory and offers the three bulk operations used by
//! the framebuffer console: [`DrawingContext::fill_rect`], [`DrawingContext::copy_region`] (for
//! scrolling up) and [`DrawingContext::draw_glyph`]. Coordinates and sizes that reach past the
//! framebuffer are clamped to it; nothing outside the visible pixels is ever written.
use vstd::prelude::*;

use super::{FrameBufferMemory, FONT_HEIGHT, FONT_WIDTH, lemma_offset_bound, lemma_offset_distinct};

verus! {

/// Pixel `(px, py)` lies in the rectangle at `(x, y)` of size `w` x `h` and on the screen.
pub open spec fn in_rect(
    px: int,
    py: int,
    x: int,
    y: int,
    w: int,
    h: int,
    width: int,
    height: int,
) -> bool {
    &&& x <= px < x + w
    &&& y <= py < y + h
    &&& px < width
    &&& py < height
}

/// `a`, or `b` where it is smaller.
pub open spec fn min_u32(a: u32, b: u32) -> u32 {
    if a <= b {
        a
    } else {
        b
    }
}

/// The width of a region copy, clamped so that neither rectangle leaves the screen.
pub open spec fn copy_extent(w: u32, size: u32, src: u32, dst: u32) -> u32 {
    min_u32(min_u32(w, (size - src) as u32), (size - dst) as u32)
}

/// The colour of bit `bit` (0 = left-most) of a glyph scanline.
pub open spec fn glyph_color(byte: u8, bit: int, fg: u32, bg: u32) -> u32 {
    if byte & (0x80u8 >> (bit as u8)) != 0 {
        fg
    } else {
        bg
    }
}

/// The rows that `draw_glyph` paints: the bitmap's scanlines, at most `FONT_HEIGHT`.
pub open spec fn glyph_rows(bitmap_len: int) -> int {
    if bitmap_len < FONT_HEIGHT {
        bitmap_len
    } else {
        FONT_HEIGHT as int
    }
}

/// `(by + r) * stride + (bx + c)` is the row-major offset of `(c, r)` past `(bx, by)`.
proof fn lemma_rect_offset(stride: int, bx: int, by: int, c: int, r: int)
    ensures
        (by + r) * stride + (bx + c) == (by * stride + bx) + (r * stride + c),
{
    assert((by + r) * stride == by * stride + r * stride) by (nonlinear_arith);
}

/// Row-major order of `(c1, r1)` before `(c2, r2)` within `stride` columns orders the offsets.
proof fn lemma_row_major_less(stride: int, c1: int, r1: int, c2: int, r2: int)
    requires
        0 <= c1 < stride,
        0 <= c2 < stride,
        r1 < r2 || (r1 == r2 && c1 < c2),
    ensures
        r1 * stride + c1 < r2 * stride + c2,
{
    if r1 < r2 {
        assert(r1 * stride + c1 < r2 * stride + c2) by (nonlinear_arith)
            requires
                0 <= c1 < stride,
                0 <= c2,
                r1 < r2,
        ;
    }
}

/// The colour that a copy of a `w`-pixel-wide region from `(src_x, src_y)` to `(dst_x, dst_y)`,
/// done row after row from the top and each row from the left on the screen `fb`, writes to
/// cell `(c, r)` of the destination: the source pixel as the copy finds it, which is its
/// colour in `fb` unless an earlier step of the same copy has overwritten it.
pub open spec fn copied_pixel(
    fb: FrameBufferMemory,
    src_x: int,
    src_y: int,
    dst_x: int,
    dst_y: int,
    w: int,
    c: int,
    r: int,
) -> u32
    decreases r * w + c,
    when 0 <= c < w && 0 <= r
{
    let sx = src_x + c;
    let sy = src_y + r;
    let c2 = sx - dst_x;
    let r2 = sy - dst_y;
    if 0 <= c2 < w && 0 <= r2 && (r2 < r || (r2 == r && c2 < c)) {
        proof {
            assert(0 <= r2 * w + c2 < r * w + c) by (nonlinear_arith)
                requires
                    0 <= c2 < w,
                    0 <= c < w,
                    0 <= r2,
                    r2 < r || (r2 == r && c2 < c),
            ;
        }
        copied_pixel(fb, src_x, src_y, dst_x, dst_y, w, c2, r2)
    } else {
        fb.pixel(sx, sy)
    }
}

/// The drawing state of a framebuffer: its memory.
pub struct DrawingContext {
    pub fb: FrameBufferMemory,
}

impl DrawingContext {
    pub fn new(fb: FrameBufferMemory) -> (c: Self)
        ensures
            c.fb == fb,
    {
        DrawingContext { fb }
    }

    /// Horizontal resolution of the framebuffer in pixels.
    pub fn width(&self) -> (w: u32)
        ensures
            w == self.fb.spec_width(),
    {
        self.fb.width()
    }

    /// Vertical resolution of the framebuffer in pixels.
    pub fn height(&self) -> (h: u32)
        ensures
            h == self.fb.spec_height(),
    {
        self.fb.height()
    }

    /// Scanline pitch of the framebuffer in bytes.
    pub fn pitch(&self) -> (p: u32)
        ensures
            p == self.fb.spec_pitch(),
    {
        self.fb.pitch()
    }

    /// DMA-visible bus address of the framebuffer.
    pub fn bus_addr(&self) -> (a: u32)
        ensures
            a == self.fb.spec_bus_addr(),
    {
        self.fb.bus_addr()
    }

    /// Fills the rectangle at `(x, y)` of size `w` x `h` with `color` (0xAARRGGBB), clamped to
    /// the screen; a rectangle that starts off screen or is empty draws nothing.
    pub fn fill_rect(&mut self, x: u32, y: u32, w: u32, h: u32, color: u32)
        requires
            old(self).fb.wf(),
        ensures
            final(self).fb.wf(),
            final(self).fb.same_geometry(&old(self).fb),
            final(self).fb@.len() == old(self).fb@.len(),
            forall|px: int, py: int|
                0 <= px < old(self).fb.stride() && 0 <= py < old(self).fb.spec_height() ==> #[trigger] final(self).fb.pixel(px, py) == if in_rect(
                    px,
                    py,
                    x as int,
                    y as int,
                    w as int,
                    h as int,
                    old(self).fb.spec_width() as int,
                    old(self).fb.spec_height() as int,
                ) {
                    color
                } else {
                    old(self).fb.pixel(px, py)
                },
    {
        let fb_w = self.fb.width();
        let fb_h = self.fb.height();
        if x >= fb_w || y >= fb_h || w == 0 || h == 0 {
            return;
        }
        let x_end = if w < fb_w - x {
            x + w
        } else {
            fb_w
        };
        let y_end = if h < fb_h - y {
            y + h
        } else {
            fb_h
        };
        let stride = (self.fb.pitch() / 4) as usize;
        let ghost old_fb = self.fb;
        let ghost s = old_fb.stride();
        let mut row = y;
        while row < y_end
            invariant
                self.fb.wf(),
                self.fb.same_geometry(&old_fb),
                self.fb@.len() == old_fb@.len(),
                old_fb.wf(),
                s == old_fb.stride(),
                stride == s,
                fb_w == old_fb.spec_width(),
                fb_h == old_fb.spec_height(),
                x < x_end <= fb_w,
                x_end as int == if x + w < fb_w { x + w } else { fb_w as int },
                y <= row <= y_end,
                y_end as int == if y + h < fb_h { y + h } else { fb_h as int },
                forall|px: int, py: int|
                    0 <= px < s && 0 <= py < fb_h ==> #[trigger] self.fb.pixel(px, py) == if py < row
                        && in_rect(px, py, x as int, y as int, w as int, h as int, fb_w as int, fb_h as int) {
                        color
                    } else {
                        old_fb.pixel(px, py)
                    },
            decreases y_end - row,
        {
            let mut col = x;
            while col < x_end
                invariant
                    self.fb.wf(),
                    self.fb.same_geometry(&old_fb),
                    self.fb@.len() == old_fb@.len(),
                    old_fb.wf(),
                    s == old_fb.stride(),
                    stride == s,
                    fb_w == old_fb.spec_width(),
                    fb_h == old_fb.spec_height(),
                    x < x_end <= fb_w,
                    x_end as int == if x + w < fb_w { x + w } else { fb_w as int },
                    y <= row < y_end,
                    y_end as int == if y + h < fb_h { y + h } else { fb_h as int },
                    x <= col <= x_end,
                    forall|px: int, py: int|
                        0 <= px < s && 0 <= py < fb_h ==> #[trigger] self.fb.pixel(px, py) == if (py
                            < row || (py == row && px < col)) && in_rect(
                            px,
                            py,
                            x as int,
                            y as int,
                            w as int,
                            h as int,
                            fb_w as int,
                            fb_h as int,
                        ) {
                            color
                        } else {
                            old_fb.pixel(px, py)
                        },
                decreases x_end - col,
            {
                proof {
                    lemma_offset_bound(s, fb_h as int, col as int, row as int);
                }
                let off = row as usize * stride + col as usize;
                let ghost before = self.fb;
                self.fb.write_word(off, color);
                proof {
                    assert forall|px: int, py: int|
                        0 <= px < s && 0 <= py < fb_h implies #[trigger] self.fb.pixel(px, py) == if (
                        py < row || (py == row && px < col + 1)) && in_rect(
                            px,
                            py,
                            x as int,
                            y as int,
                            w as int,
                            h as int,
                            fb_w as int,
                            fb_h as int,
                        ) {
                            color
                        } else {
                            old_fb.pixel(px, py)
                        } by {
                        lemma_offset_bound(s, fb_h as int, px, py);
                        if px != col || py != row {
                            lemma_offset_distinct(s, px, py, col as int, row as int);
                            assert(self.fb.pixel(px, py) == before.pixel(px, py));
                        }
                    }
                }
                col += 1;
            }
            row += 1;
        }
    }

    /// Copies the `w` x `h` pixels at `(src_x, src_y)` to `(dst_x, dst_y)`, row after row from
    /// the top, each row from the left. The size is clamped so that neither rectangle leaves the
    /// screen; a corner off screen copies nothing.
    ///
    /// Each destination pixel takes its source pixel as the copy finds it ([`copied_pixel`]);
    /// where the destination starts no later in memory than the source (as when scrolling up),
    /// that is the source as it was before the call.
    pub fn copy_region(&mut self, src_x: u32, src_y: u32, dst_x: u32, dst_y: u32, w: u32, h: u32)
        requires
            old(self).fb.wf(),
        ensures
            final(self).fb.wf(),
            final(self).fb.same_geometry(&old(self).fb),
            final(self).fb@.len() == old(self).fb@.len(),
            ({
                let fb_w = old(self).fb.spec_width();
                let fb_h = old(self).fb.spec_height();
                let on_screen = src_x < fb_w && src_y < fb_h && dst_x < fb_w && dst_y < fb_h;
                let cw = copy_extent(w, fb_w, src_x, dst_x);
                let ch = copy_extent(h, fb_h, src_y, dst_y);
                &&& forall|px: int, py: int|
                    0 <= px < old(self).fb.stride() && 0 <= py < fb_h && !(on_screen && in_rect(
                        px,
                        py,
                        dst_x as int,
                        dst_y as int,
                        cw as int,
                        ch as int,
                        fb_w as int,
                        fb_h as int,
                    )) ==> #[trigger] final(self).fb.pixel(px, py) == old(self).fb.pixel(px, py)
                &&& on_screen ==> forall|px: int, py: int|
                    dst_x <= px < dst_x + cw && dst_y <= py < dst_y + ch ==> #[trigger] final(self).fb.pixel(px, py) == copied_pixel(
                        old(self).fb,
                        src_x as int,
                        src_y as int,
                        dst_x as int,
                        dst_y as int,
                        cw as int,
                        px - dst_x,
                        py - dst_y,
                    )
                &&& on_screen && old(self).fb.offset(dst_x as int, dst_y as int) <= old(self).fb.offset(src_x as int, src_y as int) ==> forall|px: int, py: int|
                    dst_x <= px < dst_x + cw && dst_y <= py < dst_y + ch ==> #[trigger] final(self).fb.pixel(px, py) == old(self).fb.pixel(
                        px - dst_x + src_x,
                        py - dst_y + src_y,
                    )
            }),
    {
        let fb_w = self.fb.width();
        let fb_h = self.fb.height();
        if src_x >= fb_w || src_y >= fb_h || dst_x >= fb_w || dst_y >= fb_h {
            return;
        }
        let w1 = if w < fb_w - src_x {
            w
        } else {
            fb_w - src_x
        };
        let w = if w1 < fb_w - dst_x {
            w1
        } else {
            fb_w - dst_x
        };
        let h1 = if h < fb_h - src_y {
            h
        } else {
            fb_h - src_y
        };
        let h = if h1 < fb_h - dst_y {
            h1
        } else {
            fb_h - dst_y
        };
        if w == 0 || h == 0 {
            return;
        }
        let stride = (self.fb.pitch() / 4) as usize;
        let ghost old_fb = self.fb;
        let ghost s = old_fb.stride();
        let ghost forward = old_fb.offset(dst_x as int, dst_y as int) <= old_fb.offset(
            src_x as int,
            src_y as int,
        );
        let mut row: u32 = 0;
        while row < h
            invariant
                self.fb.wf(),
                self.fb.same_geometry(&old_fb),
                self.fb@.len() == old_fb@.len(),
                old_fb.wf(),
                s == old_fb.stride(),
                stride == s,
                fb_w == old_fb.spec_width(),
                fb_h == old_fb.spec_height(),
                forward == (old_fb.offset(dst_x as int, dst_y as int) <= old_fb.offset(
                    src_x as int,
                    src_y as int,
                )),
                src_x + w <= fb_w,
                dst_x + w <= fb_w,
                src_y + h <= fb_h,
                dst_y + h <= fb_h,
                0 <= row <= h,
                forall|px: int, py: int|
                    0 <= px < s && 0 <= py < fb_h && !(dst_x <= px < dst_x + w && dst_y <= py
                        < dst_y + row) ==> #[trigger] self.fb.pixel(px, py) == old_fb.pixel(px, py),
                forward ==> forall|px: int, py: int|
                    dst_x <= px < dst_x + w && dst_y <= py < dst_y + row ==> #[trigger] self.fb.pixel(
                        px,
                        py,
                    ) == old_fb.pixel(px - dst_x + src_x, py - dst_y + src_y),
                forall|px: int, py: int|
                    dst_x <= px < dst_x + w && dst_y <= py < dst_y + row ==> #[trigger] self.fb.pixel(
                        px,
                        py,
                    ) == copied_pixel(
                        old_fb,
                        src_x as int,
                        src_y as int,
                        dst_x as int,
                        dst_y as int,
                        w as int,
                        px - dst_x,
                        py - dst_y,
                    ),
            decreases h - row,
        {
            let mut col: u32 = 0;
            while col < w
                invariant
                    self.fb.wf(),
                    self.fb.same_geometry(&old_fb),
                    self.fb@.len() == old_fb@.len(),
                    old_fb.wf(),
                    s == old_fb.stride(),
                    stride == s,
                    fb_w == old_fb.spec_width(),
                    fb_h == old_fb.spec_height(),
                    forward == (old_fb.offset(dst_x as int, dst_y as int) <= old_fb.offset(
                        src_x as int,
                        src_y as int,
                    )),
                    src_x + w <= fb_w,
                    dst_x + w <= fb_w,
                    src_y + h <= fb_h,
                    dst_y + h <= fb_h,
                    0 <= row < h,
                    0 <= col <= w,
                    forall|px: int, py: int|
                        0 <= px < s && 0 <= py < fb_h && !(dst_x <= px < dst_x + w && (dst_y <= py
                            < dst_y + row || (py == dst_y + row && px < dst_x + col))) ==> #[trigger] self.fb.pixel(
                            px,
                            py,
                        ) == old_fb.pixel(px, py),
                    forward ==> forall|px: int, py: int|
                        dst_x <= px < dst_x + w && (dst_y <= py < dst_y + row || (py == dst_y + row
                            && px < dst_x + col)) ==> #[trigger] self.fb.pixel(px, py) == old_fb.pixel(
                            px - dst_x + src_x,
                            py - dst_y + src_y,
                        ),
                    forall|px: int, py: int|
                        dst_x <= px < dst_x + w && (dst_y <= py < dst_y + row || (py == dst_y + row
                            && px < dst_x + col)) ==> #[trigger] self.fb.pixel(px, py) == copied_pixel(
                            old_fb,
                            src_x as int,
                            src_y as int,
                            dst_x as int,
                            dst_y as int,
                            w as int,
                            px - dst_x,
                            py - dst_y,
                        ),
                decreases w - col,
            {
                let sx = src_x + col;
                let sy = src_y + row;
                let dx = dst_x + col;
                let dy = dst_y + row;
                proof {
                    lemma_offset_bound(s, fb_h as int, sx as int, sy as int);
                    lemma_offset_bound(s, fb_h as int, dx as int, dy as int);
                }
                let src_off = sy as usize * stride + sx as usize;
                let dst_off = dy as usize * stride + dx as usize;
                let pixel = self.fb.read_word(src_off);
                proof {
                    assert(self.fb.pixel(sx as int, sy as int) == pixel);
                    if forward {
                        // the source pixel has not been overwritten yet
                        if dst_x <= sx < dst_x + w && (dst_y <= sy < dst_y + row || (sy == dst_y
                            + row && sx < dst_x + col)) {
                            let c = sx - dst_x;
                            let r = sy - dst_y;
                            lemma_rect_offset(s, dst_x as int, dst_y as int, c, r);
                            lemma_rect_offset(s, src_x as int, src_y as int, col as int, row as int);
                            lemma_row_major_less(s, c, r, col as int, row as int);
                            assert(false);
                        }
                        assert(pixel == old_fb.pixel(sx as int, sy as int));
                    }
                }
                proof {
                    assert(pixel == copied_pixel(
                        old_fb,
                        src_x as int,
                        src_y as int,
                        dst_x as int,
                        dst_y as int,
                        w as int,
                        col as int,
                        row as int,
                    ));
                }
                let ghost before = self.fb;
                self.fb.write_word(dst_off, pixel);
                proof {
                    assert forall|px: int, py: int|
                        dst_x <= px < dst_x + w && (dst_y <= py < dst_y + row || (py == dst_y + row
                            && px < dst_x + col + 1)) implies #[trigger] self.fb.pixel(px, py) == copied_pixel(
                        old_fb,
                        src_x as int,
                        src_y as int,
                        dst_x as int,
                        dst_y as int,
                        w as int,
                        px - dst_x,
                        py - dst_y,
                    ) by {
                        lemma_offset_bound(s, fb_h as int, px, py);
                        if px != dx || py != dy {
                            lemma_offset_distinct(s, px, py, dx as int, dy as int);
                            assert(self.fb.pixel(px, py) == before.pixel(px, py));
                        }
                    }
                    assert forall|px: int, py: int|
                        0 <= px < s && 0 <= py < fb_h && !(dst_x <= px < dst_x + w && (dst_y <= py
                            < dst_y + row || (py == dst_y + row && px < dst_x + col + 1))) implies #[trigger] self.fb.pixel(
                        px,
                        py,
                    ) == old_fb.pixel(px, py) by {
                        lemma_offset_bound(s, fb_h as int, px, py);
                        lemma_offset_distinct(s, px, py, dx as int, dy as int);
                        assert(self.fb.pixel(px, py) == before.pixel(px, py));
                    }
                    if forward {
                        assert forall|px: int, py: int|
                            dst_x <= px < dst_x + w && (dst_y <= py < dst_y + row || (py == dst_y
                                + row && px < dst_x + col + 1)) implies #[trigger] self.fb.pixel(
                            px,
                            py,
                        ) == old_fb.pixel(px - dst_x + src_x, py - dst_y + src_y) by {
                            lemma_offset_bound(s, fb_h as int, px, py);
                            if px != dx || py != dy {
                                lemma_offset_distinct(s, px, py, dx as int, dy as int);
                                assert(self.fb.pixel(px, py) == before.pixel(px, py));
                            }
                        }
                    }
                }
                col += 1;
            }
            row += 1;
        }
    }

    /// Draws an 8-pixel-wide glyph at `(x, y)`: one `bitmap` byte per scanline (at most
    /// `FONT_HEIGHT` of them), bit 7 the left-most pixel; a set bit paints `fg`, a clear bit
    /// `bg`. Pixels off screen are skipped.
    pub fn draw_glyph(&mut self, x: u32, y: u32, bitmap: &[u8], fg: u32, bg: u32)
        requires
            old(self).fb.wf(),
        ensures
            final(self).fb.wf(),
            final(self).fb.same_geometry(&old(self).fb),
            final(self).fb@.len() == old(self).fb@.len(),
            forall|px: int, py: int|
                0 <= px < old(self).fb.stride() && 0 <= py < old(self).fb.spec_height() ==> #[trigger] final(self).fb.pixel(px, py) == if in_rect(
                    px,
                    py,
                    x as int,
                    y as int,
                    FONT_WIDTH as int,
                    glyph_rows(bitmap@.len() as int),
                    old(self).fb.spec_width() as int,
                    old(self).fb.spec_height() as int,
                ) {
                    glyph_color(bitmap@[py - y], px - x, fg, bg)
                } else {
                    old(self).fb.pixel(px, py)
                },
    {
        let fb_w = self.fb.width();
        let fb_h = self.fb.height();
        if x >= fb_w || y >= fb_h {
            return;
        }
        let stride = (self.fb.pitch() / 4) as usize;
        let ghost old_fb = self.fb;
        let ghost s = old_fb.stride();
        let ghost nrows = glyph_rows(bitmap@.len() as int);
        let rows = if bitmap.len() < FONT_HEIGHT as usize {
            bitmap.len() as u32
        } else {
            FONT_HEIGHT
        };
        let rows = if rows < fb_h - y {
            rows
        } else {
            fb_h - y
        };
        let cols = if FONT_WIDTH < fb_w - x {
            FONT_WIDTH
        } else {
            fb_w - x
        };
        let mut row: u32 = 0;
        while row < rows
            invariant
                self.fb.wf(),
                self.fb.same_geometry(&old_fb),
                self.fb@.len() == old_fb@.len(),
                old_fb.wf(),
                s == old_fb.stride(),
                stride == s,
                fb_w == old_fb.spec_width(),
                fb_h == old_fb.spec_height(),
                x < fb_w,
                y < fb_h,
                nrows == glyph_rows(bitmap@.len() as int),
                rows as int == if nrows < fb_h - y { nrows } else { fb_h - y },
                cols as int == if FONT_WIDTH < fb_w - x { FONT_WIDTH as int } else { fb_w - x },
                0 <= row <= rows,
                forall|px: int, py: int|
                    0 <= px < s && 0 <= py < fb_h ==> #[trigger] self.fb.pixel(px, py) == if py < y + row
                        && in_rect(px, py, x as int, y as int, FONT_WIDTH as int, nrows, fb_w as int, fb_h as int) {
                        glyph_color(bitmap@[py - y], px - x, fg, bg)
                    } else {
                        old_fb.pixel(px, py)
                    },
            decreases rows - row,
        {
            let byte = bitmap[row as usize];
            let py = y + row;
            let mut bit: u32 = 0;
            while bit < cols
                invariant
                    self.fb.wf(),
                    self.fb.same_geometry(&old_fb),
                    self.fb@.len() == old_fb@.len(),
                    old_fb.wf(),
                    s == old_fb.stride(),
                    stride == s,
                    fb_w == old_fb.spec_width(),
                    fb_h == old_fb.spec_height(),
                    x < fb_w,
                    y < fb_h,
                    nrows == glyph_rows(bitmap@.len() as int),
                    rows as int == if nrows < fb_h - y { nrows } else { fb_h - y },
                    cols as int == if FONT_WIDTH < fb_w - x { FONT_WIDTH as int } else { fb_w - x },
                    0 <= row < rows,
                    py == y + row,
                    byte == bitmap@[row as int],
                    0 <= bit <= cols,
                    forall|px: int, py2: int|
                        0 <= px < s && 0 <= py2 < fb_h ==> #[trigger] self.fb.pixel(px, py2) == if (py2
                            < py || (py2 == py && px < x + bit)) && in_rect(
                            px,
                            py2,
                            x as int,
                            y as int,
                            FONT_WIDTH as int,
                            nrows,
                            fb_w as int,
                            fb_h as int,
                        ) {
                            glyph_color(bitmap@[py2 - y], px - x, fg, bg)
                        } else {
                            old_fb.pixel(px, py2)
                        },
                decreases cols - bit,
            {
                let px = x + bit;
                let color = if byte & (0x80u8 >> (bit as u8)) != 0 {
                    fg
                } else {
                    bg
                };
                proof {
                    lemma_offset_bound(s, fb_h as int, px as int, py as int);
                }
                let off = py as usize * stride + px as usize;
                let ghost before = self.fb;
                self.fb.write_word(off, color);
                proof {
                    assert forall|qx: int, qy: int|
                        0 <= qx < s && 0 <= qy < fb_h implies #[trigger] self.fb.pixel(qx, qy) == if (qy
                        < py || (qy == py && qx < x + bit + 1)) && in_rect(
                            qx,
                            qy,
                            x as int,
                            y as int,
                            FONT_WIDTH as int,
                            nrows,
                            fb_w as int,
                            fb_h as int,
                        ) {
                            glyph_color(bitmap@[qy - y], qx - x, fg, bg)
                        } else {
                            old_fb.pixel(qx, qy)
                        } by {
                        lemma_offset_bound(s, fb_h as int, qx, qy);
                        if qx != px || qy != py {
                            lemma_offset_distinct(s, qx, qy, px as int, py as int);
                            assert(self.fb.pixel(qx, qy) == before.pixel(qx, qy));
                        }
                    }
                }
                bit += 1;
            }
            row += 1;
        }
    }
}

} // verus!
