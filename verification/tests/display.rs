use lib::drivers::display::bcm2708_fb::{
    accept_framebuffer, check_framebuffer_info, request_framebuffer, requested_resolution, strip_vc_bus_alias, Bcm2708Fb, Bcm2708FbDriver,
};
use lib::drivers::display::drawing::DrawingContext;
use lib::drivers::display::fb_console::{
    fb_dma_error_name, fbstats_command, reset_fb_stats, AnsiState, FbConsole, FbStats, ScrollPath, DEFAULT_BG, DEFAULT_FG,
    FONT_GLYPHS,
};
use lib::drivers::dma_controller::bcm2835_dma::{dma_error_name, Bcm2835DmaStats};
use lib::drivers::display::{get_framebuffer, register_framebuffer, FrameBufferMemory};
use lib::drivers::dma_controller::{Dma2DTransfer, DmaEngine, DmaError};
use lib::drivers::syscon::{FramebufferInfo, SystemFirmware};
use lib::drivers::DriverInitError;
use lib::once_slot::OnceSlot;

fn fb(width: u32, height: u32, pitch: u32) -> FrameBufferMemory {
    FrameBufferMemory::new(width, height, pitch, 0x3c10_0000).unwrap()
}

fn pixel(fb: &FrameBufferMemory, x: u32, y: u32) -> u32 {
    fb.read_word((y * fb.pitch() / 4 + x) as usize)
}

#[test]
fn framebuffer_memory_geometry() {
    assert!(FrameBufferMemory::new(10, 2, 39, 0).is_none());
    let m = fb(10, 2, 48);
    assert_eq!(m.width(), 10);
    assert_eq!(m.height(), 2);
    assert_eq!(m.pitch(), 48);
    assert_eq!(m.bus_addr(), 0x3c10_0000);
    assert_eq!(pixel(&m, 9, 1), 0);
}

#[test]
fn fill_rect_clamps_to_screen() {
    let mut ctx = DrawingContext::new(fb(4, 3, 20));
    ctx.fill_rect(2, 1, 10, 10, 7);
    for y in 0..3 {
        for x in 0..5 {
            let expect = if x >= 2 && x < 4 && y >= 1 { 7 } else { 0 };
            assert_eq!(pixel(&ctx.fb, x, y), expect, "pixel {x},{y}");
        }
    }
    ctx.fill_rect(4, 0, 1, 1, 9); // off screen
    ctx.fill_rect(0, 0, 0, 1, 9); // empty
    assert_eq!(pixel(&ctx.fb, 4, 0), 0);
    assert_eq!(pixel(&ctx.fb, 0, 0), 0);
}

#[test]
fn copy_region_scrolls_up() {
    let mut ctx = DrawingContext::new(fb(2, 3, 8));
    for y in 0..3u32 {
        for x in 0..2u32 {
            ctx.fill_rect(x, y, 1, 1, 10 * y + x);
        }
    }
    ctx.copy_region(0, 1, 0, 0, 2, 2);
    assert_eq!(pixel(&ctx.fb, 0, 0), 10);
    assert_eq!(pixel(&ctx.fb, 1, 0), 11);
    assert_eq!(pixel(&ctx.fb, 0, 1), 20);
    assert_eq!(pixel(&ctx.fb, 1, 1), 21);
    assert_eq!(pixel(&ctx.fb, 0, 2), 20);
    // a source corner off screen copies nothing
    ctx.copy_region(0, 3, 0, 0, 2, 2);
    assert_eq!(pixel(&ctx.fb, 0, 0), 10);
}

#[test]
fn draw_glyph_bits_left_to_right() {
    let mut ctx = DrawingContext::new(fb(10, 3, 40));
    ctx.draw_glyph(1, 1, &[0b1010_0000, 0b0000_0001], 1, 2);
    assert_eq!(pixel(&ctx.fb, 1, 1), 1);
    assert_eq!(pixel(&ctx.fb, 2, 1), 2);
    assert_eq!(pixel(&ctx.fb, 3, 1), 1);
    assert_eq!(pixel(&ctx.fb, 8, 2), 1);
    assert_eq!(pixel(&ctx.fb, 7, 2), 2);
    assert_eq!(pixel(&ctx.fb, 0, 1), 0);
    assert_eq!(pixel(&ctx.fb, 9, 1), 0);
    // clipped at the right edge
    ctx.draw_glyph(8, 0, &[0xff], 5, 6);
    assert_eq!(pixel(&ctx.fb, 8, 0), 5);
    assert_eq!(pixel(&ctx.fb, 9, 0), 5);
}

#[test]
fn vc_bus_alias_is_stripped() {
    assert_eq!(strip_vc_bus_alias(0xC100_0000), 0x0100_0000);
    assert_eq!(strip_vc_bus_alias(0x3eff_f000), 0x3eff_f000);
}

fn info(depth: u32, width: u32, height: u32, pitch: u32, size: u32) -> FramebufferInfo {
    FramebufferInfo { bus_addr: 0xfe00_0000, size, pitch, width, height, depth }
}

#[test]
fn framebuffer_geometry_checks() {
    assert_eq!(check_framebuffer_info(&info(32, 1920, 1080, 7680, 7680 * 1080)), Ok(()));
    assert_eq!(check_framebuffer_info(&info(16, 1920, 1080, 7680, 7680 * 1080)), Err(DriverInitError::DeviceFailed));
    assert_eq!(check_framebuffer_info(&info(32, 1920, 1080, 7676, 7680 * 1080)), Err(DriverInitError::DeviceFailed));
    assert_eq!(check_framebuffer_info(&info(32, 1920, 1080, 7680, 7680 * 1080 - 1)), Err(DriverInitError::DeviceFailed));
    assert_eq!(check_framebuffer_info(&info(32, 1, 0x1_0000, 0x1_0000, u32::MAX)), Err(DriverInitError::DeviceFailed));
}

struct Firmware {
    preferred: Option<(u32, u32)>,
    answer: Result<FramebufferInfo, ()>,
}

impl SystemFirmware for Firmware {
    fn get_preferred_resolution(&self) -> Option<(u32, u32)> {
        self.preferred
    }

    fn init_framebuffer(&self, width: u32, height: u32, depth: u32) -> Result<FramebufferInfo, ()> {
        assert_eq!(depth, 32);
        match self.answer {
            Ok(mut i) => {
                i.width = width;
                i.height = height;
                Ok(i)
            }
            Err(()) => Err(()),
        }
    }
}

#[test]
fn request_framebuffer_defaults_and_errors() {
    let fw = Firmware { preferred: None, answer: Ok(info(32, 0, 0, 7680, 7680 * 1080)) };
    let (phys, i) = request_framebuffer(&fw).unwrap();
    assert_eq!((i.width, i.height), (1920, 1080));
    assert_eq!(phys, 0x3e00_0000);
    let fw = Firmware { preferred: Some((640, 480)), answer: Ok(info(32, 0, 0, 2560, 2560 * 480)) };
    assert_eq!(request_framebuffer(&fw).unwrap().1.width, 640);
    let fw = Firmware { preferred: None, answer: Err(()) };
    assert_eq!(request_framebuffer(&fw), Err(DriverInitError::DeviceFailed));
}

#[test]
fn bcm2708_fb_fill_and_write_pixel() {
    let i = info(32, 3, 2, 16, 32);
    let mut dev = Bcm2708Fb::new("/soc/fb".to_string(), fb(3, 2, 16), &i);
    assert_eq!(dev.id(), "/soc/fb");
    assert_eq!((dev.width(), dev.height(), dev.pitch(), dev.depth_bpp()), (3, 2, 16, 32));
    dev.fill(0xff);
    dev.write_pixel(2, 1, 0xab);
    dev.write_pixel(3, 1, 0xcd); // off screen, ignored
    assert_eq!(pixel(dev.memory(), 0, 0), 0xff);
    assert_eq!(pixel(dev.memory(), 2, 1), 0xab);
    assert_eq!(pixel(dev.memory(), 3, 1), 0); // padding untouched
    let driver = Bcm2708FbDriver::new();
    assert_eq!(driver.compatible(), "brcm,bcm2708-fb");
}

#[test]
fn framebuffer_registration_once() {
    let mut slot: OnceSlot<u8> = OnceSlot::new();
    assert_eq!(get_framebuffer(&slot), None);
    assert_eq!(register_framebuffer(&mut slot, 1), Ok(()));
    assert_eq!(register_framebuffer(&mut slot, 2), Err(()));
    assert_eq!(get_framebuffer(&slot), Some(&1));
}

#[test]
fn dma_error_names() {
    assert_eq!(fb_dma_error_name(0), "none");
    assert_eq!(fb_dma_error_name(1), "busy");
    assert_eq!(fb_dma_error_name(2), "no-engine");
    assert_eq!(fb_dma_error_name(3), "invalid");
    assert_eq!(fb_dma_error_name(4), "timeout");
    assert_eq!(fb_dma_error_name(5), "fault");
    assert_eq!(fb_dma_error_name(99), "none");
}

#[test]
fn fb_stats_reset() {
    let mut s = FbStats {
        scrolls: 3,
        dma_attempts: 2,
        dma_successes: 1,
        no_engine_fallbacks: 1,
        busy_fallbacks: 1,
        error_fallbacks: 1,
        disabled_fallbacks: 1,
        last_dma_error: 4,
    };
    reset_fb_stats(&mut s);
    assert_eq!(s.scrolls, 0);
    assert_eq!(s.last_dma_error, 0);
}

struct Engine(Result<(), DmaError>);

impl DmaEngine for Engine {
    fn copy_2d(&self, _transfer: Dma2DTransfer) -> Result<(), DmaError> {
        self.0
    }
}

fn font() -> Vec<u8> {
    vec![0xff; FONT_GLYPHS * 16]
}

fn console(rows: u32) -> FbConsole {
    FbConsole::new("/fbcon".to_string(), fb(16, 16 * rows, 64), font())
}

#[test]
fn console_on_a_screen_lower_than_a_text_row() {
    // a screen 15 pixels high has no text row; it is still cleared, and text stays in row 0
    let mut c = FbConsole::new("c".to_string(), fb(16, 15, 64), font());
    assert_eq!(c.size(), (2, 0));
    assert_eq!(pixel(c.framebuffer(), 15, 14), DEFAULT_BG);
    let none: Option<&Engine> = None;
    c.write(b"a", none);
    assert_eq!(pixel(c.framebuffer(), 0, 14), DEFAULT_FG);
    assert_eq!((c.cursor().col, c.cursor().row), (1, 0));
    let c = console(2);
    assert_eq!(c.id(), "/fbcon");
}

#[test]
fn console_clears_screen_on_creation() {
    let c = console(1);
    assert_eq!(c.size(), (2, 1));
    assert_eq!(pixel(c.framebuffer(), 0, 0), DEFAULT_BG);
    assert_eq!(pixel(c.framebuffer(), 15, 15), DEFAULT_BG);
    let cur = c.cursor();
    assert_eq!((cur.col, cur.row, cur.ansi_state), (0, 0, AnsiState::Normal));
    assert_eq!(c.stats().scrolls, 0);
    assert!(!c.dma_failed());
}

#[test]
fn console_scroll_paths() {
    let none: Option<&Engine> = None;
    let mut c = console(2);
    assert_eq!(c.scroll(none), ScrollPath::NoEngine);
    assert_eq!(c.stats().scrolls, 1);
    assert_eq!(c.stats().no_engine_fallbacks, 1);
    assert_eq!(c.stats().last_dma_error, 2);
    assert_eq!(c.cursor().row, 1);
    let ok = Engine(Ok(()));
    assert_eq!(c.scroll(Some(&ok)), ScrollPath::DmaDone);
    let busy = Engine(Err(DmaError::Busy));
    assert_eq!(c.scroll(Some(&busy)), ScrollPath::DmaFailed(DmaError::Busy));
    let fault = Engine(Err(DmaError::Fault));
    assert_eq!(c.scroll(Some(&fault)), ScrollPath::DmaFailed(DmaError::Fault));
    assert!(c.dma_failed());
    assert_eq!(c.stats().error_fallbacks, 1);
    assert_eq!(c.stats().last_dma_error, 5);
    // after a fault DMA stays disabled
    assert_eq!(c.scroll(Some(&ok)), ScrollPath::Disabled);
    assert_eq!(c.stats().disabled_fallbacks, 1);
    assert_eq!(c.stats().dma_attempts, 3);
    assert_eq!(c.stats().dma_successes, 1);
    assert_eq!(c.stats().busy_fallbacks, 1);
    assert_eq!(c.stats().scrolls, 5);
    let mut c2 = console(2);
    let timeout = Engine(Err(DmaError::Timeout));
    assert_eq!(c2.scroll(Some(&timeout)), ScrollPath::DmaFailed(DmaError::Timeout));
    assert_eq!(c2.scroll(none), ScrollPath::Disabled);
    let mut c3 = console(2);
    let invalid = Engine(Err(DmaError::InvalidTransfer));
    assert_eq!(c3.scroll(Some(&invalid)), ScrollPath::DmaFailed(DmaError::InvalidTransfer));
    let mut c4 = console(2);
    let unavailable = Engine(Err(DmaError::Unavailable));
    assert_eq!(c4.scroll(Some(&unavailable)), ScrollPath::DmaFailed(DmaError::Unavailable));
    assert_eq!(c4.scroll(Some(&ok)), ScrollPath::DmaDone);
}

#[test]
fn console_write_wraps_and_scrolls() {
    let none: Option<&Engine> = None;
    let mut c = console(2);
    // two columns per row: "abc" wraps after "ab"
    c.write(b"abc", none);
    assert_eq!((c.cursor().col, c.cursor().row), (1, 1));
    // the glyph of 'a' (all bits set) is drawn in the foreground colour
    assert_eq!(pixel(c.framebuffer(), 0, 0), DEFAULT_FG);
    assert_eq!(pixel(c.framebuffer(), 8, 16), DEFAULT_BG);
    // "\n" from the last row scrolls: the second text row moves up
    let r = c.newline(none);
    assert_eq!(r, Some(ScrollPath::NoEngine));
    assert_eq!((c.cursor().col, c.cursor().row), (0, 1));
    assert_eq!(pixel(c.framebuffer(), 0, 0), DEFAULT_FG);
    assert_eq!(pixel(c.framebuffer(), 8, 0), DEFAULT_BG);
    assert_eq!(pixel(c.framebuffer(), 0, 16), DEFAULT_BG);
    // escape sequences draw nothing and move nothing
    c.write(b"x", none);
    c.write(b"\x1b[31m\x1b]0;title\x07", none);
    assert_eq!((c.cursor().col, c.cursor().row, c.cursor().ansi_state), (1, 1, AnsiState::Normal));
    // carriage return, then backspace at column 0 clears the cell
    c.write(b"\r\x08", none);
    assert_eq!(c.cursor().col, 0);
    assert_eq!(pixel(c.framebuffer(), 0, 16), DEFAULT_BG);
    // an unfinished escape sequence keeps the parser state
    c.write(b"\x1b", none);
    assert_eq!(c.cursor().ansi_state, AnsiState::Escape);
    c.write(b"[", none);
    assert_eq!(c.cursor().ansi_state, AnsiState::Csi);
}

fn screen(fb: &FrameBufferMemory) -> Vec<u32> {
    let mut v = Vec::new();
    for y in 0..fb.height() {
        for x in 0..fb.width() {
            v.push(pixel(fb, x, y));
        }
    }
    v
}

#[test]
fn console_escape_sequence_draws_nothing() {
    let none: Option<&Engine> = None;
    let mut c = console(2);
    c.write(b"a", none);
    let before = screen(c.framebuffer());
    let cursor = c.cursor();
    let stats = c.stats();
    c.write(b"\x1b[1;31m", none);
    assert_eq!(screen(c.framebuffer()), before);
    assert_eq!(c.cursor(), cursor);
    assert_eq!(c.stats(), stats);
}

#[test]
fn console_write_byte_reports_scrolls() {
    let none: Option<&Engine> = None;
    let mut c = console(1);
    // a printable character with room on the line paints its cell and does not scroll
    assert_eq!(c.write_byte(b'a', none), None);
    assert_eq!(pixel(c.framebuffer(), 7, 15), DEFAULT_FG);
    assert_eq!(pixel(c.framebuffer(), 8, 0), DEFAULT_BG);
    // the last column of the only row wraps and scrolls, clearing the row
    assert_eq!(c.write_byte(b'b', none), Some(ScrollPath::NoEngine));
    assert_eq!(pixel(c.framebuffer(), 0, 0), DEFAULT_BG);
    assert_eq!(pixel(c.framebuffer(), 8, 0), DEFAULT_BG);
    assert_eq!(c.stats().scrolls, 1);
    // a carriage return neither draws nor scrolls
    assert_eq!(c.write_byte(b'\r', none), None);
    assert_eq!(c.write_byte(b'\n', none), Some(ScrollPath::NoEngine));
}

#[test]
fn copy_region_down_repeats_rows_it_overwrote() {
    // a copy one row down, row after row from the top, reads rows it has already written
    let mut ctx = DrawingContext::new(fb(2, 3, 8));
    for y in 0..3u32 {
        for x in 0..2u32 {
            ctx.fill_rect(x, y, 1, 1, 10 * y + x);
        }
    }
    ctx.copy_region(0, 0, 0, 1, 2, 2);
    assert_eq!(pixel(&ctx.fb, 0, 0), 0);
    assert_eq!(pixel(&ctx.fb, 1, 0), 1);
    assert_eq!(pixel(&ctx.fb, 0, 1), 0);
    assert_eq!(pixel(&ctx.fb, 1, 1), 1);
    assert_eq!(pixel(&ctx.fb, 0, 2), 0);
    assert_eq!(pixel(&ctx.fb, 1, 2), 1);
    // a copy one pixel right within a row repeats the first pixel
    let mut ctx = DrawingContext::new(fb(3, 1, 12));
    for x in 0..3u32 {
        ctx.fill_rect(x, 0, 1, 1, x + 5);
    }
    ctx.copy_region(0, 0, 1, 0, 2, 1);
    assert_eq!((pixel(&ctx.fb, 0, 0), pixel(&ctx.fb, 1, 0), pixel(&ctx.fb, 2, 0)), (5, 5, 5));
}

#[test]
fn fbstats_command_reports_and_resets() {
    let mut fb = FbStats {
        scrolls: 12,
        dma_attempts: 7,
        dma_successes: 5,
        no_engine_fallbacks: 0,
        busy_fallbacks: 1,
        error_fallbacks: 1,
        disabled_fallbacks: 4294967295,
        last_dma_error: 4,
    };
    let mut dma = Bcm2835DmaStats {
        transfers_started: 7,
        irq_completions: 3,
        poll_completions: 2,
        timeouts: 1,
        faults: 0,
        busy_errors: 10,
        invalid_errors: 100,
        last_cs: 0x0001_0a2f,
        last_debug: 0xdead_beef,
        last_error: 2,
    };
    let out = fbstats_command(&vec!["-v".to_string()], &mut fb, &mut dma);
    let expected = format!(
        "fb: scrolls={} dma_attempts={} dma_ok={} no_engine={} busy={} error={} disabled={} last={}\ndma: started={} irq_ok={} poll_ok={} timeouts={} faults={} busy={} invalid={} last_cs=0x{:08x} last_dbg=0x{:08x} last={}\n",
        12, 7, 5, 0, 1, 1, 4294967295u32, "timeout", 7, 3, 2, 1, 0, 10, 100, 0x0001_0a2fu32, 0xdead_beefu32, "fault",
    );
    assert_eq!(String::from_utf8(out).unwrap(), expected);
    assert_eq!(fb.scrolls, 12);
    assert_eq!(dma.last_cs, 0x0001_0a2f);
    let out = fbstats_command(&vec!["x".to_string(), "-r".to_string()], &mut fb, &mut dma);
    assert_eq!(out, b"fbstats reset\n".to_vec());
    assert_eq!(fb.scrolls, 0);
    assert_eq!(fb.disabled_fallbacks, 0);
    assert_eq!(dma.transfers_started, 0);
    assert_eq!(dma.last_debug, 0);
    assert_eq!((fb_dma_error_name(fb.last_dma_error), dma_error_name(dma.last_error)), ("none", "none"));
}

#[test]
fn requested_resolution_prefers_the_display() {
    assert_eq!(requested_resolution(Some((800, 600))), (800, 600));
    assert_eq!(requested_resolution(None), (1920, 1080));
}

struct Recorder(std::cell::RefCell<Vec<Dma2DTransfer>>);

impl DmaEngine for Recorder {
    fn copy_2d(&self, transfer: Dma2DTransfer) -> Result<(), DmaError> {
        self.0.borrow_mut().push(transfer);
        Err(DmaError::Timeout)
    }
}

#[test]
fn scroll_hands_the_row_move_to_the_engine_once() {
    let mut c = console(2);
    let expected = Dma2DTransfer {
        src_bus_addr: 0x3c10_0000 + 16 * 64,
        dst_bus_addr: 0x3c10_0000,
        row_len_bytes: 64,
        row_count: 16,
        src_stride: 0,
        dst_stride: 0,
    };
    assert_eq!(c.scroll_request(), expected);
    let engine = Recorder(std::cell::RefCell::new(Vec::new()));
    assert_eq!(c.scroll(Some(&engine)), ScrollPath::DmaFailed(DmaError::Timeout));
    // after a timeout DMA is no longer asked
    assert_eq!(c.scroll(Some(&engine)), ScrollPath::Disabled);
    assert_eq!(engine.0.borrow().clone(), vec![expected]);
}

#[test]
fn fill_rect_clamps_wide_rectangles() {
    let mut ctx = DrawingContext::new(fb(4, 3, 16));
    ctx.fill_rect(1, 1, u32::MAX, u32::MAX, 5);
    assert_eq!(pixel(&ctx.fb, 3, 2), 5);
    assert_eq!(pixel(&ctx.fb, 1, 1), 5);
    assert_eq!(pixel(&ctx.fb, 0, 1), 0);
    assert_eq!(pixel(&ctx.fb, 3, 0), 0);
}

#[test]
fn firmware_answers_are_checked() {
    let good = info(32, 640, 480, 2560, 2560 * 480);
    assert_eq!(accept_framebuffer(Ok(good)), Ok((0x3e00_0000, good)));
    assert_eq!(accept_framebuffer(Ok(info(16, 640, 480, 2560, 2560 * 480))), Err(DriverInitError::DeviceFailed));
    assert_eq!(accept_framebuffer(Ok(info(32, 640, 480, 2556, 2560 * 480))), Err(DriverInitError::DeviceFailed));
    assert_eq!(accept_framebuffer(Err(())), Err(DriverInitError::DeviceFailed));
}

#[test]
fn a_scroll_the_engine_did_moves_the_text_on_the_console_too() {
    let ok = Engine(Ok(()));
    let mut c = console(2);
    // "a" on the second text row
    c.write(b"\na", None::<&Engine>);
    assert_eq!(pixel(c.framebuffer(), 0, 16), DEFAULT_FG);
    assert_eq!(c.scroll(Some(&ok)), ScrollPath::DmaDone);
    assert_eq!(pixel(c.framebuffer(), 0, 0), DEFAULT_FG);
    assert_eq!(pixel(c.framebuffer(), 0, 16), DEFAULT_BG);
}
