//! A text console on the framebuffer.
//!
//! Characters are drawn from an 8x16 bitmap font; the cursor advances left to right and wraps
//! at the right edge. When a line feed leaves the last row, the screen scrolls up one text row,
//! by a DMA 2D copy where an engine is available and has not failed before, else by
//! [`DrawingContext::copy_region`]; then the new bottom row is cleared.
//!
//! ANSI/VT escape sequences are consumed without drawing anything:
//!
//! | State | Byte | Next state |
//! |-------|------|------------|
//! | Normal | `ESC` (0x1B) | Escape |
//! | Escape | `[` | Csi |
//! | Escape | `]` | Osc |
//! | Escape | `ESC` | Escape |
//! | Escape | anything else | Normal |
//! | Csi | `0x40..=0x7E` (final byte) | Normal |
//! | Csi | anything else | Csi |
//! | Osc | `BEL` (0x07) | Normal |
//! | Osc | `ESC` | Escape |
//! | Osc | anything else | Osc |
//!
//! In the Normal state `0x20..=0x7E` draws a glyph, `\n` starts a new line, `\r` returns to
//! column 0, backspace moves back one column and clears the cell; other bytes are ignored.
use vstd::prelude::*;

use super::drawing::{DrawingContext, glyph_color, in_rect};
use super::{FrameBufferMemory, FONT_HEIGHT, FONT_WIDTH};
use vstd::string::{StringExecFns, StringSliceAdditionalSpecFns};

use crate::drivers::dma_controller::bcm2835_dma::{
    dma_error_label, dma_error_name, reset_stats, zero_dma_stats, Bcm2835DmaStats,
};
use crate::drivers::dma_controller::{Dma2DTransfer, DmaEngine, DmaError};
use crate::text::{decimal, hex_digits, push_decimal, push_hex, push_str};

verus! {

/// Opaque white.
pub const DEFAULT_FG: u32 = 0xFFFF_FFFF;
/// Opaque black.
pub const DEFAULT_BG: u32 = 0xFF00_0000;

pub const FB_DMA_ERROR_NONE: u32 = 0;
pub const FB_DMA_ERROR_BUSY: u32 = 1;
pub const FB_DMA_ERROR_UNAVAILABLE: u32 = 2;
pub const FB_DMA_ERROR_INVALID: u32 = 3;
pub const FB_DMA_ERROR_TIMEOUT: u32 = 4;
pub const FB_DMA_ERROR_FAULT: u32 = 5;

/// Number of glyphs of the console font: the printable ASCII characters 0x20 to 0x7E.
pub const FONT_GLYPHS: usize = 95;

/// The name of a recorded console DMA error code.
pub open spec fn fb_error_label(code: u32) -> &'static str {
    if code == FB_DMA_ERROR_BUSY {
        "busy"
    } else if code == FB_DMA_ERROR_UNAVAILABLE {
        "no-engine"
    } else if code == FB_DMA_ERROR_INVALID {
        "invalid"
    } else if code == FB_DMA_ERROR_TIMEOUT {
        "timeout"
    } else if code == FB_DMA_ERROR_FAULT {
        "fault"
    } else {
        "none"
    }
}

/// The name of a recorded console DMA error code.
pub fn fb_dma_error_name(code: u32) -> (s: &'static str)
    ensures
        s == fb_error_label(code),
{
    if code == FB_DMA_ERROR_BUSY {
        "busy"
    } else if code == FB_DMA_ERROR_UNAVAILABLE {
        "no-engine"
    } else if code == FB_DMA_ERROR_INVALID {
        "invalid"
    } else if code == FB_DMA_ERROR_TIMEOUT {
        "timeout"
    } else if code == FB_DMA_ERROR_FAULT {
        "fault"
    } else {
        "none"
    }
}

/// `x + 1`, wrapping to 0 past `u32::MAX` (as the statistics counters count).
pub open spec fn bump(x: u32) -> u32 {
    if x == u32::MAX {
        0
    } else {
        (x + 1) as u32
    }
}

fn increment(x: u32) -> (r: u32)
    ensures
        r == bump(x),
{
    x.wrapping_add(1)
}

/// How often the console scrolled and how the scrolls went.
#[derive(Debug, Clone, Copy, PartialEq, Eq, Structural)]
pub struct FbStats {
    pub scrolls: u32,
    pub dma_attempts: u32,
    pub dma_successes: u32,
    pub no_engine_fallbacks: u32,
    pub busy_fallbacks: u32,
    pub error_fallbacks: u32,
    pub disabled_fallbacks: u32,
    pub last_dma_error: u32,
}

/// All counters zero, no error recorded.
pub open spec fn zero_stats() -> FbStats {
    FbStats {
        scrolls: 0,
        dma_attempts: 0,
        dma_successes: 0,
        no_engine_fallbacks: 0,
        busy_fallbacks: 0,
        error_fallbacks: 0,
        disabled_fallbacks: 0,
        last_dma_error: FB_DMA_ERROR_NONE,
    }
}

/// Resets the statistics.
pub fn reset_fb_stats(stats: &mut FbStats)
    ensures
        *final(stats) == zero_stats(),
{
    *stats = FbStats {
        scrolls: 0,
        dma_attempts: 0,
        dma_successes: 0,
        no_engine_fallbacks: 0,
        busy_fallbacks: 0,
        error_fallbacks: 0,
        disabled_fallbacks: 0,
        last_dma_error: FB_DMA_ERROR_NONE,
    };
}

/// The arguments of the `fbstats` shell command ask for a reset: one of them is `-r`.
pub open spec fn asks_reset(args: Seq<String>) -> bool {
    exists|i: int| 0 <= i < args.len() && #[trigger] args[i]@ == "-r"@
}

/// What the `fbstats` shell command prints: the console's scroll statistics on one line, the
/// DMA driver's on the next, numbers in decimal and registers as eight hex digits.
pub open spec fn stats_report(fb: FbStats, dma: Bcm2835DmaStats) -> Seq<u8> {
    "fb: scrolls=".spec_bytes() + decimal(fb.scrolls as nat) + " dma_attempts=".spec_bytes()
        + decimal(fb.dma_attempts as nat) + " dma_ok=".spec_bytes() + decimal(
        fb.dma_successes as nat,
    ) + " no_engine=".spec_bytes() + decimal(fb.no_engine_fallbacks as nat) + " busy=".spec_bytes()
        + decimal(fb.busy_fallbacks as nat) + " error=".spec_bytes() + decimal(
        fb.error_fallbacks as nat,
    ) + " disabled=".spec_bytes() + decimal(fb.disabled_fallbacks as nat) + " last=".spec_bytes()
        + fb_error_label(fb.last_dma_error).spec_bytes() + "\ndma: started=".spec_bytes() + decimal(
        dma.transfers_started as nat,
    ) + " irq_ok=".spec_bytes() + decimal(dma.irq_completions as nat) + " poll_ok=".spec_bytes()
        + decimal(dma.poll_completions as nat) + " timeouts=".spec_bytes() + decimal(
        dma.timeouts as nat,
    ) + " faults=".spec_bytes() + decimal(dma.faults as nat) + " busy=".spec_bytes() + decimal(
        dma.busy_errors as nat,
    ) + " invalid=".spec_bytes() + decimal(dma.invalid_errors as nat) + " last_cs=0x".spec_bytes()
        + hex_digits(dma.last_cs as nat, 8) + " last_dbg=0x".spec_bytes() + hex_digits(
        dma.last_debug as nat,
        8,
    ) + " last=".spec_bytes() + dma_error_label(dma.last_error).spec_bytes() + "\n".spec_bytes()
}

/// Whether one of `args` is `-r`.
fn has_reset_flag(args: &Vec<String>) -> (r: bool)
    ensures
        r == asks_reset(args@),
{
    let flag = String::from_str("-r");
    let mut i: usize = 0;
    while i < args.len()
        invariant
            0 <= i <= args@.len(),
            flag@ == "-r"@,
            forall|k: int| 0 <= k < i ==> args@[k]@ != "-r"@,
        decreases args@.len() - i,
    {
        if args[i] == flag {
            assert(args@[i as int]@ == "-r"@);
            return true;
        }
        i += 1;
    }
    false
}

/// The `fbstats` shell command: with a `-r` argument it resets the console and DMA
/// statistics and answers `fbstats reset`; otherwise it leaves them and answers with the
/// report of both.
pub fn fbstats_command(args: &Vec<String>, fb: &mut FbStats, dma: &mut Bcm2835DmaStats) -> (out: Vec<u8>)
    ensures
        asks_reset(args@) ==> *final(fb) == zero_stats() && *final(dma) == zero_dma_stats() && out@
            == "fbstats reset\n".spec_bytes(),
        !asks_reset(args@) ==> *final(fb) == *old(fb) && *final(dma) == *old(dma) && out@
            == stats_report(*old(fb), *old(dma)),
{
    let mut out: Vec<u8> = Vec::new();
    if has_reset_flag(args) {
        reset_fb_stats(fb);
        reset_stats(dma);
        push_str(&mut out, "fbstats reset\n");
        assert(out@ =~= "fbstats reset\n".spec_bytes());
        return out;
    }
    push_str(&mut out, "fb: scrolls=");
    assert(out@ =~= "fb: scrolls=".spec_bytes());
    push_decimal(&mut out, fb.scrolls);
    push_str(&mut out, " dma_attempts=");
    push_decimal(&mut out, fb.dma_attempts);
    push_str(&mut out, " dma_ok=");
    push_decimal(&mut out, fb.dma_successes);
    push_str(&mut out, " no_engine=");
    push_decimal(&mut out, fb.no_engine_fallbacks);
    push_str(&mut out, " busy=");
    push_decimal(&mut out, fb.busy_fallbacks);
    push_str(&mut out, " error=");
    push_decimal(&mut out, fb.error_fallbacks);
    push_str(&mut out, " disabled=");
    push_decimal(&mut out, fb.disabled_fallbacks);
    push_str(&mut out, " last=");
    push_str(&mut out, fb_dma_error_name(fb.last_dma_error));
    push_str(&mut out, "\ndma: started=");
    push_decimal(&mut out, dma.transfers_started);
    push_str(&mut out, " irq_ok=");
    push_decimal(&mut out, dma.irq_completions);
    push_str(&mut out, " poll_ok=");
    push_decimal(&mut out, dma.poll_completions);
    push_str(&mut out, " timeouts=");
    push_decimal(&mut out, dma.timeouts);
    push_str(&mut out, " faults=");
    push_decimal(&mut out, dma.faults);
    push_str(&mut out, " busy=");
    push_decimal(&mut out, dma.busy_errors);
    push_str(&mut out, " invalid=");
    push_decimal(&mut out, dma.invalid_errors);
    push_str(&mut out, " last_cs=0x");
    push_hex(&mut out, dma.last_cs, 8);
    push_str(&mut out, " last_dbg=0x");
    push_hex(&mut out, dma.last_debug, 8);
    push_str(&mut out, " last=");
    push_str(&mut out, dma_error_name(dma.last_error));
    push_str(&mut out, "\n");
    out
}

/// How a scroll moved the screen contents.
#[derive(Debug, Clone, Copy, PartialEq, Eq, Structural)]
pub enum ScrollPath {
    /// DMA failed before and is not tried again.
    Disabled,
    /// No DMA engine is registered.
    NoEngine,
    /// The DMA engine moved the text.
    DmaDone,
    /// The DMA engine was asked and failed.
    DmaFailed(DmaError),
}

/// The error code recorded for a DMA outcome.
pub open spec fn dma_error_code(e: DmaError) -> u32 {
    match e {
        DmaError::Busy => FB_DMA_ERROR_BUSY,
        DmaError::Unavailable => FB_DMA_ERROR_UNAVAILABLE,
        DmaError::InvalidTransfer => FB_DMA_ERROR_INVALID,
        DmaError::Timeout => FB_DMA_ERROR_TIMEOUT,
        DmaError::Fault => FB_DMA_ERROR_FAULT,
    }
}

/// The statistics after a scroll that took `path`.
pub open spec fn scroll_stats(s: FbStats, path: ScrollPath) -> FbStats {
    let s = FbStats { scrolls: bump(s.scrolls), ..s };
    match path {
        ScrollPath::Disabled => FbStats { disabled_fallbacks: bump(s.disabled_fallbacks), ..s },
        ScrollPath::NoEngine => FbStats {
            no_engine_fallbacks: bump(s.no_engine_fallbacks),
            last_dma_error: FB_DMA_ERROR_UNAVAILABLE,
            ..s
        },
        ScrollPath::DmaDone => FbStats {
            dma_attempts: bump(s.dma_attempts),
            dma_successes: bump(s.dma_successes),
            last_dma_error: FB_DMA_ERROR_NONE,
            ..s
        },
        ScrollPath::DmaFailed(r) => {
            let s = FbStats { dma_attempts: bump(s.dma_attempts), ..s };
            match r {
                DmaError::Busy => FbStats {
                    busy_fallbacks: bump(s.busy_fallbacks),
                    last_dma_error: FB_DMA_ERROR_BUSY,
                    ..s
                },
                DmaError::Unavailable => FbStats {
                    no_engine_fallbacks: bump(s.no_engine_fallbacks),
                    last_dma_error: FB_DMA_ERROR_UNAVAILABLE,
                    ..s
                },
                e => FbStats {
                    error_fallbacks: bump(s.error_fallbacks),
                    last_dma_error: dma_error_code(e),
                    ..s
                },
            }
        },
    }
}

/// A DMA outcome that disables DMA for later scrolls: an invalid transfer, a timeout or a fault.
pub open spec fn disables_dma(path: ScrollPath) -> bool {
    match path {
        ScrollPath::DmaFailed(DmaError::InvalidTransfer) => true,
        ScrollPath::DmaFailed(DmaError::Timeout) => true,
        ScrollPath::DmaFailed(DmaError::Fault) => true,
        _ => false,
    }
}

/// The state of the escape-sequence parser.
#[derive(Debug, Clone, Copy, PartialEq, Eq, Structural)]
pub enum AnsiState {
    /// Normal text rendering.
    Normal,
    /// Saw `ESC`; waiting for the sequence type byte.
    Escape,
    /// Inside a CSI sequence (`ESC [`); consuming until a final byte.
    Csi,
    /// Inside an OSC sequence (`ESC ]`); consuming until BEL or ST.
    Osc,
}

/// The cursor and parser state of the console.
#[derive(Debug, Clone, Copy, PartialEq, Eq, Structural)]
pub struct TextCursor {
    pub col: u32,
    pub row: u32,
    pub ansi_state: AnsiState,
}

/// The cursor after a line feed: column 0 of the next row, or of the last row after a scroll.
pub open spec fn after_newline(c: TextCursor, rows: u32) -> TextCursor {
    if c.row + 1 >= rows {
        TextCursor { col: 0, row: (rows - 1) as u32, ..c }
    } else {
        TextCursor { col: 0, row: (c.row + 1) as u32, ..c }
    }
}

/// The cursor after the console consumed `byte`.
pub open spec fn cursor_step(c: TextCursor, byte: u8, cols: u32, rows: u32) -> TextCursor {
    match c.ansi_state {
        AnsiState::Escape => TextCursor {
            ansi_state: if byte == 0x5B {
                AnsiState::Csi
            } else if byte == 0x5D {
                AnsiState::Osc
            } else if byte == 0x1B {
                AnsiState::Escape
            } else {
                AnsiState::Normal
            },
            ..c
        },
        AnsiState::Csi => if 0x40 <= byte <= 0x7E {
            TextCursor { ansi_state: AnsiState::Normal, ..c }
        } else {
            c
        },
        AnsiState::Osc => if byte == 0x07 {
            TextCursor { ansi_state: AnsiState::Normal, ..c }
        } else if byte == 0x1B {
            TextCursor { ansi_state: AnsiState::Escape, ..c }
        } else {
            c
        },
        AnsiState::Normal => if byte == 0x1B {
            TextCursor { ansi_state: AnsiState::Escape, ..c }
        } else if 0x20 <= byte <= 0x7E {
            if c.col + 1 >= cols {
                after_newline(c, rows)
            } else {
                TextCursor { col: (c.col + 1) as u32, ..c }
            }
        } else if byte == 0x0A {
            after_newline(c, rows)
        } else if byte == 0x0D {
            TextCursor { col: 0, ..c }
        } else if byte == 0x08 {
            TextCursor { col: if c.col > 0 { (c.col - 1) as u32 } else { 0 }, ..c }
        } else {
            c
        },
    }
}

/// The cursor after the console consumed `bytes`, one after the other.
pub open spec fn cursor_after(c: TextCursor, bytes: Seq<u8>, cols: u32, rows: u32) -> TextCursor
    decreases bytes.len(),
{
    if bytes.len() == 0 {
        c
    } else {
        cursor_step(cursor_after(c, bytes.drop_last(), cols, rows), bytes.last(), cols, rows)
    }
}

proof fn lemma_cursor_after_push(c: TextCursor, bytes: Seq<u8>, b: u8, cols: u32, rows: u32)
    ensures
        cursor_after(c, bytes.push(b), cols, rows) == cursor_step(cursor_after(c, bytes, cols, rows), b, cols, rows),
{
    assert(bytes.push(b).drop_last() =~= bytes);
}

proof fn lemma_csi_prefix(c: TextCursor, params: Seq<u8>, k: int, cols: u32, rows: u32)
    requires
        c.ansi_state == AnsiState::Normal,
        0 <= k <= params.len(),
        forall|i: int| 0 <= i < params.len() ==> 0x20 <= #[trigger] params[i] <= 0x3F,
    ensures
        cursor_after(c, seq![0x1Bu8, 0x5Bu8] + params.take(k), cols, rows) == (TextCursor { ansi_state: AnsiState::Csi, ..c }),
    decreases k,
{
    if k == 0 {
        let s = seq![0x1Bu8, 0x5Bu8] + params.take(0);
        assert(s =~= seq![0x1Bu8].push(0x5Bu8));
        lemma_cursor_after_push(c, seq![0x1Bu8], 0x5B, cols, rows);
        assert(seq![0x1Bu8] =~= Seq::<u8>::empty().push(0x1B));
        lemma_cursor_after_push(c, Seq::empty(), 0x1B, cols, rows);
    } else {
        lemma_csi_prefix(c, params, k - 1, cols, rows);
        let s = seq![0x1Bu8, 0x5Bu8] + params.take(k);
        assert(s =~= (seq![0x1Bu8, 0x5Bu8] + params.take(k - 1)).push(params[k - 1]));
        lemma_cursor_after_push(c, seq![0x1Bu8, 0x5Bu8] + params.take(k - 1), params[k - 1], cols, rows);
    }
}

/// A CSI escape sequence (`ESC [`, parameter and intermediate bytes 0x20 to 0x3F, and a final
/// byte 0x40 to 0x7E) written from normal text leaves the cursor where it was and the console
/// back in normal text: the sequence is not drawn.
pub proof fn lemma_csi_sequence_is_stripped(c: TextCursor, params: Seq<u8>, final_byte: u8, cols: u32, rows: u32)
    requires
        c.ansi_state == AnsiState::Normal,
        forall|i: int| 0 <= i < params.len() ==> 0x20 <= #[trigger] params[i] <= 0x3F,
        0x40 <= final_byte <= 0x7E,
    ensures
        cursor_after(c, seq![0x1Bu8, 0x5Bu8] + params + seq![final_byte], cols, rows) == c,
{
    lemma_csi_prefix(c, params, params.len() as int, cols, rows);
    assert(params.take(params.len() as int) =~= params);
    let s = seq![0x1Bu8, 0x5Bu8] + params;
    assert(s + seq![final_byte] =~= s.push(final_byte));
    lemma_cursor_after_push(c, s, final_byte, cols, rows);
}

proof fn lemma_osc_prefix(c: TextCursor, text: Seq<u8>, k: int, cols: u32, rows: u32)
    requires
        c.ansi_state == AnsiState::Normal,
        0 <= k <= text.len(),
        forall|i: int| 0 <= i < text.len() ==> #[trigger] text[i] != 0x07 && text[i] != 0x1B,
    ensures
        cursor_after(c, seq![0x1Bu8, 0x5Du8] + text.take(k), cols, rows) == (TextCursor { ansi_state: AnsiState::Osc, ..c }),
    decreases k,
{
    if k == 0 {
        let s = seq![0x1Bu8, 0x5Du8] + text.take(0);
        assert(s =~= seq![0x1Bu8].push(0x5Du8));
        lemma_cursor_after_push(c, seq![0x1Bu8], 0x5D, cols, rows);
        assert(seq![0x1Bu8] =~= Seq::<u8>::empty().push(0x1B));
        lemma_cursor_after_push(c, Seq::empty(), 0x1B, cols, rows);
    } else {
        lemma_osc_prefix(c, text, k - 1, cols, rows);
        let s = seq![0x1Bu8, 0x5Du8] + text.take(k);
        assert(s =~= (seq![0x1Bu8, 0x5Du8] + text.take(k - 1)).push(text[k - 1]));
        lemma_cursor_after_push(c, seq![0x1Bu8, 0x5Du8] + text.take(k - 1), text[k - 1], cols, rows);
    }
}

/// An OSC sequence (`ESC ]`, any text without BEL or ESC, and BEL) written from normal text
/// leaves the cursor where it was and the console back in normal text: it is not drawn.
pub proof fn lemma_osc_sequence_is_stripped(c: TextCursor, text: Seq<u8>, cols: u32, rows: u32)
    requires
        c.ansi_state == AnsiState::Normal,
        forall|i: int| 0 <= i < text.len() ==> #[trigger] text[i] != 0x07 && text[i] != 0x1B,
    ensures
        cursor_after(c, seq![0x1Bu8, 0x5Du8] + text + seq![0x07u8], cols, rows) == c,
{
    lemma_osc_prefix(c, text, text.len() as int, cols, rows);
    assert(text.take(text.len() as int) =~= text);
    let s = seq![0x1Bu8, 0x5Du8] + text;
    assert(s + seq![0x07u8] =~= s.push(0x07));
    lemma_cursor_after_push(c, s, 0x07, cols, rows);
}

/// Printable text that fits on the cursor's row moves the cursor right by one column per byte.
pub proof fn lemma_printable_text_advances(c: TextCursor, text: Seq<u8>, cols: u32, rows: u32)
    requires
        c.ansi_state == AnsiState::Normal,
        c.col + text.len() < cols,
        forall|i: int| 0 <= i < text.len() ==> 0x20 <= #[trigger] text[i] <= 0x7E,
    ensures
        cursor_after(c, text, cols, rows) == (TextCursor { col: (c.col + text.len()) as u32, ..c }),
    decreases text.len(),
{
    if text.len() > 0 {
        let init = text.drop_last();
        assert forall|i: int| 0 <= i < init.len() implies 0x20 <= #[trigger] init[i] <= 0x7E by {
            assert(init[i] == text[i]);
        }
        lemma_printable_text_advances(c, init, cols, rows);
    }
}

/// The control bytes in normal text: carriage return moves the cursor to column 0 of its row,
/// line feed to column 0 of the next row (of the last row where the cursor was on it, which
/// then scrolls), and backspace one column left (none from column 0); none of them changes
/// the escape state.
pub proof fn lemma_control_bytes(c: TextCursor, cols: u32, rows: u32)
    requires
        c.ansi_state == AnsiState::Normal,
        rows >= 1,
    ensures
        cursor_step(c, 0x0D, cols, rows) == (TextCursor { col: 0, ..c }),
        cursor_step(c, 0x0A, cols, rows) == (TextCursor {
            col: 0,
            row: if c.row + 1 < rows { (c.row + 1) as u32 } else { (rows - 1) as u32 },
            ..c
        }),
        cursor_step(c, 0x08, cols, rows) == (TextCursor { col: if c.col == 0 { 0 } else { (c.col - 1) as u32 }, ..c }),
        scrolls(c, 0x0A, cols, rows) <==> c.row + 1 >= rows,
{
}

/// The screen after a scroll by one text row of `rows`: the bottom row cleared to `bg`, and
/// every text row above it holding the row below it.
pub open spec fn scrolled(old: FrameBufferMemory, new: FrameBufferMemory, rows: u32, bg: u32) -> bool {
    let bottom = (rows - 1) * FONT_HEIGHT;
    forall|px: int, py: int|
        0 <= px < old.stride() && 0 <= py < old.spec_height() ==> #[trigger] new.pixel(px, py) == if bottom
            <= py < bottom + FONT_HEIGHT && px < old.spec_width() {
            bg
        } else if py < bottom && px < old.spec_width() {
            old.pixel(px, py + FONT_HEIGHT)
        } else {
            old.pixel(px, py)
        }
}

/// The screen after painting text cell `(col, row)` with the 16 scanlines of `bitmap`, set bits
/// in `fg` and clear bits in `bg`: the cell's pixels on screen take the glyph's colours, every
/// other pixel keeps its own.
pub open spec fn cell_painted(
    old: FrameBufferMemory,
    new: FrameBufferMemory,
    col: u32,
    row: u32,
    bitmap: Seq<u8>,
    fg: u32,
    bg: u32,
) -> bool {
    let x = col * FONT_WIDTH;
    let y = row * FONT_HEIGHT;
    &&& new.wf()
    &&& new.same_geometry(&old)
    &&& forall|px: int, py: int|
        0 <= px < old.stride() && 0 <= py < old.spec_height() ==> #[trigger] new.pixel(px, py) == if in_rect(
            px,
            py,
            x,
            y,
            FONT_WIDTH as int,
            FONT_HEIGHT as int,
            old.spec_width() as int,
            old.spec_height() as int,
        ) {
            glyph_color(bitmap[py - y], px - x, fg, bg)
        } else {
            old.pixel(px, py)
        }
}

/// The screen after clearing text cell `(col, row)` to `color`, every other pixel kept.
pub open spec fn cell_filled(old: FrameBufferMemory, new: FrameBufferMemory, col: u32, row: u32, color: u32) -> bool {
    let x = col * FONT_WIDTH;
    let y = row * FONT_HEIGHT;
    &&& new.wf()
    &&& new.same_geometry(&old)
    &&& forall|px: int, py: int|
        0 <= px < old.stride() && 0 <= py < old.spec_height() ==> #[trigger] new.pixel(px, py) == if in_rect(
            px,
            py,
            x,
            y,
            FONT_WIDTH as int,
            FONT_HEIGHT as int,
            old.spec_width() as int,
            old.spec_height() as int,
        ) {
            color
        } else {
            old.pixel(px, py)
        }
}

/// Consuming `byte` at cursor `c` scrolls the screen: in the Normal state on the last row, a
/// line feed, or a printable character in the last column.
pub open spec fn scrolls(c: TextCursor, byte: u8, cols: u32, rows: u32) -> bool {
    &&& c.ansi_state == AnsiState::Normal
    &&& c.row + 1 >= rows
    &&& (byte == 0x0A || (0x20 <= byte <= 0x7E && c.col + 1 >= cols))
}

/// The DMA transfer that moves the text rows 1.. of `fb`, a screen of `rows` text rows, up by
/// one row: from 16 scanlines past the framebuffer's bus address to that address, `rows - 1`
/// text rows of scanlines, each the visible width of the screen.
pub open spec fn scroll_transfer_of(fb: FrameBufferMemory, rows: u32) -> Dma2DTransfer {
    Dma2DTransfer {
        src_bus_addr: (fb.spec_bus_addr() + FONT_HEIGHT * fb.spec_pitch()) as u32,
        dst_bus_addr: fb.spec_bus_addr(),
        row_len_bytes: (fb.spec_width() * 4) as u32,
        row_count: ((rows - 1) * FONT_HEIGHT) as u32,
        src_stride: (fb.spec_pitch() - fb.spec_width() * 4) as u32,
        dst_stride: (fb.spec_pitch() - fb.spec_width() * 4) as u32,
    }
}

/// A framebuffer text console.
pub struct FbConsole {
    id: String,
    ctx: DrawingContext,
    cursor: TextCursor,
    cols: u32,
    rows: u32,
    fg: u32,
    bg: u32,
    dma_failed: bool,
    stats: FbStats,
    font: Vec<u8>,
}

impl FbConsole {
    /// The framebuffer the console draws on.
    pub closed spec fn spec_fb(&self) -> FrameBufferMemory {
        self.ctx.fb
    }

    pub closed spec fn spec_stats(&self) -> FbStats {
        self.stats
    }

    pub closed spec fn spec_cursor(&self) -> TextCursor {
        self.cursor
    }

    pub closed spec fn spec_cols(&self) -> u32 {
        self.cols
    }

    pub closed spec fn spec_rows(&self) -> u32 {
        self.rows
    }

    pub closed spec fn spec_fg(&self) -> u32 {
        self.fg
    }

    pub closed spec fn spec_bg(&self) -> u32 {
        self.bg
    }

    pub closed spec fn spec_dma_failed(&self) -> bool {
        self.dma_failed
    }

    pub closed spec fn spec_id(&self) -> Seq<char> {
        self.id@
    }

    pub closed spec fn spec_font(&self) -> Seq<u8> {
        self.font@
    }

    /// The console fits the framebuffer: `cols` x `rows` cells of 8x16 pixels, the cursor on a
    /// cell (row 0 of a screen lower than one text row), its column at most `cols`, and a full
    /// font.
    pub closed spec fn wf(&self) -> bool {
        &&& self.ctx.fb.wf()
        &&& self.cols == self.ctx.fb.spec_width() / FONT_WIDTH
        &&& self.rows == self.ctx.fb.spec_height() / FONT_HEIGHT
        &&& (self.rows >= 1 ==> self.cursor.row < self.rows)
        &&& (self.rows == 0 ==> self.cursor.row == 0)
        &&& self.cursor.col <= self.cols
        &&& self.font@.len() == FONT_GLYPHS * FONT_HEIGHT
    }

    /// A scroll of this console can run: the screen has a text row, and where the DMA engine
    /// will be asked, the source of its copy (16 scanlines past the framebuffer's bus address)
    /// is addressable.
    pub open spec fn can_scroll(&self, has_engine: bool) -> bool {
        &&& self.spec_rows() >= 1
        &&& (has_engine && !self.spec_dma_failed() ==> self.spec_fb().spec_bus_addr() + FONT_HEIGHT
            * self.spec_fb().spec_pitch() <= u32::MAX)
    }

    /// A console of `id` on `fb` with the glyphs of `font` (16 bytes for each printable ASCII
    /// character from 0x20 on); the screen is cleared to the background colour.
    pub fn new(id: String, fb: FrameBufferMemory, font: Vec<u8>) -> (con: Self)
        requires
            fb.wf(),
            font@.len() == FONT_GLYPHS * FONT_HEIGHT,
        ensures
            ({
                &&& con.wf()
                &&& con.spec_fb().same_geometry(&fb)
                &&& con.spec_cols() == fb.spec_width() / FONT_WIDTH
                &&& con.spec_rows() == fb.spec_height() / FONT_HEIGHT
                &&& con.spec_cursor() == (TextCursor { col: 0, row: 0, ansi_state: AnsiState::Normal })
                &&& con.spec_fg() == DEFAULT_FG
                &&& con.spec_bg() == DEFAULT_BG
                &&& !con.spec_dma_failed()
                &&& con.spec_stats() == zero_stats()
                &&& con.spec_font() == font@
                &&& con.spec_id() == id@
                &&& forall|px: int, py: int|
                    0 <= px < fb.stride() && 0 <= py < fb.spec_height() ==> #[trigger] con.spec_fb().pixel(
                        px,
                        py,
                    ) == if px < fb.spec_width() {
                        DEFAULT_BG
                    } else {
                        fb.pixel(px, py)
                    }
            }),
    {
        let width = fb.width();
        let height = fb.height();
        let cols = width / FONT_WIDTH;
        let rows = height / FONT_HEIGHT;
        let mut ctx = DrawingContext::new(fb);
        ctx.fill_rect(0, 0, width, height, DEFAULT_BG);
        let con = FbConsole {
            id,
            ctx,
            cursor: TextCursor { col: 0, row: 0, ansi_state: AnsiState::Normal },
            cols,
            rows,
            fg: DEFAULT_FG,
            bg: DEFAULT_BG,
            dma_failed: false,
            stats: FbStats {
                scrolls: 0,
                dma_attempts: 0,
                dma_successes: 0,
                no_engine_fallbacks: 0,
                busy_fallbacks: 0,
                error_fallbacks: 0,
                disabled_fallbacks: 0,
                last_dma_error: FB_DMA_ERROR_NONE,
            },
            font,
        };
        con
    }

    /// The console's device id.
    pub fn id(&self) -> (s: &str)
        ensures
            s@ == self.spec_id(),
    {
        self.id.as_str()
    }

    /// The cursor and parser state.
    pub fn cursor(&self) -> (c: TextCursor)
        ensures
            c == self.spec_cursor(),
    {
        self.cursor
    }

    /// The text columns and rows.
    pub fn size(&self) -> (s: (u32, u32))
        ensures
            s == (self.spec_cols(), self.spec_rows()),
    {
        (self.cols, self.rows)
    }

    /// The scroll statistics.
    pub fn stats(&self) -> (s: FbStats)
        ensures
            s == self.spec_stats(),
    {
        self.stats
    }

    /// DMA failed before and is no longer tried.
    pub fn dma_failed(&self) -> (b: bool)
        ensures
            b == self.spec_dma_failed(),
    {
        self.dma_failed
    }

    /// What a well-formed console is: a well-formed framebuffer divided into `cols` x `rows`
    /// cells of 8x16 pixels, the cursor on a cell (row 0 where the screen is lower than a text
    /// row) with its column at most `cols`, and a full font.
    pub proof fn lemma_wf(&self)
        requires
            self.wf(),
        ensures
            self.spec_fb().wf(),
            self.spec_cols() == self.spec_fb().spec_width() / FONT_WIDTH,
            self.spec_rows() == self.spec_fb().spec_height() / FONT_HEIGHT,
            self.spec_rows() >= 1 ==> self.spec_cursor().row < self.spec_rows(),
            self.spec_rows() == 0 ==> self.spec_cursor().row == 0,
            self.spec_cursor().col <= self.spec_cols(),
            self.spec_font().len() == FONT_GLYPHS * FONT_HEIGHT,
    {
    }

    /// A printable byte is drawn with its own sixteen scanlines of the font, those at
    /// `(byte - 0x20) * 16`; two printable bytes use different scanlines.
    pub proof fn lemma_glyph_of_byte(&self, byte: u8, other: u8)
        requires
            0x20 <= byte <= 0x7E,
        ensures
            self.glyph_of(byte) == self.spec_font().subrange((byte - 0x20) * 16, (byte - 0x20) * 16 + 16),
            0x20 <= other <= 0x7E && other != byte ==> (other - 0x20) * 16 != (byte - 0x20) * 16,
    {
    }

    /// The framebuffer the console draws on.
    pub fn framebuffer(&self) -> (f: &FrameBufferMemory)
        ensures
            *f == self.spec_fb(),
            self.wf() ==> f.wf(),
    {
        &self.ctx.fb
    }

    /// The console after a scroll that took `path` from `old`: statistics and DMA state
    /// updated, the text moved up and the bottom row cleared, and the rest
    /// of the console (but the cursor) as it was.
    pub open spec fn scroll_result(old: Self, new: Self, path: ScrollPath) -> bool {
        &&& new.wf()
        &&& new.spec_fb().same_geometry(&old.spec_fb())
        &&& new.spec_stats() == scroll_stats(old.spec_stats(), path)
        &&& new.spec_dma_failed() == (old.spec_dma_failed() || disables_dma(path))
        &&& new.spec_cols() == old.spec_cols()
        &&& new.spec_rows() == old.spec_rows()
        &&& new.spec_fg() == old.spec_fg()
        &&& new.spec_bg() == old.spec_bg()
        &&& new.spec_font() == old.spec_font()
        &&& scrolled(
            old.spec_fb(),
            new.spec_fb(),
            old.spec_rows(),
            old.spec_bg(),
        )
    }

    /// The path a scroll takes: no DMA once it failed, none without an engine, else the
    /// engine's outcome.
    pub open spec fn path_allowed(dma_failed: bool, has_engine: bool, path: ScrollPath) -> bool {
        &&& dma_failed ==> path == ScrollPath::Disabled
        &&& !dma_failed && !has_engine ==> path == ScrollPath::NoEngine
        &&& !dma_failed && has_engine ==> (path is DmaDone || path is DmaFailed)
    }

    /// A scroll, where there was one, took a path that `path_allowed` admits.
    pub open spec fn scroll_allowed(dma_failed: bool, has_engine: bool, scroll: Option<ScrollPath>) -> bool {
        scroll matches Some(path) ==> Self::path_allowed(dma_failed, has_engine, path)
    }

    /// What output leaves as it was: the geometry, the text grid, the colours and the font.
    pub open spec fn same_setup(old: Self, new: Self) -> bool {
        &&& new.wf()
        &&& new.spec_fb().same_geometry(&old.spec_fb())
        &&& new.spec_cols() == old.spec_cols()
        &&& new.spec_rows() == old.spec_rows()
        &&& new.spec_fg() == old.spec_fg()
        &&& new.spec_bg() == old.spec_bg()
        &&& new.spec_font() == old.spec_font()
    }

    /// The 16 scanlines of the glyph of a printable character.
    pub open spec fn glyph_of(&self, byte: u8) -> Seq<u8> {
        self.spec_font().subrange((byte - 0x20) * FONT_HEIGHT, (byte - 0x20) * FONT_HEIGHT + FONT_HEIGHT)
    }

    /// Statistics and DMA state of `new` are those of `old`.
    pub open spec fn counters_kept(old: Self, new: Self) -> bool {
        &&& new.spec_stats() == old.spec_stats()
        &&& new.spec_dma_failed() == old.spec_dma_failed()
    }

    /// The screen `from` scrolled by a scroll of `old` that took `path`, with the statistics
    /// and DMA state that path leaves.
    pub open spec fn scroll_effect(old: Self, from: FrameBufferMemory, new: Self, path: ScrollPath) -> bool {
        &&& new.spec_stats() == scroll_stats(old.spec_stats(), path)
        &&& new.spec_dma_failed() == (old.spec_dma_failed() || disables_dma(path))
        &&& scrolled(from, new.spec_fb(), old.spec_rows(), old.spec_bg())
    }

    /// The console `new` after `old` consumed `byte`, where `scroll` is the path of the scroll
    /// this caused, if it caused one: a printable character paints its cell (then the screen
    /// scrolls where it wrapped on the last row), a line feed on the last row scrolls, a
    /// backspace clears the cell it moves to; nothing else changes the screen.
    pub open spec fn output_step(old: Self, new: Self, byte: u8, scroll: Option<ScrollPath>) -> bool {
        let c = old.spec_cursor();
        let fb = old.spec_fb();
        let normal = c.ansi_state == AnsiState::Normal;
        &&& Self::same_setup(old, new)
        &&& new.spec_cursor() == cursor_step(c, byte, old.spec_cols(), old.spec_rows())
        &&& (scroll is Some <==> scrolls(c, byte, old.spec_cols(), old.spec_rows()))
        &&& if normal && 0x20 <= byte <= 0x7E {
            match scroll {
                None => cell_painted(fb, new.spec_fb(), c.col, c.row, old.glyph_of(byte), old.spec_fg(), old.spec_bg())
                    && Self::counters_kept(old, new),
                Some(path) => exists|mid: FrameBufferMemory|
                    cell_painted(fb, mid, c.col, c.row, old.glyph_of(byte), old.spec_fg(), old.spec_bg())
                        && #[trigger] Self::scroll_effect(old, mid, new, path),
            }
        } else if normal && byte == 0x08 {
            &&& cell_filled(
                fb,
                new.spec_fb(),
                if c.col > 0 { (c.col - 1) as u32 } else { 0 },
                c.row,
                old.spec_bg(),
            )
            &&& Self::counters_kept(old, new)
        } else {
            match scroll {
                None => new.spec_fb() == fb && Self::counters_kept(old, new),
                Some(path) => Self::scroll_effect(old, fb, new, path),
            }
        }
    }

    /// The consoles `states` (from `old` to `new`) are those `old` passes through while it
    /// consumes `bytes`, one after the other, with the scrolls `scrolls`, each taking a path
    /// that `path_allowed` admits at the time.
    pub open spec fn output_trace(
        old: Self,
        new: Self,
        bytes: Seq<u8>,
        has_engine: bool,
        states: Seq<Self>,
        scrolls: Seq<Option<ScrollPath>>,
    ) -> bool {
        &&& states.len() == bytes.len() + 1
        &&& scrolls.len() == bytes.len()
        &&& states[0] == old
        &&& states.last() == new
        &&& forall|k: int|
            #![trigger scrolls[k]]
            0 <= k < bytes.len() ==> Self::scroll_allowed(states[k].spec_dma_failed(), has_engine, scrolls[k])
                && Self::output_step(states[k], states[k + 1], bytes[k], scrolls[k])
    }

    /// The console `new` is one that `old` can become by consuming `bytes`.
    pub open spec fn output_run(old: Self, new: Self, bytes: Seq<u8>, has_engine: bool) -> bool {
        exists|states: Seq<Self>, scrolls: Seq<Option<ScrollPath>>|
            Self::output_trace(old, new, bytes, has_engine, states, scrolls)
    }

    /// The DMA transfer a scroll asks for: the text rows 1.. of the screen, moved up by one row.
    pub fn scroll_request(&self) -> (t: Dma2DTransfer)
        requires
            self.wf(),
            self.spec_rows() >= 1,
            self.spec_fb().spec_bus_addr() + FONT_HEIGHT * self.spec_fb().spec_pitch() <= u32::MAX,
        ensures
            t == scroll_transfer_of(self.spec_fb(), self.spec_rows()),
    {
        let row_len_bytes = self.ctx.fb.width() * 4;
        let pitch = self.ctx.pitch();
        assert((self.rows - 1) * FONT_HEIGHT <= self.ctx.fb.spec_height()) by {
            assert(self.rows * FONT_HEIGHT <= self.ctx.fb.spec_height());
        }
        Dma2DTransfer {
            src_bus_addr: self.ctx.bus_addr() + FONT_HEIGHT * pitch,
            dst_bus_addr: self.ctx.bus_addr(),
            row_len_bytes,
            row_count: (self.rows - 1) * FONT_HEIGHT,
            src_stride: pitch - row_len_bytes,
            dst_stride: pitch - row_len_bytes,
        }
    }

    /// Scrolls the screen up by one text row and clears the bottom row; the cursor moves to the
    /// last row. Returns how the text was moved.
    pub fn scroll<E: DmaEngine>(&mut self, dma: Option<&E>) -> (path: ScrollPath)
        requires
            old(self).wf(),
            old(self).can_scroll(dma is Some),
        ensures
            Self::path_allowed(old(self).spec_dma_failed(), dma is Some, path),
            path is DmaDone ==> (dma matches Some(e) && e.copy_outcome(
                scroll_transfer_of(old(self).spec_fb(), old(self).spec_rows()),
                None,
            )),
            path matches ScrollPath::DmaFailed(err) ==> (dma matches Some(e) && e.copy_outcome(
                scroll_transfer_of(old(self).spec_fb(), old(self).spec_rows()),
                Some(err),
            )),
            Self::scroll_result(*old(self), *final(self), path),
            final(self).spec_cursor() == (TextCursor {
                row: (old(self).spec_rows() - 1) as u32,
                ..old(self).spec_cursor()
            }),
    {
        let ghost old_fb = self.ctx.fb;
        self.stats.scrolls = increment(self.stats.scrolls);
        let path = if self.dma_failed {
            self.stats.disabled_fallbacks = increment(self.stats.disabled_fallbacks);
            ScrollPath::Disabled
        } else {
            match dma {
                Some(engine) => {
                    self.stats.dma_attempts = increment(self.stats.dma_attempts);
                    let transfer = self.scroll_request();
                    let result = engine.copy_2d(transfer);
                    match result {
                        Ok(()) => {
                            self.stats.dma_successes = increment(self.stats.dma_successes);
                            self.stats.last_dma_error = FB_DMA_ERROR_NONE;
                        },
                        Err(DmaError::Busy) => {
                            self.stats.busy_fallbacks = increment(self.stats.busy_fallbacks);
                            self.stats.last_dma_error = FB_DMA_ERROR_BUSY;
                        },
                        Err(DmaError::Unavailable) => {
                            self.stats.no_engine_fallbacks = increment(self.stats.no_engine_fallbacks);
                            self.stats.last_dma_error = FB_DMA_ERROR_UNAVAILABLE;
                        },
                        Err(err) => {
                            self.stats.error_fallbacks = increment(self.stats.error_fallbacks);
                            self.stats.last_dma_error = match err {
                                DmaError::InvalidTransfer => FB_DMA_ERROR_INVALID,
                                DmaError::Timeout => FB_DMA_ERROR_TIMEOUT,
                                DmaError::Fault => FB_DMA_ERROR_FAULT,
                                _ => FB_DMA_ERROR_NONE,
                            };
                            self.dma_failed = true;
                        },
                    }
                    match result {
                        Ok(()) => ScrollPath::DmaDone,
                        Err(e) => ScrollPath::DmaFailed(e),
                    }
                },
                None => {
                    self.stats.no_engine_fallbacks = increment(self.stats.no_engine_fallbacks);
                    self.stats.last_dma_error = FB_DMA_ERROR_UNAVAILABLE;
                    ScrollPath::NoEngine
                },
            }
        };
        let fb_width = self.ctx.width();
        let row_count = (self.rows - 1) * FONT_HEIGHT;
        assert(self.rows * FONT_HEIGHT <= old_fb.spec_height());
        // Shift all rows one row upward. Where the DMA engine moved the text on screen, this
        // brings the console's copy of the screen to the same picture.
        self.ctx.copy_region(0, FONT_HEIGHT, 0, 0, fb_width, row_count);
        proof {
            assert(old_fb.offset(0, 0) <= old_fb.offset(0, FONT_HEIGHT as int)) by {
                assert(0 <= FONT_HEIGHT * old_fb.stride()) by (nonlinear_arith)
                    requires
                        old_fb.stride() >= 0,
                ;
            }
        }
        let ghost before_fill = self.ctx.fb;
        self.ctx.fill_rect(0, row_count, fb_width, FONT_HEIGHT, self.bg);
        self.cursor.row = self.rows - 1;
        proof {
            let bottom = (self.rows - 1) * FONT_HEIGHT;
            assert forall|px: int, py: int|
                0 <= px < old_fb.stride() && 0 <= py < old_fb.spec_height() implies #[trigger] self.ctx.fb.pixel(
                px,
                py,
            ) == if bottom <= py < bottom + FONT_HEIGHT && px < old_fb.spec_width() {
                self.bg
            } else if py < bottom && px < old_fb.spec_width() {
                old_fb.pixel(px, py + FONT_HEIGHT)
            } else {
                old_fb.pixel(px, py)
            } by {
                assert(self.ctx.fb.pixel(px, py) == if in_rect(px, py, 0, row_count as int, fb_width as int, FONT_HEIGHT as int, old_fb.spec_width() as int, old_fb.spec_height() as int) {
                    self.bg
                } else {
                    before_fill.pixel(px, py)
                });
                if py < bottom && px < old_fb.spec_width() {
                    assert(before_fill.pixel(px, py) == old_fb.pixel(px - 0 + 0, py - 0 + FONT_HEIGHT));
                }
            }
        }
        path
    }

    /// Moves the cursor to column 0 of the next row, scrolling when it was on the last row.
    /// Returns how the scroll went, if there was one.
    pub fn newline<E: DmaEngine>(&mut self, dma: Option<&E>) -> (r: Option<ScrollPath>)
        requires
            old(self).wf(),
            old(self).spec_cursor().row + 1 >= old(self).spec_rows() ==> old(self).can_scroll(
                dma is Some,
            ),
        ensures
            final(self).wf(),
            final(self).spec_cursor() == after_newline(old(self).spec_cursor(), old(self).spec_rows()),
            r is Some <==> old(self).spec_cursor().row + 1 >= old(self).spec_rows(),
            r matches Some(path) ==> Self::path_allowed(old(self).spec_dma_failed(), dma is Some, path)
                && Self::scroll_result(*old(self), *final(self), path),
            r is None ==> final(self).spec_fb() == old(self).spec_fb() && final(self).spec_stats() == old(self).spec_stats() && final(self).spec_dma_failed() == old(self).spec_dma_failed(),
            final(self).spec_cols() == old(self).spec_cols(),
            final(self).spec_rows() == old(self).spec_rows(),
            final(self).spec_fg() == old(self).spec_fg(),
            final(self).spec_bg() == old(self).spec_bg(),
            final(self).spec_font() == old(self).spec_font(),
            final(self).spec_fb().same_geometry(&old(self).spec_fb()),
    {
        self.cursor.col = 0;
        if self.cursor.row + 1 >= self.rows {
            let path = self.scroll(dma);
            Some(path)
        } else {
            self.cursor.row = self.cursor.row + 1;
            None
        }
    }

    /// The bitmap of a printable character: its 16 bytes of the font.
    fn glyph(&self, byte: u8) -> (g: Vec<u8>)
        requires
            self.wf(),
            0x20 <= byte <= 0x7E,
        ensures
            g@ == self.spec_font().subrange(
                (byte - 0x20) * FONT_HEIGHT,
                (byte - 0x20) * FONT_HEIGHT + FONT_HEIGHT,
            ),
    {
        let start = ((byte - 0x20) as u32 * FONT_HEIGHT) as usize;
        let mut g: Vec<u8> = Vec::new();
        let mut i: usize = 0;
        while i < FONT_HEIGHT as usize
            invariant
                self.wf(),
                start == (byte - 0x20) * FONT_HEIGHT,
                0x20 <= byte <= 0x7E,
                0 <= i <= FONT_HEIGHT,
                g@ == self.spec_font().subrange(start as int, start + i),
            decreases FONT_HEIGHT - i,
        {
            g.push(self.font[start + i]);
            i += 1;
        }
        g
    }

    /// Consumes one byte of output: escape sequences change the parser state only; in the
    /// Normal state a printable character is drawn at the cursor and the cursor advances
    /// (wrapping to a new line at the right edge), a line feed starts a new line, a carriage
    /// return goes to column 0, a backspace moves back one column and clears that cell.
    /// Returns how the screen scrolled, where the byte made it scroll.
    pub fn write_byte<E: DmaEngine>(&mut self, byte: u8, dma: Option<&E>) -> (scroll: Option<ScrollPath>)
        requires
            old(self).wf(),
            scrolls(old(self).spec_cursor(), byte, old(self).spec_cols(), old(self).spec_rows())
                ==> old(self).can_scroll(dma is Some),
        ensures
            Self::scroll_allowed(old(self).spec_dma_failed(), dma is Some, scroll),
            Self::output_step(*old(self), *final(self), byte, scroll),
            old(self).spec_cursor().ansi_state == AnsiState::Normal && 0x20 <= byte <= 0x7E ==> {
                let glyph = old(self).spec_font().subrange((byte - 0x20) * 16, (byte - 0x20) * 16 + 16);
                let c = old(self).spec_cursor();
                &&& scroll is None ==> cell_painted(
                    old(self).spec_fb(),
                    final(self).spec_fb(),
                    c.col,
                    c.row,
                    glyph,
                    old(self).spec_fg(),
                    old(self).spec_bg(),
                )
                &&& scroll is Some ==> exists|mid: FrameBufferMemory|
                    #[trigger] cell_painted(
                        old(self).spec_fb(),
                        mid,
                        c.col,
                        c.row,
                        glyph,
                        old(self).spec_fg(),
                        old(self).spec_bg(),
                    )
            },
    {
        let ghost fbw = self.ctx.fb.spec_width();
        let ghost fbh = self.ctx.fb.spec_height();
        let ghost start = *self;
        proof {
            assert(self.cols * FONT_WIDTH <= fbw) by (nonlinear_arith)
                requires
                    self.cols == fbw / FONT_WIDTH,
                    FONT_WIDTH == 8,
            ;
            assert(self.rows * FONT_HEIGHT <= fbh) by (nonlinear_arith)
                requires
                    self.rows == fbh / FONT_HEIGHT,
                    FONT_HEIGHT == 16,
            ;
            assert(self.cursor.col * FONT_WIDTH <= self.cols * FONT_WIDTH) by (nonlinear_arith)
                requires
                    self.cursor.col <= self.cols,
            ;
            if self.rows >= 1 {
                assert(self.cursor.row * FONT_HEIGHT + FONT_HEIGHT <= self.rows * FONT_HEIGHT) by (nonlinear_arith)
                    requires
                        self.cursor.row < self.rows,
                ;
            }
        }
        match self.cursor.ansi_state {
            AnsiState::Escape => {
                self.cursor.ansi_state = if byte == 0x5B {
                    AnsiState::Csi
                } else if byte == 0x5D {
                    AnsiState::Osc
                } else if byte == 0x1B {
                    AnsiState::Escape
                } else {
                    AnsiState::Normal
                };
                None
            },
            AnsiState::Csi => {
                // Final byte of a CSI sequence is in 0x40..=0x7E; parameter and intermediate
                // bytes are consumed.
                if 0x40 <= byte && byte <= 0x7E {
                    self.cursor.ansi_state = AnsiState::Normal;
                }
                None
            },
            AnsiState::Osc => {
                if byte == 0x07 {
                    self.cursor.ansi_state = AnsiState::Normal;
                } else if byte == 0x1B {
                    self.cursor.ansi_state = AnsiState::Escape;
                }
                None
            },
            AnsiState::Normal => {
                if byte == 0x1B {
                    self.cursor.ansi_state = AnsiState::Escape;
                    None
                } else if 0x20 <= byte && byte <= 0x7E {
                    let px = self.cursor.col * FONT_WIDTH;
                    let py = self.cursor.row * FONT_HEIGHT;
                    let bitmap = self.glyph(byte);
                    self.ctx.draw_glyph(px, py, bitmap.as_slice(), self.fg, self.bg);
                    let ghost painted = *self;
                    assert(cell_painted(
                        start.spec_fb(),
                        self.spec_fb(),
                        start.spec_cursor().col,
                        start.spec_cursor().row,
                        start.glyph_of(byte),
                        start.spec_fg(),
                        start.spec_bg(),
                    ));
                    if self.cursor.col + 1 >= self.cols {
                        let r = self.newline(dma);
                        proof {
                            if let Some(path) = r {
                                assert(Self::scroll_effect(start, painted.spec_fb(), *self, path));
                            }
                        }
                        r
                    } else {
                        self.cursor.col = self.cursor.col + 1;
                        None
                    }
                } else if byte == 0x0A {
                    self.newline(dma)
                } else if byte == 0x0D {
                    self.cursor.col = 0;
                    None
                } else if byte == 0x08 {
                    if self.cursor.col > 0 {
                        self.cursor.col = self.cursor.col - 1;
                    }
                    let px = self.cursor.col * FONT_WIDTH;
                    let py = self.cursor.row * FONT_HEIGHT;
                    self.ctx.fill_rect(px, py, FONT_WIDTH, FONT_HEIGHT, self.bg);
                    None
                } else {
                    None
                }
            },
        }
    }

    /// Writes `bytes` to the console, one after the other.
    pub fn write<E: DmaEngine>(&mut self, bytes: &[u8], dma: Option<&E>)
        requires
            old(self).wf(),
            forall|k: int|
                0 <= k < bytes@.len() && scrolls(
                    cursor_after(old(self).spec_cursor(), bytes@.take(k), old(self).spec_cols(), old(self).spec_rows()),
                    #[trigger] bytes@[k],
                    old(self).spec_cols(),
                    old(self).spec_rows(),
                ) ==> old(self).can_scroll(dma is Some),
        ensures
            final(self).wf(),
            final(self).spec_cursor() == cursor_after(
                old(self).spec_cursor(),
                bytes@,
                old(self).spec_cols(),
                old(self).spec_rows(),
            ),
            final(self).spec_cols() == old(self).spec_cols(),
            final(self).spec_rows() == old(self).spec_rows(),
            final(self).spec_fg() == old(self).spec_fg(),
            final(self).spec_bg() == old(self).spec_bg(),
            final(self).spec_font() == old(self).spec_font(),
            final(self).spec_fb().same_geometry(&old(self).spec_fb()),
            Self::output_run(*old(self), *final(self), bytes@, dma is Some),
    {
        let mut i: usize = 0;
        let ghost mut states: Seq<Self> = seq![*self];
        let ghost mut scroll_log: Seq<Option<ScrollPath>> = Seq::empty();
        while i < bytes.len()
            invariant
                self.wf(),
                0 <= i <= bytes@.len(),
                self.spec_cursor() == cursor_after(
                    old(self).spec_cursor(),
                    bytes@.take(i as int),
                    old(self).spec_cols(),
                    old(self).spec_rows(),
                ),
                self.spec_cols() == old(self).spec_cols(),
                self.spec_rows() == old(self).spec_rows(),
                self.spec_fg() == old(self).spec_fg(),
                self.spec_bg() == old(self).spec_bg(),
                self.spec_font() == old(self).spec_font(),
                self.spec_fb().same_geometry(&old(self).spec_fb()),
                Self::output_trace(*old(self), *self, bytes@.take(i as int), dma is Some, states, scroll_log),
                old(self).spec_dma_failed() ==> self.spec_dma_failed(),
                forall|k: int|
                    0 <= k < bytes@.len() && scrolls(
                        cursor_after(old(self).spec_cursor(), bytes@.take(k), old(self).spec_cols(), old(self).spec_rows()),
                        #[trigger] bytes@[k],
                        old(self).spec_cols(),
                        old(self).spec_rows(),
                    ) ==> old(self).can_scroll(dma is Some),
            decreases bytes@.len() - i,
        {
            assert(bytes@[i as int] == bytes@[i as int]);
            assert(bytes@.take(i + 1).drop_last() =~= bytes@.take(i as int));
            let ghost prev_states = states;
            let ghost prev_scrolls = scroll_log;
            let scroll = self.write_byte(bytes[i], dma);
            proof {
                states = states.push(*self);
                scroll_log = scroll_log.push(scroll);
                let done = bytes@.take(i + 1);
                assert forall|k: int|
                    #![trigger scroll_log[k]]
                    0 <= k < done.len() implies Self::scroll_allowed(
                    states[k].spec_dma_failed(),
                    dma is Some,
                    scroll_log[k],
                ) && Self::output_step(states[k], states[k + 1], done[k], scroll_log[k]) by {
                    if k < i {
                        assert(prev_scrolls[k] == scroll_log[k]);
                        assert(done[k] == bytes@.take(i as int)[k]);
                    }
                }
            }
            i += 1;
        }
        assert(bytes@.take(i as int) =~= bytes@);
        assert(Self::output_trace(*old(self), *self, bytes@, dma is Some, states, scroll_log));
    }
}

/// The cursor never leaves the screen: from a cell of a `cols` x `rows` console, any output
/// keeps the row below `rows` and the column at most `cols`.
pub proof fn lemma_cursor_stays_on_screen(c: TextCursor, bytes: Seq<u8>, cols: u32, rows: u32)
    requires
        rows >= 1,
        c.row < rows,
        c.col <= cols,
    ensures
        cursor_after(c, bytes, cols, rows).row < rows,
        cursor_after(c, bytes, cols, rows).col <= cols,
    decreases bytes.len(),
{
    if bytes.len() > 0 {
        lemma_cursor_stays_on_screen(c, bytes.drop_last(), cols, rows);
    }
}

/// From the Normal state, `ESC [`, any parameter bytes and a final byte leave the cursor and
/// the parser state as they were.
pub proof fn lemma_csi_sequence_is_invisible(c: TextCursor, params: Seq<u8>, final_byte: u8, cols: u32, rows: u32)
    requires
        c.ansi_state == AnsiState::Normal,
        forall|k: int| 0 <= k < params.len() ==> !(0x40 <= #[trigger] params[k] <= 0x7E),
        0x40 <= final_byte <= 0x7E,
    ensures
        cursor_after(c, seq![0x1Bu8, 0x5Bu8] + params + seq![final_byte], cols, rows) == c,
    decreases params.len(),
{
    lemma_csi_params(c, params, cols, rows);
    let all = seq![0x1Bu8, 0x5Bu8] + params + seq![final_byte];
    assert(all.drop_last() =~= seq![0x1Bu8, 0x5Bu8] + params);
}

/// Parameter bytes of a CSI sequence keep the parser in the sequence and the cursor in place.
proof fn lemma_csi_params(c: TextCursor, params: Seq<u8>, cols: u32, rows: u32)
    requires
        c.ansi_state == AnsiState::Normal,
        forall|k: int| 0 <= k < params.len() ==> !(0x40 <= #[trigger] params[k] <= 0x7E),
    ensures
        cursor_after(c, seq![0x1Bu8, 0x5Bu8] + params, cols, rows) == (TextCursor {
            ansi_state: AnsiState::Csi,
            ..c
        }),
    decreases params.len(),
{
    let all = seq![0x1Bu8, 0x5Bu8] + params;
    if params.len() == 0 {
        assert(all =~= seq![0x1Bu8, 0x5Bu8]);
        assert(seq![0x1Bu8, 0x5Bu8].drop_last() =~= seq![0x1Bu8]);
        assert(seq![0x1Bu8].drop_last() =~= Seq::<u8>::empty());
        assert(cursor_after(c, Seq::<u8>::empty(), cols, rows) == c);
        assert(cursor_after(c, seq![0x1Bu8], cols, rows) == (TextCursor {
            ansi_state: AnsiState::Escape,
            ..c
        }));
    } else {
        let p = params.drop_last();
        assert forall|k: int| 0 <= k < p.len() implies !(0x40 <= #[trigger] p[k] <= 0x7E) by {
            assert(p[k] == params[k]);
        }
        lemma_csi_params(c, p, cols, rows);
        assert(all.drop_last() =~= seq![0x1Bu8, 0x5Bu8] + p);
        assert(all.last() == params.last());
        assert(!(0x40 <= params[params.len() - 1] <= 0x7E));
    }
}

/// An escape sequence draws nothing: a console that consumes `ESC [`, parameter bytes and a
/// final byte from the Normal state keeps its screen, cursor, statistics and DMA state.
pub proof fn lemma_escape_sequence_draws_nothing(
    old: FbConsole,
    new: FbConsole,
    params: Seq<u8>,
    final_byte: u8,
    has_engine: bool,
)
    requires
        old.spec_cursor().ansi_state == AnsiState::Normal,
        forall|k: int| 0 <= k < params.len() ==> !(0x40 <= #[trigger] params[k] <= 0x7E),
        0x40 <= final_byte <= 0x7E,
        FbConsole::output_run(old, new, seq![0x1Bu8, 0x5Bu8] + params + seq![final_byte], has_engine),
    ensures
        new.spec_fb() == old.spec_fb(),
        new.spec_cursor() == old.spec_cursor(),
        new.spec_stats() == old.spec_stats(),
        new.spec_dma_failed() == old.spec_dma_failed(),
{
    let bytes = seq![0x1Bu8, 0x5Bu8] + params + seq![final_byte];
    let (states, scrolls) = choose|states: Seq<FbConsole>, scrolls: Seq<Option<ScrollPath>>|
        FbConsole::output_trace(old, new, bytes, has_engine, states, scrolls);
    lemma_escape_prefix(old, params, final_byte, has_engine, states, scrolls, bytes.len() as int);
}

/// After the first `j` bytes of an escape sequence the console still shows what it showed, its
/// cursor in place and its parser in the state those bytes lead to.
proof fn lemma_escape_prefix(
    old: FbConsole,
    params: Seq<u8>,
    final_byte: u8,
    has_engine: bool,
    states: Seq<FbConsole>,
    scrolls: Seq<Option<ScrollPath>>,
    j: int,
)
    requires
        old.spec_cursor().ansi_state == AnsiState::Normal,
        forall|k: int| 0 <= k < params.len() ==> !(0x40 <= #[trigger] params[k] <= 0x7E),
        0x40 <= final_byte <= 0x7E,
        FbConsole::output_trace(
            old,
            states.last(),
            seq![0x1Bu8, 0x5Bu8] + params + seq![final_byte],
            has_engine,
            states,
            scrolls,
        ),
        0 <= j <= params.len() + 3,
    ensures
        states[j].spec_fb() == old.spec_fb(),
        states[j].spec_stats() == old.spec_stats(),
        states[j].spec_dma_failed() == old.spec_dma_failed(),
        states[j].spec_cursor() == (TextCursor {
            ansi_state: if j == 0 || j == params.len() + 3 {
                AnsiState::Normal
            } else if j == 1 {
                AnsiState::Escape
            } else {
                AnsiState::Csi
            },
            ..old.spec_cursor()
        }),
    decreases j,
{
    let bytes = seq![0x1Bu8, 0x5Bu8] + params + seq![final_byte];
    if j > 0 {
        lemma_escape_prefix(old, params, final_byte, has_engine, states, scrolls, j - 1);
        let k = j - 1;
        assert(FbConsole::output_step(states[k], states[k + 1], bytes[k], scrolls[k]));
        if 2 <= k < params.len() + 2 {
            assert(bytes[k] == params[k - 2]);
        }
    }
}

} // verus!
