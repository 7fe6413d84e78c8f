//! Display timing and the memory owned by the video unit.
//!
//! Time is counted in machine cycles, the unit in which the opcode table
//! states what an instruction costs. A frame is 154 line periods of 114
//! cycles each. Each of the first 144 lines passes through OAM scan (20
//! cycles), drawing (43) and horizontal blank (51); the last 10 line periods
//! are the vertical blank.

use vstd::prelude::*;
use vstd::arithmetic::div_mod::lemma_add_mod_noop;
use vstd::arithmetic::div_mod::lemma_fundamental_div_mod_converse;
use vstd::arithmetic::div_mod::lemma_mod_twice;
use vstd::arithmetic::div_mod::lemma_small_mod;

verus! {

/// Width of the screen in pixels.
pub const SCREEN_W: usize = 160;

/// Height of the screen in pixels.
pub const SCREEN_H: usize = 144;

/// Number of pixels of the screen.
pub const SCREEN_LEN: usize = 23040;

/// First address of video RAM.
pub const VRAM_BEG_ADDR: u16 = 0x8000;

/// Last address of video RAM.
pub const VRAM_END_ADDR: u16 = 0x9fff;

/// Size of video RAM in bytes.
pub const VRAM_LEN: usize = 8192;

/// Cycles spent scanning the sprite table at the start of a visible line.
pub const OAM_SCAN_CYCLES: usize = 20;

/// Cycles spent transferring the pixels of a visible line.
pub const DRAWING_CYCLES: usize = 43;

/// Cycles of horizontal blank at the end of a visible line.
pub const HBLANK_CYCLES: usize = 51;

/// Cycles of one line period.
pub const LINE_CYCLES: usize = 114;

/// Number of visible lines.
pub const VISIBLE_LINES: usize = 144;

/// Number of line periods in a frame, the vertical blank included.
pub const FRAME_LINES: usize = 154;

/// Cycles of one frame.
pub const FRAME_CYCLES: usize = 17556;

/// The phases of the display.
#[derive(Copy, Clone, Debug, PartialEq, Eq)]
pub enum Mode {
    /// Mode 0: the rest of a visible line after its pixels were sent.
    HBlank,
    /// Mode 1: the ten line periods after the last visible line.
    VBlank,
    /// Mode 2: the start of a visible line.
    OamScan,
    /// Mode 3: the pixels of a visible line are sent.
    Drawing,
}

impl Mode {
    /// Cycles the display stays in this mode before it moves on. For the
    /// vertical blank this is one line period.
    pub open spec fn spec_duration(self) -> usize {
        match self {
            Mode::OamScan => OAM_SCAN_CYCLES,
            Mode::Drawing => DRAWING_CYCLES,
            Mode::HBlank => HBLANK_CYCLES,
            Mode::VBlank => LINE_CYCLES,
        }
    }

    /// Cycles the display stays in this mode before it moves on. For the
    /// vertical blank this is one line period.
    #[verifier::when_used_as_spec(spec_duration)]
    pub fn duration(self) -> (r: usize)
        ensures
            r == self.spec_duration(),
    {
        match self {
            Mode::OamScan => OAM_SCAN_CYCLES,
            Mode::Drawing => DRAWING_CYCLES,
            Mode::HBlank => HBLANK_CYCLES,
            Mode::VBlank => LINE_CYCLES,
        }
    }

    /// Cycles of a line period that have passed when this mode begins.
    pub open spec fn offset(self) -> nat {
        match self {
            Mode::OamScan => 0,
            Mode::Drawing => OAM_SCAN_CYCLES as nat,
            Mode::HBlank => (OAM_SCAN_CYCLES + DRAWING_CYCLES) as nat,
            Mode::VBlank => 0,
        }
    }
}

/// Where the display is within a frame: the mode, the line, and the cycles
/// spent in the mode so far (for the vertical blank: in the line period).
#[derive(Copy, Clone, Debug, PartialEq, Eq)]
pub struct Timing {
    pub(crate) mode: Mode,
    pub(crate) line: u8,
    pub(crate) dot: u8,
}

impl Timing {
    /// The vertical blank covers exactly the lines after the visible ones,
    /// and the cycle count stays below the duration of the mode.
    #[verifier::type_invariant]
    pub open(crate) spec fn inv(self) -> bool {
        &&& self.dot < self.mode.spec_duration()
        &&& self.mode == Mode::VBlank ==> VISIBLE_LINES <= self.line < FRAME_LINES
        &&& self.mode != Mode::VBlank ==> self.line < VISIBLE_LINES
    }

    pub open(crate) spec fn spec_mode(self) -> Mode {
        self.mode
    }

    pub open(crate) spec fn spec_line(self) -> u8 {
        self.line
    }

    pub open(crate) spec fn spec_dot(self) -> u8 {
        self.dot
    }

    /// Cycles since the start of the frame.
    pub open(crate) spec fn pos(self) -> nat {
        (self.line * LINE_CYCLES + self.mode.offset() + self.dot) as nat
    }

    /// The state of the display `cycles` cycles after the start of a frame.
    /// Frames repeat: only `cycles` modulo the length of a frame counts.
    pub open(crate) spec fn at(cycles: int) -> Timing {
        let q = cycles % (FRAME_CYCLES as int);
        let line = q / (LINE_CYCLES as int);
        let off = q % (LINE_CYCLES as int);
        if line >= VISIBLE_LINES {
            Timing { mode: Mode::VBlank, line: line as u8, dot: off as u8 }
        } else if off < OAM_SCAN_CYCLES {
            Timing { mode: Mode::OamScan, line: line as u8, dot: off as u8 }
        } else if off < OAM_SCAN_CYCLES + DRAWING_CYCLES {
            Timing { mode: Mode::Drawing, line: line as u8, dot: (off - OAM_SCAN_CYCLES) as u8 }
        } else {
            Timing {
                mode: Mode::HBlank,
                line: line as u8,
                dot: (off - OAM_SCAN_CYCLES - DRAWING_CYCLES) as u8,
            }
        }
    }

    /// The display at power-on: OAM scan of line 0.
    pub fn new() -> (r: Timing)
        ensures
            r == Timing::at(0),
            r.mode() == Mode::OamScan,
            r.line() == 0,
            r.dot() == 0,
    {
        Timing { mode: Mode::OamScan, line: 0, dot: 0 }
    }

    /// The current mode.
    #[verifier::when_used_as_spec(spec_mode)]
    pub fn mode(self) -> (r: Mode)
        ensures
            r == self.spec_mode(),
    {
        self.mode
    }

    /// The current line: 0 to 143 while visible lines are shown, 144 to 153
    /// during the vertical blank.
    #[verifier::when_used_as_spec(spec_line)]
    pub fn line(self) -> (r: u8)
        ensures
            r == self.spec_line(),
            r < FRAME_LINES,
            self.mode() == Mode::VBlank <==> r >= VISIBLE_LINES,
    {
        proof {
            use_type_invariant(self);
        }
        self.line
    }

    /// Cycles spent in the current mode (in the current line period, during
    /// the vertical blank).
    #[verifier::when_used_as_spec(spec_dot)]
    pub fn dot(self) -> (r: u8)
        ensures
            r == self.spec_dot(),
            r < self.mode().spec_duration(),
    {
        proof {
            use_type_invariant(self);
        }
        self.dot
    }

    /// A state of the display is the state at its own position.
    pub proof fn lemma_at_pos(self)
        requires
            self.inv(),
        ensures
            self.pos() < FRAME_CYCLES,
            Timing::at(self.pos() as int) == self,
    {
        let p = self.pos();
        let off = self.mode.offset() + self.dot;
        assert(off < LINE_CYCLES);
        lemma_small_mod(p, FRAME_CYCLES as nat);
        assert(p as int % (FRAME_CYCLES as int) == p);
        lemma_fundamental_div_mod_converse(p as int, LINE_CYCLES as int, self.line as int, off as int);
    }

    /// The state at a position lies at that position within its frame.
    pub proof fn lemma_pos_at(cycles: int)
        ensures
            Timing::at(cycles).inv(),
            Timing::at(cycles).pos() == cycles % (FRAME_CYCLES as int),
    {
    }

    /// Frames repeat.
    pub proof fn lemma_at_periodic(cycles: int, frames: int)
        ensures
            Timing::at(cycles + frames * FRAME_CYCLES) == Timing::at(cycles),
    {
        vstd::arithmetic::div_mod::lemma_mod_multiples_vanish(
            frames,
            cycles,
            FRAME_CYCLES as int,
        );
    }

    /// The fixed cycle of the display. A mode lasts for its duration, and
    /// the line does not change while it lasts. OAM scan is followed by
    /// drawing and drawing by horizontal blank, on the same line. Horizontal
    /// blank is followed by the OAM scan of the next line, and after line
    /// 143 by the vertical blank on line 144. The vertical blank counts the
    /// lines up to 153 and is followed by the OAM scan of line 0.
    pub proof fn lemma_mode_cycle(self)
        requires
            self.inv(),
        ensures
            forall|k: int|
                0 <= k < self.mode().spec_duration() - self.dot() ==> {
                    let later = #[trigger] Timing::at(self.pos() + k);
                    &&& later.mode() == self.mode()
                    &&& later.line() == self.line()
                    &&& later.dot() == self.dot() + k
                },
            ({
                let next = Timing::at(self.pos() - self.dot() + self.mode().spec_duration());
                &&& next.dot() == 0
                &&& self.mode() == Mode::OamScan ==> next.mode() == Mode::Drawing && next.line()
                    == self.line()
                &&& self.mode() == Mode::Drawing ==> next.mode() == Mode::HBlank && next.line()
                    == self.line()
                &&& self.mode() == Mode::HBlank && self.line() < 143 ==> next.mode()
                    == Mode::OamScan && next.line() == self.line() + 1
                &&& self.mode() == Mode::HBlank && self.line() == 143 ==> next.mode()
                    == Mode::VBlank && next.line() == 144
                &&& self.mode() == Mode::VBlank && self.line() < 153 ==> next.mode()
                    == Mode::VBlank && next.line() == self.line() + 1
                &&& self.mode() == Mode::VBlank && self.line() == 153 ==> next.mode()
                    == Mode::OamScan && next.line() == 0
            }),
    {
        assert forall|k: int| 0 <= k < self.mode().spec_duration() - self.dot() implies {
            let later = #[trigger] Timing::at(self.pos() + k);
            &&& later.mode() == self.mode()
            &&& later.line() == self.line()
            &&& later.dot() == self.dot() + k
        } by {
            let later = Timing { dot: (self.dot + k) as u8, ..self };
            later.lemma_at_pos();
        }
        let start = Timing { dot: 0, ..self };
        start.lemma_at_pos();
        let target = start.pos() + self.mode.spec_duration();
        if target == FRAME_CYCLES {
            lemma_at_periodic_once(0);
        } else {
            lemma_small_mod(target as nat, FRAME_CYCLES as nat);
            let line = if self.mode == Mode::HBlank || self.mode == Mode::VBlank {
                self.line + 1
            } else {
                self.line as int
            };
            let off = if self.mode == Mode::HBlank || self.mode == Mode::VBlank {
                0
            } else {
                self.mode.offset() + self.mode.spec_duration()
            };
            lemma_fundamental_div_mod_converse(target, LINE_CYCLES as int, line, off as int);
        }
    }

    // Moves to the start of the mode that follows the current one.
    fn next_mode(self) -> (r: Timing)
        ensures
            r == Timing::at(self.pos() - self.dot + self.mode.spec_duration()),
    {
        proof {
            use_type_invariant(self);
        }
        let r = match self.mode {
            Mode::OamScan => Timing { mode: Mode::Drawing, line: self.line, dot: 0 },
            Mode::Drawing => Timing { mode: Mode::HBlank, line: self.line, dot: 0 },
            Mode::HBlank => {
                if self.line as usize + 1 < VISIBLE_LINES {
                    Timing { mode: Mode::OamScan, line: self.line + 1, dot: 0 }
                } else {
                    Timing { mode: Mode::VBlank, line: self.line + 1, dot: 0 }
                }
            },
            Mode::VBlank => {
                if self.line as usize + 1 < FRAME_LINES {
                    Timing { mode: Mode::VBlank, line: self.line + 1, dot: 0 }
                } else {
                    Timing { mode: Mode::OamScan, line: 0, dot: 0 }
                }
            },
        };
        proof {
            let target = self.pos() - self.dot + self.mode.spec_duration();
            r.lemma_at_pos();
            if target == FRAME_CYCLES {
                assert(r.pos() == 0);
                lemma_at_periodic_once(0);
            } else {
                assert(r.pos() == target);
            }
        }
        r
    }

    /// Advances the display by `ncycles` cycles.
    pub fn advance(self, ncycles: usize) -> (r: Timing)
        ensures
            r == Timing::at(self.pos() + ncycles),
    {
        proof {
            use_type_invariant(self);
            self.lemma_at_pos();
        }
        let mut left: usize = ncycles % FRAME_CYCLES;
        let mut t = self;
        proof {
            lemma_add_mod_noop(self.pos() as int, ncycles as int, FRAME_CYCLES as int);
            lemma_add_mod_noop(self.pos() as int, left as int, FRAME_CYCLES as int);
            lemma_mod_twice(ncycles as int, FRAME_CYCLES as int);
        }
        while left > 0
            invariant
                left < FRAME_CYCLES,
                Timing::at(t.pos() + left) == Timing::at(self.pos() + ncycles),
            decreases left,
        {
            proof {
                use_type_invariant(t);
            }
            let room: usize = t.mode.duration() - t.dot as usize;
            if left < room {
                let ghost before = t;
                t = Timing { mode: t.mode, line: t.line, dot: t.dot + left as u8 };
                assert(t.pos() == before.pos() + left);
                left = 0;
            } else {
                let ghost before = t;
                let ghost before_left = left;
                left = left - room;
                t = t.next_mode();
                proof {
                    let base = before.pos() - before.dot + before.mode.spec_duration();
                    assert(base + left == before.pos() + before_left);
                    Timing::lemma_pos_at(base);
                    lemma_add_mod_noop(base, left as int, FRAME_CYCLES as int);
                    lemma_add_mod_noop(t.pos() as int, left as int, FRAME_CYCLES as int);
                    lemma_mod_twice(base, FRAME_CYCLES as int);
                }
            }
        }
        proof {
            use_type_invariant(t);
            t.lemma_at_pos();
        }
        t
    }
}

proof fn lemma_at_periodic_once(cycles: int)
    ensures
        Timing::at(cycles + FRAME_CYCLES) == Timing::at(cycles),
{
    Timing::lemma_at_periodic(cycles, 1);
}

/// The colour of the pixel with index `i`, counted row by row from the top
/// left: the column number in the red channel, green and blue zero.
pub open spec fn pattern_pixel(i: int) -> u32 {
    (((i % (SCREEN_W as int)) % 255) * 0x10000) as u32
}

/// What the video unit holds: where the display is within the frame, the
/// contents of video RAM, and the framebuffer, one 0RGB value per pixel.
pub struct GpuView {
    pub timing: Timing,
    pub vram: Seq<u8>,
    pub frame: Seq<u32>,
}

impl GpuView {
    /// The video unit at power-on: OAM scan of line 0, video RAM zeroed,
    /// and the framebuffer filled with the placeholder pattern.
    pub open spec fn powered_on() -> GpuView {
        GpuView {
            timing: Timing::at(0),
            vram: Seq::new(VRAM_LEN as nat, |i: int| 0u8),
            frame: Seq::new(SCREEN_LEN as nat, |i: int| pattern_pixel(i)),
        }
    }

    /// Video RAM has its full size and the framebuffer one value per pixel.
    pub open spec fn wf(self) -> bool {
        &&& self.vram.len() == VRAM_LEN
        &&& self.frame.len() == SCREEN_LEN
    }

    /// The byte read at `addr`: the cell of video RAM, or 0x00 outside it.
    pub open spec fn read_byte(self, addr: u16) -> u8 {
        if VRAM_BEG_ADDR <= addr <= VRAM_END_ADDR {
            self.vram[addr - VRAM_BEG_ADDR]
        } else {
            0x00
        }
    }

    /// The video unit after a write: the cell of video RAM holds `val`; a
    /// write outside video RAM changes nothing.
    pub open spec fn write_byte(self, addr: u16, val: u8) -> GpuView {
        if VRAM_BEG_ADDR <= addr <= VRAM_END_ADDR {
            GpuView { vram: self.vram.update(addr - VRAM_BEG_ADDR, val), ..self }
        } else {
            self
        }
    }

    /// The video unit after `ncycles` cycles: only the timing moves.
    pub open spec fn step(self, ncycles: usize) -> GpuView {
        GpuView { timing: Timing::at(self.timing.pos() + ncycles), ..self }
    }
}

/// The video unit. It keeps the display timing, owns video RAM, and owns
/// the framebuffer that the presentation layer copies.
pub struct Gpu {
    pub(crate) timing: Timing,
    pub(crate) vram: [u8; VRAM_LEN],
    pub(crate) frame: [u32; SCREEN_LEN],
}

impl View for Gpu {
    type V = GpuView;

    open(crate) spec fn view(&self) -> GpuView {
        GpuView { timing: self.timing, vram: self.vram@, frame: self.frame@ }
    }
}

impl Gpu {
    /// Creates the video unit at power-on: OAM scan of line 0, video RAM
    /// zeroed, and the framebuffer filled with the placeholder pattern.
    pub fn new() -> (r: Gpu)
        ensures
            r@ == GpuView::powered_on(),
            r@.wf(),
    {
        let mut frame = [0u32; SCREEN_LEN];
        let mut y: usize = 0;
        while y < SCREEN_H
            invariant
                y <= SCREEN_H,
                forall|i: int| 0 <= i < y * SCREEN_W ==> frame@[i] == pattern_pixel(i),
            decreases SCREEN_H - y,
        {
            let mut x: usize = 0;
            while x < SCREEN_W
                invariant
                    y < SCREEN_H,
                    x <= SCREEN_W,
                    forall|i: int| 0 <= i < y * SCREEN_W + x ==> frame@[i] == pattern_pixel(i),
                decreases SCREEN_W - x,
            {
                let r: u32 = (x as u32) % 255;
                let ind = y * SCREEN_W + x;
                assert(r << 16 == r * 0x10000) by (bit_vector)
                    requires
                        r < 255,
                ;
                frame[ind] = r << 16;
                x += 1;
            }
            y += 1;
        }
        let gpu = Gpu { timing: Timing::new(), vram: [0x00; VRAM_LEN], frame };
        assert(gpu@.vram =~= GpuView::powered_on().vram);
        assert(gpu@.frame =~= GpuView::powered_on().frame);
        gpu
    }

    /// Where the display is within the frame.
    pub fn timing(&self) -> (r: Timing)
        ensures
            r == self@.timing,
    {
        self.timing
    }

    /// The current mode of the display.
    pub fn mode(&self) -> (r: Mode)
        ensures
            r == self@.timing.mode(),
    {
        self.timing.mode()
    }

    /// The current line of the display.
    pub fn line(&self) -> (r: u8)
        ensures
            r == self@.timing.line(),
            r < FRAME_LINES,
    {
        self.timing.line()
    }

    /// Steps the video unit for `ncycles` cycles: the display moves through
    /// its modes and lines; video RAM and the framebuffer are not touched.
    pub fn step(&mut self, ncycles: usize)
        ensures
            final(self)@ == old(self)@.step(ncycles),
    {
        self.timing = self.timing.advance(ncycles);
    }

    /// Reads the byte of video RAM at `addr`; 0x00 outside video RAM.
    pub fn read_byte(&self, addr: u16) -> (r: u8)
        ensures
            r == self@.read_byte(addr),
    {
        if VRAM_BEG_ADDR <= addr && addr <= VRAM_END_ADDR {
            self.vram[(addr - VRAM_BEG_ADDR) as usize]
        } else {
            0x00
        }
    }

    /// Writes `val` into video RAM at `addr`; a write outside video RAM is
    /// discarded.
    pub fn write_byte(&mut self, addr: u16, val: u8)
        ensures
            final(self)@ == old(self)@.write_byte(addr, val),
    {
        if VRAM_BEG_ADDR <= addr && addr <= VRAM_END_ADDR {
            self.vram[(addr - VRAM_BEG_ADDR) as usize] = val;
        }
    }

    /// Copies the framebuffer into `dst`, one 0RGB value per pixel: the
    /// upper 8 bits are unused, then come red, green and blue.
    pub fn copy_screen(&self, dst: &mut [u32])
        requires
            old(dst)@.len() == SCREEN_W * SCREEN_H,
        ensures
            final(dst)@ == self@.frame,
    {
        let mut i: usize = 0;
        while i < SCREEN_LEN
            invariant
                i <= SCREEN_LEN,
                dst@.len() == SCREEN_LEN,
                forall|j: int| 0 <= j < i ==> dst@[j] == self.frame@[j],
            decreases SCREEN_LEN - i,
        {
            dst[i] = self.frame[i];
            i += 1;
        }
    }
}

} // verus!
