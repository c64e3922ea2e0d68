//! The pixel-processing unit: the per-scanline mode state machine, its
//! interrupts, and the rendering of each visible line.

use vstd::prelude::*;
use self::palette::Color;
use self::renderer::{pixel_color, window_on_line};
use crate::lcd::{lcd_stat_of, LcdStat};
use crate::memory::{read_model, BusView, Memory};
use crate::memory::io::{LY_INDEX, STAT_INDEX};

pub mod palette;
pub mod renderer;
pub mod tiles;

verus! {

#[derive(Clone, Copy, Debug, PartialEq, Eq, Structural)]
pub enum PpuMode {
    HBlank,
    VBlank,
    OamSearch,
    PixelTransfer,
}

pub struct Ppu {
    pub mode: PpuMode,
    pub scanline: u8,
    pub dots: u16,
    /// The frame, row-major from the top-left corner.
    pub buffer: Vec<Color>,
    /// The window's own line counter: it advances only on lines where the
    /// window showed.
    pub window_line: u8,
}

pub const LCD_STAT_ADDRESS: u16 = 0xff41;

pub const LY_ADDRESS: u16 = 0xff44;

pub const LYC_ADDRESS: u16 = 0xff45;

pub const DOTS_PER_LINE: u16 = 456;

pub const OAM_SEARCH_DOTS: u16 = 80;

/// Dot at which pixel transfer ends: 80 dots of OAM search, then 172.
pub const PIXEL_TRANSFER_END: u16 = 252;

pub const VBLANK_START_LINE: u8 = 144;

pub const LINES_PER_FRAME: u8 = 154;

/// The interrupt requests of one dot.
#[derive(Clone, Copy, Debug, PartialEq, Eq, Structural)]
pub struct PpuEvents {
    pub vblank: bool,
    pub lcd_stat: bool,
}

/// The mode as STAT bits 1..0 show it.
pub open spec fn mode_bits(m: PpuMode) -> u8 {
    match m {
        PpuMode::HBlank => 0,
        PpuMode::VBlank => 1,
        PpuMode::OamSearch => 2,
        PpuMode::PixelTransfer => 3,
    }
}

/// Mode, line and dot after one more dot.
pub open spec fn timing_next(mode: PpuMode, line: u8, dots: u16) -> (PpuMode, u8, u16) {
    let d = dots + 1;
    match mode {
        PpuMode::OamSearch => if d == 80 {
            (PpuMode::PixelTransfer, line, d as u16)
        } else {
            (PpuMode::OamSearch, line, d as u16)
        },
        PpuMode::PixelTransfer => if d == 252 {
            (PpuMode::HBlank, line, d as u16)
        } else {
            (PpuMode::PixelTransfer, line, d as u16)
        },
        PpuMode::HBlank => if d == 456 {
            if line + 1 == 144 {
                (PpuMode::VBlank, 144u8, 0u16)
            } else {
                (PpuMode::OamSearch, (line + 1) as u8, 0u16)
            }
        } else {
            (PpuMode::HBlank, line, d as u16)
        },
        PpuMode::VBlank => if d == 456 {
            if line + 1 == 154 {
                (PpuMode::OamSearch, 0u8, 0u16)
            } else {
                (PpuMode::VBlank, (line + 1) as u8, 0u16)
            }
        } else {
            (PpuMode::VBlank, line, d as u16)
        },
    }
}

/// The mode that a line and dot fall in.
pub open spec fn mode_at(line: u8, dots: u16) -> PpuMode {
    if line >= 144 {
        PpuMode::VBlank
    } else if dots < 80 {
        PpuMode::OamSearch
    } else if dots < 252 {
        PpuMode::PixelTransfer
    } else {
        PpuMode::HBlank
    }
}

/// The interrupts that a dot from `mode`/`line` to `next` requests: VBlank on
/// entering line 144, and LCDStat for each enabled source that becomes true.
pub open spec fn events_of(
    mode: PpuMode,
    line: u8,
    next: (PpuMode, u8, u16),
    stat: LcdStat,
    lyc: u8,
) -> PpuEvents {
    let entered = next.0 != mode;
    PpuEvents {
        vblank: entered && next.0 == PpuMode::VBlank,
        lcd_stat: (entered && ((next.0 == PpuMode::HBlank && stat.mode_0_interrupt_source) || (
        next.0 == PpuMode::VBlank && stat.mode_1_interrupt_source) || (next.0
            == PpuMode::OamSearch && stat.mode_2_interrupt_source))) || (next.1 != line && next.1
            == lyc && stat.lyc_eq_ly_interrupt_source),
    }
}

/// Position of a dot within the frame.
pub open spec fn frame_position(line: u8, dots: u16) -> int {
    line * 456 + dots
}

/// Dots until the next VBlank entry.
pub open spec fn dots_to_vblank(line: u8, dots: u16) -> nat {
    let p = frame_position(line, dots);
    if p < 144 * 456 {
        (144 * 456 - p) as nat
    } else {
        (154 * 456 - p + 144 * 456) as nat
    }
}

/// What the display unit holds, as mathematical values.
pub struct PpuView {
    pub mode: PpuMode,
    pub scanline: u8,
    pub dots: u16,
    pub buffer: Seq<Color>,
    pub window_line: u8,
}

/// The frame buffer with row `line` drawn from the bus.
pub open spec fn rendered(buffer: Seq<Color>, v: BusView, line: u8, window_line: u8) -> Seq<Color> {
    Seq::new(
        buffer.len(),
        |i: int|
            if line * 160 <= i < line * 160 + 160 {
                pixel_color(v, line as int, window_line as int, i - line * 160)
            } else {
                buffer[i]
            },
    )
}

/// One dot of the display unit over bus `v`: its state afterwards and the
/// interrupts it requests.
pub open spec fn ppu_dot_model(p: PpuView, v: BusView) -> (PpuView, PpuEvents) {
    let next = timing_next(p.mode, p.scanline, p.dots);
    let render = p.mode == PpuMode::PixelTransfer && next.0 == PpuMode::HBlank;
    (
        PpuView {
            mode: next.0,
            scanline: next.1,
            dots: next.2,
            buffer: if render {
                rendered(p.buffer, v, p.scanline, p.window_line)
            } else {
                p.buffer
            },
            window_line: if render {
                if window_on_line(v, p.scanline as int) {
                    ((p.window_line + 1) % 256) as u8
                } else {
                    p.window_line
                }
            } else if p.mode == PpuMode::VBlank && next.1 == 0 {
                0
            } else {
                p.window_line
            },
        },
        events_of(
            p.mode,
            p.scanline,
            next,
            lcd_stat_of(read_model(v, LCD_STAT_ADDRESS)),
            read_model(v, LYC_ADDRESS),
        ),
    )
}

/// The bus once LY and STAT show line `line` and mode `mode`, with the LYC
/// coincidence bit.
pub open spec fn status_model(v: BusView, line: u8, mode: PpuMode) -> BusView {
    let stat = v.io[STAT_INDEX as int];
    BusView {
        io: v.io.update(LY_INDEX as int, line).update(
            STAT_INDEX as int,
            (stat - stat % 8 + (if line == read_model(v, LYC_ADDRESS) {
                4int
            } else {
                0
            }) + mode_bits(mode)) as u8,
        ),
        ..v
    }
}

impl Ppu {
    pub open spec fn view(&self) -> PpuView {
        PpuView {
            mode: self.mode,
            scanline: self.scanline,
            dots: self.dots,
            buffer: self.buffer@,
            window_line: self.window_line,
        }
    }

    pub open spec fn wf(&self) -> bool {
        &&& self.buffer@.len() == 160 * 144
        &&& self.dots < 456
        &&& self.scanline < 154
        &&& self.mode == mode_at(self.scanline, self.dots)
    }

    /// At the start of a frame: line 0, OAM search, a white buffer.
    pub fn new() -> (r: Ppu)
        ensures
            r.wf(),
            r.mode == PpuMode::OamSearch && r.scanline == 0 && r.dots == 0,
            r.window_line == 0,
            forall|i: int| 0 <= i < 160 * 144 ==> r.buffer@[i] == Color::White,
    {
        let mut buffer: Vec<Color> = Vec::new();
        let mut i: usize = 0;
        while i < 160 * 144
            invariant
                i <= 160 * 144,
                buffer@.len() == i,
                forall|j: int| 0 <= j < i ==> buffer@[j] == Color::White,
            decreases 160 * 144 - i,
        {
            buffer.push(Color::White);
            i = i + 1;
        }
        Ppu { mode: PpuMode::OamSearch, scanline: 0, dots: 0, buffer, window_line: 0 }
    }

    /// Advances one dot. The bus is only read: the STAT interrupt sources and
    /// LYC, and, at the end of pixel transfer, what the line shows.
    pub fn step(&mut self, memory_bus: &Memory) -> (r: PpuEvents)
        requires
            old(self).wf(),
            memory_bus.wf(),
        ensures
            final(self).wf(),
            (final(self).mode, final(self).scanline, final(self).dots) == timing_next(
                old(self).mode,
                old(self).scanline,
                old(self).dots,
            ),
            (final(self).view(), r) == ppu_dot_model(old(self).view(), memory_bus@),
            r == events_of(
                old(self).mode,
                old(self).scanline,
                timing_next(old(self).mode, old(self).scanline, old(self).dots),
                lcd_stat_of(read_model(memory_bus@, LCD_STAT_ADDRESS)),
                read_model(memory_bus@, LYC_ADDRESS),
            ),
            r.vblank ==> final(self).scanline == 144 && final(self).dots == 0,
            !r.vblank ==> dots_to_vblank(final(self).scanline, final(self).dots) + 1
                == dots_to_vblank(old(self).scanline, old(self).dots),
            old(self).mode == PpuMode::PixelTransfer && final(self).mode == PpuMode::HBlank ==> {
                &&& forall|x: int|
                    0 <= x < 160 ==> final(self).buffer@[old(self).scanline * 160 + x]
                        == pixel_color(
                        memory_bus@,
                        old(self).scanline as int,
                        old(self).window_line as int,
                        x,
                    )
                &&& forall|i: int|
                    0 <= i < 160 * 144 && !(old(self).scanline * 160 <= i < old(self).scanline
                        * 160 + 160) ==> final(self).buffer@[i] == old(self).buffer@[i]
            },
            !(old(self).mode == PpuMode::PixelTransfer && final(self).mode == PpuMode::HBlank)
                ==> final(self).buffer@ == old(self).buffer@,
            final(self).window_line == if old(self).mode == PpuMode::PixelTransfer
                && final(self).mode == PpuMode::HBlank {
                if window_on_line(memory_bus@, old(self).scanline as int) {
                    ((old(self).window_line + 1) % 256) as u8
                } else {
                    old(self).window_line
                }
            } else if old(self).mode == PpuMode::VBlank && final(self).scanline == 0 {
                0
            } else {
                old(self).window_line
            },
    {
        let stat = LcdStat::from_byte(memory_bus.read(LCD_STAT_ADDRESS));
        let lyc = memory_bus.read(LYC_ADDRESS);
        let old_mode = self.mode;
        let old_line = self.scanline;
        let d = self.dots + 1;
        match self.mode {
            PpuMode::OamSearch => {
                self.dots = d;
                if d == OAM_SEARCH_DOTS {
                    self.mode = PpuMode::PixelTransfer;
                }
            },
            PpuMode::PixelTransfer => {
                if d == PIXEL_TRANSFER_END {
                    self.render_line(memory_bus);
                    self.mode = PpuMode::HBlank;
                }
                self.dots = d;
            },
            PpuMode::HBlank => {
                if d == DOTS_PER_LINE {
                    self.dots = 0;
                    self.scanline = self.scanline + 1;
                    if self.scanline == VBLANK_START_LINE {
                        self.mode = PpuMode::VBlank;
                    } else {
                        self.mode = PpuMode::OamSearch;
                    }
                } else {
                    self.dots = d;
                }
            },
            PpuMode::VBlank => {
                if d == DOTS_PER_LINE {
                    self.dots = 0;
                    if self.scanline + 1 == LINES_PER_FRAME {
                        self.scanline = 0;
                        self.window_line = 0;
                        self.mode = PpuMode::OamSearch;
                    } else {
                        self.scanline = self.scanline + 1;
                    }
                } else {
                    self.dots = d;
                }
            },
        }
        let entered = self.mode != old_mode;
        let vblank = entered && self.mode == PpuMode::VBlank;
        let mode_source = match self.mode {
            PpuMode::HBlank => stat.mode_0_interrupt_source,
            PpuMode::VBlank => stat.mode_1_interrupt_source,
            PpuMode::OamSearch => stat.mode_2_interrupt_source,
            PpuMode::PixelTransfer => false,
        };
        let lyc_match = self.scanline != old_line && self.scanline == lyc
            && stat.lyc_eq_ly_interrupt_source;
        let events = PpuEvents { vblank, lcd_stat: (entered && mode_source) || lyc_match };
        proof {
            if old_mode == PpuMode::PixelTransfer && self.mode == PpuMode::HBlank {
                assert(self.buffer@ =~= rendered(
                    old(self).buffer@,
                    memory_bus@,
                    old_line,
                    old(self).window_line,
                ));
            }
        }
        events
    }

    /// Shows the line and mode in LY and STAT, with the LYC coincidence bit.
    pub fn update_memory(&self, memory_bus: &mut Memory)
        requires
            old(memory_bus).wf(),
        ensures
            final(memory_bus).wf(),
            final(memory_bus).cartridge.header == old(memory_bus).cartridge.header,
            final(memory_bus)@.io[LY_INDEX as int] == self.scanline,
            final(memory_bus)@.io[STAT_INDEX as int] % 4 == mode_bits(self.mode),
            final(memory_bus)@ == status_model(old(memory_bus)@, self.scanline, self.mode),
            ({
                let stat = old(memory_bus)@.io[STAT_INDEX as int];
                let lyc = read_model(old(memory_bus)@, LYC_ADDRESS);
                final(memory_bus)@.io[STAT_INDEX as int] == stat - stat % 8 + (if self.scanline
                    == lyc {
                    4int
                } else {
                    0
                }) + mode_bits(self.mode)
            }),
            final(memory_bus)@ == (BusView {
                io: final(memory_bus)@.io,
                ..old(memory_bus)@
            }),
            forall|i: int|
                0 <= i < 0x80 && i != LY_INDEX && i != STAT_INDEX ==> final(memory_bus)@.io[i]
                    == old(memory_bus)@.io[i],
    {
        let lyc = memory_bus.read(LYC_ADDRESS);
        let mode: u8 = match self.mode {
            PpuMode::HBlank => 0,
            PpuMode::VBlank => 1,
            PpuMode::OamSearch => 2,
            PpuMode::PixelTransfer => 3,
        };
        memory_bus.set_lcd_status(self.scanline, mode, self.scanline == lyc);
    }
}

/// Reading back after `update_memory`: LY is the line, STAT's low two bits
/// are the mode.
pub proof fn lemma_status_registers_track(v: BusView, line: u8, mode: PpuMode)
    requires
        v.io.len() == 0x80,
        v.io[LY_INDEX as int] == line,
        v.io[STAT_INDEX as int] % 4 == mode_bits(mode),
    ensures
        read_model(v, LY_ADDRESS) == line,
        read_model(v, LCD_STAT_ADDRESS) % 4 == mode_bits(mode),
{
}

} // verus!
