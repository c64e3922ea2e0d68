//! Rendering one scanline: background, window and sprites, composed pixel by
//! pixel.

use vstd::prelude::*;
use crate::lcd::{lcd_control_of, map_base, object_height, tile_data_address, LcdControl};
use crate::memory::{read_model, BusView, Memory};
use super::palette::{color_of, palette_shade, Color, SpritePalette};
use super::tiles::{pixel_index, row_pixel, sprite_flags_of};
use super::Ppu;

verus! {

pub const LCD_CONTROL_ADDRESS: u16 = 0xff40;

pub const SCY_ADDRESS: u16 = 0xff42;

pub const SCX_ADDRESS: u16 = 0xff43;

pub const WY_ADDRESS: u16 = 0xff4a;

pub const WX_ADDRESS: u16 = 0xff4b;

pub const SCREEN_WIDTH: usize = 160;

pub const SCREEN_HEIGHT: usize = 144;

/// Sprites drawn on one line at most.
pub const MAX_SPRITES_PER_LINE: usize = 10;

pub open spec fn lcdc(v: BusView) -> LcdControl {
    lcd_control_of(read_model(v, LCD_CONTROL_ADDRESS))
}

/// The color index at (`sx`, `sy`) of the 256×256 plane drawn from the tile
/// map at `map`.
#[verifier::opaque]
pub open spec fn plane_index(v: BusView, c: LcdControl, map: u16, sx: int, sy: int) -> u8 {
    let tile = read_model(v, (map + (sy / 8) * 32 + sx / 8) as u16);
    let row = tile_data_address(c, tile) + (sy % 8) * 2;
    pixel_index(read_model(v, row as u16), read_model(v, (row + 1) as u16), sx % 8)
}

pub open spec fn background_index(v: BusView, line: int, x: int) -> u8 {
    let c = lcdc(v);
    plane_index(
        v,
        c,
        map_base(c.background_tile_map_area),
        (x + read_model(v, SCX_ADDRESS)) % 256,
        (line + read_model(v, SCY_ADDRESS)) % 256,
    )
}

/// Whether the window covers pixel `x` of `line`.
pub open spec fn window_covers(v: BusView, line: int, x: int) -> bool {
    lcdc(v).window_enabled && line >= read_model(v, WY_ADDRESS) && x + 7 >= read_model(
        v,
        WX_ADDRESS,
    )
}

pub open spec fn window_index(v: BusView, window_line: int, x: int) -> u8 {
    let c = lcdc(v);
    plane_index(
        v,
        c,
        map_base(c.window_tile_map_area),
        x + 7 - read_model(v, WX_ADDRESS),
        window_line,
    )
}

pub open spec fn oam_byte(v: BusView, i: int, k: int) -> u8 {
    v.oam[4 * i + k]
}

/// Whether sprite `i` spans `line`.
pub open spec fn sprite_on_line(v: BusView, i: int, line: int) -> bool {
    let y = oam_byte(v, i, 0);
    y <= line + 16 < y + object_height(lcdc(v).object_size)
}

/// The sprites on `line` among the first `n` OAM entries: at most ten, in
/// OAM order.
pub open spec fn line_sprites(v: BusView, line: int, n: nat) -> Seq<usize>
    decreases n,
{
    if n == 0 {
        Seq::empty()
    } else {
        let s = line_sprites(v, line, (n - 1) as nat);
        if s.len() < 10 && sprite_on_line(v, n - 1, line) {
            s.push((n - 1) as usize)
        } else {
            s
        }
    }
}

pub open spec fn sprite_covers(v: BusView, i: int, x: int) -> bool {
    let sx = oam_byte(v, i, 1);
    sx <= x + 8 < sx + 8
}

/// Among the first `k` sprites of `list`, the one that covers `x` with the
/// smallest x position; the earlier one on a tie.
pub open spec fn best_sprite(v: BusView, list: Seq<usize>, x: int, k: nat) -> Option<usize>
    decreases k,
{
    if k == 0 {
        None
    } else {
        let b = best_sprite(v, list, x, (k - 1) as nat);
        let i = list[k - 1];
        if sprite_covers(v, i as int, x) && (b is None || oam_byte(v, i as int, 1) < oam_byte(
            v,
            b.unwrap() as int,
            1,
        )) {
            Some(i)
        } else {
            b
        }
    }
}

/// The color index of sprite `i` at pixel `x` of `line`, flips applied.
pub open spec fn sprite_index(v: BusView, i: int, line: int, x: int) -> u8 {
    let h = object_height(lcdc(v).object_size);
    let flags = sprite_flags_of(oam_byte(v, i, 3));
    let row0 = line + 16 - oam_byte(v, i, 0);
    let row = if flags.y_flip {
        h - 1 - row0
    } else {
        row0
    };
    let t = oam_byte(v, i, 2);
    let tile = if h == 16 {
        t - t % 2
    } else {
        t as int
    };
    let col0 = x + 8 - oam_byte(v, i, 1);
    let col = if flags.x_flip {
        7 - col0
    } else {
        col0
    };
    let addr = 0x8000 + tile * 16 + row * 2;
    pixel_index(read_model(v, addr as u16), read_model(v, (addr + 1) as u16), col)
}

/// The color of pixel `x` of `line`.
pub open spec fn pixel_color(v: BusView, line: int, window_line: int, x: int) -> Color {
    let c = lcdc(v);
    let bgp = read_model(v, 0xff47);
    let (bg, bg_color) = if window_covers(v, line, x) {
        let i = window_index(v, window_line, x);
        (i, palette_shade(bgp, i))
    } else if c.background_enable {
        let i = background_index(v, line, x);
        (i, palette_shade(bgp, i))
    } else {
        (0u8, Color::White)
    };
    let sprite = best_sprite(
        v,
        line_sprites(v, line, 40),
        x,
        line_sprites(v, line, 40).len(),
    );
    if c.object_enable && sprite is Some {
        let i = sprite.unwrap() as int;
        let si = sprite_index(v, i, line, x);
        let flags = sprite_flags_of(oam_byte(v, i, 3));
        if si == 0 || (flags.bg_and_window_over && bg != 0) {
            bg_color
        } else {
            palette_shade(
                if flags.palette_number == SpritePalette::OBP1 {
                    read_model(v, 0xff49)
                } else {
                    read_model(v, 0xff48)
                },
                si,
            )
        }
    } else {
        bg_color
    }
}

/// Whether the window shows on `line` at all.
pub open spec fn window_on_line(v: BusView, line: int) -> bool {
    lcdc(v).window_enabled && line >= read_model(v, WY_ADDRESS) && read_model(v, WX_ADDRESS) <= 166
}

fn plane_pixel(bus: &Memory, c: LcdControl, map: u16, sx: u8, sy: u8) -> (r: u8)
    requires
        bus.wf(),
        map == 0x9800 || map == 0x9c00,
    ensures
        r == plane_index(bus@, c, map, sx as int, sy as int),
        r < 4,
{
    proof {
        reveal(plane_index);
    }
    let tile = bus.read(map + (sy as u16 / 8) * 32 + sx as u16 / 8);
    let row = c.get_background_window_tile_address(tile) + (sy as u16 % 8) * 2;
    let lo = bus.read(row);
    let hi = bus.read(row + 1);
    row_pixel(lo, hi, sx % 8)
}

fn shade(palette: u8, index: u8) -> (r: Color)
    requires
        index < 4,
    ensures
        r == palette_shade(palette, index),
{
    if index == 0 {
        Color::from_u8(palette)
    } else if index == 1 {
        Color::from_u8(palette / 4)
    } else if index == 2 {
        Color::from_u8(palette / 16)
    } else {
        Color::from_u8(palette / 64)
    }
}

impl Ppu {
    /// The sprites on `line`: at most ten, in OAM order.
    fn get_sprites_in_row(bus: &Memory, line: u8) -> (r: Vec<usize>)
        requires
            bus.wf(),
        ensures
            r@ == line_sprites(bus@, line as int, 40),
            r@.len() <= 10,
            forall|j: int| 0 <= j < r@.len() ==> r@[j] < 40,
    {
        let c = LcdControl::from_byte(bus.read(LCD_CONTROL_ADDRESS));
        let height = c.object_size.get_height();
        let mut sprites: Vec<usize> = Vec::new();
        let mut i: usize = 0;
        while i < 40
            invariant
                bus.wf(),
                i <= 40,
                height == object_height(lcdc(bus@).object_size),
                sprites@ == line_sprites(bus@, line as int, i as nat),
                sprites@.len() <= 10,
                forall|j: int| 0 <= j < sprites@.len() ==> sprites@[j] < i,
            decreases 40 - i,
        {
            let y = bus.oam[4 * i];
            let on_line = y as u16 <= line as u16 + 16 && (line as u16 + 16) < y as u16
                + height as u16;
            if sprites.len() < MAX_SPRITES_PER_LINE && on_line {
                sprites.push(i);
            }
            i = i + 1;
        }
        sprites
    }

    fn sprite_pixel(bus: &Memory, c: LcdControl, i: usize, line: u8, x: u8) -> (r: u8)
        requires
            bus.wf(),
            i < 40,
            c == lcdc(bus@),
            sprite_on_line(bus@, i as int, line as int),
            sprite_covers(bus@, i as int, x as int),
            line < 144,
            x < 160,
        ensures
            r == sprite_index(bus@, i as int, line as int, x as int),
            r < 4,
    {
        let h = c.object_size.get_height() as u16;
        let flags = super::tiles::SpriteFlags::from_byte(bus.oam[4 * i + 3]);
        let row0: u16 = line as u16 + 16 - bus.oam[4 * i] as u16;
        let row = if flags.y_flip {
            h - 1 - row0
        } else {
            row0
        };
        let t = bus.oam[4 * i + 2];
        let tile = if h == 16 {
            t - t % 2
        } else {
            t
        };
        let col0: u16 = x as u16 + 8 - bus.oam[4 * i + 1] as u16;
        let col = if flags.x_flip {
            7 - col0
        } else {
            col0
        };
        let addr: u16 = 0x8000 + tile as u16 * 16 + row * 2;
        row_pixel(bus.read(addr), bus.read(addr + 1), col as u8)
    }

    /// The color of pixel `x` of `line`, given the line's sprites.
    fn pixel(bus: &Memory, line: u8, window_line: u8, x: u8, sprites: &Vec<usize>) -> (r: Color)
        requires
            bus.wf(),
            sprites@ == line_sprites(bus@, line as int, 40),
            forall|j: int| 0 <= j < sprites@.len() ==> sprites@[j] < 40,
            x < 160,
            line < 144,
        ensures
            r == pixel_color(bus@, line as int, window_line as int, x as int),
    {
        let c = LcdControl::from_byte(bus.read(LCD_CONTROL_ADDRESS));
        let (bg, bg_color) = Ppu::background_pixel(bus, c, line, window_line, x);
        if !c.object_enable {
            return bg_color;
        }
        Ppu::compose_sprite(bus, c, line, x, sprites, bg, bg_color)
    }

    /// The color index and color of the background or window at pixel `x`.
    fn background_pixel(bus: &Memory, c: LcdControl, line: u8, window_line: u8, x: u8) -> (r: (
        u8,
        Color,
    ))
        requires
            bus.wf(),
            c == lcdc(bus@),
            x < 160,
        ensures
            r == ({
                let bgp = read_model(bus@, 0xff47);
                if window_covers(bus@, line as int, x as int) {
                    let i = window_index(bus@, window_line as int, x as int);
                    (i, palette_shade(bgp, i))
                } else if c.background_enable {
                    let i = background_index(bus@, line as int, x as int);
                    (i, palette_shade(bgp, i))
                } else {
                    (0u8, Color::White)
                }
            }),
            r.0 < 4,
    {
        let bgp = bus.read(0xff47);
        let wy = bus.read(WY_ADDRESS);
        let wx = bus.read(WX_ADDRESS);
        let (bg, bg_color) = if c.window_enabled && line >= wy && x as u16 + 7 >= wx as u16 {
            let i = plane_pixel(
                bus,
                c,
                c.get_window_tile_map_area(),
                (x as u16 + 7 - wx as u16) as u8,
                window_line,
            );
            (i, shade(bgp, i))
        } else if c.background_enable {
            let scx = bus.read(SCX_ADDRESS);
            let scy = bus.read(SCY_ADDRESS);
            let i = plane_pixel(
                bus,
                c,
                c.get_background_tile_map_area(),
                x.wrapping_add(scx),
                line.wrapping_add(scy),
            );
            (i, shade(bgp, i))
        } else {
            (0u8, Color::White)
        };
        (bg, bg_color)
    }

    /// The pixel's color once the line's sprites are drawn over `bg`.
    fn compose_sprite(
        bus: &Memory,
        c: LcdControl,
        line: u8,
        x: u8,
        sprites: &Vec<usize>,
        bg: u8,
        bg_color: Color,
    ) -> (r: Color)
        requires
            bus.wf(),
            c == lcdc(bus@),
            sprites@ == line_sprites(bus@, line as int, 40),
            forall|j: int| 0 <= j < sprites@.len() ==> sprites@[j] < 40,
            x < 160,
            line < 144,
        ensures
            r == ({
                let sprite = best_sprite(bus@, sprites@, x as int, sprites@.len());
                if sprite is Some {
                    let i = sprite.unwrap() as int;
                    let si = sprite_index(bus@, i, line as int, x as int);
                    let flags = sprite_flags_of(oam_byte(bus@, i, 3));
                    if si == 0 || (flags.bg_and_window_over && bg != 0) {
                        bg_color
                    } else {
                        palette_shade(
                            if flags.palette_number == SpritePalette::OBP1 {
                                read_model(bus@, 0xff49)
                            } else {
                                read_model(bus@, 0xff48)
                            },
                            si,
                        )
                    }
                } else {
                    bg_color
                }
            }),
    {
        let mut best: Option<usize> = None;
        let mut k: usize = 0;
        while k < sprites.len()
            invariant
                bus.wf(),
                k <= sprites@.len(),
                sprites@ == line_sprites(bus@, line as int, 40),
                forall|j: int| 0 <= j < sprites@.len() ==> sprites@[j] < 40,
                best == best_sprite(bus@, sprites@, x as int, k as nat),
                best matches Some(b) ==> b < 40,
            decreases sprites@.len() - k,
        {
            let i = sprites[k];
            let sx = bus.oam[4 * i + 1];
            let covers = sx as u16 <= x as u16 + 8 && (x as u16 + 8) < sx as u16 + 8;
            let better = match best {
                None => true,
                Some(b) => sx < bus.oam[4 * b + 1],
            };
            if covers && better {
                best = Some(i);
            }
            k = k + 1;
        }
        match best {
            None => bg_color,
            Some(i) => {
                proof {
                    lemma_best_sprite_on_line(bus@, line as int, x as int, sprites@.len() as nat);
                }
                let si = Ppu::sprite_pixel(bus, c, i, line, x);
                let flags = super::tiles::SpriteFlags::from_byte(bus.oam[4 * i + 3]);
                if si == 0 || (flags.bg_and_window_over && bg != 0) {
                    bg_color
                } else {
                    let palette = match flags.palette_number {
                        SpritePalette::OBP1 => bus.read(0xff49),
                        SpritePalette::OBP0 => bus.read(0xff48),
                    };
                    shade(palette, si)
                }
            },
        }
    }

    /// Draws the current scanline into the frame buffer and moves the window's
    /// line counter on when the window showed on this line.
    pub fn render_line(&mut self, memory_bus: &Memory)
        requires
            memory_bus.wf(),
            old(self).buffer@.len() == 160 * 144,
            old(self).scanline < 144,
        ensures
            final(self).buffer@.len() == 160 * 144,
            forall|x: int|
                0 <= x < 160 ==> final(self).buffer@[old(self).scanline * 160 + x] == pixel_color(
                    memory_bus@,
                    old(self).scanline as int,
                    old(self).window_line as int,
                    x,
                ),
            forall|i: int|
                0 <= i < 160 * 144 && !(old(self).scanline * 160 <= i < old(self).scanline * 160
                    + 160) ==> final(self).buffer@[i] == old(self).buffer@[i],
            final(self).window_line == if window_on_line(memory_bus@, old(self).scanline as int) {
                ((old(self).window_line + 1) % 256) as u8
            } else {
                old(self).window_line
            },
            final(self).scanline == old(self).scanline,
            final(self).mode == old(self).mode,
            final(self).dots == old(self).dots,
    {
        let line = self.scanline;
        let sprites = Ppu::get_sprites_in_row(memory_bus, line);
        let base: usize = line as usize * SCREEN_WIDTH;
        let mut x: u8 = 0;
        while x < 160
            invariant
                memory_bus.wf(),
                x <= 160,
                line == old(self).scanline,
                line < 144,
                base == line * 160,
                self.window_line == old(self).window_line,
                self.scanline == old(self).scanline,
                self.mode == old(self).mode,
                self.dots == old(self).dots,
                sprites@ == line_sprites(memory_bus@, line as int, 40),
                forall|j: int| 0 <= j < sprites@.len() ==> sprites@[j] < 40,
                self.buffer@.len() == 160 * 144,
                forall|j: int|
                    0 <= j < x ==> self.buffer@[base + j] == pixel_color(
                        memory_bus@,
                        line as int,
                        self.window_line as int,
                        j,
                    ),
                forall|i: int|
                    0 <= i < 160 * 144 && !(base <= i < base + x) ==> self.buffer@[i] == old(
                        self,
                    ).buffer@[i],
            decreases 160 - x,
        {
            let color = Ppu::pixel(memory_bus, line, self.window_line, x, &sprites);
            self.buffer.set(base + x as usize, color);
            x = x + 1;
        }
        let c = LcdControl::from_byte(memory_bus.read(LCD_CONTROL_ADDRESS));
        if c.window_enabled && line >= memory_bus.read(WY_ADDRESS) && memory_bus.read(WX_ADDRESS)
            <= 166 {
            self.window_line = self.window_line.wrapping_add(1);
        }
    }
}

/// The sprite that wins a pixel is one of the line's sprites: it spans the
/// line and covers the pixel.
proof fn lemma_best_sprite_on_line(v: BusView, line: int, x: int, k: nat)
    requires
        k <= line_sprites(v, line, 40).len(),
    ensures
        best_sprite(v, line_sprites(v, line, 40), x, k) matches Some(i) ==> sprite_on_line(
            v,
            i as int,
            line,
        ) && sprite_covers(v, i as int, x),
    decreases k,
{
    if k > 0 {
        lemma_best_sprite_on_line(v, line, x, (k - 1) as nat);
        lemma_line_sprites_on_line(v, line, 40);
    }
}

proof fn lemma_line_sprites_on_line(v: BusView, line: int, n: nat)
    requires
        n <= 40,
    ensures
        forall|j: int|
            0 <= j < line_sprites(v, line, n).len() ==> sprite_on_line(
                v,
                line_sprites(v, line, n)[j] as int,
                line,
            ),
    decreases n,
{
    if n > 0 {
        lemma_line_sprites_on_line(v, line, (n - 1) as nat);
        let s = line_sprites(v, line, (n - 1) as nat);
        assert forall|j: int| 0 <= j < line_sprites(v, line, n).len() implies sprite_on_line(
            v,
            line_sprites(v, line, n)[j] as int,
            line,
        ) by {
            if j < s.len() {
                assert(line_sprites(v, line, n)[j] == s[j]);
            } else {
                assert(((n - 1) as usize) as int == n - 1);
            }
        }
    }
}

} // verus!
