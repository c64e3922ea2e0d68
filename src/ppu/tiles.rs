//! Tiles (8×8 pixels, 16 bytes, two bit planes per row) and sprites (4-byte
//! OAM entries).

use vstd::prelude::*;
use crate::cpu::interrupts::has_bit;
use crate::memory::{read_model, Memory};
use super::palette::{Color, Palette, SpritePalette};

verus! {

/// The mask of pixel column `col` (0 is leftmost, in the high bit).
pub open spec fn column_weight(col: int) -> u8 {
    if col == 0 {
        128
    } else if col == 1 {
        64
    } else if col == 2 {
        32
    } else if col == 3 {
        16
    } else if col == 4 {
        8
    } else if col == 5 {
        4
    } else if col == 6 {
        2
    } else {
        1
    }
}

/// The color index of column `col` of a tile row with bit planes `lo`, `hi`.
pub open spec fn pixel_index(lo: u8, hi: u8, col: int) -> u8 {
    ((if has_bit(hi, column_weight(col)) {
        2int
    } else {
        0
    }) + (if has_bit(lo, column_weight(col)) {
        1int
    } else {
        0
    })) as u8
}

pub fn weight_of_column(col: u8) -> (r: u8)
    ensures
        r == column_weight(col as int),
        r > 0,
{
    if col == 0 {
        128
    } else if col == 1 {
        64
    } else if col == 2 {
        32
    } else if col == 3 {
        16
    } else if col == 4 {
        8
    } else if col == 5 {
        4
    } else if col == 6 {
        2
    } else {
        1
    }
}

/// The color index of column `col` of a tile row.
pub fn row_pixel(lo: u8, hi: u8, col: u8) -> (r: u8)
    ensures
        r == pixel_index(lo, hi, col as int),
        r < 4,
{
    let w = weight_of_column(col);
    let high: u8 = if (hi / w) % 2 == 1 {
        2
    } else {
        0
    };
    let low: u8 = if (lo / w) % 2 == 1 {
        1
    } else {
        0
    };
    high + low
}

#[derive(Clone, Copy, Debug)]
pub struct Tile {
    pub data: [u8; 16],
}

#[derive(Clone, Debug)]
pub struct TileWithColors {
    pub pixels: Vec<Color>,
}

#[derive(Clone, Copy, Debug, PartialEq, Eq, Structural)]
pub struct SpriteFlags {
    pub bg_and_window_over: bool,
    pub y_flip: bool,
    pub x_flip: bool,
    pub palette_number: SpritePalette,
}

pub open spec fn sprite_flags_of(v: u8) -> SpriteFlags {
    SpriteFlags {
        bg_and_window_over: has_bit(v, 0x80),
        y_flip: has_bit(v, 0x40),
        x_flip: has_bit(v, 0x20),
        palette_number: if has_bit(v, 0x10) {
            SpritePalette::OBP1
        } else {
            SpritePalette::OBP0
        },
    }
}

/// An OAM entry: position (`y + 16`, `x + 8`), tile and flags.
#[derive(Clone, Copy, Debug, PartialEq, Eq, Structural)]
pub struct Sprite {
    pub y: u8,
    pub x: u8,
    pub tile: u8,
    pub sprite_flags: SpriteFlags,
}

fn bit(x: u8, w: u8) -> (r: bool)
    requires
        w > 0,
    ensures
        r == has_bit(x, w),
{
    (x / w) % 2 == 1
}

impl SpriteFlags {
    pub fn from_byte(value: u8) -> (r: SpriteFlags)
        ensures
            r == sprite_flags_of(value),
    {
        SpriteFlags {
            bg_and_window_over: bit(value, 0x80),
            y_flip: bit(value, 0x40),
            x_flip: bit(value, 0x20),
            palette_number: if bit(value, 0x10) {
                SpritePalette::OBP1
            } else {
                SpritePalette::OBP0
            },
        }
    }
}

impl Tile {
    /// The 16 bytes of the tile at `address`.
    pub fn read_from(ram: &Memory, address: u16) -> (r: Tile)
        requires
            ram.wf(),
            address + 16 <= 0x10000,
        ensures
            forall|i: int| 0 <= i < 16 ==> r.data@[i] == read_model(ram@, (address + i) as u16),
    {
        let mut data = [0u8; 16];
        let mut i: usize = 0;
        while i < 16
            invariant
                ram.wf(),
                i <= 16,
                address + 16 <= 0x10000,
                forall|j: int| 0 <= j < i ==> data@[j] == read_model(ram@, (address + j) as u16),
            decreases 16 - i,
        {
            data.set(i, ram.read(address + i as u16));
            i = i + 1;
        }
        Tile { data }
    }

    /// The color index of pixel (`x`, `y`).
    pub fn color_index(&self, x: u8, y: u8) -> (r: u8)
        requires
            x < 8,
            y < 8,
        ensures
            r == pixel_index(self.data@[2 * y], self.data@[2 * y + 1], x as int),
    {
        row_pixel(self.data[2 * y as usize], self.data[2 * y as usize + 1], x)
    }

    /// The tile's 64 pixels, row by row, through `palette`.
    pub fn to_tile_with_colors(&self, palette: &Palette) -> (r: TileWithColors)
        ensures
            r.pixels@.len() == 64,
            forall|i: int|
                0 <= i < 64 ==> r.pixels@[i] == palette.colors@[pixel_index(
                    self.data@[2 * (i / 8)],
                    self.data@[2 * (i / 8) + 1],
                    i % 8,
                ) as int],
    {
        let mut pixels: Vec<Color> = Vec::new();
        let mut i: u8 = 0;
        while i < 64
            invariant
                i <= 64,
                pixels@.len() == i,
                forall|j: int|
                    0 <= j < i ==> pixels@[j] == palette.colors@[pixel_index(
                        self.data@[2 * (j / 8)],
                        self.data@[2 * (j / 8) + 1],
                        j % 8,
                    ) as int],
            decreases 64 - i,
        {
            let index = self.color_index(i % 8, i / 8);
            pixels.push(palette.colors[index as usize]);
            i = i + 1;
        }
        TileWithColors { pixels }
    }
}

impl TileWithColors {
    pub fn get_color(&self, x: usize, y: usize) -> (r: Color)
        requires
            self.pixels@.len() == 64,
            x < 8,
            y < 8,
        ensures
            r == self.pixels@[y * 8 + x],
    {
        self.pixels[y * 8 + x]
    }
}

impl Sprite {
    pub fn new(x: u8, y: u8, tile: u8, sprite_flags: SpriteFlags) -> (r: Sprite)
        ensures
            r == (Sprite { x, y, tile, sprite_flags }),
    {
        Sprite { y, x, tile, sprite_flags }
    }

    /// The color of pixel (`x`, `y`) of the sprite, drawn with the colored
    /// tile `tile`, after its flips.
    pub fn get_color(&self, tile: &TileWithColors, x: usize, y: usize) -> (r: Color)
        requires
            tile.pixels@.len() == 64,
            x < 8,
            y < 8,
        ensures
            r == tile.pixels@[(if self.sprite_flags.y_flip {
                7 - y
            } else {
                y as int
            }) * 8 + (if self.sprite_flags.x_flip {
                7 - x
            } else {
                x as int
            })],
    {
        let x = if self.sprite_flags.x_flip {
            7 - x
        } else {
            x
        };
        let y = if self.sprite_flags.y_flip {
            7 - y
        } else {
            y
        };
        tile.get_color(x, y)
    }

    /// Decodes an OAM entry: `y + 16`, `x + 8`, tile index, flags.
    pub fn new_from_bytes(bytes: [u8; 4]) -> (r: Sprite)
        ensures
            r == (Sprite {
                y: bytes@[0],
                x: bytes@[1],
                tile: bytes@[2],
                sprite_flags: sprite_flags_of(bytes@[3]),
            }),
    {
        Sprite {
            y: bytes[0],
            x: bytes[1],
            tile: bytes[2],
            sprite_flags: SpriteFlags::from_byte(bytes[3]),
        }
    }
}

} // verus!
