//! Palettes: four shades packed two bits each, index 0 in the low bits.

use vstd::prelude::*;
use crate::memory::{read_model, Memory};

verus! {

pub const BG_PALETTE_ADDRESS: u16 = 0xff47;

pub const OBP0_PALETTE_ADDRESS: u16 = 0xff48;

pub const OBP1_PALETTE_ADDRESS: u16 = 0xff49;

#[derive(Clone, Copy, Debug, PartialEq, Eq, Structural)]
pub enum Color {
    White,
    LightGray,
    DarkGray,
    Black,
}

pub open spec fn color_of(shade: u8) -> Color {
    if shade % 4 == 0 {
        Color::White
    } else if shade % 4 == 1 {
        Color::LightGray
    } else if shade % 4 == 2 {
        Color::DarkGray
    } else {
        Color::Black
    }
}

/// The shade that palette byte `p` gives color index `index` (0..4).
pub open spec fn palette_shade(p: u8, index: u8) -> Color {
    if index == 0 {
        color_of(p)
    } else if index == 1 {
        color_of(p / 4)
    } else if index == 2 {
        color_of(p / 16)
    } else {
        color_of(p / 64)
    }
}

impl Color {
    /// The color of a two-bit shade (higher bits ignored).
    pub fn from_u8(value: u8) -> (r: Color)
        ensures
            r == color_of(value),
    {
        let v = value % 4;
        if v == 0 {
            Color::White
        } else if v == 1 {
            Color::LightGray
        } else if v == 2 {
            Color::DarkGray
        } else {
            Color::Black
        }
    }
}

#[derive(Clone, Copy, Debug, PartialEq, Eq, Structural)]
pub enum PaletteType {
    Background,
    Sprite,
}

#[derive(Clone, Copy, Debug, PartialEq, Eq, Structural)]
pub enum SpritePalette {
    OBP0,
    OBP1,
}

/// A decoded palette. For sprites color index 0 is transparent; its entry is
/// kept but never drawn.
#[derive(Clone, Copy, Debug)]
pub struct Palette {
    pub colors: [Color; 4],
    pub palette_type: PaletteType,
}

impl Palette {
    pub fn from_u8(value: u8, palette_type: PaletteType) -> (r: Palette)
        ensures
            forall|i: int| 0 <= i < 4 ==> r.colors@[i] == palette_shade(value, i as u8),
            r.palette_type == palette_type,
    {
        let colors = [
            Color::from_u8(value),
            Color::from_u8(value / 4),
            Color::from_u8(value / 16),
            Color::from_u8(value / 64),
        ];
        Palette { colors, palette_type }
    }

    pub fn background(memory_bus: &Memory) -> (r: Palette)
        requires
            memory_bus.wf(),
        ensures
            forall|i: int|
                0 <= i < 4 ==> r.colors@[i] == palette_shade(
                    read_model(memory_bus@, BG_PALETTE_ADDRESS),
                    i as u8,
                ),
    {
        Palette::from_u8(memory_bus.read(BG_PALETTE_ADDRESS), PaletteType::Background)
    }

    pub fn obp0(memory_bus: &Memory) -> (r: Palette)
        requires
            memory_bus.wf(),
        ensures
            forall|i: int|
                0 <= i < 4 ==> r.colors@[i] == palette_shade(
                    read_model(memory_bus@, OBP0_PALETTE_ADDRESS),
                    i as u8,
                ),
    {
        Palette::from_u8(memory_bus.read(OBP0_PALETTE_ADDRESS), PaletteType::Sprite)
    }

    pub fn obp1(memory_bus: &Memory) -> (r: Palette)
        requires
            memory_bus.wf(),
        ensures
            forall|i: int|
                0 <= i < 4 ==> r.colors@[i] == palette_shade(
                    read_model(memory_bus@, OBP1_PALETTE_ADDRESS),
                    i as u8,
                ),
    {
        Palette::from_u8(memory_bus.read(OBP1_PALETTE_ADDRESS), PaletteType::Sprite)
    }

    /// The color of the index whose high bit is `first_bit` and low bit is
    /// `last_bit`.
    pub fn color_from_bits(&self, first_bit: bool, last_bit: bool) -> (r: Color)
        ensures
            r == self.colors@[(if first_bit {
                2int
            } else {
                0
            }) + (if last_bit {
                1int
            } else {
                0
            })],
    {
        let index: usize = if first_bit {
            2
        } else {
            0
        } + if last_bit {
            1
        } else {
            0
        };
        self.colors[index]
    }
}

} // verus!
