//! The LCD control (LCDC, `ff40`) and status (STAT, `ff41`) registers.

use vstd::prelude::*;
use crate::cpu::interrupts::has_bit;

verus! {

#[derive(Clone, Copy, Debug, PartialEq, Eq, Structural)]
pub enum ObjectSize {
    Size8x8,
    Size8x16,
}

/// LCDC, decoded.
#[derive(Clone, Copy, Debug, PartialEq, Eq, Structural)]
pub struct LcdControl {
    pub enabled: bool,
    pub window_tile_map_area: bool,
    pub window_enabled: bool,
    pub background_window_tile_data_area: bool,
    pub background_tile_map_area: bool,
    pub object_size: ObjectSize,
    pub object_enable: bool,
    pub background_enable: bool,
}

pub open spec fn lcd_control_of(v: u8) -> LcdControl {
    LcdControl {
        enabled: has_bit(v, 0x80),
        window_tile_map_area: has_bit(v, 0x40),
        window_enabled: has_bit(v, 0x20),
        background_window_tile_data_area: has_bit(v, 0x10),
        background_tile_map_area: has_bit(v, 0x08),
        object_size: if has_bit(v, 0x04) {
            ObjectSize::Size8x16
        } else {
            ObjectSize::Size8x8
        },
        object_enable: has_bit(v, 0x02),
        background_enable: has_bit(v, 0x01),
    }
}

/// Where the tile data of tile `index` starts: unsigned from `8000`, or
/// signed from `9000` when LCDC bit 4 is clear.
pub open spec fn tile_data_address(c: LcdControl, index: u8) -> u16 {
    if c.background_window_tile_data_area {
        (0x8000 + index * 16) as u16
    } else if index < 128 {
        (0x9000 + index * 16) as u16
    } else {
        (0x9000 - (256 - index) * 16) as u16
    }
}

pub open spec fn map_base(select: bool) -> u16 {
    if select {
        0x9c00
    } else {
        0x9800
    }
}

pub open spec fn object_height(s: ObjectSize) -> u8 {
    match s {
        ObjectSize::Size8x8 => 8,
        ObjectSize::Size8x16 => 16,
    }
}

/// Eight bits packed into a byte, bit 7 first, read back one by one.
proof fn lemma_pack_bits(b7: u8, b6: u8, b5: u8, b4: u8, b3: u8, b2: u8, b1: u8, b0: u8)
    by (bit_vector)
    requires
        b7 <= 1 && b6 <= 1 && b5 <= 1 && b4 <= 1 && b3 <= 1 && b2 <= 1 && b1 <= 1 && b0 <= 1,
    ensures
        ({
            let r = (b7 * 128 + b6 * 64 + b5 * 32 + b4 * 16 + b3 * 8 + b2 * 4 + b1 * 2 + b0) as u8;
            &&& b7 * 128 + b6 * 64 + b5 * 32 + b4 * 16 + b3 * 8 + b2 * 4 + b1 * 2 + b0 <= 255
            &&& (r / 0x80) % 2 == b7 && (r / 0x40) % 2 == b6 && (r / 0x20) % 2 == b5
            &&& (r / 0x10) % 2 == b4 && (r / 0x08) % 2 == b3 && (r / 0x04) % 2 == b2
            &&& (r / 0x02) % 2 == b1 && (r / 0x01) % 2 == b0
        }),
{
}

fn bit(x: u8, w: u8) -> (r: bool)
    requires
        w > 0,
    ensures
        r == has_bit(x, w),
{
    (x / w) % 2 == 1
}

impl LcdControl {
    pub fn from_byte(value: u8) -> (r: LcdControl)
        ensures
            r == lcd_control_of(value),
    {
        LcdControl {
            enabled: bit(value, 0x80),
            window_tile_map_area: bit(value, 0x40),
            window_enabled: bit(value, 0x20),
            background_window_tile_data_area: bit(value, 0x10),
            background_tile_map_area: bit(value, 0x08),
            object_size: if bit(value, 0x04) {
                ObjectSize::Size8x16
            } else {
                ObjectSize::Size8x8
            },
            object_enable: bit(value, 0x02),
            background_enable: bit(value, 0x01),
        }
    }

    /// The LCDC byte that decodes to this value.
    pub fn to_byte(&self) -> (r: u8)
        ensures
            lcd_control_of(r) == *self,
    {
        let b7: u8 = if self.enabled { 1 } else { 0 };
        let b6: u8 = if self.window_tile_map_area { 1 } else { 0 };
        let b5: u8 = if self.window_enabled { 1 } else { 0 };
        let b4: u8 = if self.background_window_tile_data_area { 1 } else { 0 };
        let b3: u8 = if self.background_tile_map_area { 1 } else { 0 };
        let b2: u8 = match self.object_size {
            ObjectSize::Size8x16 => 1,
            ObjectSize::Size8x8 => 0,
        };
        let b1: u8 = if self.object_enable { 1 } else { 0 };
        let b0: u8 = if self.background_enable { 1 } else { 0 };
        proof {
            lemma_pack_bits(b7, b6, b5, b4, b3, b2, b1, b0);
        }
        let r: u16 = b7 as u16 * 128 + b6 as u16 * 64 + b5 as u16 * 32 + b4 as u16 * 16 + b3 as u16
            * 8 + b2 as u16 * 4 + b1 as u16 * 2 + b0 as u16;
        let ghost sum = b7 * 128 + b6 * 64 + b5 * 32 + b4 * 16 + b3 * 8 + b2 * 4 + b1 * 2 + b0;
        assert(r as int == sum);
        let r = r as u8;
        assert(r == sum as u8);
        assert(has_bit(r, 0x80) == self.enabled);
        assert(has_bit(r, 0x40) == self.window_tile_map_area);
        assert(has_bit(r, 0x20) == self.window_enabled);
        assert(has_bit(r, 0x10) == self.background_window_tile_data_area);
        assert(has_bit(r, 0x08) == self.background_tile_map_area);
        assert(has_bit(r, 0x04) == (self.object_size == ObjectSize::Size8x16));
        assert(has_bit(r, 0x02) == self.object_enable);
        assert(has_bit(r, 0x01) == self.background_enable);
        r
    }

    /// The first address of the window's tile map.
    pub fn get_window_tile_map_area(&self) -> (r: u16)
        ensures
            r == map_base(self.window_tile_map_area),
    {
        if self.window_tile_map_area {
            0x9c00
        } else {
            0x9800
        }
    }

    /// The first address of the tile data that background and window use.
    pub fn get_background_window_tile_data_area(&self) -> (r: u16)
        ensures
            r == (if self.background_window_tile_data_area {
                0x8000u16
            } else {
                0x8800u16
            }),
    {
        if self.background_window_tile_data_area {
            0x8000
        } else {
            0x8800
        }
    }

    pub fn get_background_window_tile_address(&self, tile_index: u8) -> (r: u16)
        ensures
            r == tile_data_address(*self, tile_index),
            0x8000 <= r <= 0x97f0,
    {
        if self.background_window_tile_data_area {
            0x8000 + (tile_index as u16) * 16
        } else if tile_index < 128 {
            0x9000 + (tile_index as u16) * 16
        } else {
            0x9000 - (256 - tile_index as u16) * 16
        }
    }

    /// The first address of the background's tile map.
    pub fn get_background_tile_map_area(&self) -> (r: u16)
        ensures
            r == map_base(self.background_tile_map_area),
    {
        if self.background_tile_map_area {
            0x9c00
        } else {
            0x9800
        }
    }
}

impl ObjectSize {
    pub fn get_height(&self) -> (r: u8)
        ensures
            r == object_height(*self),
    {
        match self {
            ObjectSize::Size8x8 => 8,
            ObjectSize::Size8x16 => 16,
        }
    }
}

/// The interrupt sources that STAT enables.
#[derive(Clone, Copy, Debug, PartialEq, Eq, Structural)]
pub struct LcdStat {
    pub lyc_eq_ly_interrupt_source: bool,
    pub mode_2_interrupt_source: bool,
    pub mode_1_interrupt_source: bool,
    pub mode_0_interrupt_source: bool,
}

pub open spec fn lcd_stat_of(v: u8) -> LcdStat {
    LcdStat {
        lyc_eq_ly_interrupt_source: has_bit(v, 0x40),
        mode_2_interrupt_source: has_bit(v, 0x20),
        mode_1_interrupt_source: has_bit(v, 0x10),
        mode_0_interrupt_source: has_bit(v, 0x08),
    }
}

impl LcdStat {
    pub fn from_byte(value: u8) -> (r: LcdStat)
        ensures
            r == lcd_stat_of(value),
    {
        LcdStat {
            lyc_eq_ly_interrupt_source: bit(value, 0x40),
            mode_2_interrupt_source: bit(value, 0x20),
            mode_1_interrupt_source: bit(value, 0x10),
            mode_0_interrupt_source: bit(value, 0x08),
        }
    }
}

} // verus!
