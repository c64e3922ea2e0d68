//! The joypad: which buttons are held, and the JOYP register (`ff00`) that
//! shows them, active low, for the selected button group.

use vstd::prelude::*;
use crate::cpu::interrupts::{has_bit, request_model, Interrupt, Interrupts};
use crate::memory::{BusView, Memory};
use crate::memory::io::JOYP_INDEX;

verus! {

#[derive(Clone, Copy, Debug, PartialEq, Eq, Structural, Hash)]
pub enum JoypadKey {
    A,
    B,
    Select,
    Start,
    Up,
    Down,
    Left,
    Right,
}

pub open spec fn key_index(k: JoypadKey) -> int {
    match k {
        JoypadKey::A => 0,
        JoypadKey::B => 1,
        JoypadKey::Select => 2,
        JoypadKey::Start => 3,
        JoypadKey::Right => 4,
        JoypadKey::Left => 5,
        JoypadKey::Up => 6,
        JoypadKey::Down => 7,
    }
}

fn index_of(k: JoypadKey) -> (r: usize)
    ensures
        r == key_index(k),
{
    match k {
        JoypadKey::A => 0,
        JoypadKey::B => 1,
        JoypadKey::Select => 2,
        JoypadKey::Start => 3,
        JoypadKey::Right => 4,
        JoypadKey::Left => 5,
        JoypadKey::Up => 6,
        JoypadKey::Down => 7,
    }
}

/// The buttons held down, one flag per key.
pub struct JoypadState {
    pub keys: Vec<bool>,
}

/// Whether button line `i` (0..4) reads as pressed. With the action group
/// selected (JOYP bit 5 clear) the lines show A, B, Select, Start; otherwise,
/// with the direction group selected (bit 4 clear), Right, Left, Up, Down;
/// with neither selected no line is down.
pub open spec fn line_down(keys: Seq<bool>, joyp: u8, i: int) -> bool {
    if !has_bit(joyp, 0x20) {
        keys[i]
    } else if !has_bit(joyp, 0x10) {
        keys[i + 4]
    } else {
        false
    }
}

pub open spec fn line_bit(keys: Seq<bool>, joyp: u8, i: int, weight: u8) -> int {
    if line_down(keys, joyp, i) {
        0
    } else {
        weight as int
    }
}

/// The low nibble of JOYP: a bit is clear while its line is down.
pub open spec fn buttons_nibble(keys: Seq<bool>, joyp: u8) -> u8 {
    (line_bit(keys, joyp, 0, 1) + line_bit(keys, joyp, 1, 2) + line_bit(keys, joyp, 2, 4)
        + line_bit(keys, joyp, 3, 8)) as u8
}

/// Whether some button bit goes from 1 to 0.
pub open spec fn falling_edge(old: u8, new: u8) -> bool {
    (has_bit(old, 1) && !has_bit(new, 1)) || (has_bit(old, 2) && !has_bit(new, 2)) || (has_bit(
        old,
        4,
    ) && !has_bit(new, 4)) || (has_bit(old, 8) && !has_bit(new, 8))
}

pub open spec fn with_buttons(v: BusView, nibble: u8) -> BusView {
    BusView {
        io: v.io.update(
            JOYP_INDEX as int,
            (v.io[JOYP_INDEX as int] - v.io[JOYP_INDEX as int] % 16 + nibble) as u8,
        ),
        ..v
    }
}

/// The bus after JOYP is refreshed from `keys`; a falling button bit requests
/// the joypad interrupt.
pub open spec fn refresh_model(keys: Seq<bool>, v: BusView) -> BusView {
    let joyp = v.io[JOYP_INDEX as int];
    let nibble = buttons_nibble(keys, joyp);
    let w = with_buttons(v, nibble);
    if falling_edge(joyp % 16, nibble) {
        request_model(w, Interrupt::Joypad)
    } else {
        w
    }
}

fn bit(x: u8, w: u8) -> (r: bool)
    requires
        w > 0,
    ensures
        r == has_bit(x, w),
{
    (x / w) % 2 == 1
}

impl JoypadState {
    pub open spec fn wf(&self) -> bool {
        self.keys@.len() == 8
    }

    pub open spec fn is_pressed(&self, k: JoypadKey) -> bool {
        self.keys@[key_index(k)]
    }

    /// No button held.
    pub fn new() -> (r: JoypadState)
        ensures
            r.wf(),
            forall|k: JoypadKey| !r.is_pressed(k),
    {
        JoypadState { keys: vec![false, false, false, false, false, false, false, false] }
    }

    pub fn set_key_pressed(&mut self, key: JoypadKey)
        requires
            old(self).wf(),
        ensures
            final(self).wf(),
            forall|k: JoypadKey| final(self).is_pressed(k) == (k == key || old(self).is_pressed(k)),
    {
        self.keys.set(index_of(key), true);
    }

    pub fn set_key_released(&mut self, key: JoypadKey)
        requires
            old(self).wf(),
        ensures
            final(self).wf(),
            forall|k: JoypadKey| final(self).is_pressed(k) == (k != key && old(self).is_pressed(k)),
    {
        self.keys.set(index_of(key), false);
    }

    /// Refreshes the button bits of JOYP from the held keys, and requests the
    /// joypad interrupt when a selected button goes down.
    pub fn update_keys_status(&self, bus: &mut Memory)
        requires
            self.wf(),
            old(bus).wf(),
        ensures
            final(bus).wf(),
            final(bus).cartridge.header == old(bus).cartridge.header,
            final(bus)@ == refresh_model(self.keys@, old(bus)@),
            ({
                let joyp = old(bus)@.io[JOYP_INDEX as int];
                let now = final(bus)@.io[JOYP_INDEX as int];
                &&& now >= 0xc0
                &&& now % 16 == buttons_nibble(self.keys@, joyp)
                &&& now / 16 == joyp / 16
            }),
    {
        let joyp = bus.read(0xff00);
        let action = !bit(joyp, 0x20);
        let direction = !bit(joyp, 0x10);
        let mut nibble: u8 = 0;
        let mut i: usize = 0;
        let mut weight: u8 = 1;
        while i < 4
            invariant
                self.wf(),
                i <= 4,
                weight == (if i == 0 {
                    1u8
                } else if i == 1 {
                    2u8
                } else if i == 2 {
                    4u8
                } else if i == 3 {
                    8u8
                } else {
                    16u8
                }),
                action == !has_bit(joyp, 0x20),
                direction == !has_bit(joyp, 0x10),
                nibble as int == (if i > 0 {
                    line_bit(self.keys@, joyp, 0, 1)
                } else {
                    0
                }) + (if i > 1 {
                    line_bit(self.keys@, joyp, 1, 2)
                } else {
                    0
                }) + (if i > 2 {
                    line_bit(self.keys@, joyp, 2, 4)
                } else {
                    0
                }) + (if i > 3 {
                    line_bit(self.keys@, joyp, 3, 8)
                } else {
                    0
                }),
            decreases 4 - i,
        {
            let down = if action {
                self.keys[i]
            } else if direction {
                self.keys[i + 4]
            } else {
                false
            };
            if !down {
                nibble = nibble + weight;
            }
            weight = weight * 2;
            i = i + 1;
        }
        let old_nibble = joyp % 16;
        let falling = (bit(old_nibble, 1) && !bit(nibble, 1)) || (bit(old_nibble, 2) && !bit(
            nibble,
            2,
        )) || (bit(old_nibble, 4) && !bit(nibble, 4)) || (bit(old_nibble, 8) && !bit(nibble, 8));
        bus.set_joypad_buttons(nibble);
        if falling {
            Interrupts::dispatch_interrupt(Interrupt::Joypad, bus);
        }
    }
}

} // verus!
