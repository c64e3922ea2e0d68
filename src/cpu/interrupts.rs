//! The five interrupt lines, encoded as bits of IE (`ffff`) and IF (`ff0f`).

use vstd::prelude::*;
use crate::memory::{read_model, write_model, BusView, Memory};

verus! {

pub const INTERRUPT_ENABLED_ADDRESS: u16 = 0xffff;

pub const INTERRUPT_FLAG_ADDRESS: u16 = 0xff0f;

/// The interrupt lines, highest priority first.
#[derive(Clone, Copy, Debug, PartialEq, Eq, Structural)]
pub enum Interrupt {
    VBlank,
    LCDStat,
    Timer,
    Serial,
    Joypad,
}

/// The bit of IE and IF that a line uses.
pub open spec fn interrupt_mask(i: Interrupt) -> u8 {
    match i {
        Interrupt::VBlank => 0x01,
        Interrupt::LCDStat => 0x02,
        Interrupt::Timer => 0x04,
        Interrupt::Serial => 0x08,
        Interrupt::Joypad => 0x10,
    }
}

/// Where the CPU jumps to service a line.
pub open spec fn interrupt_vector(i: Interrupt) -> u16 {
    match i {
        Interrupt::VBlank => 0x40,
        Interrupt::LCDStat => 0x48,
        Interrupt::Timer => 0x50,
        Interrupt::Serial => 0x58,
        Interrupt::Joypad => 0x60,
    }
}

/// Whether the single-bit mask `m` is set in `x`.
pub open spec fn has_bit(x: u8, m: u8) -> bool {
    (x / m) % 2 == 1
}

pub open spec fn with_bit(x: u8, m: u8) -> u8 {
    if has_bit(x, m) {
        x
    } else {
        (x + m) as u8
    }
}

pub open spec fn without_bit(x: u8, m: u8) -> u8 {
    if has_bit(x, m) {
        (x - m) as u8
    } else {
        x
    }
}

pub open spec fn is_pending(ie: u8, flags: u8, i: Interrupt) -> bool {
    has_bit(ie, interrupt_mask(i)) && has_bit(flags, interrupt_mask(i))
}

/// The highest-priority line that is both enabled and requested.
pub open spec fn pending_interrupt(ie: u8, flags: u8) -> Option<Interrupt> {
    if is_pending(ie, flags, Interrupt::VBlank) {
        Some(Interrupt::VBlank)
    } else if is_pending(ie, flags, Interrupt::LCDStat) {
        Some(Interrupt::LCDStat)
    } else if is_pending(ie, flags, Interrupt::Timer) {
        Some(Interrupt::Timer)
    } else if is_pending(ie, flags, Interrupt::Serial) {
        Some(Interrupt::Serial)
    } else if is_pending(ie, flags, Interrupt::Joypad) {
        Some(Interrupt::Joypad)
    } else {
        None
    }
}

/// The highest-priority pending line of a bus.
pub open spec fn bus_pending(v: BusView) -> Option<Interrupt> {
    pending_interrupt(read_model(v, INTERRUPT_ENABLED_ADDRESS), read_model(v, INTERRUPT_FLAG_ADDRESS))
}

/// The bus after requesting line `i`: its IF bit set, the others kept.
pub open spec fn request_model(v: BusView, i: Interrupt) -> BusView {
    write_model(
        v,
        INTERRUPT_FLAG_ADDRESS,
        with_bit(read_model(v, INTERRUPT_FLAG_ADDRESS), interrupt_mask(i)),
    )
}

/// The bus after acknowledging line `i`: its IF bit cleared, the others kept.
pub open spec fn ack_model(v: BusView, i: Interrupt) -> BusView {
    write_model(
        v,
        INTERRUPT_FLAG_ADDRESS,
        without_bit(read_model(v, INTERRUPT_FLAG_ADDRESS), interrupt_mask(i)),
    )
}

#[derive(Clone, Copy, Debug, PartialEq, Eq, Structural)]
pub struct InterruptStatus {
    pub enabled: bool,
    pub flag: bool,
}

impl InterruptStatus {
    pub fn is_active(&self) -> (r: bool)
        ensures
            r == (self.enabled && self.flag),
    {
        self.enabled && self.flag
    }
}

/// The state of every line, decoded from IE and IF.
#[derive(Clone, Copy, Debug, PartialEq, Eq, Structural)]
pub struct Interrupts {
    pub vblank: InterruptStatus,
    pub lcd_stat: InterruptStatus,
    pub timer: InterruptStatus,
    pub serial: InterruptStatus,
    pub joypad: InterruptStatus,
}

pub open spec fn status_of(ie: u8, flags: u8, m: u8) -> InterruptStatus {
    InterruptStatus { enabled: has_bit(ie, m), flag: has_bit(flags, m) }
}

pub open spec fn interrupts_of(ie: u8, flags: u8) -> Interrupts {
    Interrupts {
        vblank: status_of(ie, flags, 0x01),
        lcd_stat: status_of(ie, flags, 0x02),
        timer: status_of(ie, flags, 0x04),
        serial: status_of(ie, flags, 0x08),
        joypad: status_of(ie, flags, 0x10),
    }
}

proof fn lemma_bit_room(x: u8, m: u8)
    requires
        m == 1 || m == 2 || m == 4 || m == 8 || m == 16,
    ensures
        has_bit(x, m) ==> x >= m,
        !has_bit(x, m) ==> x + m <= 255,
{
    if m == 1 {
    } else if m == 2 {
    } else if m == 4 {
    } else if m == 8 {
    } else {
    }
}

fn bit_set(x: u8, m: u8) -> (r: bool)
    requires
        m > 0,
    ensures
        r == has_bit(x, m),
{
    (x / m) % 2 == 1
}

fn status(ie: u8, flags: u8, m: u8) -> (r: InterruptStatus)
    requires
        m > 0,
    ensures
        r == status_of(ie, flags, m),
{
    InterruptStatus { enabled: bit_set(ie, m), flag: bit_set(flags, m) }
}

fn mask(interrupt: Interrupt) -> (r: u8)
    ensures
        r == interrupt_mask(interrupt),
        r == 1 || r == 2 || r == 4 || r == 8 || r == 16,
{
    match interrupt {
        Interrupt::VBlank => 0x01,
        Interrupt::LCDStat => 0x02,
        Interrupt::Timer => 0x04,
        Interrupt::Serial => 0x08,
        Interrupt::Joypad => 0x10,
    }
}

/// The service routine address of a line.
pub fn vector(interrupt: Interrupt) -> (r: u16)
    ensures
        r == interrupt_vector(interrupt),
{
    match interrupt {
        Interrupt::VBlank => 0x40,
        Interrupt::LCDStat => 0x48,
        Interrupt::Timer => 0x50,
        Interrupt::Serial => 0x58,
        Interrupt::Joypad => 0x60,
    }
}

impl Interrupts {
    /// Decodes the lines from the values of IE and IF.
    pub fn from_registers(enabled: u8, flag: u8) -> (r: Interrupts)
        ensures
            r == interrupts_of(enabled, flag),
    {
        Interrupts {
            vblank: status(enabled, flag, 0x01),
            lcd_stat: status(enabled, flag, 0x02),
            timer: status(enabled, flag, 0x04),
            serial: status(enabled, flag, 0x08),
            joypad: status(enabled, flag, 0x10),
        }
    }

    pub fn get_interrupts(memory_bus: &Memory) -> (r: Interrupts)
        requires
            memory_bus.wf(),
        ensures
            r == interrupts_of(
                read_model(memory_bus@, INTERRUPT_ENABLED_ADDRESS),
                read_model(memory_bus@, INTERRUPT_FLAG_ADDRESS),
            ),
    {
        let enabled = memory_bus.read(INTERRUPT_ENABLED_ADDRESS);
        let flag = memory_bus.read(INTERRUPT_FLAG_ADDRESS);
        Interrupts::from_registers(enabled, flag)
    }

    /// Requests `interrupt`: sets its bit in IF.
    pub fn dispatch_interrupt(interrupt: Interrupt, memory_bus: &mut Memory)
        requires
            old(memory_bus).wf(),
        ensures
            final(memory_bus).wf(),
            final(memory_bus)@ == request_model(old(memory_bus)@, interrupt),
            final(memory_bus).cartridge.header == old(memory_bus).cartridge.header,
    {
        let flag = memory_bus.read(INTERRUPT_FLAG_ADDRESS);
        let m = mask(interrupt);
        let new_flag = if bit_set(flag, m) {
            flag
        } else {
            proof {
                lemma_bit_room(flag, m);
            }
            flag + m
        };
        memory_bus.write(INTERRUPT_FLAG_ADDRESS, new_flag);
    }

    /// The highest-priority line that is enabled and requested.
    pub fn get_highest_priority_interrupt(&self) -> (r: Option<Interrupt>)
        ensures
            forall|ie: u8, flags: u8|
                *self == interrupts_of(ie, flags) ==> r == pending_interrupt(ie, flags),
            r is None == self.is_empty_spec(),
    {
        if self.vblank.is_active() {
            Some(Interrupt::VBlank)
        } else if self.lcd_stat.is_active() {
            Some(Interrupt::LCDStat)
        } else if self.timer.is_active() {
            Some(Interrupt::Timer)
        } else if self.serial.is_active() {
            Some(Interrupt::Serial)
        } else if self.joypad.is_active() {
            Some(Interrupt::Joypad)
        } else {
            None
        }
    }

    pub open spec fn is_empty_spec(&self) -> bool {
        !(self.vblank.enabled && self.vblank.flag) && !(self.lcd_stat.enabled
            && self.lcd_stat.flag) && !(self.timer.enabled && self.timer.flag) && !(
        self.serial.enabled && self.serial.flag) && !(self.joypad.enabled && self.joypad.flag)
    }

    /// Acknowledges `interrupt`: clears its request here and its bit in IF.
    pub fn ack_interrupt(&mut self, interrupt: Interrupt, memory_bus: &mut Memory)
        requires
            old(memory_bus).wf(),
        ensures
            final(memory_bus).wf(),
            final(memory_bus)@ == ack_model(old(memory_bus)@, interrupt),
            final(memory_bus).cartridge.header == old(memory_bus).cartridge.header,
            *final(self) == match interrupt {
                Interrupt::VBlank => Interrupts {
                    vblank: InterruptStatus { flag: false, ..old(self).vblank },
                    ..*old(self)
                },
                Interrupt::LCDStat => Interrupts {
                    lcd_stat: InterruptStatus { flag: false, ..old(self).lcd_stat },
                    ..*old(self)
                },
                Interrupt::Timer => Interrupts {
                    timer: InterruptStatus { flag: false, ..old(self).timer },
                    ..*old(self)
                },
                Interrupt::Serial => Interrupts {
                    serial: InterruptStatus { flag: false, ..old(self).serial },
                    ..*old(self)
                },
                Interrupt::Joypad => Interrupts {
                    joypad: InterruptStatus { flag: false, ..old(self).joypad },
                    ..*old(self)
                },
            },
    {
        match interrupt {
            Interrupt::VBlank => self.vblank.flag = false,
            Interrupt::LCDStat => self.lcd_stat.flag = false,
            Interrupt::Timer => self.timer.flag = false,
            Interrupt::Serial => self.serial.flag = false,
            Interrupt::Joypad => self.joypad.flag = false,
        }
        let flag = memory_bus.read(INTERRUPT_FLAG_ADDRESS);
        let m = mask(interrupt);
        let new_flag = if bit_set(flag, m) {
            proof {
                lemma_bit_room(flag, m);
            }
            flag - m
        } else {
            flag
        };
        memory_bus.write(INTERRUPT_FLAG_ADDRESS, new_flag);
    }

    /// Whether no line is both enabled and requested.
    pub fn is_empty(&self) -> (r: bool)
        ensures
            r == self.is_empty_spec(),
    {
        !self.vblank.is_active() && !self.lcd_stat.is_active() && !self.timer.is_active()
            && !self.serial.is_active() && !self.joypad.is_active()
    }
}

} // verus!
