//! The I/O register bank at `ff00..ff80`, with the timer that drives DIV and
//! TIMA.

use vstd::prelude::*;
use super::timer::{Timer, DIV_INDEX};

verus! {

pub const JOYP_INDEX: usize = 0x00;

pub const IF_INDEX: usize = 0x0f;

pub const STAT_INDEX: usize = 0x41;

pub const LY_INDEX: usize = 0x44;

pub const DMA_INDEX: usize = 0x46;

pub struct IOMemoryBank {
    /// The registers, indexed by address minus `ff00`.
    pub data: Vec<u8>,
    pub timer: Timer,
}

/// JOYP after a write: bits 7 and 6 read as one, bits 5 and 4 take the
/// written selector, the button bits stay.
pub open spec fn joyp_write(old: u8, value: u8) -> u8 {
    (0xc0 + ((value / 16) % 4) * 16 + old % 16) as u8
}

/// STAT after a write: the mode and coincidence bits (2..0) are not writable.
pub open spec fn stat_write(old: u8, value: u8) -> u8 {
    (value - value % 8 + old % 8) as u8
}

/// The registers after a write of `value` at index `i`, and the divider's
/// pending cycles.
pub open spec fn io_write(data: Seq<u8>, div_cycles: u32, i: int, value: u8) -> (Seq<u8>, u32) {
    if i == JOYP_INDEX {
        (data.update(i, joyp_write(data[i], value)), div_cycles)
    } else if i == DIV_INDEX {
        (data.update(i, 0), 0)
    } else if i == STAT_INDEX {
        (data.update(i, stat_write(data[i], value)), div_cycles)
    } else if i == LY_INDEX {
        (data, div_cycles)
    } else {
        (data.update(i, value), div_cycles)
    }
}

impl IOMemoryBank {
    pub open spec fn wf(&self) -> bool {
        self.data@.len() == 0x80 && self.timer.wf()
    }

    /// Registers at zero, but JOYP with nothing selected and no button down.
    pub fn new() -> (r: IOMemoryBank)
        ensures
            r.wf(),
            r.data@ == Seq::new(0x80, |i: int| 0u8).update(JOYP_INDEX as int, 0xff),
            r.timer.div_cycles == 0 && r.timer.tima_cycles == 0,
    {
        let mut data: Vec<u8> = Vec::new();
        let mut i: usize = 0;
        while i < 0x80
            invariant
                i <= 0x80,
                data@ == Seq::new(i as nat, |j: int| 0u8),
            decreases 0x80 - i,
        {
            data.push(0);
            assert(data@ =~= Seq::new((i + 1) as nat, |j: int| 0u8));
            i = i + 1;
        }
        data.set(JOYP_INDEX, 0xff);
        IOMemoryBank { data, timer: Timer::new() }
    }

    /// Advances the divider and the timer; returns whether TIMA overflowed.
    pub fn timer_step(&mut self, cycles: u8) -> (overflow: bool)
        requires
            old(self).wf(),
        ensures
            final(self).wf(),
            final(self).timer.div_cycles == (old(self).timer.div_cycles + cycles) % 64,
            final(self).data@[DIV_INDEX as int] == super::timer::div_after(
                old(self).data@[DIV_INDEX as int],
                old(self).timer.div_cycles,
                cycles,
            ),
            ({
                let io = old(self).data@;
                let tac = io[super::timer::TAC_INDEX as int];
                let tima = io[super::timer::TIMA_INDEX as int];
                let tma = io[super::timer::TMA_INDEX as int];
                let total = old(self).timer.tima_cycles as int + cycles as int;
                let period = super::timer::tima_period(tac);
                if super::timer::timer_enabled(tac) {
                    &&& final(self).timer.tima_cycles as int == total % period
                    &&& final(self).data@ == io.update(
                        DIV_INDEX as int,
                        final(self).data@[DIV_INDEX as int],
                    ).update(
                        super::timer::TIMA_INDEX as int,
                        super::timer::tima_after(tima, tma, (total / period) as nat),
                    )
                    &&& overflow == super::timer::tima_overflows(
                        tima,
                        tma,
                        (total / period) as nat,
                    )
                } else {
                    &&& final(self).timer.tima_cycles == old(self).timer.tima_cycles
                    &&& final(self).data@ == io.update(
                        DIV_INDEX as int,
                        final(self).data@[DIV_INDEX as int],
                    )
                    &&& !overflow
                }
            }),
    {
        self.timer.tick(cycles, &mut self.data)
    }

    pub fn read(&self, index: usize) -> (r: u8)
        requires
            self.wf(),
            index < 0x80,
        ensures
            r == self.data@[index as int],
    {
        self.data[index]
    }

    /// A write by the program, under the rules of the special registers.
    pub fn write(&mut self, index: usize, value: u8)
        requires
            old(self).wf(),
            index < 0x80,
        ensures
            final(self).wf(),
            (final(self).data@, final(self).timer.div_cycles) == io_write(
                old(self).data@,
                old(self).timer.div_cycles,
                index as int,
                value,
            ),
            final(self).timer.tima_cycles == old(self).timer.tima_cycles,
    {
        if index == JOYP_INDEX {
            let old_value = self.data[index];
            self.data.set(index, handle_joyp_write(old_value, value));
        } else if index == DIV_INDEX {
            self.data.set(index, 0);
            self.timer.div_cycles = 0;
        } else if index == STAT_INDEX {
            let old_value = self.data[index];
            self.data.set(index, value - value % 8 + old_value % 8);
        } else if index != LY_INDEX {
            self.data.set(index, value);
        }
    }
}

fn handle_joyp_write(old_value: u8, value: u8) -> (r: u8)
    ensures
        r == joyp_write(old_value, value),
{
    0xc0 + ((value / 16) % 4) * 16 + old_value % 16
}

} // verus!
