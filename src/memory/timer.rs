//! The divider and the programmable timer.

use vstd::prelude::*;

verus! {

pub const DIV_INDEX: usize = 0x04;

pub const TIMA_INDEX: usize = 0x05;

pub const TMA_INDEX: usize = 0x06;

pub const TAC_INDEX: usize = 0x07;

/// M-cycles per DIV increment.
pub const DIV_PERIOD: u32 = 64;

/// The cycles that the divider and TIMA have counted towards their next
/// increment. The registers themselves live in the I/O bank.
pub struct Timer {
    pub div_cycles: u32,
    pub tima_cycles: u32,
}

pub open spec fn timer_enabled(tac: u8) -> bool {
    (tac / 4) % 2 == 1
}

/// M-cycles per TIMA increment, selected by the low two bits of TAC.
pub open spec fn tima_period(tac: u8) -> int {
    if tac % 4 == 0 {
        256
    } else if tac % 4 == 1 {
        4
    } else if tac % 4 == 2 {
        16
    } else {
        64
    }
}

/// One TIMA increment: on overflow TIMA is reloaded from TMA.
pub open spec fn tima_increment(tima: u8, tma: u8) -> u8 {
    if tima == 255 {
        tma
    } else {
        (tima + 1) as u8
    }
}

/// TIMA after `n` increments.
pub open spec fn tima_after(tima: u8, tma: u8, n: nat) -> u8
    decreases n,
{
    if n == 0 {
        tima
    } else {
        tima_increment(tima_after(tima, tma, (n - 1) as nat), tma)
    }
}

/// Whether one of `n` increments overflows.
pub open spec fn tima_overflows(tima: u8, tma: u8, n: nat) -> bool
    decreases n,
{
    if n == 0 {
        false
    } else {
        tima_overflows(tima, tma, (n - 1) as nat) || tima_after(tima, tma, (n - 1) as nat) == 255
    }
}

/// The divider as one count of M-cycles: DIV in the high part, the cycles
/// towards its next increment in the low part.
pub open spec fn div_phase(div: u8, div_cycles: u32) -> int {
    div * 64 + div_cycles
}

pub open spec fn div_after(div: u8, div_cycles: u32, cycles: u8) -> u8 {
    ((div + (div_cycles + cycles) / 64) % 256) as u8
}

/// The divider state after each step of a sequence of instruction costs.
pub open spec fn div_run(div: u8, div_cycles: u32, steps: Seq<u8>) -> (u8, u32)
    decreases steps.len(),
{
    if steps.len() == 0 {
        (div, div_cycles)
    } else {
        div_run(
            div_after(div, div_cycles, steps[0]),
            ((div_cycles + steps[0]) % 64) as u32,
            steps.drop_first(),
        )
    }
}

pub open spec fn sum_steps(steps: Seq<u8>) -> int
    decreases steps.len(),
{
    if steps.len() == 0 {
        0
    } else {
        steps[0] + sum_steps(steps.drop_first())
    }
}

impl Timer {
    pub open spec fn wf(&self) -> bool {
        self.div_cycles < 64 && self.tima_cycles < 256
    }

    pub fn new() -> (r: Timer)
        ensures
            r.wf(),
            r.div_cycles == 0 && r.tima_cycles == 0,
    {
        Timer { div_cycles: 0, tima_cycles: 0 }
    }

    /// Advances the divider and the timer by `cycles` M-cycles; returns whether
    /// TIMA overflowed, which raises the timer interrupt.
    pub fn tick(&mut self, cycles: u8, io: &mut Vec<u8>) -> (overflow: bool)
        requires
            old(self).wf(),
            old(io)@.len() == 0x80,
        ensures
            final(self).wf(),
            final(io)@.len() == 0x80,
            final(self).div_cycles == (old(self).div_cycles + cycles) % 64,
            final(io)@[DIV_INDEX as int] == div_after(
                old(io)@[DIV_INDEX as int],
                old(self).div_cycles,
                cycles,
            ),
            ({
                let tac = old(io)@[TAC_INDEX as int];
                let tima = old(io)@[TIMA_INDEX as int];
                let tma = old(io)@[TMA_INDEX as int];
                let total = old(self).tima_cycles as int + cycles as int;
                if timer_enabled(tac) {
                    &&& final(self).tima_cycles as int == total % tima_period(tac)
                    &&& final(io)@ == old(io)@.update(
                        DIV_INDEX as int,
                        final(io)@[DIV_INDEX as int],
                    ).update(
                        TIMA_INDEX as int,
                        tima_after(tima, tma, (total / tima_period(tac)) as nat),
                    )
                    &&& overflow == tima_overflows(tima, tma, (total / tima_period(tac)) as nat)
                } else {
                    &&& final(self).tima_cycles == old(self).tima_cycles
                    &&& final(io)@ == old(io)@.update(
                        DIV_INDEX as int,
                        final(io)@[DIV_INDEX as int],
                    )
                    &&& !overflow
                }
            }),
    {
        self.div_cycle(cycles, io);
        self.timer_cycle(cycles, io)
    }

    fn div_cycle(&mut self, cycles: u8, io: &mut Vec<u8>)
        requires
            old(self).wf(),
            old(io)@.len() == 0x80,
        ensures
            final(self).wf(),
            final(self).tima_cycles == old(self).tima_cycles,
            final(self).div_cycles == (old(self).div_cycles + cycles) % 64,
            final(io)@ == old(io)@.update(
                DIV_INDEX as int,
                div_after(old(io)@[DIV_INDEX as int], old(self).div_cycles, cycles),
            ),
    {
        let total: u32 = self.div_cycles + cycles as u32;
        let div = io[DIV_INDEX];
        io.set(DIV_INDEX, ((div as u32 + total / DIV_PERIOD) % 256) as u8);
        self.div_cycles = total % DIV_PERIOD;
    }

    fn timer_cycle(&mut self, cycles: u8, io: &mut Vec<u8>) -> (overflow: bool)
        requires
            old(self).wf(),
            old(io)@.len() == 0x80,
        ensures
            final(self).wf(),
            final(self).div_cycles == old(self).div_cycles,
            ({
                let tac = old(io)@[TAC_INDEX as int];
                let tima = old(io)@[TIMA_INDEX as int];
                let tma = old(io)@[TMA_INDEX as int];
                let total = old(self).tima_cycles as int + cycles as int;
                if timer_enabled(tac) {
                    &&& final(self).tima_cycles as int == total % tima_period(tac)
                    &&& final(io)@ == old(io)@.update(
                        TIMA_INDEX as int,
                        tima_after(tima, tma, (total / tima_period(tac)) as nat),
                    )
                    &&& overflow == tima_overflows(tima, tma, (total / tima_period(tac)) as nat)
                } else {
                    &&& final(self).tima_cycles == old(self).tima_cycles
                    &&& final(io)@ == old(io)@
                    &&& !overflow
                }
            }),
    {
        let tac = io[TAC_INDEX];
        if (tac / 4) % 2 != 1 {
            return false;
        }
        let period: u32 = if tac % 4 == 0 {
            256
        } else if tac % 4 == 1 {
            4
        } else if tac % 4 == 2 {
            16
        } else {
            64
        };
        let total: u32 = self.tima_cycles + cycles as u32;
        let increments: u32 = total / period;
        let tma = io[TMA_INDEX];
        let ghost tima0 = io@[TIMA_INDEX as int];
        let ghost io0 = io@;
        let mut tima = io[TIMA_INDEX];
        let mut overflow = false;
        let mut k: u32 = 0;
        while k < increments
            invariant
                k <= increments,
                tima == tima_after(tima0, tma, k as nat),
                overflow == tima_overflows(tima0, tma, k as nat),
            decreases increments - k,
        {
            if tima == 255 {
                overflow = true;
                tima = tma;
            } else {
                tima = tima + 1;
            }
            k = k + 1;
        }
        io.set(TIMA_INDEX, tima);
        self.tima_cycles = total % period;
        overflow
    }
}

/// Ticks never lose cycles: the divider phase advances by exactly the cycles
/// spent, modulo its 256 × 64 cycle wrap.
pub proof fn lemma_div_run_phase(div: u8, div_cycles: u32, steps: Seq<u8>)
    requires
        div_cycles < 64,
    ensures
        div_run(div, div_cycles, steps).1 < 64,
        div_phase(div_run(div, div_cycles, steps).0, div_run(div, div_cycles, steps).1) == (
        div_phase(div, div_cycles) + sum_steps(steps)) % 16384,
    decreases steps.len(),
{
    if steps.len() > 0 {
        let d1 = div_after(div, div_cycles, steps[0]);
        let c1 = ((div_cycles + steps[0]) % 64) as u32;
        assert(div_phase(d1, c1) == (div_phase(div, div_cycles) + steps[0]) % 16384) by {
            let t = div_cycles + steps[0];
            assert(t == 64 * (t / 64) + t % 64);
            assert(((div + t / 64) % 256) * 64 + t % 64 == (div * 64 + t) % 16384) by (
            nonlinear_arith)
                requires
                    0 <= t % 64 < 64,
                    t == 64 * (t / 64) + t % 64,
                    0 <= div < 256,
                    t >= 0,
            ;
        }
        lemma_div_run_phase(d1, c1, steps.drop_first());
        let p = div_phase(div, div_cycles);
        let s = sum_steps(steps.drop_first());
        assert(((p + steps[0]) % 16384 + s) % 16384 == (p + steps[0] + s) % 16384) by {
            vstd::arithmetic::div_mod::lemma_add_mod_noop(p + steps[0], s, 16384);
            vstd::arithmetic::div_mod::lemma_mod_twice(s, 16384);
            assert(s >= 0) by {
                lemma_sum_steps_nonneg(steps.drop_first());
            }
            vstd::arithmetic::div_mod::lemma_small_mod(s as nat % 16384, 16384);
        }
    } else {
        assert(div_phase(div, div_cycles) < 16384);
    }
}

proof fn lemma_sum_steps_nonneg(steps: Seq<u8>)
    ensures
        sum_steps(steps) >= 0,
    decreases steps.len(),
{
    if steps.len() > 0 {
        lemma_sum_steps_nonneg(steps.drop_first());
    }
}

/// From DIV at zero with no cycles pending, any run of instructions costing
/// exactly 64 M-cycles in all leaves DIV at one.
pub proof fn lemma_div_counts_64_cycles(steps: Seq<u8>)
    requires
        sum_steps(steps) == 64,
    ensures
        div_run(0, 0, steps).0 == 1,
{
    lemma_div_run_phase(0, 0, steps);
    let (d, c) = div_run(0, 0, steps);
    assert(d * 64 + c == 64);
}

/// `div_run` is what successive `tick` calls give: running one more step
/// applies one more `div_after` to the state the earlier steps reached.
pub proof fn lemma_div_run_push(div: u8, div_cycles: u32, steps: Seq<u8>, cycles: u8)
    ensures
        div_run(div, div_cycles, steps.push(cycles)) == ({
            let (d, c) = div_run(div, div_cycles, steps);
            (div_after(d, c, cycles), ((c + cycles) % 64) as u32)
        }),
    decreases steps.len(),
{
    if steps.len() > 0 {
        let d1 = div_after(div, div_cycles, steps[0]);
        let c1 = ((div_cycles + steps[0]) % 64) as u32;
        assert(steps.push(cycles).drop_first() =~= steps.drop_first().push(cycles));
        assert(steps.push(cycles)[0] == steps[0]);
        lemma_div_run_push(d1, c1, steps.drop_first(), cycles);
        assert(div_run(div, div_cycles, steps.push(cycles)) == div_run(
            d1,
            c1,
            steps.drop_first().push(cycles),
        ));
        assert(div_run(div, div_cycles, steps) == div_run(d1, c1, steps.drop_first()));
    } else {
        assert(steps.push(cycles).drop_first() =~= Seq::<u8>::empty());
        assert(steps.push(cycles)[0] == cycles);
        assert(steps.push(cycles).len() == 1);
        assert(div_run(div, div_cycles, steps) == (div, div_cycles));
        let d1 = div_after(div, div_cycles, cycles);
        let c1 = ((div_cycles + cycles) % 64) as u32;
        assert(div_run(d1, c1, Seq::<u8>::empty()) == (d1, c1));
        assert(div_run(div, div_cycles, steps.push(cycles)) == div_run(
            d1,
            c1,
            steps.push(cycles).drop_first(),
        ));
    }
}

} // verus!
