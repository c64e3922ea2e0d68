//! The machine: CPU, bus, display unit and joypad, run in lockstep until a
//! frame is complete.

use vstd::prelude::*;
use crate::cartridge::Cartridge;
use crate::cpu::{exec_model, step_model, Cpu, CpuFault};
use crate::cpu::instructions::{decode_base, decode_extended, Instruction};
use crate::cpu::interrupts::{Interrupt, Interrupts};
use crate::joypad::{JoypadKey, JoypadState};
use crate::memory::io::{LY_INDEX, STAT_INDEX};
use crate::memory::{timer_model, BusView, Memory};
use crate::cpu::interrupts::request_model;
use crate::joypad::refresh_model;
use crate::ppu::palette::Color;
use crate::ppu::{dots_to_vblank, mode_bits, ppu_dot_model, status_model, Ppu, PpuMode, PpuView};

verus! {

/// One dot of the machine: the display unit advances, its interrupt requests
/// are set in IF, and LY and STAT show its new line and mode. Also gives
/// whether the dot entered VBlank.
pub open spec fn dot_pass(p: PpuView, v: BusView) -> (PpuView, BusView, bool) {
    let (p1, ev) = ppu_dot_model(p, v);
    let v1 = if ev.vblank {
        request_model(v, Interrupt::VBlank)
    } else {
        v
    };
    let v2 = if ev.lcd_stat {
        request_model(v1, Interrupt::LCDStat)
    } else {
        v1
    };
    (p1, status_model(v2, p1.scanline, p1.mode), ev.vblank)
}

/// `n` dots in a row, and whether one of them entered VBlank.
pub open spec fn dots_model(p: PpuView, v: BusView, n: nat) -> (PpuView, BusView, bool)
    decreases n,
{
    if n == 0 {
        (p, v, false)
    } else {
        let (p1, v1, f1) = dots_model(p, v, (n - 1) as nat);
        let (p2, v2, f2) = dot_pass(p1, v1);
        (p2, v2, f1 || f2)
    }
}

/// One pass of the machine: a CPU step, the joypad refresh from the held
/// `keys`, four dots per M-cycle, then the timer with its interrupt request,
/// and LY and STAT shown again. Gives the state afterwards and whether a frame
/// was completed, or the CPU's fault.
pub open spec fn pass_model(c: Cpu, keys: Seq<bool>, p: PpuView, v: BusView) -> Result<
    (Cpu, PpuView, BusView, bool),
    CpuFault,
> {
    match step_model(c, v) {
        Err(e) => Err(e),
        Ok((c1, v1, n)) => {
            let v2 = refresh_model(keys, v1);
            let (p3, v3, frame) = dots_model(p, v2, (4 * n) as nat);
            let (v4, overflow) = timer_model(v3, n);
            let v5 = if overflow {
                request_model(v4, Interrupt::Timer)
            } else {
                v4
            };
            Ok((c1, p3, status_model(v5, p3.scanline, p3.mode), frame))
        },
    }
}

/// The state after `k` passes none of which completed a frame; `None` if one
/// of them completed a frame or faulted.
pub open spec fn passes(c: Cpu, keys: Seq<bool>, p: PpuView, v: BusView, k: nat) -> Option<
    (Cpu, PpuView, BusView),
>
    decreases k,
{
    if k == 0 {
        Some((c, p, v))
    } else {
        match passes(c, keys, p, v, (k - 1) as nat) {
            None => None,
            Some((c1, p1, v1)) => match pass_model(c1, keys, p1, v1) {
                Ok((c2, p2, v2, frame)) => if frame {
                    None
                } else {
                    Some((c2, p2, v2))
                },
                Err(_) => None,
            },
        }
    }
}

/// How a run ends from state `s`: with a pass that completes the frame, or
/// with a pass whose CPU step faults (the state then stays as it was, the CPU
/// out of HALT).
pub open spec fn run_ends(
    s: (Cpu, PpuView, BusView),
    keys: Seq<bool>,
    cpu: Cpu,
    ppu: PpuView,
    bus: BusView,
    r: Result<Vec<Color>, CpuFault>,
) -> bool {
    match r {
        Ok(_) => pass_model(s.0, keys, s.1, s.2) == Ok::<
            (Cpu, PpuView, BusView, bool),
            CpuFault,
        >((cpu, ppu, bus, true)),
        Err(e) => pass_model(s.0, keys, s.1, s.2) == Err::<
            (Cpu, PpuView, BusView, bool),
            CpuFault,
        >(e) && cpu == (Cpu { halted: false, ..s.0 }) && ppu == s.1 && bus == s.2,
    }
}

pub struct Hardware {
    pub cpu: Cpu,
    pub ppu: Ppu,
    pub memory_bus: Memory,
    pub joypad: JoypadState,
}

/// Every instruction that runs costs between one and six M-cycles.
#[verifier::rlimit(100)]
proof fn lemma_instruction_costs_time(c: Cpu, v: crate::memory::BusView, ins: Instruction)
    requires
        ins != Instruction::Stop,
    ensures
        1 <= exec_model(c, v, ins).2 <= 6,
{
    reveal(exec_model);
    match ins {
        Instruction::Load(_, _) => {},
        Instruction::LoadImmediate(_) => {},
        Instruction::LoadImmediate16(_) => {},
        Instruction::LoadSPHL => {},
        Instruction::LoadHLSP => {},
        Instruction::LoadH => {},
        Instruction::WriteH => {},
        Instruction::LoadHC => {},
        Instruction::WriteHC => {},
        Instruction::ReadFromRam(_) => {},
        Instruction::WriteToRamFromStackPointer => {},
        Instruction::WriteToRam(_) => {},
        Instruction::Add(_) => {},
        Instruction::AddCarry(_) => {},
        Instruction::Subtract(_) => {},
        Instruction::SubtractCarry(_) => {},
        Instruction::And(_) => {},
        Instruction::Xor(_) => {},
        Instruction::Or(_) => {},
        Instruction::Cp(_) => {},
        Instruction::Add16(_) => {},
        Instruction::AddSP => {},
        Instruction::Increment(_) => {},
        Instruction::Decrement(_) => {},
        Instruction::Increment16(_) => {},
        Instruction::Decrement16(_) => {},
        Instruction::RotateLeftA => {},
        Instruction::RotateLeftCarryA => {},
        Instruction::RotateRightA => {},
        Instruction::RotateRightCarryA => {},
        Instruction::DecimalAdjust => {},
        Instruction::SetCarryFlag => {},
        Instruction::Complement => {},
        Instruction::ComplementCarryFlag => {},
        Instruction::Jump(_) => {},
        Instruction::JumpHL => {},
        Instruction::RelativeJump(_) => {},
        Instruction::Push(_) => {},
        Instruction::Pop(_) => {},
        Instruction::Noop => {},
        Instruction::Stop => {},
        Instruction::DisableInterrupts => {},
        Instruction::EnableInterrupts => {},
        Instruction::Call => {},
        Instruction::CallCondition(_) => {},
        Instruction::Restart(_) => {},
        Instruction::Return => {},
        Instruction::ReturnCondition(_) => {},
        Instruction::ReturnAndEnableInterrupts => {},
        Instruction::Halt => {},
        Instruction::ExtendedOpcode => {
            let e = decode_extended(crate::cpu::imm8(c, v));
            assert(crate::cpu::is_extended(e));
        },
        Instruction::RotateLeft(_) => {},
        Instruction::RotateRight(_) => {},
        Instruction::RotateLeftCarry(_) => {},
        Instruction::RotateRightCarry(_) => {},
        Instruction::ShiftLeftArithmetic(_) => {},
        Instruction::ShiftRightArithmetic(_) => {},
        Instruction::Swap(_) => {},
        Instruction::ShiftRightLogic(_) => {},
        Instruction::TestBit(_, _) => {},
        Instruction::ResetBit(_, _) => {},
        Instruction::SetBit(_, _) => {},
    }
}

/// A step that does not fault costs between one and six M-cycles.
proof fn lemma_step_costs_time(c: Cpu, v: crate::memory::BusView)
    ensures
        step_model(c, v) matches Ok(r) ==> 1 <= r.2 <= 6,
{
    reveal(step_model);
    let pending = crate::cpu::interrupts::bus_pending(v);
    let c1 = if pending is Some {
        Cpu { halted: false, ..c }
    } else {
        c
    };
    let op = crate::memory::read_model(v, c1.registers.program_counter);
    if let Some(ins) = decode_base(op) {
        if ins != Instruction::Stop {
            lemma_instruction_costs_time(c1, v, ins);
        }
    }
}

/// A fault does not depend on whether the CPU was halted: the step that
/// faulted sees the same bus and leaves HALT first.
proof fn lemma_fault_persists(c: Cpu, v: crate::memory::BusView)
    ensures
        step_model(c, v) is Err ==> step_model(Cpu { halted: false, ..c }, v) == step_model(c, v),
{
    reveal(step_model);
}

fn copy_frame(buffer: &Vec<Color>) -> (r: Vec<Color>)
    ensures
        r@ == buffer@,
{
    let mut frame: Vec<Color> = Vec::new();
    let mut i: usize = 0;
    while i < buffer.len()
        invariant
            i <= buffer@.len(),
            frame@ == buffer@.subrange(0, i as int),
        decreases buffer@.len() - i,
    {
        frame.push(buffer[i]);
        assert(frame@ =~= buffer@.subrange(0, i + 1));
        i = i + 1;
    }
    assert(frame@ =~= buffer@);
    frame
}

impl Hardware {
    /// The parts are consistent, and LY and STAT show the display unit's line
    /// and mode.
    pub open spec fn wf(&self) -> bool {
        &&& self.memory_bus.wf()
        &&& self.ppu.wf()
        &&& self.joypad.wf()
        &&& self.memory_bus@.io[LY_INDEX as int] == self.ppu.scanline
        &&& self.memory_bus@.io[STAT_INDEX as int] % 4 == mode_bits(self.ppu.mode)
    }

    pub fn new(cartridge: Cartridge) -> (r: Hardware)
        requires
            cartridge.wf(),
        ensures
            r.wf(),
            r.cpu == Cpu::new_spec(),
            r.memory_bus@.cart == cartridge.view(),
            r.ppu.scanline == 0 && r.ppu.dots == 0,
            forall|k: JoypadKey| !r.joypad.is_pressed(k),
    {
        let mut memory_bus = Memory::new(cartridge);
        let cpu = Cpu::new();
        let ppu = Ppu::new();
        let joypad = JoypadState::new();
        ppu.update_memory(&mut memory_bus);
        Hardware { cpu, ppu, memory_bus, joypad }
    }

    /// Runs until the display unit enters VBlank, and returns the finished
    /// frame (row-major, from the top-left corner). Each round is one CPU step,
    /// a joypad refresh, four dots per M-cycle with their interrupt requests,
    /// and the timer. Stops with the CPU's fault if it meets an unused opcode or
    /// STOP.
    #[verifier::spinoff_prover]
    pub fn run(&mut self) -> (r: Result<Vec<Color>, CpuFault>)
        requires
            old(self).wf(),
        ensures
            final(self).wf(),
            r matches Ok(frame) ==> {
                &&& frame@ == final(self).ppu.buffer@
                &&& frame@.len() == 160 * 144
                &&& final(self).ppu.mode == PpuMode::VBlank
                &&& final(self).ppu.scanline == 144
                &&& final(self).ppu.dots < 24
            },
            r matches Err(e) ==> step_model(final(self).cpu, final(self).memory_bus@) == Err::<
                (Cpu, crate::memory::BusView, u8),
                CpuFault,
            >(e),
            final(self).joypad == old(self).joypad,
            exists|k: nat|
                #[trigger] passes(
                    old(self).cpu,
                    old(self).joypad.keys@,
                    old(self).ppu.view(),
                    old(self).memory_bus@,
                    k,
                ) matches Some(s) && run_ends(
                    s,
                    old(self).joypad.keys@,
                    final(self).cpu,
                    final(self).ppu.view(),
                    final(self).memory_bus@,
                    r,
                ),
    {
        let ghost keys = self.joypad.keys@;
        let ghost k: nat = 0;
        loop
            invariant
                self.wf(),
                self.joypad == old(self).joypad,
                keys == old(self).joypad.keys@,
                passes(old(self).cpu, keys, old(self).ppu.view(), old(self).memory_bus@, k) == Some(
                    (self.cpu, self.ppu.view(), self.memory_bus@),
                ),
            decreases dots_to_vblank(self.ppu.scanline, self.ppu.dots),
        {
            let ghost p0 = self.ppu.view();
            let ghost before = dots_to_vblank(self.ppu.scanline, self.ppu.dots);
            proof {
                lemma_step_costs_time(self.cpu, self.memory_bus@);
            }
            let ghost c0 = self.cpu;
            let ghost v0 = self.memory_bus@;
            let cycles = match self.cpu.step(&mut self.memory_bus) {
                Ok((cycles, _)) => cycles,
                Err(fault) => {
                    proof {
                        lemma_fault_persists(c0, v0);
                        assert(run_ends(
                            (c0, p0, v0),
                            keys,
                            self.cpu,
                            self.ppu.view(),
                            self.memory_bus@,
                            Err(fault),
                        ));
                    }
                    return Err(fault);
                },
            };
            self.joypad.update_keys_status(&mut self.memory_bus);
            let ticks: u16 = cycles as u16 * 4;
            let frame_done = self.run_dots(ticks, Ghost(before));
            if self.memory_bus.timer_step(cycles) {
                Interrupts::dispatch_interrupt(Interrupt::Timer, &mut self.memory_bus);
            }
            self.ppu.update_memory(&mut self.memory_bus);
            proof {
                assert(pass_model(c0, keys, p0, v0) == Ok::<
                    (Cpu, PpuView, BusView, bool),
                    CpuFault,
                >((self.cpu, self.ppu.view(), self.memory_bus@, frame_done)));
            }
            if frame_done {
                let frame = copy_frame(&self.ppu.buffer);
                proof {
                    assert(run_ends(
                        (c0, p0, v0),
                        keys,
                        self.cpu,
                        self.ppu.view(),
                        self.memory_bus@,
                        Ok(frame),
                    ));
                }
                return Ok(frame);
            }
            proof {
                k = k + 1;
            }
        }
    }

    /// Ticks the display unit `ticks` times, requesting its interrupts and
    /// showing its line and mode after each dot; returns whether it entered
    /// VBlank, and then it is still in VBlank on line 144.
    fn run_dots(&mut self, ticks: u16, before: Ghost<nat>) -> (frame_done: bool)
        requires
            old(self).memory_bus.wf(),
            old(self).ppu.wf(),
            old(self).joypad.wf(),
            4 <= ticks <= 24,
            dots_to_vblank(old(self).ppu.scanline, old(self).ppu.dots) == before@,
        ensures
            final(self).memory_bus.wf(),
            final(self).ppu.wf(),
            final(self).joypad == old(self).joypad,
            final(self).cpu == old(self).cpu,
            final(self).memory_bus.cartridge.header == old(self).memory_bus.cartridge.header,
            frame_done ==> final(self).ppu.mode == PpuMode::VBlank && final(self).ppu.scanline
                == 144 && final(self).ppu.dots < 24,
            !frame_done ==> dots_to_vblank(final(self).ppu.scanline, final(self).ppu.dots)
                + ticks == before@,
            (final(self).ppu.view(), final(self).memory_bus@, frame_done) == dots_model(
                old(self).ppu.view(),
                old(self).memory_bus@,
                ticks as nat,
            ),
    {
        let mut frame_done = false;
        let mut t: u16 = 0;
        while t < ticks
            invariant
                self.memory_bus.wf(),
                self.ppu.wf(),
                self.joypad == old(self).joypad,
                self.cpu == old(self).cpu,
                self.memory_bus.cartridge.header == old(self).memory_bus.cartridge.header,
                t <= ticks,
                ticks <= 24,
                frame_done ==> self.ppu.mode == PpuMode::VBlank && self.ppu.scanline == 144
                    && self.ppu.dots < t,
                !frame_done ==> dots_to_vblank(self.ppu.scanline, self.ppu.dots) + t == before@,
                (self.ppu.view(), self.memory_bus@, frame_done) == dots_model(
                    old(self).ppu.view(),
                    old(self).memory_bus@,
                    t as nat,
                ),
            decreases ticks - t,
        {
            let ghost p1 = self.ppu.view();
            let ghost v1 = self.memory_bus@;
            let events = self.ppu.step(&self.memory_bus);
            if events.vblank {
                Interrupts::dispatch_interrupt(Interrupt::VBlank, &mut self.memory_bus);
                frame_done = true;
            }
            if events.lcd_stat {
                Interrupts::dispatch_interrupt(Interrupt::LCDStat, &mut self.memory_bus);
            }
            self.ppu.update_memory(&mut self.memory_bus);
            proof {
                assert(dot_pass(p1, v1) == (self.ppu.view(), self.memory_bus@, events.vblank));
            }
            t = t + 1;
        }
        frame_done
    }

    pub fn button_pressed(&mut self, button: JoypadKey)
        requires
            old(self).wf(),
        ensures
            final(self).wf(),
            forall|k: JoypadKey|
                final(self).joypad.is_pressed(k) == (k == button || old(self).joypad.is_pressed(k)),
    {
        self.joypad.set_key_pressed(button);
    }

    pub fn button_released(&mut self, button: JoypadKey)
        requires
            old(self).wf(),
        ensures
            final(self).wf(),
            forall|k: JoypadKey|
                final(self).joypad.is_pressed(k) == (k != button && old(self).joypad.is_pressed(k)),
    {
        self.joypad.set_key_released(button);
    }

    /// Takes the pending request to save the battery-backed RAM, with the RAM
    /// to save; `None` when there is none or the cartridge has no such RAM.
    pub fn take_save_request(&mut self) -> (r: Option<Vec<u8>>)
        requires
            old(self).wf(),
        ensures
            final(self).wf(),
            !final(self).memory_bus@.save_requested,
            r is Some <==> old(self).memory_bus@.save_requested && old(self).memory_bus@.cart.kind
                == crate::cartridge::MapperKind::Mbc3,
            r matches Some(ram) ==> ram@ == old(self).memory_bus@.cart.ram,
    {
        let requested = self.memory_bus.take_save_request();
        if !requested {
            return None;
        }
        match self.memory_bus.cartridge.battery_ram() {
            Some(ram) => Some(crate::cartridge::copy_bytes(ram)),
            None => None,
        }
    }
}

} // verus!
