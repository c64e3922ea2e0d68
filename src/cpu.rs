//! The CPU: fetch, decode and execute of the instruction set, and interrupt
//! dispatch.
//!
//! `exec_model` states what each instruction does to the registers and the
//! bus, and how many M-cycles it costs; `step_model` states one step of the
//! CPU, interrupts and HALT included. The executable code is proved to follow
//! both.

use vstd::prelude::*;
use crate::memory::{read16_model, read_model, wrap16, write16_model, write_model, BusView, Memory};
use self::alu::{
    add16, add8, and, decimal_adjust, decrement, increment, or, reset_bit, rotate_left_circular,
    rotate_left_through_carry, rotate_right_circular, rotate_right_through_carry, set_bit,
    shift_left_arithmetic, shift_right_arithmetic, shift_right_logic, sp_offset, subtract, swap,
    test_bit, xor,
    add_spec, add16_spec, daa_spec, dec_spec, inc_spec, logic_flags, reset_bit_spec, rl_spec,
    rlc_spec, rr_spec, rrc_spec, set_bit_spec, shift_flags, signed_offset, sla_spec,
    sp_offset_spec, sra_spec, srl_spec, sub_spec, swap_spec, test_bit_flags,
};
use self::instructions::{
    decode_base, decode_extended, ArithmeticTarget, ArithmeticTarget16, BitOpTarget,
    ByteArithmeticTarget, Instruction, JumpCondition, LoadTarget, LoadTarget16,
    MemoryAddressRegistry, PushPopTarget,
};
use self::interrupts::{
    ack_model, bus_pending, interrupt_vector, vector, Interrupt, Interrupts,
};
use self::registers::{FlagsRegister, Registers};

pub mod alu;
pub mod instructions;
pub mod interrupts;
pub mod registers;

verus! {

#[derive(Clone, Copy, Debug, PartialEq, Eq, Structural)]
pub struct Cpu {
    pub registers: Registers,
    /// The interrupt master enable.
    pub ime: bool,
    pub halted: bool,
    /// Set by EI: IME turns on once the next instruction has run.
    pub ime_scheduled: bool,
}

/// Conditions that stop the machine.
#[derive(Clone, Copy, Debug, PartialEq, Eq, Structural)]
pub enum CpuFault {
    UnknownOpcode(u8),
    Stop,
}

// ---------------------------------------------------------------------------
// The model of one instruction.

pub open spec fn pc_after(r: Registers, n: int) -> u16 {
    wrap16(r.program_counter + n)
}

pub open spec fn imm8(c: Cpu, v: BusView) -> u8 {
    read_model(v, pc_after(c.registers, 1))
}

pub open spec fn imm16(c: Cpu, v: BusView) -> u16 {
    read16_model(v, pc_after(c.registers, 1))
}

pub open spec fn byte_operand(r: Registers, v: BusView, t: ByteArithmeticTarget) -> u8 {
    match t {
        ByteArithmeticTarget::A => r.a,
        ByteArithmeticTarget::B => r.b,
        ByteArithmeticTarget::C => r.c,
        ByteArithmeticTarget::D => r.d,
        ByteArithmeticTarget::E => r.e,
        ByteArithmeticTarget::H => r.h,
        ByteArithmeticTarget::L => r.l,
        ByteArithmeticTarget::HL => read_model(v, r.hl()),
    }
}

/// Stores `x` into a register, or at (HL) for the HL target.
pub open spec fn store_byte(r: Registers, v: BusView, t: ByteArithmeticTarget, x: u8) -> (
    Registers,
    BusView,
) {
    match t {
        ByteArithmeticTarget::A => (Registers { a: x, ..r }, v),
        ByteArithmeticTarget::B => (Registers { b: x, ..r }, v),
        ByteArithmeticTarget::C => (Registers { c: x, ..r }, v),
        ByteArithmeticTarget::D => (Registers { d: x, ..r }, v),
        ByteArithmeticTarget::E => (Registers { e: x, ..r }, v),
        ByteArithmeticTarget::H => (Registers { h: x, ..r }, v),
        ByteArithmeticTarget::L => (Registers { l: x, ..r }, v),
        ByteArithmeticTarget::HL => (r, write_model(v, r.hl(), x)),
    }
}

pub open spec fn arith_operand(c: Cpu, v: BusView, t: ArithmeticTarget) -> u8 {
    let r = c.registers;
    match t {
        ArithmeticTarget::A => r.a,
        ArithmeticTarget::B => r.b,
        ArithmeticTarget::C => r.c,
        ArithmeticTarget::D => r.d,
        ArithmeticTarget::E => r.e,
        ArithmeticTarget::H => r.h,
        ArithmeticTarget::L => r.l,
        ArithmeticTarget::HL => read_model(v, r.hl()),
        ArithmeticTarget::Immediate => imm8(c, v),
    }
}

pub open spec fn arith_length(t: ArithmeticTarget) -> int {
    if t == ArithmeticTarget::Immediate {
        2
    } else {
        1
    }
}

pub open spec fn arith_cycles(t: ArithmeticTarget) -> u8 {
    if t == ArithmeticTarget::Immediate || t == ArithmeticTarget::HL {
        2
    } else {
        1
    }
}

/// An accumulator operation: A takes `res` when `write_a`, F takes `f`.
pub open spec fn alu_cpu(c: Cpu, t: ArithmeticTarget, res: u8, f: FlagsRegister, write_a: bool) -> Cpu {
    let r = c.registers;
    Cpu {
        registers: Registers {
            a: if write_a {
                res
            } else {
                r.a
            },
            f,
            program_counter: pc_after(r, arith_length(t)),
            ..r
        },
        ..c
    }
}

pub open spec fn alu_model(
    c: Cpu,
    v: BusView,
    t: ArithmeticTarget,
    res: u8,
    f: FlagsRegister,
    write_a: bool,
) -> (Cpu, BusView, u8) {
    (alu_cpu(c, t, res, f, write_a), v, arith_cycles(t))
}

pub open spec fn load_source(c: Cpu, v: BusView, t: LoadTarget) -> u8 {
    let r = c.registers;
    match t {
        LoadTarget::A => r.a,
        LoadTarget::B => r.b,
        LoadTarget::C => r.c,
        LoadTarget::D => r.d,
        LoadTarget::E => r.e,
        LoadTarget::H => r.h,
        LoadTarget::L => r.l,
        LoadTarget::HL => read_model(v, r.hl()),
        LoadTarget::ImmediateAddress => read_model(v, imm16(c, v)),
    }
}

pub open spec fn load_store(c: Cpu, v: BusView, t: LoadTarget, x: u8) -> (Registers, BusView) {
    let r = c.registers;
    match t {
        LoadTarget::A => (Registers { a: x, ..r }, v),
        LoadTarget::B => (Registers { b: x, ..r }, v),
        LoadTarget::C => (Registers { c: x, ..r }, v),
        LoadTarget::D => (Registers { d: x, ..r }, v),
        LoadTarget::E => (Registers { e: x, ..r }, v),
        LoadTarget::H => (Registers { h: x, ..r }, v),
        LoadTarget::L => (Registers { l: x, ..r }, v),
        LoadTarget::HL => (r, write_model(v, r.hl(), x)),
        LoadTarget::ImmediateAddress => (r, write_model(v, imm16(c, v), x)),
    }
}

pub open spec fn load_length(d: LoadTarget, s: LoadTarget) -> int {
    if d == LoadTarget::ImmediateAddress || s == LoadTarget::ImmediateAddress {
        3
    } else {
        1
    }
}

pub open spec fn load_cycles(d: LoadTarget, s: LoadTarget) -> u8 {
    if d == LoadTarget::HL || s == LoadTarget::HL {
        2
    } else if d == LoadTarget::ImmediateAddress || s == LoadTarget::ImmediateAddress {
        4
    } else {
        1
    }
}

pub open spec fn pair_value(r: Registers, t: ArithmeticTarget16) -> u16 {
    match t {
        ArithmeticTarget16::BC => r.bc(),
        ArithmeticTarget16::DE => r.de(),
        ArithmeticTarget16::HL => r.hl(),
        ArithmeticTarget16::SP => r.stack_pointer,
    }
}

pub open spec fn with_pair(r: Registers, t: ArithmeticTarget16, x: u16) -> Registers {
    match t {
        ArithmeticTarget16::BC => r.with_bc(x),
        ArithmeticTarget16::DE => r.with_de(x),
        ArithmeticTarget16::HL => r.with_hl(x),
        ArithmeticTarget16::SP => Registers { stack_pointer: x, ..r },
    }
}

pub open spec fn stack_value(r: Registers, t: PushPopTarget) -> u16 {
    match t {
        PushPopTarget::BC => r.bc(),
        PushPopTarget::DE => r.de(),
        PushPopTarget::HL => r.hl(),
        PushPopTarget::AF => r.af(),
    }
}

pub open spec fn with_stack_value(r: Registers, t: PushPopTarget, x: u16) -> Registers {
    match t {
        PushPopTarget::BC => r.with_bc(x),
        PushPopTarget::DE => r.with_de(x),
        PushPopTarget::HL => r.with_hl(x),
        PushPopTarget::AF => r.with_af(x),
    }
}

pub open spec fn condition_met(f: FlagsRegister, cond: JumpCondition) -> bool {
    match cond {
        JumpCondition::NotZero => !f.zero,
        JumpCondition::Zero => f.zero,
        JumpCondition::NotCarry => !f.carry,
        JumpCondition::Carry => f.carry,
        JumpCondition::Always => true,
    }
}

/// Registers after a push: SP two lower.
pub open spec fn pushed_sp(r: Registers) -> u16 {
    wrap16(r.stack_pointer - 2)
}

/// The CPU and bus after pushing `x` and jumping to `target`.
pub open spec fn call_model(c: Cpu, v: BusView, x: u16, target: u16, cycles: u8) -> (
    Cpu,
    BusView,
    u8,
) {
    let sp = pushed_sp(c.registers);
    (
        Cpu {
            registers: Registers { stack_pointer: sp, program_counter: target, ..c.registers },
            ..c
        },
        write16_model(v, sp, x),
        cycles,
    )
}

/// The CPU after popping the return address into PC.
pub open spec fn return_model(c: Cpu, v: BusView, cycles: u8) -> (Cpu, BusView, u8) {
    let r = c.registers;
    (
        Cpu {
            registers: Registers {
                stack_pointer: wrap16(r.stack_pointer + 2),
                program_counter: read16_model(v, r.stack_pointer),
                ..r
            },
            ..c
        },
        v,
        cycles,
    )
}

/// Moves PC on by `n` bytes and charges `cycles`.
pub open spec fn next(c: Cpu, r: Registers, v: BusView, n: int, cycles: u8) -> (Cpu, BusView, u8) {
    (Cpu { registers: Registers { program_counter: pc_after(c.registers, n), ..r }, ..c }, v, cycles)
}

pub open spec fn cb_cycles(t: ByteArithmeticTarget) -> u8 {
    if t == ByteArithmeticTarget::HL {
        4
    } else {
        2
    }
}

/// A prefixed rotate or shift: the result is stored back, the flags follow
/// it and the bit shifted out.
pub open spec fn cb_shift_model(
    c: Cpu,
    v: BusView,
    t: ByteArithmeticTarget,
    out: (u8, bool),
) -> (Cpu, BusView, u8) {
    let (r1, v1) = store_byte(c.registers, v, t, out.0);
    next(c, Registers { f: shift_flags(out.0, out.1), ..r1 }, v1, 2, cb_cycles(t))
}

/// The prefixed instructions; their length counts the prefix.
pub open spec fn cb_model(c: Cpu, v: BusView, ins: Instruction) -> (Cpu, BusView, u8) {
    let r = c.registers;
    let f = r.f;
    match ins {
        Instruction::RotateLeft(t) => cb_shift_model(c, v, t, rlc_spec(byte_operand(r, v, t))),
        Instruction::RotateRight(t) => cb_shift_model(c, v, t, rrc_spec(byte_operand(r, v, t))),
        Instruction::RotateLeftCarry(t) => cb_shift_model(
            c,
            v,
            t,
            rl_spec(byte_operand(r, v, t), f.carry),
        ),
        Instruction::RotateRightCarry(t) => cb_shift_model(
            c,
            v,
            t,
            rr_spec(byte_operand(r, v, t), f.carry),
        ),
        Instruction::ShiftLeftArithmetic(t) => cb_shift_model(
            c,
            v,
            t,
            sla_spec(byte_operand(r, v, t)),
        ),
        Instruction::ShiftRightArithmetic(t) => cb_shift_model(
            c,
            v,
            t,
            sra_spec(byte_operand(r, v, t)),
        ),
        Instruction::Swap(t) => cb_shift_model(c, v, t, swap_spec(byte_operand(r, v, t))),
        Instruction::ShiftRightLogic(t) => cb_shift_model(
            c,
            v,
            t,
            srl_spec(byte_operand(r, v, t)),
        ),
        Instruction::TestBit(b, t) => next(
            c,
            Registers { f: test_bit_flags(byte_operand(r, v, t), b, f), ..r },
            v,
            2,
            cb_cycles(t),
        ),
        Instruction::ResetBit(b, t) => {
            let (r1, v1) = store_byte(r, v, t, reset_bit_spec(byte_operand(r, v, t), b));
            next(c, r1, v1, 2, cb_cycles(t))
        },
        Instruction::SetBit(b, t) => {
            let (r1, v1) = store_byte(r, v, t, set_bit_spec(byte_operand(r, v, t), b));
            next(c, r1, v1, 2, cb_cycles(t))
        },
        _ => (c, v, 0),
    }
}

pub open spec fn is_extended(ins: Instruction) -> bool {
    match ins {
        Instruction::RotateLeft(_) | Instruction::RotateRight(_) | Instruction::RotateLeftCarry(_)
        | Instruction::RotateRightCarry(_) | Instruction::ShiftLeftArithmetic(_)
        | Instruction::ShiftRightArithmetic(_) | Instruction::Swap(_)
        | Instruction::ShiftRightLogic(_) | Instruction::TestBit(_, _) | Instruction::ResetBit(_, _)
        | Instruction::SetBit(_, _) => true,
        _ => false,
    }
}

/// What executing `ins` at PC does: the CPU and bus afterwards and the
/// M-cycles spent. STOP is not executed; the machine halts on it.
#[verifier::opaque]
pub open spec fn exec_model(c: Cpu, v: BusView, ins: Instruction) -> (Cpu, BusView, u8) {
    let r = c.registers;
    let f = r.f;
    match ins {
        Instruction::Noop => next(c, r, v, 1, 1),
        Instruction::Stop => (c, v, 0),
        Instruction::Load(d, s) => {
            let (r1, v1) = load_store(c, v, d, load_source(c, v, s));
            next(c, r1, v1, load_length(d, s), load_cycles(d, s))
        },
        Instruction::LoadImmediate(t) => {
            let (r1, v1) = store_byte(r, v, t, imm8(c, v));
            next(
                c,
                r1,
                v1,
                2,
                if t == ByteArithmeticTarget::HL {
                    3
                } else {
                    2
                },
            )
        },
        Instruction::LoadImmediate16(t) => {
            let x = imm16(c, v);
            let r1 = match t {
                LoadTarget16::BC => r.with_bc(x),
                LoadTarget16::DE => r.with_de(x),
                LoadTarget16::HL => r.with_hl(x),
                LoadTarget16::SP => Registers { stack_pointer: x, ..r },
            };
            next(c, r1, v, 3, 3)
        },
        Instruction::LoadSPHL => next(c, Registers { stack_pointer: r.hl(), ..r }, v, 1, 2),
        Instruction::LoadHLSP => {
            let (x, f1) = sp_offset_spec(r.stack_pointer, imm8(c, v));
            next(c, Registers { f: f1, ..r.with_hl(x) }, v, 2, 3)
        },
        Instruction::LoadH => next(
            c,
            Registers { a: read_model(v, (0xff00 + imm8(c, v)) as u16), ..r },
            v,
            2,
            3,
        ),
        Instruction::WriteH => next(c, r, write_model(v, (0xff00 + imm8(c, v)) as u16, r.a), 2, 3),
        Instruction::LoadHC => next(c, Registers { a: read_model(v, (0xff00 + r.c) as u16), ..r }, v, 1, 2),
        Instruction::WriteHC => next(c, r, write_model(v, (0xff00 + r.c) as u16, r.a), 1, 2),
        Instruction::ReadFromRam(m) => {
            let (addr, r1) = indirect_address(r, m);
            next(c, Registers { a: read_model(v, addr), ..r1 }, v, 1, 2)
        },
        Instruction::WriteToRam(m) => {
            let (addr, r1) = indirect_address(r, m);
            next(c, r1, write_model(v, addr, r.a), 1, 2)
        },
        Instruction::WriteToRamFromStackPointer => next(
            c,
            r,
            write16_model(v, imm16(c, v), r.stack_pointer),
            3,
            5,
        ),
        Instruction::Add(t) => {
            let (x, f1) = add_spec(r.a, arith_operand(c, v, t), false);
            alu_model(c, v, t, x, f1, true)
        },
        Instruction::AddCarry(t) => {
            let (x, f1) = add_spec(r.a, arith_operand(c, v, t), f.carry);
            alu_model(c, v, t, x, f1, true)
        },
        Instruction::Subtract(t) => {
            let (x, f1) = sub_spec(r.a, arith_operand(c, v, t), false);
            alu_model(c, v, t, x, f1, true)
        },
        Instruction::SubtractCarry(t) => {
            let (x, f1) = sub_spec(r.a, arith_operand(c, v, t), f.carry);
            alu_model(c, v, t, x, f1, true)
        },
        Instruction::And(t) => {
            let x = r.a & arith_operand(c, v, t);
            alu_model(c, v, t, x, logic_flags(x, true), true)
        },
        Instruction::Xor(t) => {
            let x = r.a ^ arith_operand(c, v, t);
            alu_model(c, v, t, x, logic_flags(x, false), true)
        },
        Instruction::Or(t) => {
            let x = r.a | arith_operand(c, v, t);
            alu_model(c, v, t, x, logic_flags(x, false), true)
        },
        Instruction::Cp(t) => {
            let (x, f1) = sub_spec(r.a, arith_operand(c, v, t), false);
            alu_model(c, v, t, x, f1, false)
        },
        Instruction::Add16(t) => {
            let (x, f1) = add16_spec(r.hl(), pair_value(r, t), f);
            next(c, Registers { f: f1, ..r.with_hl(x) }, v, 1, 2)
        },
        Instruction::AddSP => {
            let (x, f1) = sp_offset_spec(r.stack_pointer, imm8(c, v));
            next(c, Registers { f: f1, stack_pointer: x, ..r }, v, 2, 4)
        },
        Instruction::Increment(t) => {
            let (x, f1) = inc_spec(byte_operand(r, v, t), f);
            let (r1, v1) = store_byte(r, v, t, x);
            next(
                c,
                Registers { f: f1, ..r1 },
                v1,
                1,
                if t == ByteArithmeticTarget::HL {
                    2
                } else {
                    1
                },
            )
        },
        Instruction::Decrement(t) => {
            let (x, f1) = dec_spec(byte_operand(r, v, t), f);
            let (r1, v1) = store_byte(r, v, t, x);
            next(
                c,
                Registers { f: f1, ..r1 },
                v1,
                1,
                if t == ByteArithmeticTarget::HL {
                    2
                } else {
                    1
                },
            )
        },
        Instruction::Increment16(t) => next(
            c,
            with_pair(r, t, wrap16(pair_value(r, t) + 1)),
            v,
            1,
            2,
        ),
        Instruction::Decrement16(t) => next(
            c,
            with_pair(r, t, wrap16(pair_value(r, t) - 1)),
            v,
            1,
            2,
        ),
        Instruction::RotateLeftA => accumulator_rotate(c, v, rlc_spec(r.a)),
        Instruction::RotateLeftCarryA => accumulator_rotate(c, v, rl_spec(r.a, f.carry)),
        Instruction::RotateRightA => accumulator_rotate(c, v, rrc_spec(r.a)),
        Instruction::RotateRightCarryA => accumulator_rotate(c, v, rr_spec(r.a, f.carry)),
        Instruction::DecimalAdjust => {
            let (x, f1) = daa_spec(r.a, f);
            next(c, Registers { a: x, f: f1, ..r }, v, 1, 1)
        },
        Instruction::SetCarryFlag => next(
            c,
            Registers {
                f: FlagsRegister { subtract: false, half_carry: false, carry: true, ..f },
                ..r
            },
            v,
            1,
            1,
        ),
        Instruction::Complement => next(
            c,
            Registers {
                a: (255 - r.a) as u8,
                f: FlagsRegister { subtract: true, half_carry: true, ..f },
                ..r
            },
            v,
            1,
            1,
        ),
        Instruction::ComplementCarryFlag => next(
            c,
            Registers {
                f: FlagsRegister { subtract: false, half_carry: false, carry: !f.carry, ..f },
                ..r
            },
            v,
            1,
            1,
        ),
        Instruction::Jump(cond) => if condition_met(f, cond) {
            (Cpu { registers: Registers { program_counter: imm16(c, v), ..r }, ..c }, v, 4)
        } else {
            next(c, r, v, 3, 3)
        },
        Instruction::JumpHL => (Cpu { registers: Registers { program_counter: r.hl(), ..r }, ..c }, v, 1),
        Instruction::RelativeJump(cond) => if condition_met(f, cond) {
            next(c, r, v, 2 + signed_offset(imm8(c, v)), 3)
        } else {
            next(c, r, v, 2, 2)
        },
        Instruction::Push(t) => {
            let (c1, v1, _) = call_model(c, v, stack_value(r, t), pc_after(r, 1), 4);
            (c1, v1, 4)
        },
        Instruction::Pop(t) => next(
            c,
            with_stack_value(
                Registers { stack_pointer: wrap16(r.stack_pointer + 2), ..r },
                t,
                read16_model(v, r.stack_pointer),
            ),
            v,
            1,
            3,
        ),
        Instruction::DisableInterrupts => {
            let (c1, v1, n) = next(c, r, v, 1, 1);
            (Cpu { ime: false, ime_scheduled: false, ..c1 }, v1, n)
        },
        Instruction::EnableInterrupts => {
            let (c1, v1, n) = next(c, r, v, 1, 1);
            (Cpu { ime_scheduled: true, ..c1 }, v1, n)
        },
        Instruction::Halt => {
            let (c1, v1, n) = next(c, r, v, 1, 1);
            (Cpu { halted: true, ..c1 }, v1, n)
        },
        Instruction::Call => call_model(c, v, pc_after(r, 3), imm16(c, v), 6),
        Instruction::CallCondition(cond) => if condition_met(f, cond) {
            call_model(c, v, pc_after(r, 3), imm16(c, v), 6)
        } else {
            next(c, r, v, 3, 3)
        },
        Instruction::Restart(n) => call_model(c, v, pc_after(r, 1), n as u16, 4),
        Instruction::Return => return_model(c, v, 4),
        Instruction::ReturnCondition(cond) => if condition_met(f, cond) {
            return_model(c, v, 5)
        } else {
            next(c, r, v, 1, 2)
        },
        Instruction::ReturnAndEnableInterrupts => {
            let (c1, v1, n) = return_model(c, v, 4);
            (Cpu { ime: true, ..c1 }, v1, n)
        },
        Instruction::ExtendedOpcode => cb_model(c, v, decode_extended(imm8(c, v))),
        _ => cb_model(c, v, ins),
    }
}

/// The address of an indirect access, and the registers after the HL
/// post-increment or post-decrement.
pub open spec fn indirect_address(r: Registers, m: MemoryAddressRegistry) -> (u16, Registers) {
    match m {
        MemoryAddressRegistry::BC => (r.bc(), r),
        MemoryAddressRegistry::DE => (r.de(), r),
        MemoryAddressRegistry::HLPlus => (r.hl(), r.with_hl(wrap16(r.hl() + 1))),
        MemoryAddressRegistry::HLMinus => (r.hl(), r.with_hl(wrap16(r.hl() - 1))),
    }
}

/// RLCA, RLA, RRCA, RRA: like the prefixed rotates, but Z is cleared.
pub open spec fn accumulator_rotate_cpu(c: Cpu, out: (u8, bool)) -> Cpu {
    let r = c.registers;
    Cpu {
        registers: Registers {
            a: out.0,
            f: FlagsRegister { zero: false, subtract: false, half_carry: false, carry: out.1 },
            program_counter: pc_after(r, 1),
            ..r
        },
        ..c
    }
}

pub open spec fn accumulator_rotate(c: Cpu, v: BusView, out: (u8, bool)) -> (Cpu, BusView, u8) {
    (accumulator_rotate_cpu(c, out), v, 1)
}

// ---------------------------------------------------------------------------
// The model of one step.

/// Interrupt dispatch: IME off, PC pushed, the request acknowledged, PC at
/// the vector; three M-cycles.
pub open spec fn dispatch_model(c: Cpu, v: BusView, i: Interrupt) -> (Cpu, BusView) {
    let r = c.registers;
    let sp = pushed_sp(r);
    (
        Cpu {
            registers: Registers {
                stack_pointer: sp,
                program_counter: interrupt_vector(i),
                ..r
            },
            ime: false,
            halted: false,
            ..c
        },
        ack_model(write16_model(v, sp, r.program_counter), i),
    )
}

/// EI's delay: a scheduled enable takes effect after the instruction that
/// follows EI, unless that instruction was DI.
pub open spec fn apply_scheduled_enable(before: Cpu, after: Cpu) -> Cpu {
    if before.ime_scheduled && after.ime_scheduled {
        Cpu { ime: true, ime_scheduled: false, ..after }
    } else {
        after
    }
}

/// One step: dispatch an interrupt, or wait in HALT, or run the instruction
/// at PC. Gives the CPU and bus afterwards and the M-cycles spent, or the
/// fault that stops the machine.
#[verifier::opaque]
pub open spec fn step_model(c: Cpu, v: BusView) -> Result<(Cpu, BusView, u8), CpuFault> {
    let pending = bus_pending(v);
    if c.ime && pending is Some {
        let (c1, v1) = dispatch_model(c, v, pending.unwrap());
        Ok((c1, v1, 3))
    } else {
        let c1 = if pending is Some {
            Cpu { halted: false, ..c }
        } else {
            c
        };
        if c1.halted {
            Ok((c1, v, 1))
        } else {
            let op = read_model(v, c1.registers.program_counter);
            match decode_base(op) {
                None => Err(CpuFault::UnknownOpcode(op)),
                Some(Instruction::Stop) => Err(CpuFault::Stop),
                Some(ins) => {
                    let (c2, v2, n) = exec_model(c1, v, ins);
                    Ok((apply_scheduled_enable(c1, c2), v2, n))
                },
            }
        }
    }
}

// ---------------------------------------------------------------------------
// Executors.

pub open spec fn bus_kept(before: &Memory, after: &Memory) -> bool {
    after.wf() && after.cartridge.header == before.cartridge.header
}

fn byte_operand_of(cpu: &Cpu, bus: &Memory, t: ByteArithmeticTarget) -> (r: u8)
    requires
        bus.wf(),
    ensures
        r == byte_operand(cpu.registers, bus@, t),
{
    match t {
        ByteArithmeticTarget::A => cpu.registers.a,
        ByteArithmeticTarget::B => cpu.registers.b,
        ByteArithmeticTarget::C => cpu.registers.c,
        ByteArithmeticTarget::D => cpu.registers.d,
        ByteArithmeticTarget::E => cpu.registers.e,
        ByteArithmeticTarget::H => cpu.registers.h,
        ByteArithmeticTarget::L => cpu.registers.l,
        ByteArithmeticTarget::HL => bus.read(cpu.registers.get_hl()),
    }
}

fn store_byte_to(cpu: &mut Cpu, bus: &mut Memory, t: ByteArithmeticTarget, x: u8)
    requires
        old(bus).wf(),
    ensures
        bus_kept(old(bus), final(bus)),
        (final(cpu).registers, final(bus)@) == store_byte(old(cpu).registers, old(bus)@, t, x),
        final(cpu).ime == old(cpu).ime,
        final(cpu).halted == old(cpu).halted,
        final(cpu).ime_scheduled == old(cpu).ime_scheduled,
{
    match t {
        ByteArithmeticTarget::A => cpu.registers.a = x,
        ByteArithmeticTarget::B => cpu.registers.b = x,
        ByteArithmeticTarget::C => cpu.registers.c = x,
        ByteArithmeticTarget::D => cpu.registers.d = x,
        ByteArithmeticTarget::E => cpu.registers.e = x,
        ByteArithmeticTarget::H => cpu.registers.h = x,
        ByteArithmeticTarget::L => cpu.registers.l = x,
        ByteArithmeticTarget::HL => bus.write(cpu.registers.get_hl(), x),
    }
}


/// `ins` took the CPU and bus from `(c0, v0)` to `(c1, v1)` in `n` M-cycles.
#[verifier::opaque]
pub open spec fn runs(c0: Cpu, v0: BusView, c1: Cpu, v1: BusView, n: u8, ins: Instruction) -> bool {
    (c1, v1, n) == exec_model(c0, v0, ins)
}

fn wrapping_add16(x: u16, k: u16) -> (r: u16)
    ensures
        r == wrap16(x + k),
{
    x.wrapping_add(k)
}

fn wrapping_sub16(x: u16, k: u16) -> (r: u16)
    ensures
        r == wrap16(x - k),
{
    x.wrapping_sub(k)
}

proof fn lemma_wrap16_add(a: int, b: int)
    ensures
        wrap16(wrap16(a) + b) == wrap16(a + b),
{
    vstd::arithmetic::div_mod::lemma_add_mod_noop(a, b, 0x10000);
    vstd::arithmetic::div_mod::lemma_mod_twice(b, 0x10000);
    vstd::arithmetic::div_mod::lemma_add_mod_noop(a % 0x10000, b, 0x10000);
}

fn advance(cpu: &mut Cpu, n: u16)
    ensures
        *final(cpu) == (Cpu {
            registers: Registers {
                program_counter: pc_after(old(cpu).registers, n as int),
                ..old(cpu).registers
            },
            ..*old(cpu)
        }),
{
    cpu.registers.program_counter = wrapping_add16(cpu.registers.program_counter, n);
}

fn read_immediate(cpu: &Cpu, bus: &Memory) -> (r: u8)
    requires
        bus.wf(),
    ensures
        r == imm8(*cpu, bus@),
{
    bus.read(cpu.registers.program_counter.wrapping_add(1))
}

fn read_immediate16(cpu: &Cpu, bus: &Memory) -> (r: u16)
    requires
        bus.wf(),
    ensures
        r == imm16(*cpu, bus@),
{
    bus.read16(cpu.registers.program_counter.wrapping_add(1))
}

fn arithmetic_operand(cpu: &Cpu, bus: &Memory, t: ArithmeticTarget) -> (r: u8)
    requires
        bus.wf(),
    ensures
        r == arith_operand(*cpu, bus@, t),
{
    match t {
        ArithmeticTarget::A => cpu.registers.a,
        ArithmeticTarget::B => cpu.registers.b,
        ArithmeticTarget::C => cpu.registers.c,
        ArithmeticTarget::D => cpu.registers.d,
        ArithmeticTarget::E => cpu.registers.e,
        ArithmeticTarget::H => cpu.registers.h,
        ArithmeticTarget::L => cpu.registers.l,
        ArithmeticTarget::HL => bus.read(cpu.registers.get_hl()),
        ArithmeticTarget::Immediate => read_immediate(cpu, bus),
    }
}

/// Length in bytes and cost in M-cycles of an accumulator operation.
fn get_arithmetic_execution_step(t: ArithmeticTarget) -> (r: (u16, u8))
    ensures
        r.0 == arith_length(t),
        r.1 == arith_cycles(t),
{
    match t {
        ArithmeticTarget::Immediate => (2, 2),
        ArithmeticTarget::HL => (1, 2),
        _ => (1, 1),
    }
}

fn apply_alu(cpu: &mut Cpu, t: ArithmeticTarget, res: u8, f: FlagsRegister, write_a: bool) -> (n:
    u8)
    ensures
        *final(cpu) == alu_cpu(*old(cpu), t, res, f, write_a),
        n == arith_cycles(t),
{
    if write_a {
        cpu.registers.a = res;
    }
    cpu.registers.f = f;
    let (len, cycles) = get_arithmetic_execution_step(t);
    advance(cpu, len);
    cycles
}

fn execute_add(cpu: &mut Cpu, bus: &mut Memory, target: ArithmeticTarget) -> (n: u8)
    requires
        old(bus).wf(),
    ensures
        bus_kept(old(bus), final(bus)),
        runs(*old(cpu), old(bus)@, *final(cpu), final(bus)@, n, Instruction::Add(target)),
{
    proof {
        reveal(runs);
        reveal(exec_model);
    }
    let value = arithmetic_operand(cpu, bus, target);
    let (res, f) = add8(cpu.registers.a, value, false);
    apply_alu(cpu, target, res, f, true)
}

fn execute_add_with_carry(cpu: &mut Cpu, bus: &mut Memory, target: ArithmeticTarget) -> (n: u8)
    requires
        old(bus).wf(),
    ensures
        bus_kept(old(bus), final(bus)),
        runs(*old(cpu), old(bus)@, *final(cpu), final(bus)@, n, Instruction::AddCarry(target)),
{
    proof {
        reveal(runs);
        reveal(exec_model);
    }
    let value = arithmetic_operand(cpu, bus, target);
    let (res, f) = add8(cpu.registers.a, value, cpu.registers.f.carry);
    apply_alu(cpu, target, res, f, true)
}

fn execute_subtract(cpu: &mut Cpu, bus: &mut Memory, target: ArithmeticTarget) -> (n: u8)
    requires
        old(bus).wf(),
    ensures
        bus_kept(old(bus), final(bus)),
        runs(*old(cpu), old(bus)@, *final(cpu), final(bus)@, n, Instruction::Subtract(target)),
{
    proof {
        reveal(runs);
        reveal(exec_model);
    }
    let value = arithmetic_operand(cpu, bus, target);
    let (res, f) = subtract(cpu.registers.a, value, false);
    apply_alu(cpu, target, res, f, true)
}

fn execute_subtract_with_carry(cpu: &mut Cpu, bus: &mut Memory, target: ArithmeticTarget) -> (n: u8)
    requires
        old(bus).wf(),
    ensures
        bus_kept(old(bus), final(bus)),
        runs(*old(cpu), old(bus)@, *final(cpu), final(bus)@, n, Instruction::SubtractCarry(target)),
{
    proof {
        reveal(runs);
        reveal(exec_model);
    }
    let value = arithmetic_operand(cpu, bus, target);
    let (res, f) = subtract(cpu.registers.a, value, cpu.registers.f.carry);
    apply_alu(cpu, target, res, f, true)
}

fn execute_and(cpu: &mut Cpu, bus: &mut Memory, target: ArithmeticTarget) -> (n: u8)
    requires
        old(bus).wf(),
    ensures
        bus_kept(old(bus), final(bus)),
        runs(*old(cpu), old(bus)@, *final(cpu), final(bus)@, n, Instruction::And(target)),
{
    proof {
        reveal(runs);
        reveal(exec_model);
    }
    let value = arithmetic_operand(cpu, bus, target);
    let (res, f) = and(cpu.registers.a, value);
    apply_alu(cpu, target, res, f, true)
}

fn execute_xor(cpu: &mut Cpu, bus: &mut Memory, target: ArithmeticTarget) -> (n: u8)
    requires
        old(bus).wf(),
    ensures
        bus_kept(old(bus), final(bus)),
        runs(*old(cpu), old(bus)@, *final(cpu), final(bus)@, n, Instruction::Xor(target)),
{
    proof {
        reveal(runs);
        reveal(exec_model);
    }
    let value = arithmetic_operand(cpu, bus, target);
    let (res, f) = xor(cpu.registers.a, value);
    apply_alu(cpu, target, res, f, true)
}

fn execute_or(cpu: &mut Cpu, bus: &mut Memory, target: ArithmeticTarget) -> (n: u8)
    requires
        old(bus).wf(),
    ensures
        bus_kept(old(bus), final(bus)),
        runs(*old(cpu), old(bus)@, *final(cpu), final(bus)@, n, Instruction::Or(target)),
{
    proof {
        reveal(runs);
        reveal(exec_model);
    }
    let value = arithmetic_operand(cpu, bus, target);
    let (res, f) = or(cpu.registers.a, value);
    apply_alu(cpu, target, res, f, true)
}

fn execute_cp(cpu: &mut Cpu, bus: &mut Memory, target: ArithmeticTarget) -> (n: u8)
    requires
        old(bus).wf(),
    ensures
        bus_kept(old(bus), final(bus)),
        runs(*old(cpu), old(bus)@, *final(cpu), final(bus)@, n, Instruction::Cp(target)),
{
    proof {
        reveal(runs);
        reveal(exec_model);
    }
    let value = arithmetic_operand(cpu, bus, target);
    let (res, f) = subtract(cpu.registers.a, value, false);
    apply_alu(cpu, target, res, f, false)
}

fn pair_value_of(cpu: &Cpu, t: ArithmeticTarget16) -> (r: u16)
    ensures
        r == pair_value(cpu.registers, t),
{
    match t {
        ArithmeticTarget16::BC => cpu.registers.get_bc(),
        ArithmeticTarget16::DE => cpu.registers.get_de(),
        ArithmeticTarget16::HL => cpu.registers.get_hl(),
        ArithmeticTarget16::SP => cpu.registers.stack_pointer,
    }
}

fn set_pair(cpu: &mut Cpu, t: ArithmeticTarget16, x: u16)
    ensures
        *final(cpu) == (Cpu { registers: with_pair(old(cpu).registers, t, x), ..*old(cpu) }),
{
    match t {
        ArithmeticTarget16::BC => cpu.registers.set_bc(x),
        ArithmeticTarget16::DE => cpu.registers.set_de(x),
        ArithmeticTarget16::HL => cpu.registers.set_hl(x),
        ArithmeticTarget16::SP => cpu.registers.stack_pointer = x,
    }
}

fn execute_add16(cpu: &mut Cpu, bus: &Memory, target: ArithmeticTarget16) -> (n: u8)
    ensures
        runs(*old(cpu), bus@, *final(cpu), bus@, n, Instruction::Add16(target)),
{
    proof {
        reveal(runs);
        reveal(exec_model);
    }
    let value = pair_value_of(cpu, target);
    let (res, f) = add16(cpu.registers.get_hl(), value, cpu.registers.f);
    cpu.registers.set_hl(res);
    cpu.registers.f = f;
    advance(cpu, 1);
    2
}

fn execute_increment(cpu: &mut Cpu, bus: &mut Memory, target: ByteArithmeticTarget) -> (n: u8)
    requires
        old(bus).wf(),
    ensures
        bus_kept(old(bus), final(bus)),
        runs(*old(cpu), old(bus)@, *final(cpu), final(bus)@, n, Instruction::Increment(target)),
{
    proof {
        reveal(runs);
        reveal(exec_model);
    }
    let value = byte_operand_of(cpu, bus, target);
    let (res, f) = increment(value, cpu.registers.f);
    store_byte_to(cpu, bus, target, res);
    cpu.registers.f = f;
    advance(cpu, 1);
    match target {
        ByteArithmeticTarget::HL => 2,
        _ => 1,
    }
}

fn execute_decrement(cpu: &mut Cpu, bus: &mut Memory, target: ByteArithmeticTarget) -> (n: u8)
    requires
        old(bus).wf(),
    ensures
        bus_kept(old(bus), final(bus)),
        runs(*old(cpu), old(bus)@, *final(cpu), final(bus)@, n, Instruction::Decrement(target)),
{
    proof {
        reveal(runs);
        reveal(exec_model);
    }
    let value = byte_operand_of(cpu, bus, target);
    let (res, f) = decrement(value, cpu.registers.f);
    store_byte_to(cpu, bus, target, res);
    cpu.registers.f = f;
    advance(cpu, 1);
    match target {
        ByteArithmeticTarget::HL => 2,
        _ => 1,
    }
}

fn execute_increment16(cpu: &mut Cpu, bus: &Memory, target: ArithmeticTarget16) -> (n: u8)
    ensures
        runs(*old(cpu), bus@, *final(cpu), bus@, n, Instruction::Increment16(target)),
{
    proof {
        reveal(runs);
        reveal(exec_model);
    }
    let value = pair_value_of(cpu, target);
    let x = wrapping_add16(value, 1);
    set_pair(cpu, target, x);
    advance(cpu, 1);
    2
}

fn execute_decrement16(cpu: &mut Cpu, bus: &Memory, target: ArithmeticTarget16) -> (n: u8)
    ensures
        runs(*old(cpu), bus@, *final(cpu), bus@, n, Instruction::Decrement16(target)),
{
    proof {
        reveal(runs);
        reveal(exec_model);
    }
    let value = pair_value_of(cpu, target);
    let x = wrapping_sub16(value, 1);
    set_pair(cpu, target, x);
    advance(cpu, 1);
    2
}

fn rotate_accumulator(cpu: &mut Cpu, out: (u8, bool)) -> (n: u8)
    ensures
        *final(cpu) == accumulator_rotate_cpu(*old(cpu), out),
        n == 1,
{
    cpu.registers.a = out.0;
    cpu.registers.f = FlagsRegister { zero: false, subtract: false, half_carry: false, carry: out.1 };
    advance(cpu, 1);
    1
}

fn execute_rotate_left_a(cpu: &mut Cpu, bus: &Memory) -> (n: u8)
    ensures
        runs(*old(cpu), bus@, *final(cpu), bus@, n, Instruction::RotateLeftA),
{
    proof {
        reveal(runs);
        reveal(exec_model);
    }
    let out = rotate_left_circular(cpu.registers.a);
    rotate_accumulator(cpu, out)
}

fn execute_rotate_left_carry_a(cpu: &mut Cpu, bus: &Memory) -> (n: u8)
    ensures
        runs(*old(cpu), bus@, *final(cpu), bus@, n, Instruction::RotateLeftCarryA),
{
    proof {
        reveal(runs);
        reveal(exec_model);
    }
    let out = rotate_left_through_carry(cpu.registers.a, cpu.registers.f.carry);
    rotate_accumulator(cpu, out)
}

fn execute_rotate_right_a(cpu: &mut Cpu, bus: &Memory) -> (n: u8)
    ensures
        runs(*old(cpu), bus@, *final(cpu), bus@, n, Instruction::RotateRightA),
{
    proof {
        reveal(runs);
        reveal(exec_model);
    }
    let out = rotate_right_circular(cpu.registers.a);
    rotate_accumulator(cpu, out)
}

fn execute_rotate_right_carry_a(cpu: &mut Cpu, bus: &Memory) -> (n: u8)
    ensures
        runs(*old(cpu), bus@, *final(cpu), bus@, n, Instruction::RotateRightCarryA),
{
    proof {
        reveal(runs);
        reveal(exec_model);
    }
    let out = rotate_right_through_carry(cpu.registers.a, cpu.registers.f.carry);
    rotate_accumulator(cpu, out)
}

fn execute_decimal_adjust(cpu: &mut Cpu, bus: &Memory) -> (n: u8)
    ensures
        runs(*old(cpu), bus@, *final(cpu), bus@, n, Instruction::DecimalAdjust),
{
    proof {
        reveal(runs);
        reveal(exec_model);
    }
    let (res, f) = decimal_adjust(cpu.registers.a, cpu.registers.f);
    cpu.registers.a = res;
    cpu.registers.f = f;
    advance(cpu, 1);
    1
}

fn execute_set_carry_flag(cpu: &mut Cpu, bus: &Memory) -> (n: u8)
    ensures
        runs(*old(cpu), bus@, *final(cpu), bus@, n, Instruction::SetCarryFlag),
{
    proof {
        reveal(runs);
        reveal(exec_model);
    }
    cpu.registers.f.carry = true;
    cpu.registers.f.subtract = false;
    cpu.registers.f.half_carry = false;
    advance(cpu, 1);
    1
}

fn execute_complement(cpu: &mut Cpu, bus: &Memory) -> (n: u8)
    ensures
        runs(*old(cpu), bus@, *final(cpu), bus@, n, Instruction::Complement),
{
    proof {
        reveal(runs);
        reveal(exec_model);
    }
    cpu.registers.a = 255 - cpu.registers.a;
    cpu.registers.f.subtract = true;
    cpu.registers.f.half_carry = true;
    advance(cpu, 1);
    1
}

fn execute_complement_carry_flag(cpu: &mut Cpu, bus: &Memory) -> (n: u8)
    ensures
        runs(*old(cpu), bus@, *final(cpu), bus@, n, Instruction::ComplementCarryFlag),
{
    proof {
        reveal(runs);
        reveal(exec_model);
    }
    cpu.registers.f.carry = !cpu.registers.f.carry;
    cpu.registers.f.subtract = false;
    cpu.registers.f.half_carry = false;
    advance(cpu, 1);
    1
}

fn load_source_of(cpu: &Cpu, bus: &Memory, t: LoadTarget) -> (r: u8)
    requires
        bus.wf(),
    ensures
        r == load_source(*cpu, bus@, t),
{
    match t {
        LoadTarget::A => cpu.registers.a,
        LoadTarget::B => cpu.registers.b,
        LoadTarget::C => cpu.registers.c,
        LoadTarget::D => cpu.registers.d,
        LoadTarget::E => cpu.registers.e,
        LoadTarget::H => cpu.registers.h,
        LoadTarget::L => cpu.registers.l,
        LoadTarget::HL => bus.read(cpu.registers.get_hl()),
        LoadTarget::ImmediateAddress => {
            let address = read_immediate16(cpu, bus);
            bus.read(address)
        },
    }
}

fn execute_load(
    cpu: &mut Cpu,
    bus: &mut Memory,
    destination: LoadTarget,
    source: LoadTarget,
) -> (n: u8)
    requires
        old(bus).wf(),
    ensures
        bus_kept(old(bus), final(bus)),
        runs(
            *old(cpu),
            old(bus)@,
            *final(cpu),
            final(bus)@,
            n,
            Instruction::Load(destination, source),
        ),
{
    proof {
        reveal(runs);
        reveal(exec_model);
    }
    let value = load_source_of(cpu, bus, source);
    match destination {
        LoadTarget::A => cpu.registers.a = value,
        LoadTarget::B => cpu.registers.b = value,
        LoadTarget::C => cpu.registers.c = value,
        LoadTarget::D => cpu.registers.d = value,
        LoadTarget::E => cpu.registers.e = value,
        LoadTarget::H => cpu.registers.h = value,
        LoadTarget::L => cpu.registers.l = value,
        LoadTarget::HL => bus.write(cpu.registers.get_hl(), value),
        LoadTarget::ImmediateAddress => {
            let address = read_immediate16(cpu, bus);
            bus.write(address, value)
        },
    }
    let immediate = destination == LoadTarget::ImmediateAddress || source
        == LoadTarget::ImmediateAddress;
    advance(
        cpu,
        if immediate {
            3
        } else {
            1
        },
    );
    if destination == LoadTarget::HL || source == LoadTarget::HL {
        2
    } else if immediate {
        4
    } else {
        1
    }
}

fn execute_load_immediate(cpu: &mut Cpu, bus: &mut Memory, destination: ByteArithmeticTarget) -> (n:
    u8)
    requires
        old(bus).wf(),
    ensures
        bus_kept(old(bus), final(bus)),
        runs(
            *old(cpu),
            old(bus)@,
            *final(cpu),
            final(bus)@,
            n,
            Instruction::LoadImmediate(destination),
        ),
{
    proof {
        reveal(runs);
        reveal(exec_model);
    }
    let value = read_immediate(cpu, bus);
    store_byte_to(cpu, bus, destination, value);
    advance(cpu, 2);
    match destination {
        ByteArithmeticTarget::HL => 3,
        _ => 2,
    }
}

fn execute_load_immediate16(cpu: &mut Cpu, bus: &Memory, target: LoadTarget16) -> (n: u8)
    requires
        bus.wf(),
    ensures
        runs(*old(cpu), bus@, *final(cpu), bus@, n, Instruction::LoadImmediate16(target)),
{
    proof {
        reveal(runs);
        reveal(exec_model);
    }
    let value = read_immediate16(cpu, bus);
    match target {
        LoadTarget16::BC => cpu.registers.set_bc(value),
        LoadTarget16::DE => cpu.registers.set_de(value),
        LoadTarget16::HL => cpu.registers.set_hl(value),
        LoadTarget16::SP => cpu.registers.stack_pointer = value,
    }
    advance(cpu, 3);
    3
}

/// The address of an indirect access; moves HL on for the HL+ and HL- forms.
fn indirect_address_of(cpu: &mut Cpu, target: MemoryAddressRegistry) -> (address: u16)
    ensures
        (address, final(cpu).registers) == indirect_address(old(cpu).registers, target),
        final(cpu).ime == old(cpu).ime,
        final(cpu).halted == old(cpu).halted,
        final(cpu).ime_scheduled == old(cpu).ime_scheduled,
{
    match target {
        MemoryAddressRegistry::BC => cpu.registers.get_bc(),
        MemoryAddressRegistry::DE => cpu.registers.get_de(),
        MemoryAddressRegistry::HLPlus => {
            let hl = cpu.registers.get_hl();
            cpu.registers.set_hl(hl.wrapping_add(1));
            hl
        },
        MemoryAddressRegistry::HLMinus => {
            let hl = cpu.registers.get_hl();
            cpu.registers.set_hl(hl.wrapping_sub(1));
            hl
        },
    }
}

fn execute_read_from_ram(cpu: &mut Cpu, bus: &Memory, target: MemoryAddressRegistry) -> (n: u8)
    requires
        bus.wf(),
    ensures
        runs(*old(cpu), bus@, *final(cpu), bus@, n, Instruction::ReadFromRam(target)),
{
    proof {
        reveal(runs);
        reveal(exec_model);
    }
    let address = indirect_address_of(cpu, target);
    cpu.registers.a = bus.read(address);
    advance(cpu, 1);
    2
}

fn execute_write_to_ram(cpu: &mut Cpu, bus: &mut Memory, target: MemoryAddressRegistry) -> (n: u8)
    requires
        old(bus).wf(),
    ensures
        bus_kept(old(bus), final(bus)),
        runs(*old(cpu), old(bus)@, *final(cpu), final(bus)@, n, Instruction::WriteToRam(target)),
{
    proof {
        reveal(runs);
        reveal(exec_model);
    }
    let a = cpu.registers.a;
    let address = indirect_address_of(cpu, target);
    bus.write(address, a);
    advance(cpu, 1);
    2
}

fn execute_write_to_ram_from_stack_pointer(cpu: &mut Cpu, bus: &mut Memory) -> (n: u8)
    requires
        old(bus).wf(),
    ensures
        bus_kept(old(bus), final(bus)),
        runs(
            *old(cpu),
            old(bus)@,
            *final(cpu),
            final(bus)@,
            n,
            Instruction::WriteToRamFromStackPointer,
        ),
{
    proof {
        reveal(runs);
        reveal(exec_model);
    }
    let address = read_immediate16(cpu, bus);
    bus.write16(address, cpu.registers.stack_pointer);
    advance(cpu, 3);
    5
}

fn execute_load_h(cpu: &mut Cpu, bus: &Memory) -> (n: u8)
    requires
        bus.wf(),
    ensures
        runs(*old(cpu), bus@, *final(cpu), bus@, n, Instruction::LoadH),
{
    proof {
        reveal(runs);
        reveal(exec_model);
    }
    let half_address = read_immediate(cpu, bus);
    cpu.registers.a = bus.read(0xff00 + half_address as u16);
    advance(cpu, 2);
    3
}

fn execute_write_h(cpu: &mut Cpu, bus: &mut Memory) -> (n: u8)
    requires
        old(bus).wf(),
    ensures
        bus_kept(old(bus), final(bus)),
        runs(*old(cpu), old(bus)@, *final(cpu), final(bus)@, n, Instruction::WriteH),
{
    proof {
        reveal(runs);
        reveal(exec_model);
    }
    let half_address = read_immediate(cpu, bus);
    bus.write(0xff00 + half_address as u16, cpu.registers.a);
    advance(cpu, 2);
    3
}

fn execute_load_hc(cpu: &mut Cpu, bus: &Memory) -> (n: u8)
    requires
        bus.wf(),
    ensures
        runs(*old(cpu), bus@, *final(cpu), bus@, n, Instruction::LoadHC),
{
    proof {
        reveal(runs);
        reveal(exec_model);
    }
    cpu.registers.a = bus.read(0xff00 + cpu.registers.c as u16);
    advance(cpu, 1);
    2
}

fn execute_write_hc(cpu: &mut Cpu, bus: &mut Memory) -> (n: u8)
    requires
        old(bus).wf(),
    ensures
        bus_kept(old(bus), final(bus)),
        runs(*old(cpu), old(bus)@, *final(cpu), final(bus)@, n, Instruction::WriteHC),
{
    proof {
        reveal(runs);
        reveal(exec_model);
    }
    bus.write(0xff00 + cpu.registers.c as u16, cpu.registers.a);
    advance(cpu, 1);
    2
}

fn execute_add_sp(cpu: &mut Cpu, bus: &Memory) -> (n: u8)
    requires
        bus.wf(),
    ensures
        runs(*old(cpu), bus@, *final(cpu), bus@, n, Instruction::AddSP),
{
    proof {
        reveal(runs);
        reveal(exec_model);
    }
    let offset = read_immediate(cpu, bus);
    let (sp, f) = sp_offset(cpu.registers.stack_pointer, offset);
    cpu.registers.stack_pointer = sp;
    cpu.registers.f = f;
    advance(cpu, 2);
    4
}

fn execute_load_sp_hl(cpu: &mut Cpu, bus: &Memory) -> (n: u8)
    ensures
        runs(*old(cpu), bus@, *final(cpu), bus@, n, Instruction::LoadSPHL),
{
    proof {
        reveal(runs);
        reveal(exec_model);
    }
    cpu.registers.stack_pointer = cpu.registers.get_hl();
    advance(cpu, 1);
    2
}

fn execute_load_hl_sp(cpu: &mut Cpu, bus: &Memory) -> (n: u8)
    requires
        bus.wf(),
    ensures
        runs(*old(cpu), bus@, *final(cpu), bus@, n, Instruction::LoadHLSP),
{
    proof {
        reveal(runs);
        reveal(exec_model);
    }
    let offset = read_immediate(cpu, bus);
    let (hl, f) = sp_offset(cpu.registers.stack_pointer, offset);
    cpu.registers.set_hl(hl);
    cpu.registers.f = f;
    advance(cpu, 2);
    3
}

fn check_jump_condition(cpu: &Cpu, condition: JumpCondition) -> (r: bool)
    ensures
        r == condition_met(cpu.registers.f, condition),
{
    match condition {
        JumpCondition::Zero => cpu.registers.f.zero,
        JumpCondition::NotZero => !cpu.registers.f.zero,
        JumpCondition::Carry => cpu.registers.f.carry,
        JumpCondition::NotCarry => !cpu.registers.f.carry,
        JumpCondition::Always => true,
    }
}

fn execute_jump(cpu: &mut Cpu, bus: &Memory, condition: JumpCondition) -> (n: u8)
    requires
        bus.wf(),
    ensures
        runs(*old(cpu), bus@, *final(cpu), bus@, n, Instruction::Jump(condition)),
{
    proof {
        reveal(runs);
        reveal(exec_model);
    }
    if check_jump_condition(cpu, condition) {
        cpu.registers.program_counter = read_immediate16(cpu, bus);
        4
    } else {
        advance(cpu, 3);
        3
    }
}

fn execute_hl_jump(cpu: &mut Cpu, bus: &Memory) -> (n: u8)
    ensures
        runs(*old(cpu), bus@, *final(cpu), bus@, n, Instruction::JumpHL),
{
    proof {
        reveal(runs);
        reveal(exec_model);
    }
    cpu.registers.program_counter = cpu.registers.get_hl();
    1
}

/// The target of a relative jump whose offset byte is `offset`: the address
/// after the two-byte instruction, moved by the signed offset.
fn relative_target(pc: u16, offset: u8) -> (r: u16)
    ensures
        r == wrap16(pc + 2 + signed_offset(offset)),
{
    let next = wrapping_add16(pc, 2);
    proof {
        lemma_wrap16_add(pc + 2, signed_offset(offset));
    }
    if offset < 128 {
        wrapping_add16(next, offset as u16)
    } else {
        wrapping_sub16(next, 256 - offset as u16)
    }
}

fn execute_relative_jump(cpu: &mut Cpu, bus: &Memory, condition: JumpCondition) -> (n: u8)
    requires
        bus.wf(),
    ensures
        runs(*old(cpu), bus@, *final(cpu), bus@, n, Instruction::RelativeJump(condition)),
{
    let ghost c0 = *cpu;
    let taken = check_jump_condition(cpu, condition);
    let n: u8 = if taken {
        let offset = read_immediate(cpu, bus);
        cpu.registers.program_counter = relative_target(cpu.registers.program_counter, offset);
        3
    } else {
        advance(cpu, 2);
        2
    };
    proof {
        lemma_relative_jump_model(c0, bus@, condition);
        reveal(runs);
        reveal(exec_model);
    }
    n
}

proof fn lemma_relative_jump_model(c: Cpu, v: BusView, condition: JumpCondition)
    ensures
        exec_model(c, v, Instruction::RelativeJump(condition)) == if condition_met(
            c.registers.f,
            condition,
        ) {
            (
                Cpu {
                    registers: Registers {
                        program_counter: wrap16(
                            c.registers.program_counter + 2 + signed_offset(imm8(c, v)),
                        ),
                        ..c.registers
                    },
                    ..c
                },
                v,
                3u8,
            )
        } else {
            (
                Cpu {
                    registers: Registers {
                        program_counter: pc_after(c.registers, 2),
                        ..c.registers
                    },
                    ..c
                },
                v,
                2u8,
            )
        },
{
    reveal(exec_model);
}

impl Cpu {
    /// Pushes `value`: SP moves two down and the word goes there.
    pub fn push(&mut self, bus: &mut Memory, value: u16)
        requires
            old(bus).wf(),
        ensures
            bus_kept(old(bus), final(bus)),
            *final(self) == (Cpu {
                registers: Registers {
                    stack_pointer: pushed_sp(old(self).registers),
                    ..old(self).registers
                },
                ..*old(self)
            }),
            final(bus)@ == write16_model(old(bus)@, pushed_sp(old(self).registers), value),
    {
        self.registers.stack_pointer = wrapping_sub16(self.registers.stack_pointer, 2);
        bus.write16(self.registers.stack_pointer, value);
    }

    /// Pops a word: it is read at SP, and SP moves two up.
    pub fn pop(&mut self, bus: &Memory) -> (r: u16)
        requires
            bus.wf(),
        ensures
            r == read16_model(bus@, old(self).registers.stack_pointer),
            *final(self) == (Cpu {
                registers: Registers {
                    stack_pointer: wrap16(old(self).registers.stack_pointer + 2),
                    ..old(self).registers
                },
                ..*old(self)
            }),
    {
        let value = bus.read16(self.registers.stack_pointer);
        self.registers.stack_pointer = wrapping_add16(self.registers.stack_pointer, 2);
        value
    }
}

fn execute_push(cpu: &mut Cpu, bus: &mut Memory, target: PushPopTarget) -> (n: u8)
    requires
        old(bus).wf(),
    ensures
        bus_kept(old(bus), final(bus)),
        runs(*old(cpu), old(bus)@, *final(cpu), final(bus)@, n, Instruction::Push(target)),
{
    proof {
        reveal(runs);
        reveal(exec_model);
    }
    let value = match target {
        PushPopTarget::BC => cpu.registers.get_bc(),
        PushPopTarget::DE => cpu.registers.get_de(),
        PushPopTarget::HL => cpu.registers.get_hl(),
        PushPopTarget::AF => cpu.registers.get_af(),
    };
    cpu.push(bus, value);
    advance(cpu, 1);
    4
}

fn execute_pop(cpu: &mut Cpu, bus: &Memory, target: PushPopTarget) -> (n: u8)
    requires
        bus.wf(),
    ensures
        runs(*old(cpu), bus@, *final(cpu), bus@, n, Instruction::Pop(target)),
{
    proof {
        reveal(runs);
        reveal(exec_model);
    }
    let value = cpu.pop(bus);
    match target {
        PushPopTarget::BC => cpu.registers.set_bc(value),
        PushPopTarget::DE => cpu.registers.set_de(value),
        PushPopTarget::HL => cpu.registers.set_hl(value),
        PushPopTarget::AF => cpu.registers.set_af(value),
    }
    advance(cpu, 1);
    3
}

fn execute_call(cpu: &mut Cpu, bus: &mut Memory) -> (n: u8)
    requires
        old(bus).wf(),
    ensures
        bus_kept(old(bus), final(bus)),
        runs(*old(cpu), old(bus)@, *final(cpu), final(bus)@, n, Instruction::Call),
{
    proof {
        reveal(runs);
        reveal(exec_model);
    }
    let address = read_immediate16(cpu, bus);
    let pc = cpu.registers.program_counter;
    cpu.push(bus, wrapping_add16(pc, 3));
    cpu.registers.program_counter = address;
    6
}

fn execute_call_condition(cpu: &mut Cpu, bus: &mut Memory, condition: JumpCondition) -> (n: u8)
    requires
        old(bus).wf(),
    ensures
        bus_kept(old(bus), final(bus)),
        runs(
            *old(cpu),
            old(bus)@,
            *final(cpu),
            final(bus)@,
            n,
            Instruction::CallCondition(condition),
        ),
{
    proof {
        reveal(runs);
        reveal(exec_model);
    }
    if check_jump_condition(cpu, condition) {
        execute_call(cpu, bus)
    } else {
        advance(cpu, 3);
        3
    }
}

fn execute_return(cpu: &mut Cpu, bus: &Memory) -> (n: u8)
    requires
        bus.wf(),
    ensures
        runs(*old(cpu), bus@, *final(cpu), bus@, n, Instruction::Return),
{
    proof {
        reveal(runs);
        reveal(exec_model);
    }
    let address = cpu.pop(bus);
    cpu.registers.program_counter = address;
    4
}

fn execute_return_condition(cpu: &mut Cpu, bus: &Memory, condition: JumpCondition) -> (n: u8)
    requires
        bus.wf(),
    ensures
        runs(*old(cpu), bus@, *final(cpu), bus@, n, Instruction::ReturnCondition(condition)),
{
    proof {
        reveal(runs);
        reveal(exec_model);
    }
    if check_jump_condition(cpu, condition) {
        execute_return(cpu, bus);
        5
    } else {
        advance(cpu, 1);
        2
    }
}

fn execute_return_and_enable_interrupts(cpu: &mut Cpu, bus: &Memory) -> (n: u8)
    requires
        bus.wf(),
    ensures
        runs(*old(cpu), bus@, *final(cpu), bus@, n, Instruction::ReturnAndEnableInterrupts),
{
    proof {
        reveal(runs);
        reveal(exec_model);
    }
    let n = execute_return(cpu, bus);
    cpu.ime = true;
    n
}

fn execute_restart(cpu: &mut Cpu, bus: &mut Memory, address: u8) -> (n: u8)
    requires
        old(bus).wf(),
    ensures
        bus_kept(old(bus), final(bus)),
        runs(*old(cpu), old(bus)@, *final(cpu), final(bus)@, n, Instruction::Restart(address)),
{
    proof {
        reveal(runs);
        reveal(exec_model);
    }
    let pc = cpu.registers.program_counter;
    cpu.push(bus, wrapping_add16(pc, 1));
    cpu.registers.program_counter = address as u16;
    4
}

fn execute_noop(cpu: &mut Cpu, bus: &Memory) -> (n: u8)
    ensures
        runs(*old(cpu), bus@, *final(cpu), bus@, n, Instruction::Noop),
{
    proof {
        reveal(runs);
        reveal(exec_model);
    }
    advance(cpu, 1);
    1
}

fn execute_disable_interrupts(cpu: &mut Cpu, bus: &Memory) -> (n: u8)
    ensures
        runs(*old(cpu), bus@, *final(cpu), bus@, n, Instruction::DisableInterrupts),
{
    proof {
        reveal(runs);
        reveal(exec_model);
    }
    cpu.ime = false;
    cpu.ime_scheduled = false;
    advance(cpu, 1);
    1
}

fn execute_enable_interrupts(cpu: &mut Cpu, bus: &Memory) -> (n: u8)
    ensures
        runs(*old(cpu), bus@, *final(cpu), bus@, n, Instruction::EnableInterrupts),
{
    proof {
        reveal(runs);
        reveal(exec_model);
    }
    cpu.ime_scheduled = true;
    advance(cpu, 1);
    1
}

fn execute_halt(cpu: &mut Cpu, bus: &Memory) -> (n: u8)
    ensures
        runs(*old(cpu), bus@, *final(cpu), bus@, n, Instruction::Halt),
{
    proof {
        reveal(runs);
        reveal(exec_model);
    }
    cpu.halted = true;
    advance(cpu, 1);
    1
}

fn finish_shift(cpu: &mut Cpu, bus: &mut Memory, target: ByteArithmeticTarget, out: (u8, bool)) -> (n:
    u8)
    requires
        old(bus).wf(),
    ensures
        bus_kept(old(bus), final(bus)),
        (*final(cpu), final(bus)@, n) == cb_shift_model(*old(cpu), old(bus)@, target, out),
{
    store_byte_to(cpu, bus, target, out.0);
    cpu.registers.f = FlagsRegister {
        zero: out.0 == 0,
        subtract: false,
        half_carry: false,
        carry: out.1,
    };
    advance(cpu, 2);
    match target {
        ByteArithmeticTarget::HL => 4,
        _ => 2,
    }
}

fn execute_rotate_left(cpu: &mut Cpu, bus: &mut Memory, target: ByteArithmeticTarget) -> (n: u8)
    requires
        old(bus).wf(),
    ensures
        bus_kept(old(bus), final(bus)),
        (*final(cpu), final(bus)@, n) == cb_model(
            *old(cpu),
            old(bus)@,
            Instruction::RotateLeft(target),
        ),
{
    let value = byte_operand_of(cpu, bus, target);
    let out = rotate_left_circular(value);
    finish_shift(cpu, bus, target, out)
}

fn execute_rotate_right(cpu: &mut Cpu, bus: &mut Memory, target: ByteArithmeticTarget) -> (n: u8)
    requires
        old(bus).wf(),
    ensures
        bus_kept(old(bus), final(bus)),
        (*final(cpu), final(bus)@, n) == cb_model(
            *old(cpu),
            old(bus)@,
            Instruction::RotateRight(target),
        ),
{
    let value = byte_operand_of(cpu, bus, target);
    let out = rotate_right_circular(value);
    finish_shift(cpu, bus, target, out)
}

fn execute_rotate_left_carry(cpu: &mut Cpu, bus: &mut Memory, target: ByteArithmeticTarget) -> (n: u8)
    requires
        old(bus).wf(),
    ensures
        bus_kept(old(bus), final(bus)),
        (*final(cpu), final(bus)@, n) == cb_model(
            *old(cpu),
            old(bus)@,
            Instruction::RotateLeftCarry(target),
        ),
{
    let value = byte_operand_of(cpu, bus, target);
    let out = rotate_left_through_carry(value, cpu.registers.f.carry);
    finish_shift(cpu, bus, target, out)
}

fn execute_rotate_right_carry(cpu: &mut Cpu, bus: &mut Memory, target: ByteArithmeticTarget) -> (n: u8)
    requires
        old(bus).wf(),
    ensures
        bus_kept(old(bus), final(bus)),
        (*final(cpu), final(bus)@, n) == cb_model(
            *old(cpu),
            old(bus)@,
            Instruction::RotateRightCarry(target),
        ),
{
    let value = byte_operand_of(cpu, bus, target);
    let out = rotate_right_through_carry(value, cpu.registers.f.carry);
    finish_shift(cpu, bus, target, out)
}

fn execute_shift_left_arithmetic(cpu: &mut Cpu, bus: &mut Memory, target: ByteArithmeticTarget) -> (n: u8)
    requires
        old(bus).wf(),
    ensures
        bus_kept(old(bus), final(bus)),
        (*final(cpu), final(bus)@, n) == cb_model(
            *old(cpu),
            old(bus)@,
            Instruction::ShiftLeftArithmetic(target),
        ),
{
    let value = byte_operand_of(cpu, bus, target);
    let out = shift_left_arithmetic(value);
    finish_shift(cpu, bus, target, out)
}

fn execute_shift_right_arithmetic(cpu: &mut Cpu, bus: &mut Memory, target: ByteArithmeticTarget) -> (n: u8)
    requires
        old(bus).wf(),
    ensures
        bus_kept(old(bus), final(bus)),
        (*final(cpu), final(bus)@, n) == cb_model(
            *old(cpu),
            old(bus)@,
            Instruction::ShiftRightArithmetic(target),
        ),
{
    let value = byte_operand_of(cpu, bus, target);
    let out = shift_right_arithmetic(value);
    finish_shift(cpu, bus, target, out)
}

fn execute_swap(cpu: &mut Cpu, bus: &mut Memory, target: ByteArithmeticTarget) -> (n: u8)
    requires
        old(bus).wf(),
    ensures
        bus_kept(old(bus), final(bus)),
        (*final(cpu), final(bus)@, n) == cb_model(
            *old(cpu),
            old(bus)@,
            Instruction::Swap(target),
        ),
{
    let value = byte_operand_of(cpu, bus, target);
    let out = swap(value);
    finish_shift(cpu, bus, target, out)
}

fn execute_shift_right_logic(cpu: &mut Cpu, bus: &mut Memory, target: ByteArithmeticTarget) -> (n: u8)
    requires
        old(bus).wf(),
    ensures
        bus_kept(old(bus), final(bus)),
        (*final(cpu), final(bus)@, n) == cb_model(
            *old(cpu),
            old(bus)@,
            Instruction::ShiftRightLogic(target),
        ),
{
    let value = byte_operand_of(cpu, bus, target);
    let out = shift_right_logic(value);
    finish_shift(cpu, bus, target, out)
}

fn execute_test_bit(
    cpu: &mut Cpu,
    bus: &Memory,
    bit_target: BitOpTarget,
    target: ByteArithmeticTarget,
) -> (n: u8)
    requires
        bus.wf(),
    ensures
        (*final(cpu), bus@, n) == cb_model(
            *old(cpu),
            bus@,
            Instruction::TestBit(bit_target, target),
        ),
{
    let value = byte_operand_of(cpu, bus, target);
    cpu.registers.f.zero = !test_bit(value, bit_target);
    cpu.registers.f.subtract = false;
    cpu.registers.f.half_carry = true;
    advance(cpu, 2);
    match target {
        ByteArithmeticTarget::HL => 4,
        _ => 2,
    }
}

fn execute_reset_bit(
    cpu: &mut Cpu,
    bus: &mut Memory,
    bit_target: BitOpTarget,
    target: ByteArithmeticTarget,
) -> (n: u8)
    requires
        old(bus).wf(),
    ensures
        bus_kept(old(bus), final(bus)),
        (*final(cpu), final(bus)@, n) == cb_model(
            *old(cpu),
            old(bus)@,
            Instruction::ResetBit(bit_target, target),
        ),
{
    let value = byte_operand_of(cpu, bus, target);
    store_byte_to(cpu, bus, target, reset_bit(value, bit_target));
    advance(cpu, 2);
    match target {
        ByteArithmeticTarget::HL => 4,
        _ => 2,
    }
}

fn execute_set_bit(
    cpu: &mut Cpu,
    bus: &mut Memory,
    bit_target: BitOpTarget,
    target: ByteArithmeticTarget,
) -> (n: u8)
    requires
        old(bus).wf(),
    ensures
        bus_kept(old(bus), final(bus)),
        (*final(cpu), final(bus)@, n) == cb_model(
            *old(cpu),
            old(bus)@,
            Instruction::SetBit(bit_target, target),
        ),
{
    let value = byte_operand_of(cpu, bus, target);
    store_byte_to(cpu, bus, target, set_bit(value, bit_target));
    advance(cpu, 2);
    match target {
        ByteArithmeticTarget::HL => 4,
        _ => 2,
    }
}

/// Runs a prefixed instruction (PC at its `cb` prefix).
fn execute_prefixed(cpu: &mut Cpu, bus: &mut Memory, instruction: Instruction) -> (n: u8)
    requires
        old(bus).wf(),
    ensures
        bus_kept(old(bus), final(bus)),
        (*final(cpu), final(bus)@, n) == cb_model(*old(cpu), old(bus)@, instruction),
        is_extended(instruction) ==> runs(
            *old(cpu),
            old(bus)@,
            *final(cpu),
            final(bus)@,
            n,
            instruction,
        ),
{
    let ghost c0 = *cpu;
    let ghost v0 = bus@;
    let n = execute_prefixed_instruction(cpu, bus, instruction);
    proof {
        lemma_runs_extended(c0, v0, *cpu, bus@, n, instruction);
    }
    n
}

proof fn lemma_runs_extended(c0: Cpu, v0: BusView, c1: Cpu, v1: BusView, n: u8, ins: Instruction)
    requires
        (c1, v1, n) == cb_model(c0, v0, ins),
    ensures
        is_extended(ins) ==> runs(c0, v0, c1, v1, n, ins),
{
    reveal(exec_model);
    reveal(runs);
    reveal(exec_model);
    match ins {
        Instruction::RotateLeft(_) => {},
        Instruction::RotateRight(_) => {},
        Instruction::RotateLeftCarry(_) => {},
        Instruction::RotateRightCarry(_) => {},
        Instruction::ShiftLeftArithmetic(_) => {},
        Instruction::ShiftRightArithmetic(_) => {},
        Instruction::Swap(_) => {},
        Instruction::ShiftRightLogic(_) => {},
        Instruction::TestBit(_, _) => {},
        Instruction::ResetBit(_, _) => {},
        Instruction::SetBit(_, _) => {},
        _ => {},
    }
}

fn execute_prefixed_instruction(cpu: &mut Cpu, bus: &mut Memory, instruction: Instruction) -> (n:
    u8)
    requires
        old(bus).wf(),
    ensures
        bus_kept(old(bus), final(bus)),
        (*final(cpu), final(bus)@, n) == cb_model(*old(cpu), old(bus)@, instruction),
{
    match instruction {
        Instruction::RotateLeft(t) => execute_rotate_left(cpu, bus, t),
        Instruction::RotateRight(t) => execute_rotate_right(cpu, bus, t),
        Instruction::RotateLeftCarry(t) => execute_rotate_left_carry(cpu, bus, t),
        Instruction::RotateRightCarry(t) => execute_rotate_right_carry(cpu, bus, t),
        Instruction::ShiftLeftArithmetic(t) => execute_shift_left_arithmetic(cpu, bus, t),
        Instruction::ShiftRightArithmetic(t) => execute_shift_right_arithmetic(cpu, bus, t),
        Instruction::Swap(t) => execute_swap(cpu, bus, t),
        Instruction::ShiftRightLogic(t) => execute_shift_right_logic(cpu, bus, t),
        Instruction::TestBit(b, t) => execute_test_bit(cpu, bus, b, t),
        Instruction::ResetBit(b, t) => execute_reset_bit(cpu, bus, b, t),
        Instruction::SetBit(b, t) => execute_set_bit(cpu, bus, b, t),
        _ => 0,
    }
}

/// The `cb` prefix: fetches the next byte and runs the prefixed instruction
/// that it encodes.
fn execute_extended_opcode(cpu: &mut Cpu, bus: &mut Memory) -> (n: u8)
    requires
        old(bus).wf(),
    ensures
        bus_kept(old(bus), final(bus)),
        runs(*old(cpu), old(bus)@, *final(cpu), final(bus)@, n, Instruction::ExtendedOpcode),
{
    proof {
        reveal(runs);
        reveal(exec_model);
    }
    let opcode = read_immediate(cpu, bus);
    let instruction = Instruction::from_byte_extended(opcode);
    execute_prefixed(cpu, bus, instruction)
}

impl Cpu {
    pub open spec fn new_spec() -> Cpu {
        Cpu {
            registers: Registers {
                a: 0x01,
                b: 0x00,
                c: 0x13,
                d: 0x00,
                e: 0xd8,
                f: registers::flags_of(0xb0),
                h: 0x01,
                l: 0x4d,
                program_counter: 0x100,
                stack_pointer: 0xfffe,
            },
            ime: false,
            halted: false,
            ime_scheduled: false,
        }
    }

    /// The CPU as the boot ROM leaves it: registers at their boot values,
    /// interrupts disabled, running.
    pub fn new() -> (r: Cpu)
        ensures
            r.registers.a == 0x01 && registers::flags_byte(r.registers.f) == 0xb0,
            r.registers.bc() == 0x0013 && r.registers.de() == 0x00d8,
            r.registers.hl() == 0x014d,
            r.registers.stack_pointer == 0xfffe && r.registers.program_counter == 0x0100,
            !r.ime && !r.halted && !r.ime_scheduled,
            r == Cpu::new_spec(),
    {
        Cpu { registers: Registers::new(), ime: false, halted: false, ime_scheduled: false }
    }

    /// Runs `instruction`, whose first byte is at PC; returns its M-cycles.
    pub fn execute(&mut self, bus: &mut Memory, instruction: Instruction) -> (n: u8)
        requires
            old(bus).wf(),
            instruction != Instruction::Stop,
        ensures
            bus_kept(old(bus), final(bus)),
            runs(*old(self), old(bus)@, *final(self), final(bus)@, n, instruction),
    {
        if instruction.is_control_transfer() {
            execute_control(self, bus, instruction)
        } else {
            execute_data(self, bus, instruction)
        }
    }

    /// One step: services a pending interrupt, or waits in HALT, or runs the
    /// instruction at PC. Returns the M-cycles spent and whether the CPU is
    /// halted, or the fault that stops the machine (an unused opcode, STOP),
    /// in which case the bus is left as it was and the CPU only leaves HALT.
    #[verifier::rlimit(60)]
    pub fn step(&mut self, bus: &mut Memory) -> (r: Result<(u8, bool), CpuFault>)
        requires
            old(bus).wf(),
        ensures
            bus_kept(old(bus), final(bus)),
            match step_model(*old(self), old(bus)@) {
                Ok((c, v, n)) => r == Ok::<(u8, bool), CpuFault>((n, c.halted)) && *final(self)
                    == c && final(bus)@ == v,
                Err(e) => r == Err::<(u8, bool), CpuFault>(e) && *final(self) == (Cpu {
                    halted: false,
                    ..*old(self)
                }) && final(bus)@ == old(bus)@,
            },
    {
        proof {
            reveal(runs);
            reveal(exec_model);
            reveal(step_model);
        }
        let interrupts = Interrupts::get_interrupts(bus);
        let pending = interrupts.get_highest_priority_interrupt();
        if let Some(interrupt) = pending {
            if self.ime {
                execute_interrupts(self, bus, interrupt);
                return Ok((3, false));
            }
            self.halted = false;
        }
        if self.halted {
            return Ok((1, true));
        }
        let opcode = bus.read(self.registers.program_counter);
        let instruction = match Instruction::from_byte_base(opcode) {
            Some(i) => i,
            None => return Err(CpuFault::UnknownOpcode(opcode)),
        };
        if instruction == Instruction::Stop {
            return Err(CpuFault::Stop);
        }
        let enable_after = self.ime_scheduled;
        let n = self.execute(bus, instruction);
        if enable_after && self.ime_scheduled {
            self.ime = true;
            self.ime_scheduled = false;
        }
        Ok((n, self.halted))
    }
}

/// Services `interrupt`: IME off, PC pushed, the request acknowledged, PC at
/// the vector.
fn execute_interrupts(cpu: &mut Cpu, bus: &mut Memory, interrupt: Interrupt)
    requires
        old(bus).wf(),
    ensures
        bus_kept(old(bus), final(bus)),
        (*final(cpu), final(bus)@) == dispatch_model(*old(cpu), old(bus)@, interrupt),
{
    cpu.ime = false;
    cpu.halted = false;
    let pc = cpu.registers.program_counter;
    cpu.push(bus, pc);
    let mut interrupts = Interrupts::get_interrupts(bus);
    interrupts.ack_interrupt(interrupt, bus);
    cpu.registers.program_counter = vector(interrupt);
}

/// Jumps, calls, returns and restarts: the instructions that set PC to a
/// target rather than moving it past themselves.
pub open spec fn is_control(ins: Instruction) -> bool {
    match ins {
        Instruction::Jump(_) | Instruction::JumpHL | Instruction::RelativeJump(_)
        | Instruction::Call | Instruction::CallCondition(_) | Instruction::Return
        | Instruction::ReturnCondition(_) | Instruction::ReturnAndEnableInterrupts
        | Instruction::Restart(_) => true,
        _ => false,
    }
}

impl Instruction {
    pub fn is_control_transfer(&self) -> (r: bool)
        ensures
            r == is_control(*self),
    {
        match self {
            Instruction::Jump(_) | Instruction::JumpHL | Instruction::RelativeJump(_)
            | Instruction::Call | Instruction::CallCondition(_) | Instruction::Return
            | Instruction::ReturnCondition(_) | Instruction::ReturnAndEnableInterrupts
            | Instruction::Restart(_) => true,
            _ => false,
        }
    }
}

fn execute_control(cpu: &mut Cpu, bus: &mut Memory, instruction: Instruction) -> (n: u8)
    requires
        old(bus).wf(),
        is_control(instruction),
    ensures
        bus_kept(old(bus), final(bus)),
        runs(*old(cpu), old(bus)@, *final(cpu), final(bus)@, n, instruction),
{
    match instruction {
            Instruction::Jump(c) => execute_jump(cpu, bus, c),
            Instruction::JumpHL => execute_hl_jump(cpu, bus),
            Instruction::RelativeJump(c) => execute_relative_jump(cpu, bus, c),
            Instruction::Call => execute_call(cpu, bus),
            Instruction::CallCondition(c) => execute_call_condition(cpu, bus, c),
            Instruction::Return => execute_return(cpu, bus),
            Instruction::ReturnCondition(c) => execute_return_condition(cpu, bus, c),
            Instruction::ReturnAndEnableInterrupts => execute_return_and_enable_interrupts(
                cpu,
                bus,
            ),
            Instruction::Restart(a) => execute_restart(cpu, bus, a),
        _ => 0,
    }
}

/// The arithmetic and logic instructions that work on registers (and (HL)).
pub open spec fn is_arithmetic(ins: Instruction) -> bool {
    match ins {
        Instruction::Add(_) | Instruction::AddCarry(_) | Instruction::Subtract(_)
        | Instruction::SubtractCarry(_) | Instruction::And(_) | Instruction::Xor(_)
        | Instruction::Or(_) | Instruction::Cp(_) | Instruction::Add16(_)
        | Instruction::Increment(_) | Instruction::Decrement(_) | Instruction::Increment16(_)
        | Instruction::Decrement16(_) | Instruction::RotateLeftA | Instruction::RotateLeftCarryA
        | Instruction::RotateRightA | Instruction::RotateRightCarryA | Instruction::DecimalAdjust
        | Instruction::SetCarryFlag | Instruction::Complement
        | Instruction::ComplementCarryFlag => true,
        _ => false,
    }
}

impl Instruction {
    pub fn is_arithmetic(&self) -> (r: bool)
        ensures
            r == is_arithmetic(*self),
    {
        match self {
            Instruction::Add(_) | Instruction::AddCarry(_) | Instruction::Subtract(_)
            | Instruction::SubtractCarry(_) | Instruction::And(_) | Instruction::Xor(_)
            | Instruction::Or(_) | Instruction::Cp(_) | Instruction::Add16(_)
            | Instruction::Increment(_) | Instruction::Decrement(_) | Instruction::Increment16(_)
            | Instruction::Decrement16(_) | Instruction::RotateLeftA
            | Instruction::RotateLeftCarryA | Instruction::RotateRightA
            | Instruction::RotateRightCarryA | Instruction::DecimalAdjust
            | Instruction::SetCarryFlag | Instruction::Complement
            | Instruction::ComplementCarryFlag => true,
            _ => false,
        }
    }
}

fn execute_data(cpu: &mut Cpu, bus: &mut Memory, instruction: Instruction) -> (n: u8)
    requires
        old(bus).wf(),
        !is_control(instruction),
        instruction != Instruction::Stop,
    ensures
        bus_kept(old(bus), final(bus)),
        runs(*old(cpu), old(bus)@, *final(cpu), final(bus)@, n, instruction),
{
    if instruction.is_arithmetic() {
        execute_arithmetic(cpu, bus, instruction)
    } else {
        execute_transfer(cpu, bus, instruction)
    }
}

fn execute_arithmetic(cpu: &mut Cpu, bus: &mut Memory, instruction: Instruction) -> (n: u8)
    requires
        old(bus).wf(),
        is_arithmetic(instruction),
    ensures
        bus_kept(old(bus), final(bus)),
        runs(*old(cpu), old(bus)@, *final(cpu), final(bus)@, n, instruction),
{
    match instruction {
            Instruction::Add(t) => execute_add(cpu, bus, t),
            Instruction::AddCarry(t) => execute_add_with_carry(cpu, bus, t),
            Instruction::Subtract(t) => execute_subtract(cpu, bus, t),
            Instruction::SubtractCarry(t) => execute_subtract_with_carry(cpu, bus, t),
            Instruction::And(t) => execute_and(cpu, bus, t),
            Instruction::Xor(t) => execute_xor(cpu, bus, t),
            Instruction::Or(t) => execute_or(cpu, bus, t),
            Instruction::Cp(t) => execute_cp(cpu, bus, t),
            Instruction::Add16(t) => execute_add16(cpu, bus, t),
            Instruction::Increment(t) => execute_increment(cpu, bus, t),
            Instruction::Decrement(t) => execute_decrement(cpu, bus, t),
            Instruction::Increment16(t) => execute_increment16(cpu, bus, t),
            Instruction::Decrement16(t) => execute_decrement16(cpu, bus, t),
            Instruction::RotateLeftA => execute_rotate_left_a(cpu, bus),
            Instruction::RotateLeftCarryA => execute_rotate_left_carry_a(cpu, bus),
            Instruction::RotateRightA => execute_rotate_right_a(cpu, bus),
            Instruction::RotateRightCarryA => execute_rotate_right_carry_a(cpu, bus),
            Instruction::DecimalAdjust => execute_decimal_adjust(cpu, bus),
            Instruction::SetCarryFlag => execute_set_carry_flag(cpu, bus),
            Instruction::Complement => execute_complement(cpu, bus),
            Instruction::ComplementCarryFlag => execute_complement_carry_flag(cpu, bus),
        _ => 0,
    }
}

fn execute_transfer(cpu: &mut Cpu, bus: &mut Memory, instruction: Instruction) -> (n: u8)
    requires
        old(bus).wf(),
        !is_control(instruction),
        !is_arithmetic(instruction),
        instruction != Instruction::Stop,
    ensures
        bus_kept(old(bus), final(bus)),
        runs(*old(cpu), old(bus)@, *final(cpu), final(bus)@, n, instruction),
{
    match instruction {
            Instruction::Noop => execute_noop(cpu, bus),
            Instruction::Load(d, s) => execute_load(cpu, bus, d, s),
            Instruction::LoadImmediate(t) => execute_load_immediate(cpu, bus, t),
            Instruction::ReadFromRam(m) => execute_read_from_ram(cpu, bus, m),
            Instruction::WriteToRam(m) => execute_write_to_ram(cpu, bus, m),
            Instruction::WriteToRamFromStackPointer => execute_write_to_ram_from_stack_pointer(
                cpu,
                bus,
            ),
            Instruction::LoadImmediate16(t) => execute_load_immediate16(cpu, bus, t),
            Instruction::Push(t) => execute_push(cpu, bus, t),
            Instruction::Pop(t) => execute_pop(cpu, bus, t),
            Instruction::DisableInterrupts => execute_disable_interrupts(cpu, bus),
            Instruction::EnableInterrupts => execute_enable_interrupts(cpu, bus),
            Instruction::Halt => execute_halt(cpu, bus),
            Instruction::ExtendedOpcode => execute_extended_opcode(cpu, bus),
            Instruction::LoadH => execute_load_h(cpu, bus),
            Instruction::WriteH => execute_write_h(cpu, bus),
            Instruction::LoadHC => execute_load_hc(cpu, bus),
            Instruction::WriteHC => execute_write_hc(cpu, bus),
            Instruction::AddSP => execute_add_sp(cpu, bus),
            Instruction::LoadSPHL => execute_load_sp_hl(cpu, bus),
            Instruction::LoadHLSP => execute_load_hl_sp(cpu, bus),
            Instruction::RotateLeft(_) | Instruction::RotateRight(_)
            | Instruction::RotateLeftCarry(_) | Instruction::RotateRightCarry(_)
            | Instruction::ShiftLeftArithmetic(_) | Instruction::ShiftRightArithmetic(_)
            | Instruction::Swap(_) | Instruction::ShiftRightLogic(_) | Instruction::TestBit(_, _)
            | Instruction::ResetBit(_, _) | Instruction::SetBit(_, _) => execute_prefixed(
                cpu,
                bus,
                instruction,
            ),
        _ => 0,
    }
}

/// The stack slot at `sp` (two bytes) lies in work RAM or high RAM, where
/// the bus keeps what is written.
pub open spec fn stack_in_ram(sp: u16) -> bool {
    (0xc000 <= sp && sp + 1 < 0xe000) || (0xff80 <= sp && sp + 1 < 0xffff)
}

proof fn lemma_without_bit(x: u8, m: u8)
    requires
        m == 1 || m == 2 || m == 4 || m == 8 || m == 16,
    ensures
        !interrupts::has_bit(interrupts::without_bit(x, m), m),
{
    if m == 1 {
    } else if m == 2 {
    } else if m == 4 {
    } else if m == 8 {
    } else {
    }
}

/// Acknowledging a line rewrites IF alone.
proof fn lemma_ack_writes_flags(v: BusView, i: Interrupt)
    ensures
        ack_model(v, i) == (BusView {
            io: v.io.update(
                0x0f,
                interrupts::without_bit(
                    read_model(v, interrupts::INTERRUPT_FLAG_ADDRESS),
                    interrupts::interrupt_mask(i),
                ),
            ),
            ..v
        }),
{
}

/// After an interrupt is dispatched: IME is off, the serviced IF bit is clear,
/// PC is at the vector, and the top of the stack holds the previous PC.
#[verifier::spinoff_prover]
pub proof fn lemma_dispatch(c: Cpu, v: BusView, i: Interrupt)
    requires
        crate::memory::bus_wf(v),
        stack_in_ram(pushed_sp(c.registers)),
    ensures
        ({
            let (c1, v1) = dispatch_model(c, v, i);
            &&& !c1.ime
            &&& !interrupts::has_bit(
                read_model(v1, interrupts::INTERRUPT_FLAG_ADDRESS),
                interrupts::interrupt_mask(i),
            )
            &&& c1.registers.program_counter == interrupt_vector(i)
            &&& c1.registers.stack_pointer == pushed_sp(c.registers)
            &&& read16_model(v1, c1.registers.stack_pointer) == c.registers.program_counter
        }),
{
    let sp = pushed_sp(c.registers);
    let pc = c.registers.program_counter;
    let v1 = write16_model(v, sp, pc);
    lemma_stack_word(v, sp, pc);
    let m = interrupts::interrupt_mask(i);
    let flags = read_model(v1, interrupts::INTERRUPT_FLAG_ADDRESS);
    let x = interrupts::without_bit(flags, m);
    lemma_without_bit(flags, m);
    let v2 = BusView { io: v1.io.update(0x0f, x), ..v1 };
    lemma_ack_writes_flags(v1, i);
    let a1 = wrap16(sp + 1);
    assert(a1 == sp + 1);
    assert(read_model(v2, sp) == read_model(v1, sp));
    assert(read_model(v2, a1) == read_model(v1, a1));
    assert(read_model(v2, interrupts::INTERRUPT_FLAG_ADDRESS) == x);
}

/// A word written to a stack slot in RAM reads back.
proof fn lemma_stack_word(v: BusView, sp: u16, x: u16)
    requires
        crate::memory::bus_wf(v),
        stack_in_ram(sp),
    ensures
        read16_model(write16_model(v, sp, x), sp) == x,
        crate::memory::bus_wf(write16_model(v, sp, x)),
{
    let lo = (x % 256) as u8;
    let hi = (x / 256) as u8;
    let a1 = wrap16(sp + 1);
    assert(a1 == sp + 1);
    if sp < 0xe000 {
        let w1 = BusView { wram: v.wram.update(sp - 0xc000, lo), ..v };
        assert(write_model(v, sp, lo) == w1);
        let w2 = BusView { wram: w1.wram.update(a1 - 0xc000, hi), ..w1 };
        assert(write_model(w1, a1, hi) == w2);
        assert(read_model(w2, sp) == lo);
        assert(read_model(w2, a1) == hi);
    } else {
        let w1 = BusView { hram: v.hram.update(sp - 0xff80, lo), ..v };
        assert(write_model(v, sp, lo) == w1);
        let w2 = BusView { hram: w1.hram.update(a1 - 0xff80, hi), ..w1 };
        assert(write_model(w1, a1, hi) == w2);
        assert(read_model(w2, sp) == lo);
        assert(read_model(w2, a1) == hi);
    }
    assert(x == lo + 256 * hi);
}

/// Through a whole step: with IME on and a line pending, the step dispatches
/// the highest-priority line in three M-cycles, with the properties of
/// `lemma_dispatch`.
#[verifier::spinoff_prover]
pub proof fn lemma_step_dispatches(c: Cpu, v: BusView)
    requires
        crate::memory::bus_wf(v),
        c.ime,
        bus_pending(v) is Some,
        stack_in_ram(pushed_sp(c.registers)),
    ensures
        ({
            let i = bus_pending(v).unwrap();
            let (c1, v1) = dispatch_model(c, v, i);
            &&& step_model(c, v) == Ok::<(Cpu, BusView, u8), CpuFault>((c1, v1, 3))
            &&& !c1.ime && !c1.halted
            &&& !interrupts::has_bit(
                read_model(v1, interrupts::INTERRUPT_FLAG_ADDRESS),
                interrupts::interrupt_mask(i),
            )
            &&& c1.registers.program_counter == interrupt_vector(i)
            &&& c1.registers.stack_pointer == pushed_sp(c.registers)
            &&& read16_model(v1, c1.registers.stack_pointer) == c.registers.program_counter
        }),
{
    reveal(step_model);
    lemma_dispatch(c, v, bus_pending(v).unwrap());
}

/// Pushing a register pair and then popping it into the same pair restores
/// the pair and SP.
#[verifier::spinoff_prover]
pub proof fn lemma_push_pop_round_trip(c: Cpu, v: BusView, t: PushPopTarget)
    requires
        crate::memory::bus_wf(v),
        stack_in_ram(pushed_sp(c.registers)),
    ensures
        ({
            let (c1, v1, _) = exec_model(c, v, Instruction::Push(t));
            let c2 = exec_model(c1, v1, Instruction::Pop(t)).0;
            stack_value(c2.registers, t) == stack_value(c.registers, t)
                && c2.registers.stack_pointer == c.registers.stack_pointer
        }),
{
    let r = c.registers;
    let x = stack_value(r, t);
    let sp = pushed_sp(r);
    lemma_stack_word(v, sp, x);
    let v1 = write16_model(v, sp, x);
    let c1 = Cpu {
        registers: Registers { stack_pointer: sp, program_counter: pc_after(r, 1), ..r },
        ..c
    };
    lemma_push_model(c, v, t);
    let r1 = Registers { stack_pointer: wrap16(sp + 2), ..c1.registers };
    assert(r1.stack_pointer == r.stack_pointer);
    lemma_pop_model(c1, v1, t);
    registers::lemma_register_pairs_round_trip(r1, x);
    registers::lemma_register_pairs_round_trip(r, x);
}

proof fn lemma_push_model(c: Cpu, v: BusView, t: PushPopTarget)
    ensures
        exec_model(c, v, Instruction::Push(t)) == (
            Cpu {
                registers: Registers {
                    stack_pointer: pushed_sp(c.registers),
                    program_counter: pc_after(c.registers, 1),
                    ..c.registers
                },
                ..c
            },
            write16_model(v, pushed_sp(c.registers), stack_value(c.registers, t)),
            4u8,
        ),
{
    reveal(exec_model);
}

proof fn lemma_pop_model(c: Cpu, v: BusView, t: PushPopTarget)
    ensures
        exec_model(c, v, Instruction::Pop(t)).0.registers == (Registers {
            program_counter: pc_after(c.registers, 1),
            ..with_stack_value(
                Registers { stack_pointer: wrap16(c.registers.stack_pointer + 2), ..c.registers },
                t,
                read16_model(v, c.registers.stack_pointer),
            )
        }),
{
    reveal(exec_model);
}

/// The bytes an instruction occupies, prefix and operands included.
pub open spec fn instruction_length(ins: Instruction) -> int {
    match ins {
        Instruction::LoadImmediate(_) | Instruction::LoadHLSP | Instruction::LoadH
        | Instruction::WriteH | Instruction::AddSP | Instruction::RelativeJump(_)
        | Instruction::ExtendedOpcode => 2,
        Instruction::Add(t) | Instruction::AddCarry(t) | Instruction::Subtract(t)
        | Instruction::SubtractCarry(t) | Instruction::And(t) | Instruction::Xor(t)
        | Instruction::Or(t) | Instruction::Cp(t) => arith_length(t),
        Instruction::Load(d, s) => load_length(d, s),
        Instruction::LoadImmediate16(_) | Instruction::WriteToRamFromStackPointer
        | Instruction::Jump(_) | Instruction::Call | Instruction::CallCondition(_) => 3,
        _ => if is_extended(ins) {
            2
        } else {
            1
        },
    }
}

/// An instruction that transfers no control moves PC past itself and nothing
/// else decides where it goes.
#[verifier::spinoff_prover]
pub proof fn lemma_pc_advances_by_length(c: Cpu, v: BusView, ins: Instruction)
    requires
        !is_control(ins),
        ins != Instruction::Stop,
    ensures
        exec_model(c, v, ins).0.registers.program_counter == wrap16(
            c.registers.program_counter + instruction_length(ins),
        ),
{
    reveal(exec_model);
    if ins == Instruction::ExtendedOpcode {
        let e = decode_extended(imm8(c, v));
        assert(is_extended(e));
    }
}

/// A jump, call, return or restart sets PC either past itself (when its
/// condition fails) or to its target; calls and restarts push the address
/// after themselves, and returns pop PC, moving SP by two.
#[verifier::spinoff_prover]
pub proof fn lemma_control_transfer(c: Cpu, v: BusView, ins: Instruction)
    requires
        is_control(ins),
        crate::memory::bus_wf(v),
        stack_in_ram(pushed_sp(c.registers)),
    ensures
        ({
            let (c1, v1, _) = exec_model(c, v, ins);
            let r = c.registers;
            let pc1 = c1.registers.program_counter;
            let next_pc = wrap16(r.program_counter + instruction_length(ins));
            match ins {
                Instruction::Jump(_) => (pc1 == imm16(c, v) || pc1 == next_pc)
                    && c1.registers.stack_pointer == r.stack_pointer,
                Instruction::JumpHL => pc1 == r.hl() && c1.registers.stack_pointer
                    == r.stack_pointer,
                Instruction::RelativeJump(_) => (pc1 == wrap16(
                    r.program_counter + 2 + signed_offset(imm8(c, v)),
                ) || pc1 == next_pc) && c1.registers.stack_pointer == r.stack_pointer,
                Instruction::Call | Instruction::CallCondition(_) | Instruction::Restart(_) => (
                pc1 == next_pc && c1.registers.stack_pointer == r.stack_pointer) || (
                c1.registers.stack_pointer == pushed_sp(r) && read16_model(v1, pushed_sp(r))
                    == next_pc),
                _ => (pc1 == next_pc && c1.registers.stack_pointer == r.stack_pointer) || (pc1
                    == read16_model(v, r.stack_pointer) && c1.registers.stack_pointer == wrap16(
                    r.stack_pointer + 2,
                )),
            }
        }),
{
    reveal(exec_model);
    let r = c.registers;
    let next_pc = wrap16(r.program_counter + instruction_length(ins));
    match ins {
        Instruction::Call => {
            lemma_stack_word(v, pushed_sp(r), next_pc);
        },
        Instruction::CallCondition(_) => {
            lemma_stack_word(v, pushed_sp(r), next_pc);
        },
        Instruction::Restart(_) => {
            lemma_stack_word(v, pushed_sp(r), next_pc);
        },
        _ => {},
    }
}

/// Through a whole step: when no interrupt is dispatched and the CPU is not
/// halted, an instruction that transfers no control moves PC past itself.
#[verifier::spinoff_prover]
pub proof fn lemma_step_advances_pc(c: Cpu, v: BusView, ins: Instruction)
    requires
        !(c.ime && bus_pending(v) is Some),
        !c.halted,
        decode_base(read_model(v, c.registers.program_counter)) == Some(ins),
        ins != Instruction::Stop,
        !is_control(ins),
    ensures
        match step_model(c, v) {
            Ok((c1, _, _)) => c1.registers.program_counter == wrap16(
                c.registers.program_counter + instruction_length(ins),
            ),
            Err(_) => false,
        },
{
    reveal(step_model);
    let c1 = if bus_pending(v) is Some {
        Cpu { halted: false, ..c }
    } else {
        c
    };
    assert(c1 == c);
    lemma_pc_advances_by_length(c, v, ins);
}

/// Through two whole steps: PUSH of a pair followed by POP of the same pair,
/// with no interrupt pending, restores the pair and SP.
#[verifier::spinoff_prover]
pub proof fn lemma_step_push_pop(c: Cpu, v: BusView, t: PushPopTarget)
    requires
        crate::memory::bus_wf(v),
        bus_pending(v) is None,
        !c.halted,
        stack_in_ram(pushed_sp(c.registers)),
        decode_base(read_model(v, c.registers.program_counter)) == Some(Instruction::Push(t)),
    ensures
        match step_model(c, v) {
            Ok((c1, v1, _)) => decode_base(read_model(v1, c1.registers.program_counter))
                == Some(Instruction::Pop(t)) ==> match step_model(c1, v1) {
                Ok((c2, _, _)) => stack_value(c2.registers, t) == stack_value(c.registers, t)
                    && c2.registers.stack_pointer == c.registers.stack_pointer,
                Err(_) => false,
            },
            Err(_) => false,
        },
{
    let r = c.registers;
    let x = stack_value(r, t);
    let sp = pushed_sp(r);
    lemma_push_model(c, v, t);
    lemma_stack_word(v, sp, x);
    lemma_step_executes(c, v, Instruction::Push(t));
    let e1 = exec_model(c, v, Instruction::Push(t));
    let c1 = apply_scheduled_enable(c, e1.0);
    let v1 = e1.1;
    assert(c1.registers == e1.0.registers);
    assert(!c1.halted);
    let a1 = wrap16(sp + 1);
    assert(a1 == sp + 1);
    let w1 = write_model(v, sp, (x % 256) as u8);
    assert(read_model(w1, 0xffff) == read_model(v, 0xffff));
    assert(read_model(w1, 0xff0f) == read_model(v, 0xff0f));
    assert(read_model(v1, 0xffff) == read_model(v, 0xffff));
    assert(read_model(v1, 0xff0f) == read_model(v, 0xff0f));
    assert(bus_pending(v1) is None);
    if decode_base(read_model(v1, c1.registers.program_counter)) == Some(Instruction::Pop(t)) {
        lemma_step_executes(c1, v1, Instruction::Pop(t));
        lemma_pop_model(c1, v1, t);
        let r1 = Registers { stack_pointer: wrap16(sp + 2), ..c1.registers };
        assert(wrap16(sp + 2) == r.stack_pointer);
        registers::lemma_register_pairs_round_trip(r1, x);
        registers::lemma_register_pairs_round_trip(r, x);
        if t == PushPopTarget::AF {
            registers::lemma_flags_round_trip(0, r.f);
        }
    }
}

/// A step with no interrupt pending and the CPU running executes the
/// instruction at PC.
proof fn lemma_step_executes(c: Cpu, v: BusView, ins: Instruction)
    requires
        bus_pending(v) is None,
        !c.halted,
        decode_base(read_model(v, c.registers.program_counter)) == Some(ins),
        ins != Instruction::Stop,
    ensures
        step_model(c, v) == Ok::<(Cpu, BusView, u8), CpuFault>(
            (
                apply_scheduled_enable(c, exec_model(c, v, ins).0),
                exec_model(c, v, ins).1,
                exec_model(c, v, ins).2,
            ),
        ),
{
    reveal(step_model);
}

} // verus!
