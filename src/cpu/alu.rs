//! The arithmetic and logic of the instruction set on plain values: each
//! function gives the result and the flags that an instruction produces.

use vstd::prelude::*;
use super::registers::FlagsRegister;
use super::instructions::BitOpTarget;
use crate::bits::{carries_out_of, test_add_carry_bit};

verus! {

pub open spec fn carry_value(c: bool) -> int {
    if c {
        1
    } else {
        0
    }
}

/// ADD and ADC: `a + v + carry`.
pub open spec fn add_spec(a: u8, v: u8, carry: bool) -> (u8, FlagsRegister) {
    let c = carry_value(carry);
    let sum = a + v + c;
    (
        (sum % 256) as u8,
        FlagsRegister {
            zero: sum % 256 == 0,
            subtract: false,
            half_carry: a % 16 + v % 16 + c > 15,
            carry: sum > 255,
        },
    )
}

/// SUB, SBC and CP: `a - v - carry`, with a borrow into bit 4 as the half
/// carry and a borrow out of bit 7 as the carry.
pub open spec fn sub_spec(a: u8, v: u8, carry: bool) -> (u8, FlagsRegister) {
    let c = carry_value(carry);
    let diff = a - v - c;
    let r = if diff < 0 {
        diff + 256
    } else {
        diff
    };
    (
        r as u8,
        FlagsRegister {
            zero: r == 0,
            subtract: true,
            half_carry: a % 16 < v % 16 + c,
            carry: a < v + c,
        },
    )
}

pub open spec fn logic_flags(r: u8, half_carry: bool) -> FlagsRegister {
    FlagsRegister { zero: r == 0, subtract: false, half_carry, carry: false }
}

/// INC r: carry unchanged.
pub open spec fn inc_spec(v: u8, f: FlagsRegister) -> (u8, FlagsRegister) {
    let r = ((v + 1) % 256) as u8;
    (r, FlagsRegister { zero: r == 0, subtract: false, half_carry: v % 16 == 15, carry: f.carry })
}

/// DEC r: carry unchanged.
pub open spec fn dec_spec(v: u8, f: FlagsRegister) -> (u8, FlagsRegister) {
    let r = ((v + 255) % 256) as u8;
    (r, FlagsRegister { zero: r == 0, subtract: true, half_carry: v % 16 == 0, carry: f.carry })
}

/// ADD HL,rr: zero unchanged; half carry out of bit 11, carry out of bit 15.
pub open spec fn add16_spec(hl: u16, v: u16, f: FlagsRegister) -> (u16, FlagsRegister) {
    (
        ((hl + v) % 0x10000) as u16,
        FlagsRegister {
            zero: f.zero,
            subtract: false,
            half_carry: carries_out_of(11, hl as int, v as int),
            carry: hl + v > 0xffff,
        },
    )
}

/// The signed value of an offset byte.
pub open spec fn signed_offset(e: u8) -> int {
    if e < 128 {
        e as int
    } else {
        e - 256
    }
}

/// ADD SP,e8 and LD HL,SP+e8: the flags come from adding the offset byte to
/// the low byte of SP.
pub open spec fn sp_offset_spec(sp: u16, e: u8) -> (u16, FlagsRegister) {
    (
        ((sp + signed_offset(e) + 0x10000) % 0x10000) as u16,
        FlagsRegister {
            zero: false,
            subtract: false,
            half_carry: carries_out_of(3, sp as int, e as int),
            carry: carries_out_of(7, sp as int, e as int),
        },
    )
}

/// DAA: the decimal adjustment of A after an addition or a subtraction.
pub open spec fn daa_spec(a: u8, f: FlagsRegister) -> (u8, FlagsRegister) {
    let (r, carry) = if !f.subtract {
        let high = f.carry || a > 0x99;
        let low = f.half_carry || a % 16 > 9;
        (a + (if high {
            0x60int
        } else {
            0
        }) + (if low {
            6int
        } else {
            0
        }), high)
    } else {
        (a - (if f.carry {
            0x60int
        } else {
            0
        }) - (if f.half_carry {
            6int
        } else {
            0
        }), f.carry)
    };
    let r = ((r + 256) % 256) as u8;
    (r, FlagsRegister { zero: r == 0, subtract: false, half_carry: false, carry })
}

/// Flags of the prefixed rotates and shifts.
pub open spec fn shift_flags(r: u8, carry: bool) -> FlagsRegister {
    FlagsRegister { zero: r == 0, subtract: false, half_carry: false, carry }
}

pub open spec fn rlc_spec(v: u8) -> (u8, bool) {
    (((v * 2) % 256 + v / 128) as u8, v >= 128)
}

pub open spec fn rrc_spec(v: u8) -> (u8, bool) {
    ((v / 2 + (v % 2) * 128) as u8, v % 2 == 1)
}

pub open spec fn rl_spec(v: u8, carry: bool) -> (u8, bool) {
    (((v * 2) % 256 + carry_value(carry)) as u8, v >= 128)
}

pub open spec fn rr_spec(v: u8, carry: bool) -> (u8, bool) {
    ((v / 2 + carry_value(carry) * 128) as u8, v % 2 == 1)
}

pub open spec fn sla_spec(v: u8) -> (u8, bool) {
    (((v * 2) % 256) as u8, v >= 128)
}

pub open spec fn sra_spec(v: u8) -> (u8, bool) {
    ((v / 2 + (v / 128) * 128) as u8, v % 2 == 1)
}

pub open spec fn swap_spec(v: u8) -> (u8, bool) {
    (((v % 16) * 16 + v / 16) as u8, false)
}

pub open spec fn srl_spec(v: u8) -> (u8, bool) {
    ((v / 2) as u8, v % 2 == 1)
}

pub open spec fn bit_weight(b: BitOpTarget) -> u8 {
    match b {
        BitOpTarget::Bit0 => 1,
        BitOpTarget::Bit1 => 2,
        BitOpTarget::Bit2 => 4,
        BitOpTarget::Bit3 => 8,
        BitOpTarget::Bit4 => 16,
        BitOpTarget::Bit5 => 32,
        BitOpTarget::Bit6 => 64,
        BitOpTarget::Bit7 => 128,
    }
}

pub open spec fn bit_is_set(v: u8, b: BitOpTarget) -> bool {
    (v / bit_weight(b)) % 2 == 1
}

pub open spec fn reset_bit_spec(v: u8, b: BitOpTarget) -> u8 {
    if bit_is_set(v, b) {
        (v - bit_weight(b)) as u8
    } else {
        v
    }
}

pub open spec fn set_bit_spec(v: u8, b: BitOpTarget) -> u8 {
    if bit_is_set(v, b) {
        v
    } else {
        (v + bit_weight(b)) as u8
    }
}

/// BIT b: zero when the bit is clear; carry unchanged.
pub open spec fn test_bit_flags(v: u8, b: BitOpTarget, f: FlagsRegister) -> FlagsRegister {
    FlagsRegister { zero: !bit_is_set(v, b), subtract: false, half_carry: true, carry: f.carry }
}

pub fn add8(a: u8, v: u8, carry: bool) -> (r: (u8, FlagsRegister))
    ensures
        r == add_spec(a, v, carry),
{
    let c: u16 = if carry {
        1
    } else {
        0
    };
    let sum: u16 = a as u16 + v as u16 + c;
    let result = (sum % 256) as u8;
    (
        result,
        FlagsRegister {
            zero: result == 0,
            subtract: false,
            half_carry: (a % 16) as u16 + (v % 16) as u16 + c > 15,
            carry: sum > 255,
        },
    )
}

pub fn subtract(a: u8, v: u8, carry: bool) -> (r: (u8, FlagsRegister))
    ensures
        r == sub_spec(a, v, carry),
{
    let c: u16 = if carry {
        1
    } else {
        0
    };
    let borrow = (a as u16) < v as u16 + c;
    let result: u8 = if borrow {
        (a as u16 + 256 - v as u16 - c) as u8
    } else {
        (a as u16 - v as u16 - c) as u8
    };
    (
        result,
        FlagsRegister {
            zero: result == 0,
            subtract: true,
            half_carry: ((a % 16) as u16) < (v % 16) as u16 + c,
            carry: borrow,
        },
    )
}

pub fn and(a: u8, v: u8) -> (r: (u8, FlagsRegister))
    ensures
        r == (a & v, logic_flags(a & v, true)),
{
    let result = a & v;
    (result, FlagsRegister { zero: result == 0, subtract: false, half_carry: true, carry: false })
}

pub fn or(a: u8, v: u8) -> (r: (u8, FlagsRegister))
    ensures
        r == (a | v, logic_flags(a | v, false)),
{
    let result = a | v;
    (result, FlagsRegister { zero: result == 0, subtract: false, half_carry: false, carry: false })
}

pub fn xor(a: u8, v: u8) -> (r: (u8, FlagsRegister))
    ensures
        r == (a ^ v, logic_flags(a ^ v, false)),
{
    let result = a ^ v;
    (result, FlagsRegister { zero: result == 0, subtract: false, half_carry: false, carry: false })
}

pub fn increment(v: u8, f: FlagsRegister) -> (r: (u8, FlagsRegister))
    ensures
        r == inc_spec(v, f),
{
    let result = v.wrapping_add(1);
    (
        result,
        FlagsRegister { zero: result == 0, subtract: false, half_carry: v % 16 == 15, carry: f.carry },
    )
}

pub fn decrement(v: u8, f: FlagsRegister) -> (r: (u8, FlagsRegister))
    ensures
        r == dec_spec(v, f),
{
    let result = v.wrapping_sub(1);
    (
        result,
        FlagsRegister { zero: result == 0, subtract: true, half_carry: v % 16 == 0, carry: f.carry },
    )
}

pub fn add16(hl: u16, v: u16, f: FlagsRegister) -> (r: (u16, FlagsRegister))
    ensures
        r == add16_spec(hl, v, f),
{
    let result = hl.wrapping_add(v);
    (
        result,
        FlagsRegister {
            zero: f.zero,
            subtract: false,
            half_carry: test_add_carry_bit(11, hl, v),
            carry: hl as u32 + v as u32 > 0xffff,
        },
    )
}

pub fn sp_offset(sp: u16, e: u8) -> (r: (u16, FlagsRegister))
    ensures
        r == sp_offset_spec(sp, e),
{
    let result = if e < 128 {
        sp.wrapping_add(e as u16)
    } else {
        sp.wrapping_sub(256 - e as u16)
    };
    (
        result,
        FlagsRegister {
            zero: false,
            subtract: false,
            half_carry: test_add_carry_bit(3, sp, e as u16),
            carry: test_add_carry_bit(7, sp, e as u16),
        },
    )
}

pub fn decimal_adjust(a: u8, f: FlagsRegister) -> (r: (u8, FlagsRegister))
    ensures
        r == daa_spec(a, f),
{
    let mut result = a;
    let mut carry = false;
    if !f.subtract {
        if f.carry || a > 0x99 {
            result = result.wrapping_add(0x60);
            carry = true;
        }
        if f.half_carry || a % 16 > 9 {
            result = result.wrapping_add(0x06);
        }
    } else {
        if f.carry {
            result = result.wrapping_sub(0x60);
            carry = true;
        }
        if f.half_carry {
            result = result.wrapping_sub(0x06);
        }
    }
    (result, FlagsRegister { zero: result == 0, subtract: false, half_carry: false, carry })
}

pub fn rotate_left_circular(v: u8) -> (r: (u8, bool))
    ensures
        r == rlc_spec(v),
{
    ((v % 128) * 2 + v / 128, v >= 128)
}

pub fn rotate_right_circular(v: u8) -> (r: (u8, bool))
    ensures
        r == rrc_spec(v),
{
    (v / 2 + (v % 2) * 128, v % 2 == 1)
}

pub fn rotate_left_through_carry(v: u8, carry: bool) -> (r: (u8, bool))
    ensures
        r == rl_spec(v, carry),
{
    ((v % 128) * 2 + if carry {
        1
    } else {
        0
    }, v >= 128)
}

pub fn rotate_right_through_carry(v: u8, carry: bool) -> (r: (u8, bool))
    ensures
        r == rr_spec(v, carry),
{
    (v / 2 + if carry {
        128
    } else {
        0
    }, v % 2 == 1)
}

pub fn shift_left_arithmetic(v: u8) -> (r: (u8, bool))
    ensures
        r == sla_spec(v),
{
    ((v % 128) * 2, v >= 128)
}

pub fn shift_right_arithmetic(v: u8) -> (r: (u8, bool))
    ensures
        r == sra_spec(v),
{
    (v / 2 + (v / 128) * 128, v % 2 == 1)
}

pub fn swap(v: u8) -> (r: (u8, bool))
    ensures
        r == swap_spec(v),
{
    ((v % 16) * 16 + v / 16, false)
}

pub fn shift_right_logic(v: u8) -> (r: (u8, bool))
    ensures
        r == srl_spec(v),
{
    (v / 2, v % 2 == 1)
}

pub fn weight(b: BitOpTarget) -> (r: u8)
    ensures
        r == bit_weight(b),
{
    match b {
        BitOpTarget::Bit0 => 1,
        BitOpTarget::Bit1 => 2,
        BitOpTarget::Bit2 => 4,
        BitOpTarget::Bit3 => 8,
        BitOpTarget::Bit4 => 16,
        BitOpTarget::Bit5 => 32,
        BitOpTarget::Bit6 => 64,
        BitOpTarget::Bit7 => 128,
    }
}

proof fn lemma_bit_room(v: u8, w: u8)
    requires
        w == 1 || w == 2 || w == 4 || w == 8 || w == 16 || w == 32 || w == 64 || w == 128,
    ensures
        (v / w) % 2 == 1 ==> v >= w,
        (v / w) % 2 != 1 ==> v + w <= 255,
{
    if w == 1 {
    } else if w == 2 {
    } else if w == 4 {
    } else if w == 8 {
    } else if w == 16 {
    } else if w == 32 {
    } else if w == 64 {
    } else {
    }
}

pub fn test_bit(v: u8, b: BitOpTarget) -> (r: bool)
    ensures
        r == bit_is_set(v, b),
{
    (v / weight(b)) % 2 == 1
}

pub fn reset_bit(v: u8, b: BitOpTarget) -> (r: u8)
    ensures
        r == reset_bit_spec(v, b),
{
    let w = weight(b);
    if (v / w) % 2 == 1 {
        proof {
            lemma_bit_room(v, w);
        }
        v - w
    } else {
        v
    }
}

pub fn set_bit(v: u8, b: BitOpTarget) -> (r: u8)
    ensures
        r == set_bit_spec(v, b),
{
    let w = weight(b);
    if (v / w) % 2 == 1 {
        v
    } else {
        proof {
            lemma_bit_room(v, w);
        }
        v + w
    }
}

} // verus!
