//! The CPU register file: seven 8-bit registers, the flag register, and the
//! 16-bit stack pointer and program counter.

use vstd::prelude::*;

verus! {

/// The flag register F: Z (bit 7), N (bit 6), H (bit 5) and C (bit 4). Its low
/// four bits always read as zero.
#[derive(Clone, Copy, Debug, PartialEq, Eq, Structural)]
pub struct FlagsRegister {
    pub zero: bool,
    pub subtract: bool,
    pub half_carry: bool,
    pub carry: bool,
}

pub open spec fn bit_value(b: bool, weight: u8) -> u8 {
    if b {
        weight
    } else {
        0
    }
}

/// The byte that a flag register reads as.
pub open spec fn flags_byte(f: FlagsRegister) -> u8 {
    (bit_value(f.zero, 0x80) + bit_value(f.subtract, 0x40) + bit_value(f.half_carry, 0x20)
        + bit_value(f.carry, 0x10)) as u8
}

/// The flag register that a byte written to F gives; its low nibble is dropped.
pub open spec fn flags_of(b: u8) -> FlagsRegister {
    FlagsRegister {
        zero: (b / 0x80) % 2 == 1,
        subtract: (b / 0x40) % 2 == 1,
        half_carry: (b / 0x20) % 2 == 1,
        carry: (b / 0x10) % 2 == 1,
    }
}

/// The big-endian composition of a register pair.
pub open spec fn pair(hi: u8, lo: u8) -> u16 {
    (hi * 256 + lo) as u16
}

pub open spec fn high_byte(v: u16) -> u8 {
    (v / 256) as u8
}

pub open spec fn low_byte(v: u16) -> u8 {
    (v % 256) as u8
}

impl FlagsRegister {
    pub fn from_byte(value: u8) -> (r: FlagsRegister)
        ensures
            r == flags_of(value),
    {
        FlagsRegister {
            zero: (value / 0x80) % 2 == 1,
            subtract: (value / 0x40) % 2 == 1,
            half_carry: (value / 0x20) % 2 == 1,
            carry: (value / 0x10) % 2 == 1,
        }
    }

    pub fn to_byte(&self) -> (r: u8)
        ensures
            r == flags_byte(*self),
    {
        let mut r: u8 = 0;
        if self.zero {
            r = r + 0x80;
        }
        if self.subtract {
            r = r + 0x40;
        }
        if self.half_carry {
            r = r + 0x20;
        }
        if self.carry {
            r = r + 0x10;
        }
        r
    }
}

/// Reading the flags back from a byte keeps bits 7..4 and zeros bits 3..0;
/// reading a flag register's byte back gives the same flags.
pub proof fn lemma_flags_round_trip(b: u8, f: FlagsRegister)
    ensures
        flags_byte(flags_of(b)) == b - b % 16,
        flags_of(flags_byte(f)) == f,
        flags_byte(f) % 16 == 0,
{
    assert(flags_byte(flags_of(b)) == b - b % 16) by (bit_vector);
}

#[derive(Clone, Copy, Debug, PartialEq, Eq, Structural)]
pub struct Registers {
    pub a: u8,
    pub b: u8,
    pub c: u8,
    pub d: u8,
    pub e: u8,
    pub f: FlagsRegister,
    pub h: u8,
    pub l: u8,
    pub program_counter: u16,
    pub stack_pointer: u16,
}

impl Registers {
    pub open spec fn af(self) -> u16 {
        pair(self.a, flags_byte(self.f))
    }

    pub open spec fn bc(self) -> u16 {
        pair(self.b, self.c)
    }

    pub open spec fn de(self) -> u16 {
        pair(self.d, self.e)
    }

    pub open spec fn hl(self) -> u16 {
        pair(self.h, self.l)
    }

    pub open spec fn with_af(self, v: u16) -> Registers {
        Registers { a: high_byte(v), f: flags_of(low_byte(v)), ..self }
    }

    pub open spec fn with_bc(self, v: u16) -> Registers {
        Registers { b: high_byte(v), c: low_byte(v), ..self }
    }

    pub open spec fn with_de(self, v: u16) -> Registers {
        Registers { d: high_byte(v), e: low_byte(v), ..self }
    }

    pub open spec fn with_hl(self, v: u16) -> Registers {
        Registers { h: high_byte(v), l: low_byte(v), ..self }
    }

    /// The register file right after the boot ROM has run.
    pub fn new() -> (r: Registers)
        ensures
            r.a == 0x01 && flags_byte(r.f) == 0xb0,
            r.bc() == 0x0013 && r.de() == 0x00d8 && r.hl() == 0x014d,
            r.stack_pointer == 0xfffe && r.program_counter == 0x0100,
            r == (Registers {
                a: 0x01,
                b: 0x00,
                c: 0x13,
                d: 0x00,
                e: 0xd8,
                f: flags_of(0xb0),
                h: 0x01,
                l: 0x4d,
                program_counter: 0x100,
                stack_pointer: 0xfffe,
            }),
    {
        Registers {
            a: 0x01,
            b: 0x00,
            c: 0x13,
            d: 0x00,
            e: 0xd8,
            f: FlagsRegister::from_byte(0xb0),
            h: 0x01,
            l: 0x4d,
            program_counter: 0x100,
            stack_pointer: 0xfffe,
        }
    }

    pub fn get_af(&self) -> (r: u16)
        ensures
            r == self.af(),
    {
        (self.a as u16) * 256 + (self.f.to_byte() as u16)
    }

    pub fn get_bc(&self) -> (r: u16)
        ensures
            r == self.bc(),
    {
        (self.b as u16) * 256 + (self.c as u16)
    }

    pub fn get_de(&self) -> (r: u16)
        ensures
            r == self.de(),
    {
        (self.d as u16) * 256 + (self.e as u16)
    }

    pub fn get_hl(&self) -> (r: u16)
        ensures
            r == self.hl(),
    {
        (self.h as u16) * 256 + (self.l as u16)
    }

    pub fn set_af(&mut self, value: u16)
        ensures
            *final(self) == old(self).with_af(value),
    {
        self.a = (value / 256) as u8;
        self.f = FlagsRegister::from_byte((value % 256) as u8);
    }

    pub fn set_bc(&mut self, value: u16)
        ensures
            *final(self) == old(self).with_bc(value),
    {
        self.b = (value / 256) as u8;
        self.c = (value % 256) as u8;
    }

    pub fn set_de(&mut self, value: u16)
        ensures
            *final(self) == old(self).with_de(value),
    {
        self.d = (value / 256) as u8;
        self.e = (value % 256) as u8;
    }

    pub fn set_hl(&mut self, value: u16)
        ensures
            *final(self) == old(self).with_hl(value),
    {
        self.h = (value / 256) as u8;
        self.l = (value % 256) as u8;
    }
}

/// Writing AF with the value it reads leaves the register file unchanged, and
/// reading AF after writing `v` gives `v` with the low nibble of F zeroed; the
/// other pairs read back exactly what was written.
pub proof fn lemma_register_pairs_round_trip(r: Registers, v: u16)
    ensures
        r.with_af(r.af()) == r,
        r.with_af(v).af() == v - v % 16,
        r.with_bc(v).bc() == v,
        r.with_de(v).de() == v,
        r.with_hl(v).hl() == v,
        r.with_bc(r.bc()) == r,
        r.with_de(r.de()) == r,
        r.with_hl(r.hl()) == r,
{
    lemma_flags_round_trip(low_byte(v), r.f);
    assert(r.with_af(r.af()).f == r.f);
}

} // verus!
