//! The instruction set and its decoding from opcode bytes.
//!
//! Opcodes decode by their fields: `x = b / 64`, `y = (b / 8) % 8` and
//! `z = b % 8`. Register operands use the order B, C, D, E, H, L, (HL), A.

use vstd::prelude::*;

verus! {

#[derive(Clone, Copy, Debug, PartialEq, Eq, Structural)]
pub enum Instruction {
    Load(LoadTarget, LoadTarget),
    LoadImmediate(ByteArithmeticTarget),
    LoadImmediate16(LoadTarget16),
    LoadSPHL,
    LoadHLSP,
    LoadH,
    WriteH,
    LoadHC,
    WriteHC,
    ReadFromRam(MemoryAddressRegistry),
    WriteToRamFromStackPointer,
    WriteToRam(MemoryAddressRegistry),
    Add(ArithmeticTarget),
    AddCarry(ArithmeticTarget),
    Subtract(ArithmeticTarget),
    SubtractCarry(ArithmeticTarget),
    And(ArithmeticTarget),
    Xor(ArithmeticTarget),
    Or(ArithmeticTarget),
    Cp(ArithmeticTarget),
    Add16(ArithmeticTarget16),
    AddSP,
    Increment(ByteArithmeticTarget),
    Decrement(ByteArithmeticTarget),
    Increment16(ArithmeticTarget16),
    Decrement16(ArithmeticTarget16),
    RotateLeftA,
    RotateLeftCarryA,
    RotateRightA,
    RotateRightCarryA,
    DecimalAdjust,
    SetCarryFlag,
    Complement,
    ComplementCarryFlag,
    Jump(JumpCondition),
    JumpHL,
    RelativeJump(JumpCondition),
    Push(PushPopTarget),
    Pop(PushPopTarget),
    Noop,
    Stop,
    DisableInterrupts,
    EnableInterrupts,
    Call,
    CallCondition(JumpCondition),
    Restart(u8),
    Return,
    ReturnCondition(JumpCondition),
    ReturnAndEnableInterrupts,
    Halt,
    ExtendedOpcode,
    // Prefixed by 0xcb.
    RotateLeft(ByteArithmeticTarget),
    RotateRight(ByteArithmeticTarget),
    RotateLeftCarry(ByteArithmeticTarget),
    RotateRightCarry(ByteArithmeticTarget),
    ShiftLeftArithmetic(ByteArithmeticTarget),
    ShiftRightArithmetic(ByteArithmeticTarget),
    Swap(ByteArithmeticTarget),
    ShiftRightLogic(ByteArithmeticTarget),
    TestBit(BitOpTarget, ByteArithmeticTarget),
    ResetBit(BitOpTarget, ByteArithmeticTarget),
    SetBit(BitOpTarget, ByteArithmeticTarget),
}

#[derive(Clone, Copy, Debug, PartialEq, Eq, Structural)]
pub enum ArithmeticTarget {
    A,
    B,
    C,
    D,
    E,
    H,
    L,
    HL,
    Immediate,
}

#[derive(Clone, Copy, Debug, PartialEq, Eq, Structural)]
pub enum ByteArithmeticTarget {
    A,
    B,
    C,
    D,
    E,
    H,
    L,
    HL,
}

#[derive(Clone, Copy, Debug, PartialEq, Eq, Structural)]
pub enum ArithmeticTarget16 {
    BC,
    DE,
    HL,
    SP,
}

#[derive(Clone, Copy, Debug, PartialEq, Eq, Structural)]
pub enum JumpCondition {
    NotZero,
    Zero,
    NotCarry,
    Carry,
    Always,
}

#[derive(Clone, Copy, Debug, PartialEq, Eq, Structural)]
pub enum LoadTarget {
    A,
    B,
    C,
    D,
    E,
    H,
    L,
    HL,
    ImmediateAddress,
}

#[derive(Clone, Copy, Debug, PartialEq, Eq, Structural)]
pub enum MemoryAddressRegistry {
    BC,
    DE,
    HLPlus,
    HLMinus,
}

#[derive(Clone, Copy, Debug, PartialEq, Eq, Structural)]
pub enum LoadTarget16 {
    BC,
    DE,
    HL,
    SP,
}

#[derive(Clone, Copy, Debug, PartialEq, Eq, Structural)]
pub enum PushPopTarget {
    BC,
    DE,
    HL,
    AF,
}

#[derive(Clone, Copy, Debug, PartialEq, Eq, Structural)]
pub enum BitOpTarget {
    Bit0,
    Bit1,
    Bit2,
    Bit3,
    Bit4,
    Bit5,
    Bit6,
    Bit7,
}

pub open spec fn byte_target(z: u8) -> ByteArithmeticTarget {
    if z == 0 {
        ByteArithmeticTarget::B
    } else if z == 1 {
        ByteArithmeticTarget::C
    } else if z == 2 {
        ByteArithmeticTarget::D
    } else if z == 3 {
        ByteArithmeticTarget::E
    } else if z == 4 {
        ByteArithmeticTarget::H
    } else if z == 5 {
        ByteArithmeticTarget::L
    } else if z == 6 {
        ByteArithmeticTarget::HL
    } else {
        ByteArithmeticTarget::A
    }
}

pub open spec fn load_target(z: u8) -> LoadTarget {
    match byte_target(z) {
        ByteArithmeticTarget::A => LoadTarget::A,
        ByteArithmeticTarget::B => LoadTarget::B,
        ByteArithmeticTarget::C => LoadTarget::C,
        ByteArithmeticTarget::D => LoadTarget::D,
        ByteArithmeticTarget::E => LoadTarget::E,
        ByteArithmeticTarget::H => LoadTarget::H,
        ByteArithmeticTarget::L => LoadTarget::L,
        ByteArithmeticTarget::HL => LoadTarget::HL,
    }
}

pub open spec fn arithmetic_target(z: u8) -> ArithmeticTarget {
    match byte_target(z) {
        ByteArithmeticTarget::A => ArithmeticTarget::A,
        ByteArithmeticTarget::B => ArithmeticTarget::B,
        ByteArithmeticTarget::C => ArithmeticTarget::C,
        ByteArithmeticTarget::D => ArithmeticTarget::D,
        ByteArithmeticTarget::E => ArithmeticTarget::E,
        ByteArithmeticTarget::H => ArithmeticTarget::H,
        ByteArithmeticTarget::L => ArithmeticTarget::L,
        ByteArithmeticTarget::HL => ArithmeticTarget::HL,
    }
}

pub open spec fn bit_target(y: u8) -> BitOpTarget {
    if y == 0 {
        BitOpTarget::Bit0
    } else if y == 1 {
        BitOpTarget::Bit1
    } else if y == 2 {
        BitOpTarget::Bit2
    } else if y == 3 {
        BitOpTarget::Bit3
    } else if y == 4 {
        BitOpTarget::Bit4
    } else if y == 5 {
        BitOpTarget::Bit5
    } else if y == 6 {
        BitOpTarget::Bit6
    } else {
        BitOpTarget::Bit7
    }
}

/// The 16-bit operand of the `y / 2` field: BC, DE, HL, SP.
pub open spec fn pair_target(p: u8) -> ArithmeticTarget16 {
    if p == 0 {
        ArithmeticTarget16::BC
    } else if p == 1 {
        ArithmeticTarget16::DE
    } else if p == 2 {
        ArithmeticTarget16::HL
    } else {
        ArithmeticTarget16::SP
    }
}

pub open spec fn load_pair_target(p: u8) -> LoadTarget16 {
    match pair_target(p) {
        ArithmeticTarget16::BC => LoadTarget16::BC,
        ArithmeticTarget16::DE => LoadTarget16::DE,
        ArithmeticTarget16::HL => LoadTarget16::HL,
        ArithmeticTarget16::SP => LoadTarget16::SP,
    }
}

/// The stack operand of the `y / 2` field: BC, DE, HL, AF.
pub open spec fn stack_target(p: u8) -> PushPopTarget {
    if p == 0 {
        PushPopTarget::BC
    } else if p == 1 {
        PushPopTarget::DE
    } else if p == 2 {
        PushPopTarget::HL
    } else {
        PushPopTarget::AF
    }
}

/// The condition of the `y` field (only its low two bits count).
pub open spec fn condition(y: u8) -> JumpCondition {
    if y % 4 == 0 {
        JumpCondition::NotZero
    } else if y % 4 == 1 {
        JumpCondition::Zero
    } else if y % 4 == 2 {
        JumpCondition::NotCarry
    } else {
        JumpCondition::Carry
    }
}

/// The eight accumulator operations, in the order of the `y` field.
pub open spec fn alu_instruction(y: u8, t: ArithmeticTarget) -> Instruction {
    if y == 0 {
        Instruction::Add(t)
    } else if y == 1 {
        Instruction::AddCarry(t)
    } else if y == 2 {
        Instruction::Subtract(t)
    } else if y == 3 {
        Instruction::SubtractCarry(t)
    } else if y == 4 {
        Instruction::And(t)
    } else if y == 5 {
        Instruction::Xor(t)
    } else if y == 6 {
        Instruction::Or(t)
    } else {
        Instruction::Cp(t)
    }
}

/// Opcodes `00..40`.
pub open spec fn decode_block0(y: u8, z: u8) -> Instruction {
    if z == 0 {
        if y == 0 {
            Instruction::Noop
        } else if y == 1 {
            Instruction::WriteToRamFromStackPointer
        } else if y == 2 {
            Instruction::Stop
        } else if y == 3 {
            Instruction::RelativeJump(JumpCondition::Always)
        } else {
            Instruction::RelativeJump(condition(y))
        }
    } else if z == 1 {
        if y % 2 == 0 {
            Instruction::LoadImmediate16(load_pair_target(y / 2))
        } else {
            Instruction::Add16(pair_target(y / 2))
        }
    } else if z == 2 {
        let m = if y / 2 == 0 {
            MemoryAddressRegistry::BC
        } else if y / 2 == 1 {
            MemoryAddressRegistry::DE
        } else if y / 2 == 2 {
            MemoryAddressRegistry::HLPlus
        } else {
            MemoryAddressRegistry::HLMinus
        };
        if y % 2 == 0 {
            Instruction::WriteToRam(m)
        } else {
            Instruction::ReadFromRam(m)
        }
    } else if z == 3 {
        if y % 2 == 0 {
            Instruction::Increment16(pair_target(y / 2))
        } else {
            Instruction::Decrement16(pair_target(y / 2))
        }
    } else if z == 4 {
        Instruction::Increment(byte_target(y))
    } else if z == 5 {
        Instruction::Decrement(byte_target(y))
    } else if z == 6 {
        Instruction::LoadImmediate(byte_target(y))
    } else {
        if y == 0 {
            Instruction::RotateLeftA
        } else if y == 1 {
            Instruction::RotateRightA
        } else if y == 2 {
            Instruction::RotateLeftCarryA
        } else if y == 3 {
            Instruction::RotateRightCarryA
        } else if y == 4 {
            Instruction::DecimalAdjust
        } else if y == 5 {
            Instruction::Complement
        } else if y == 6 {
            Instruction::SetCarryFlag
        } else {
            Instruction::ComplementCarryFlag
        }
    }
}

/// Opcodes `c0..100`; `None` for the eleven unused ones.
pub open spec fn decode_block3(y: u8, z: u8) -> Option<Instruction> {
    if z == 0 {
        if y < 4 {
            Some(Instruction::ReturnCondition(condition(y)))
        } else if y == 4 {
            Some(Instruction::WriteH)
        } else if y == 5 {
            Some(Instruction::AddSP)
        } else if y == 6 {
            Some(Instruction::LoadH)
        } else {
            Some(Instruction::LoadHLSP)
        }
    } else if z == 1 {
        if y % 2 == 0 {
            Some(Instruction::Pop(stack_target(y / 2)))
        } else if y == 1 {
            Some(Instruction::Return)
        } else if y == 3 {
            Some(Instruction::ReturnAndEnableInterrupts)
        } else if y == 5 {
            Some(Instruction::JumpHL)
        } else {
            Some(Instruction::LoadSPHL)
        }
    } else if z == 2 {
        if y < 4 {
            Some(Instruction::Jump(condition(y)))
        } else if y == 4 {
            Some(Instruction::WriteHC)
        } else if y == 5 {
            Some(Instruction::Load(LoadTarget::ImmediateAddress, LoadTarget::A))
        } else if y == 6 {
            Some(Instruction::LoadHC)
        } else {
            Some(Instruction::Load(LoadTarget::A, LoadTarget::ImmediateAddress))
        }
    } else if z == 3 {
        if y == 0 {
            Some(Instruction::Jump(JumpCondition::Always))
        } else if y == 1 {
            Some(Instruction::ExtendedOpcode)
        } else if y == 6 {
            Some(Instruction::DisableInterrupts)
        } else if y == 7 {
            Some(Instruction::EnableInterrupts)
        } else {
            None
        }
    } else if z == 4 {
        if y < 4 {
            Some(Instruction::CallCondition(condition(y)))
        } else {
            None
        }
    } else if z == 5 {
        if y % 2 == 0 {
            Some(Instruction::Push(stack_target(y / 2)))
        } else if y == 1 {
            Some(Instruction::Call)
        } else {
            None
        }
    } else if z == 6 {
        Some(alu_instruction(y, ArithmeticTarget::Immediate))
    } else {
        Some(Instruction::Restart((y * 8) as u8))
    }
}

/// The instruction of an unprefixed opcode.
pub open spec fn decode_base(b: u8) -> Option<Instruction> {
    let x = b / 64;
    let y = (b / 8) % 8;
    let z = b % 8;
    if x == 0 {
        Some(decode_block0(y, z))
    } else if x == 1 {
        if b == 0x76 {
            Some(Instruction::Halt)
        } else {
            Some(Instruction::Load(load_target(y), load_target(z)))
        }
    } else if x == 2 {
        Some(alu_instruction(y, arithmetic_target(z)))
    } else {
        decode_block3(y, z)
    }
}

/// The instruction of the byte that follows a `cb` prefix.
pub open spec fn decode_extended(b: u8) -> Instruction {
    let x = b / 64;
    let y = (b / 8) % 8;
    let t = byte_target(b % 8);
    if x == 0 {
        if y == 0 {
            Instruction::RotateLeft(t)
        } else if y == 1 {
            Instruction::RotateRight(t)
        } else if y == 2 {
            Instruction::RotateLeftCarry(t)
        } else if y == 3 {
            Instruction::RotateRightCarry(t)
        } else if y == 4 {
            Instruction::ShiftLeftArithmetic(t)
        } else if y == 5 {
            Instruction::ShiftRightArithmetic(t)
        } else if y == 6 {
            Instruction::Swap(t)
        } else {
            Instruction::ShiftRightLogic(t)
        }
    } else if x == 1 {
        Instruction::TestBit(bit_target(y), t)
    } else if x == 2 {
        Instruction::ResetBit(bit_target(y), t)
    } else {
        Instruction::SetBit(bit_target(y), t)
    }
}

/// The opcodes that no instruction uses.
pub open spec fn is_illegal_opcode(b: u8) -> bool {
    b == 0xd3 || b == 0xdb || b == 0xdd || b == 0xe3 || b == 0xe4 || b == 0xeb || b == 0xec || b
        == 0xed || b == 0xf4 || b == 0xfc || b == 0xfd
}

/// Decoding fails on exactly the eleven unused opcodes.
pub proof fn lemma_illegal_opcodes(b: u8)
    ensures
        decode_base(b) is None <==> is_illegal_opcode(b),
{
}

fn byte_target_of(z: u8) -> (r: ByteArithmeticTarget)
    ensures
        r == byte_target(z),
{
    if z == 0 {
        ByteArithmeticTarget::B
    } else if z == 1 {
        ByteArithmeticTarget::C
    } else if z == 2 {
        ByteArithmeticTarget::D
    } else if z == 3 {
        ByteArithmeticTarget::E
    } else if z == 4 {
        ByteArithmeticTarget::H
    } else if z == 5 {
        ByteArithmeticTarget::L
    } else if z == 6 {
        ByteArithmeticTarget::HL
    } else {
        ByteArithmeticTarget::A
    }
}

fn load_target_of(z: u8) -> (r: LoadTarget)
    ensures
        r == load_target(z),
{
    match byte_target_of(z) {
        ByteArithmeticTarget::A => LoadTarget::A,
        ByteArithmeticTarget::B => LoadTarget::B,
        ByteArithmeticTarget::C => LoadTarget::C,
        ByteArithmeticTarget::D => LoadTarget::D,
        ByteArithmeticTarget::E => LoadTarget::E,
        ByteArithmeticTarget::H => LoadTarget::H,
        ByteArithmeticTarget::L => LoadTarget::L,
        ByteArithmeticTarget::HL => LoadTarget::HL,
    }
}

fn arithmetic_target_of(z: u8) -> (r: ArithmeticTarget)
    ensures
        r == arithmetic_target(z),
{
    match byte_target_of(z) {
        ByteArithmeticTarget::A => ArithmeticTarget::A,
        ByteArithmeticTarget::B => ArithmeticTarget::B,
        ByteArithmeticTarget::C => ArithmeticTarget::C,
        ByteArithmeticTarget::D => ArithmeticTarget::D,
        ByteArithmeticTarget::E => ArithmeticTarget::E,
        ByteArithmeticTarget::H => ArithmeticTarget::H,
        ByteArithmeticTarget::L => ArithmeticTarget::L,
        ByteArithmeticTarget::HL => ArithmeticTarget::HL,
    }
}

fn bit_target_of(y: u8) -> (r: BitOpTarget)
    ensures
        r == bit_target(y),
{
    if y == 0 {
        BitOpTarget::Bit0
    } else if y == 1 {
        BitOpTarget::Bit1
    } else if y == 2 {
        BitOpTarget::Bit2
    } else if y == 3 {
        BitOpTarget::Bit3
    } else if y == 4 {
        BitOpTarget::Bit4
    } else if y == 5 {
        BitOpTarget::Bit5
    } else if y == 6 {
        BitOpTarget::Bit6
    } else {
        BitOpTarget::Bit7
    }
}

fn pair_target_of(p: u8) -> (r: ArithmeticTarget16)
    ensures
        r == pair_target(p),
{
    if p == 0 {
        ArithmeticTarget16::BC
    } else if p == 1 {
        ArithmeticTarget16::DE
    } else if p == 2 {
        ArithmeticTarget16::HL
    } else {
        ArithmeticTarget16::SP
    }
}

fn stack_target_of(p: u8) -> (r: PushPopTarget)
    ensures
        r == stack_target(p),
{
    if p == 0 {
        PushPopTarget::BC
    } else if p == 1 {
        PushPopTarget::DE
    } else if p == 2 {
        PushPopTarget::HL
    } else {
        PushPopTarget::AF
    }
}

fn condition_of(y: u8) -> (r: JumpCondition)
    ensures
        r == condition(y),
{
    if y % 4 == 0 {
        JumpCondition::NotZero
    } else if y % 4 == 1 {
        JumpCondition::Zero
    } else if y % 4 == 2 {
        JumpCondition::NotCarry
    } else {
        JumpCondition::Carry
    }
}

fn alu_instruction_of(y: u8, t: ArithmeticTarget) -> (r: Instruction)
    ensures
        r == alu_instruction(y, t),
{
    if y == 0 {
        Instruction::Add(t)
    } else if y == 1 {
        Instruction::AddCarry(t)
    } else if y == 2 {
        Instruction::Subtract(t)
    } else if y == 3 {
        Instruction::SubtractCarry(t)
    } else if y == 4 {
        Instruction::And(t)
    } else if y == 5 {
        Instruction::Xor(t)
    } else if y == 6 {
        Instruction::Or(t)
    } else {
        Instruction::Cp(t)
    }
}

impl Instruction {
    /// Decodes `byte`, as a prefixed opcode when `is_extended_instruction`.
    pub fn from_byte(byte: u8, is_extended_instruction: bool) -> (r: Option<Instruction>)
        ensures
            r == if is_extended_instruction {
                Some(decode_extended(byte))
            } else {
                decode_base(byte)
            },
    {
        if !is_extended_instruction {
            Instruction::from_byte_base(byte)
        } else {
            Some(Instruction::from_byte_extended(byte))
        }
    }

    pub fn from_byte_base(byte: u8) -> (r: Option<Instruction>)
        ensures
            r == decode_base(byte),
    {
        let x = byte / 64;
        let y = (byte / 8) % 8;
        let z = byte % 8;
        if x == 0 {
            Some(Instruction::decode_block0(y, z))
        } else if x == 1 {
            if byte == 0x76 {
                Some(Instruction::Halt)
            } else {
                Some(Instruction::Load(load_target_of(y), load_target_of(z)))
            }
        } else if x == 2 {
            Some(alu_instruction_of(y, arithmetic_target_of(z)))
        } else {
            Instruction::decode_block3(y, z)
        }
    }

    fn decode_block0(y: u8, z: u8) -> (r: Instruction)
        requires
            y < 8,
            z < 8,
        ensures
            r == decode_block0(y, z),
    {
        if z == 0 {
            if y == 0 {
                Instruction::Noop
            } else if y == 1 {
                Instruction::WriteToRamFromStackPointer
            } else if y == 2 {
                Instruction::Stop
            } else if y == 3 {
                Instruction::RelativeJump(JumpCondition::Always)
            } else {
                Instruction::RelativeJump(condition_of(y))
            }
        } else if z == 1 {
            if y % 2 == 0 {
                let t = match pair_target_of(y / 2) {
                    ArithmeticTarget16::BC => LoadTarget16::BC,
                    ArithmeticTarget16::DE => LoadTarget16::DE,
                    ArithmeticTarget16::HL => LoadTarget16::HL,
                    ArithmeticTarget16::SP => LoadTarget16::SP,
                };
                Instruction::LoadImmediate16(t)
            } else {
                Instruction::Add16(pair_target_of(y / 2))
            }
        } else if z == 2 {
            let m = if y / 2 == 0 {
                MemoryAddressRegistry::BC
            } else if y / 2 == 1 {
                MemoryAddressRegistry::DE
            } else if y / 2 == 2 {
                MemoryAddressRegistry::HLPlus
            } else {
                MemoryAddressRegistry::HLMinus
            };
            if y % 2 == 0 {
                Instruction::WriteToRam(m)
            } else {
                Instruction::ReadFromRam(m)
            }
        } else if z == 3 {
            if y % 2 == 0 {
                Instruction::Increment16(pair_target_of(y / 2))
            } else {
                Instruction::Decrement16(pair_target_of(y / 2))
            }
        } else if z == 4 {
            Instruction::Increment(byte_target_of(y))
        } else if z == 5 {
            Instruction::Decrement(byte_target_of(y))
        } else if z == 6 {
            Instruction::LoadImmediate(byte_target_of(y))
        } else {
            if y == 0 {
                Instruction::RotateLeftA
            } else if y == 1 {
                Instruction::RotateRightA
            } else if y == 2 {
                Instruction::RotateLeftCarryA
            } else if y == 3 {
                Instruction::RotateRightCarryA
            } else if y == 4 {
                Instruction::DecimalAdjust
            } else if y == 5 {
                Instruction::Complement
            } else if y == 6 {
                Instruction::SetCarryFlag
            } else {
                Instruction::ComplementCarryFlag
            }
        }
    }

    fn decode_block3(y: u8, z: u8) -> (r: Option<Instruction>)
        requires
            y < 8,
            z < 8,
        ensures
            r == decode_block3(y, z),
    {
        if z == 0 {
            if y < 4 {
                Some(Instruction::ReturnCondition(condition_of(y)))
            } else if y == 4 {
                Some(Instruction::WriteH)
            } else if y == 5 {
                Some(Instruction::AddSP)
            } else if y == 6 {
                Some(Instruction::LoadH)
            } else {
                Some(Instruction::LoadHLSP)
            }
        } else if z == 1 {
            if y % 2 == 0 {
                Some(Instruction::Pop(stack_target_of(y / 2)))
            } else if y == 1 {
                Some(Instruction::Return)
            } else if y == 3 {
                Some(Instruction::ReturnAndEnableInterrupts)
            } else if y == 5 {
                Some(Instruction::JumpHL)
            } else {
                Some(Instruction::LoadSPHL)
            }
        } else if z == 2 {
            if y < 4 {
                Some(Instruction::Jump(condition_of(y)))
            } else if y == 4 {
                Some(Instruction::WriteHC)
            } else if y == 5 {
                Some(Instruction::Load(LoadTarget::ImmediateAddress, LoadTarget::A))
            } else if y == 6 {
                Some(Instruction::LoadHC)
            } else {
                Some(Instruction::Load(LoadTarget::A, LoadTarget::ImmediateAddress))
            }
        } else if z == 3 {
            if y == 0 {
                Some(Instruction::Jump(JumpCondition::Always))
            } else if y == 1 {
                Some(Instruction::ExtendedOpcode)
            } else if y == 6 {
                Some(Instruction::DisableInterrupts)
            } else if y == 7 {
                Some(Instruction::EnableInterrupts)
            } else {
                None
            }
        } else if z == 4 {
            if y < 4 {
                Some(Instruction::CallCondition(condition_of(y)))
            } else {
                None
            }
        } else if z == 5 {
            if y % 2 == 0 {
                Some(Instruction::Push(stack_target_of(y / 2)))
            } else if y == 1 {
                Some(Instruction::Call)
            } else {
                None
            }
        } else if z == 6 {
            Some(alu_instruction_of(y, ArithmeticTarget::Immediate))
        } else {
            Some(Instruction::Restart(y * 8))
        }
    }

    pub fn from_byte_extended(byte: u8) -> (r: Instruction)
        ensures
            r == decode_extended(byte),
    {
        let x = byte / 64;
        let y = (byte / 8) % 8;
        let t = byte_target_of(byte % 8);
        if x == 0 {
            if y == 0 {
                Instruction::RotateLeft(t)
            } else if y == 1 {
                Instruction::RotateRight(t)
            } else if y == 2 {
                Instruction::RotateLeftCarry(t)
            } else if y == 3 {
                Instruction::RotateRightCarry(t)
            } else if y == 4 {
                Instruction::ShiftLeftArithmetic(t)
            } else if y == 5 {
                Instruction::ShiftRightArithmetic(t)
            } else if y == 6 {
                Instruction::Swap(t)
            } else {
                Instruction::ShiftRightLogic(t)
            }
        } else if x == 1 {
            Instruction::TestBit(bit_target_of(y), t)
        } else if x == 2 {
            Instruction::ResetBit(bit_target_of(y), t)
        } else {
            Instruction::SetBit(bit_target_of(y), t)
        }
    }
}

} // verus!
