//! The instruction set: a closed tagged enumeration of the supported
//! operations and the decode table that maps an opcode byte to one of them.
//!
//! The table is intentionally partial: every byte decodes to either an
//! instruction or `None`, and an unmapped byte is a normal, expected outcome
//! that the execution engine surfaces as a typed fault. Immediate payloads in
//! the table are placeholders; the engine reads the actual operand bytes from
//! memory behind the opcode when it materialises an instruction.

use vstd::prelude::*;

verus! {

/// The register an arithmetic instruction operates on.
#[derive(Debug, Clone, Copy, PartialEq, Eq, Structural)]
pub enum ArithmeticTarget {
    A,
    B,
    C,
    D,
    E,
    H,
    L,
}

/// The register an 8-bit load writes.
#[derive(Debug, Clone, Copy, PartialEq, Eq, Structural)]
pub enum LoadTarget {
    A,
    B,
    C,
    D,
    E,
    H,
    L,
}

/// Where an 8-bit load reads its value from.
#[derive(Debug, Clone, Copy, PartialEq, Eq, Structural)]
pub enum LoadSource {
    A,
    B,
    C,
    D,
    E,
    H,
    L,
    Immediate(u8),
}

/// The pair a 16-bit operation writes.
#[derive(Debug, Clone, Copy, PartialEq, Eq, Structural)]
pub enum LoadTarget16 {
    BC,
    DE,
    HL,
    SP,
}

/// Where a 16-bit load reads its value from.
#[derive(Debug, Clone, Copy, PartialEq, Eq, Structural)]
pub enum LoadSource16 {
    BC,
    DE,
    HL,
    SP,
    Immediate(u16),
}

/// The destination of a jump: an absolute 16-bit address or a signed 8-bit
/// offset relative to the current program counter.
#[derive(Debug, Clone, Copy, PartialEq, Eq, Structural)]
pub enum JumpTarget {
    Immediate(u16),
    Relative(i8),
}

/// One decoded instruction. Each variant is immutable once decoded.
#[derive(Debug, Clone, Copy, PartialEq, Eq, Structural)]
pub enum Instruction {
    ADD(ArithmeticTarget),
    SUB(ArithmeticTarget),
    INC(ArithmeticTarget),
    DEC(ArithmeticTarget),
    LD(LoadTarget, LoadSource),
    LD16(LoadTarget16, LoadSource16),
    INC16(LoadTarget16),
    DEC16(LoadTarget16),
    JP(JumpTarget),
    JR(JumpTarget),
    NOP,
}

/// The decode table as a function of the opcode byte alone.
pub open spec fn spec_decode(byte: u8) -> Option<Instruction> {
    match byte {
        0x81 => Some(Instruction::ADD(ArithmeticTarget::C)),
        0x91 => Some(Instruction::SUB(ArithmeticTarget::C)),
        0x0C => Some(Instruction::INC(ArithmeticTarget::C)),
        0x0D => Some(Instruction::DEC(ArithmeticTarget::C)),
        0x79 => Some(Instruction::LD(LoadTarget::A, LoadSource::C)),
        0x41 => Some(Instruction::LD(LoadTarget::B, LoadSource::C)),
        0x02 => Some(Instruction::LD(LoadTarget::A, LoadSource::B)),
        0x12 => Some(Instruction::LD(LoadTarget::A, LoadSource::D)),
        0x0A => Some(Instruction::LD(LoadTarget::A, LoadSource::B)),
        0x1A => Some(Instruction::LD(LoadTarget::A, LoadSource::D)),
        0x3E => Some(Instruction::LD(LoadTarget::A, LoadSource::Immediate(0x00))),
        0x06 => Some(Instruction::LD(LoadTarget::B, LoadSource::Immediate(0x10))),
        0x0E => Some(Instruction::LD(LoadTarget::C, LoadSource::Immediate(0x10))),
        0x21 => Some(Instruction::LD16(LoadTarget16::HL, LoadSource16::Immediate(0x0280))),
        0x7E => Some(Instruction::LD(LoadTarget::A, LoadSource::H)),
        0x23 => Some(Instruction::INC16(LoadTarget16::HL)),
        0x80 => Some(Instruction::ADD(ArithmeticTarget::B)),
        0xFE => Some(Instruction::SUB(ArithmeticTarget::A)),
        0x28 => Some(Instruction::JR(JumpTarget::Relative(5))),
        0x77 => Some(Instruction::LD(LoadTarget::H, LoadSource::A)),
        0x01 => Some(Instruction::LD16(LoadTarget16::BC, LoadSource16::Immediate(0x1234))),
        0x11 => Some(Instruction::LD16(LoadTarget16::DE, LoadSource16::Immediate(0x5678))),
        0x03 => Some(Instruction::INC16(LoadTarget16::BC)),
        0x13 => Some(Instruction::INC16(LoadTarget16::DE)),
        0x0B => Some(Instruction::DEC16(LoadTarget16::BC)),
        0x1B => Some(Instruction::DEC16(LoadTarget16::DE)),
        0xC3 => Some(Instruction::JP(JumpTarget::Immediate(0x200))),
        0x18 => Some(Instruction::JR(JumpTarget::Relative(5))),
        0x00 => Some(Instruction::NOP),
        _ => None,
    }
}

/// The byte length of an instruction's encoding: the opcode byte plus an
/// 8-bit operand for immediate loads and relative jumps, or a 16-bit operand
/// for 16-bit immediate loads and absolute jumps.
pub open spec fn spec_size(instruction: Instruction) -> u16 {
    match instruction {
        Instruction::NOP => 1,
        Instruction::ADD(_) => 1,
        Instruction::SUB(_) => 1,
        Instruction::INC(_) => 1,
        Instruction::DEC(_) => 1,
        Instruction::LD(_, source) => if source is Immediate {
            2
        } else {
            1
        },
        Instruction::LD16(_, source) => if source is Immediate {
            3
        } else {
            1
        },
        Instruction::INC16(_) => 1,
        Instruction::DEC16(_) => 1,
        Instruction::JP(_) => 3,
        Instruction::JR(_) => 2,
    }
}

/// The cycle cost charged for an instruction.
pub open spec fn spec_cycles(instruction: Instruction) -> u8 {
    match instruction {
        Instruction::NOP => 1,
        Instruction::ADD(_) => 1,
        Instruction::SUB(_) => 1,
        Instruction::INC(_) => 1,
        Instruction::DEC(_) => 1,
        Instruction::LD(_, source) => if source is Immediate {
            2
        } else {
            1
        },
        Instruction::LD16(_, source) => if source is Immediate {
            3
        } else {
            1
        },
        Instruction::INC16(_) => 2,
        Instruction::DEC16(_) => 2,
        Instruction::JP(_) => 4,
        Instruction::JR(_) => 3,
    }
}

impl Instruction {
    /// Decodes one opcode byte. Deterministic and total: the same byte always
    /// yields the same result, and an unmapped byte yields `None` rather than
    /// a fault or a silent no-op.
    pub fn from_byte(byte: u8) -> (r: Option<Instruction>)
        ensures
            r == spec_decode(byte),
            r is Some <==> spec_decode(byte) is Some,
    {
        match byte {
            0x81 => Some(Instruction::ADD(ArithmeticTarget::C)),
            0x91 => Some(Instruction::SUB(ArithmeticTarget::C)),
            0x0C => Some(Instruction::INC(ArithmeticTarget::C)),
            0x0D => Some(Instruction::DEC(ArithmeticTarget::C)),
            0x79 => Some(Instruction::LD(LoadTarget::A, LoadSource::C)),
            0x41 => Some(Instruction::LD(LoadTarget::B, LoadSource::C)),
            0x02 => Some(Instruction::LD(LoadTarget::A, LoadSource::B)),
            0x12 => Some(Instruction::LD(LoadTarget::A, LoadSource::D)),
            0x0A => Some(Instruction::LD(LoadTarget::A, LoadSource::B)),
            0x1A => Some(Instruction::LD(LoadTarget::A, LoadSource::D)),
            0x3E => Some(Instruction::LD(LoadTarget::A, LoadSource::Immediate(0x00))),
            0x06 => Some(Instruction::LD(LoadTarget::B, LoadSource::Immediate(0x10))),
            0x0E => Some(Instruction::LD(LoadTarget::C, LoadSource::Immediate(0x10))),
            0x21 => Some(Instruction::LD16(LoadTarget16::HL, LoadSource16::Immediate(0x0280))),
            0x7E => Some(Instruction::LD(LoadTarget::A, LoadSource::H)),
            0x23 => Some(Instruction::INC16(LoadTarget16::HL)),
            0x80 => Some(Instruction::ADD(ArithmeticTarget::B)),
            0xFE => Some(Instruction::SUB(ArithmeticTarget::A)),
            0x28 => Some(Instruction::JR(JumpTarget::Relative(5))),
            0x77 => Some(Instruction::LD(LoadTarget::H, LoadSource::A)),
            0x01 => Some(Instruction::LD16(LoadTarget16::BC, LoadSource16::Immediate(0x1234))),
            0x11 => Some(Instruction::LD16(LoadTarget16::DE, LoadSource16::Immediate(0x5678))),
            0x03 => Some(Instruction::INC16(LoadTarget16::BC)),
            0x13 => Some(Instruction::INC16(LoadTarget16::DE)),
            0x0B => Some(Instruction::DEC16(LoadTarget16::BC)),
            0x1B => Some(Instruction::DEC16(LoadTarget16::DE)),
            0xC3 => Some(Instruction::JP(JumpTarget::Immediate(0x200))),
            0x18 => Some(Instruction::JR(JumpTarget::Relative(5))),
            0x00 => Some(Instruction::NOP),
            _ => None,
        }
    }

    /// The mnemonic of the instruction.
    pub fn name(&self) -> (r: &'static str)
        ensures
            r@ == spec_name(*self),
    {
        proof {
            reveal_strlit("ADD");
            reveal_strlit("SUB");
            reveal_strlit("INC");
            reveal_strlit("DEC");
            reveal_strlit("LD");
            reveal_strlit("LD16");
            reveal_strlit("INC16");
            reveal_strlit("DEC16");
            reveal_strlit("JP");
            reveal_strlit("JR");
            reveal_strlit("NOP");
        }
        match self {
            Instruction::ADD(_) => "ADD",
            Instruction::SUB(_) => "SUB",
            Instruction::INC(_) => "INC",
            Instruction::DEC(_) => "DEC",
            Instruction::LD(_, _) => "LD",
            Instruction::LD16(_, _) => "LD16",
            Instruction::INC16(_) => "INC16",
            Instruction::DEC16(_) => "DEC16",
            Instruction::JP(_) => "JP",
            Instruction::JR(_) => "JR",
            Instruction::NOP => "NOP",
        }
    }

    /// The byte length of this instruction's encoding.
    pub fn size(&self) -> (r: u16)
        ensures
            r == spec_size(*self),
            1 <= r <= 3,
    {
        match self {
            Instruction::NOP => 1,
            Instruction::ADD(_) => 1,
            Instruction::SUB(_) => 1,
            Instruction::INC(_) => 1,
            Instruction::DEC(_) => 1,
            Instruction::LD(_, source) => match source {
                LoadSource::Immediate(_) => 2,
                _ => 1,
            },
            Instruction::LD16(_, source) => match source {
                LoadSource16::Immediate(_) => 3,
                _ => 1,
            },
            Instruction::INC16(_) => 1,
            Instruction::DEC16(_) => 1,
            Instruction::JP(_) => 3,
            Instruction::JR(_) => 2,
        }
    }

    /// The cycle cost charged for this instruction.
    pub fn cycles(&self) -> (r: u8)
        ensures
            r == spec_cycles(*self),
            1 <= r <= 4,
    {
        match self {
            Instruction::NOP => 1,
            Instruction::ADD(_) => 1,
            Instruction::SUB(_) => 1,
            Instruction::INC(_) => 1,
            Instruction::DEC(_) => 1,
            Instruction::LD(_, source) => match source {
                LoadSource::Immediate(_) => 2,
                _ => 1,
            },
            Instruction::LD16(_, source) => match source {
                LoadSource16::Immediate(_) => 3,
                _ => 1,
            },
            Instruction::INC16(_) => 2,
            Instruction::DEC16(_) => 2,
            Instruction::JP(_) => 4,
            Instruction::JR(_) => 3,
        }
    }
}

/// The mnemonic of an instruction, as a character sequence.
pub open spec fn spec_name(instruction: Instruction) -> Seq<char> {
    match instruction {
        Instruction::ADD(_) => "ADD"@,
        Instruction::SUB(_) => "SUB"@,
        Instruction::INC(_) => "INC"@,
        Instruction::DEC(_) => "DEC"@,
        Instruction::LD(_, _) => "LD"@,
        Instruction::LD16(_, _) => "LD16"@,
        Instruction::INC16(_) => "INC16"@,
        Instruction::DEC16(_) => "DEC16"@,
        Instruction::JP(_) => "JP"@,
        Instruction::JR(_) => "JR"@,
        Instruction::NOP => "NOP"@,
    }
}

} // verus!
