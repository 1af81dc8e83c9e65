//! The execution engine: fetches an opcode through the memory bus,
//! materialises the instruction's operands, and dispatches it against the
//! register file, producing the flag updates and the next program-counter
//! value together with a per-instruction (cycle, size) cost.
//!
//! All 8-bit arithmetic wraps. INC and DEC leave the carry flag untouched:
//! that is a documented hardware-style quirk, not an omission. A jump whose
//! payload kind reaches the wrong handler is an internal-consistency fault,
//! surfaced as a typed error rather than a panic.

use vstd::prelude::*;

use crate::flags::FlagsRegister;
use crate::instructions::{
    ArithmeticTarget, Instruction, JumpTarget, LoadSource, LoadSource16, LoadTarget, LoadTarget16,
    spec_cycles, spec_decode, spec_size,
};
use crate::memory::{MemoryBus, wrap_inc};
use crate::registers::{Register, Registers};

verus! {

/// A fault raised by one fetch-decode-execute step.
#[derive(Debug, Clone, Copy, PartialEq, Eq, Structural)]
pub enum ExecError {
    /// The byte at `address` has no mapped instruction; fatal for the step,
    /// and the program counter does not advance.
    UnknownOpcode { opcode: u8, address: u16 },
    /// An absolute jump reached the relative-jump handler: a decoder/engine
    /// mismatch, reported as a programming error.
    AbsolutePayloadInRelativeJump,
    /// A relative jump reached the absolute-jump handler, symmetrically.
    RelativePayloadInAbsoluteJump,
}

/// What one successfully executed instruction leaves behind.
#[derive(Debug, Clone, Copy, PartialEq, Eq, Structural)]
pub struct ExecOutcome {
    pub registers: Registers,
    pub flags: FlagsRegister,
    pub sp: u16,
    pub next_pc: u16,
    pub cycles: u8,
    pub size: u16,
}

/// `pc + d` wrapped at the top of the 16-bit address space.
pub open spec fn wrap_add16(pc: u16, d: u16) -> u16 {
    if pc + d > 0xFFFF {
        (pc + d - 0x10000) as u16
    } else {
        (pc + d) as u16
    }
}

/// `pc` plus a sign-extended 8-bit offset, wrapped over the full 16-bit
/// address space.
pub open spec fn wrap_add_signed16(pc: u16, offset: i8) -> u16 {
    if pc + offset > 0xFFFF {
        (pc + offset - 0x10000) as u16
    } else if pc + offset < 0 {
        (pc + offset + 0x10000) as u16
    } else {
        (pc + offset) as u16
    }
}

/// The wrapped 8-bit sum of the accumulator and an operand.
pub open spec fn add_result(a: u8, value: u8) -> u8 {
    if a + value > 255 {
        (a + value - 256) as u8
    } else {
        (a + value) as u8
    }
}

/// The flags ADD leaves: zero of the result, subtract cleared, half-carry
/// out of the low nibble, carry on unsigned overflow.
pub open spec fn add_flags(a: u8, value: u8) -> FlagsRegister {
    FlagsRegister {
        zero: add_result(a, value) == 0,
        subtract: false,
        half_carry: (a & 0xF) + (value & 0xF) > 0xF,
        carry: a + value > 255,
    }
}

/// The wrapped 8-bit difference of the accumulator and an operand.
pub open spec fn sub_result(a: u8, value: u8) -> u8 {
    if a >= value {
        (a - value) as u8
    } else {
        (a - value + 256) as u8
    }
}

/// The flags SUB leaves: zero of the result, subtract set, half-carry on a
/// low-nibble borrow, carry on an unsigned borrow.
pub open spec fn sub_flags(a: u8, value: u8) -> FlagsRegister {
    FlagsRegister {
        zero: sub_result(a, value) == 0,
        subtract: true,
        half_carry: (a & 0xF) < (value & 0xF),
        carry: a < value,
    }
}

/// The wrapped 8-bit increment of an operand.
pub open spec fn inc_result(value: u8) -> u8 {
    if value == 255 {
        0
    } else {
        (value + 1) as u8
    }
}

/// The flags INC leaves; the carry flag keeps its previous value.
pub open spec fn inc_flags(value: u8, previous: FlagsRegister) -> FlagsRegister {
    FlagsRegister {
        zero: inc_result(value) == 0,
        subtract: false,
        half_carry: value & 0xF == 0xF,
        carry: previous.carry,
    }
}

/// The wrapped 8-bit decrement of an operand.
pub open spec fn dec_result(value: u8) -> u8 {
    if value == 0 {
        255
    } else {
        (value - 1) as u8
    }
}

/// The flags DEC leaves; the carry flag keeps its previous value.
pub open spec fn dec_flags(value: u8, previous: FlagsRegister) -> FlagsRegister {
    FlagsRegister {
        zero: dec_result(value) == 0,
        subtract: true,
        half_carry: value & 0xF == 0,
        carry: previous.carry,
    }
}

/// The register an arithmetic selector names.
pub open spec fn spec_arith_register(target: ArithmeticTarget) -> Register {
    match target {
        ArithmeticTarget::A => Register::A,
        ArithmeticTarget::B => Register::B,
        ArithmeticTarget::C => Register::C,
        ArithmeticTarget::D => Register::D,
        ArithmeticTarget::E => Register::E,
        ArithmeticTarget::H => Register::H,
        ArithmeticTarget::L => Register::L,
    }
}

/// The register an 8-bit load target names.
pub open spec fn spec_load_register(target: LoadTarget) -> Register {
    match target {
        LoadTarget::A => Register::A,
        LoadTarget::B => Register::B,
        LoadTarget::C => Register::C,
        LoadTarget::D => Register::D,
        LoadTarget::E => Register::E,
        LoadTarget::H => Register::H,
        LoadTarget::L => Register::L,
    }
}

/// The value an 8-bit load source denotes.
pub open spec fn spec_load_value(source: LoadSource, regs: Registers) -> u8 {
    match source {
        LoadSource::A => regs.a,
        LoadSource::B => regs.b,
        LoadSource::C => regs.c,
        LoadSource::D => regs.d,
        LoadSource::E => regs.e,
        LoadSource::H => regs.h,
        LoadSource::L => regs.l,
        LoadSource::Immediate(v) => v,
    }
}

/// The 16-bit value a pair selector or immediate denotes; SP is the stack
/// pointer treated as a pseudo-pair.
pub open spec fn spec_load16_value(source: LoadSource16, regs: Registers, sp: u16) -> u16 {
    match source {
        LoadSource16::BC => crate::registers::pair_value(regs.b, regs.c),
        LoadSource16::DE => crate::registers::pair_value(regs.d, regs.e),
        LoadSource16::HL => crate::registers::pair_value(regs.h, regs.l),
        LoadSource16::SP => sp,
        LoadSource16::Immediate(v) => v,
    }
}

/// The current 16-bit value of a pair target.
pub open spec fn spec_pair_value(target: LoadTarget16, regs: Registers, sp: u16) -> u16 {
    match target {
        LoadTarget16::BC => crate::registers::pair_value(regs.b, regs.c),
        LoadTarget16::DE => crate::registers::pair_value(regs.d, regs.e),
        LoadTarget16::HL => crate::registers::pair_value(regs.h, regs.l),
        LoadTarget16::SP => sp,
    }
}

/// The register file and stack pointer after a pair target is set.
pub open spec fn spec_set_pair(target: LoadTarget16, value: u16, regs: Registers, sp: u16) -> (
    Registers,
    u16,
) {
    let high = crate::registers::high_byte(value);
    let low = crate::registers::low_byte(value);
    match target {
        LoadTarget16::BC => (Registers { b: high, c: low, ..regs }, sp),
        LoadTarget16::DE => (Registers { d: high, e: low, ..regs }, sp),
        LoadTarget16::HL => (Registers { h: high, l: low, ..regs }, sp),
        LoadTarget16::SP => (regs, value),
    }
}

/// What executing one materialised instruction at `pc` does to the register
/// file, the flags and the stack pointer, and where the program counter goes
/// next, as a function of the current state alone.
pub open spec fn spec_execute(
    instruction: Instruction,
    pc: u16,
    regs: Registers,
    flags: FlagsRegister,
    sp: u16,
) -> Result<ExecOutcome, ExecError> {
    let size = spec_size(instruction);
    let cycles = spec_cycles(instruction);
    let advanced = wrap_add16(pc, size);
    match instruction {
        Instruction::ADD(target) => {
            let value = regs.spec_get(spec_arith_register(target));
            Ok(ExecOutcome {
                registers: Registers { a: add_result(regs.a, value), ..regs },
                flags: add_flags(regs.a, value),
                sp,
                next_pc: advanced,
                cycles,
                size,
            })
        },
        Instruction::SUB(target) => {
            let value = regs.spec_get(spec_arith_register(target));
            Ok(ExecOutcome {
                registers: Registers { a: sub_result(regs.a, value), ..regs },
                flags: sub_flags(regs.a, value),
                sp,
                next_pc: advanced,
                cycles,
                size,
            })
        },
        Instruction::INC(target) => {
            let reg = spec_arith_register(target);
            let value = regs.spec_get(reg);
            Ok(ExecOutcome {
                registers: regs.spec_set(reg, inc_result(value)),
                flags: inc_flags(value, flags),
                sp,
                next_pc: advanced,
                cycles,
                size,
            })
        },
        Instruction::DEC(target) => {
            let reg = spec_arith_register(target);
            let value = regs.spec_get(reg);
            Ok(ExecOutcome {
                registers: regs.spec_set(reg, dec_result(value)),
                flags: dec_flags(value, flags),
                sp,
                next_pc: advanced,
                cycles,
                size,
            })
        },
        Instruction::LD(target, source) => {
            let value = spec_load_value(source, regs);
            Ok(ExecOutcome {
                registers: regs.spec_set(spec_load_register(target), value),
                flags,
                sp,
                next_pc: advanced,
                cycles,
                size,
            })
        },
        Instruction::LD16(target, source) => {
            let value = spec_load16_value(source, regs, sp);
            let set = spec_set_pair(target, value, regs, sp);
            Ok(ExecOutcome {
                registers: set.0,
                flags,
                sp: set.1,
                next_pc: advanced,
                cycles,
                size,
            })
        },
        Instruction::INC16(target) => {
            let value = spec_pair_value(target, regs, sp);
            let set = spec_set_pair(target, wrap_add16(value, 1), regs, sp);
            Ok(ExecOutcome {
                registers: set.0,
                flags,
                sp: set.1,
                next_pc: advanced,
                cycles,
                size,
            })
        },
        Instruction::DEC16(target) => {
            let value = spec_pair_value(target, regs, sp);
            let decremented: u16 = if value == 0 {
                0xFFFF
            } else {
                (value - 1) as u16
            };
            let set = spec_set_pair(target, decremented, regs, sp);
            Ok(ExecOutcome {
                registers: set.0,
                flags,
                sp: set.1,
                next_pc: advanced,
                cycles,
                size,
            })
        },
        Instruction::JP(target) => match target {
            JumpTarget::Immediate(address) => Ok(ExecOutcome {
                registers: regs,
                flags,
                sp,
                next_pc: address,
                cycles,
                size,
            }),
            JumpTarget::Relative(_) => Err(ExecError::RelativePayloadInAbsoluteJump),
        },
        Instruction::JR(target) => match target {
            JumpTarget::Relative(offset) => Ok(ExecOutcome {
                registers: regs,
                flags,
                sp,
                next_pc: wrap_add_signed16(pc, offset),
                cycles,
                size,
            }),
            JumpTarget::Immediate(_) => Err(ExecError::AbsolutePayloadInRelativeJump),
        },
        Instruction::NOP => Ok(ExecOutcome {
            registers: regs,
            flags,
            sp,
            next_pc: advanced,
            cycles,
            size,
        }),
    }
}

/// The instruction with its operands filled in from memory: an 8- or 16-bit
/// immediate load takes its operand from the bytes behind the opcode; every
/// other instruction, jumps included, is used as the decode table gives it.
pub open spec fn spec_materialize(instruction: Instruction, bus: MemoryBus, pc: u16) -> Instruction {
    match instruction {
        Instruction::LD(target, LoadSource::Immediate(_)) => Instruction::LD(
            target,
            LoadSource::Immediate(bus.spec_read(wrap_inc(pc))),
        ),
        Instruction::LD16(target, LoadSource16::Immediate(_)) => Instruction::LD16(
            target,
            LoadSource16::Immediate(bus.spec_read_word(wrap_inc(pc))),
        ),
        _ => instruction,
    }
}

/// What a fetch at `pc` yields: the materialised instruction, or the decode
/// fault carrying the unmapped byte and its address.
pub open spec fn spec_fetch(bus: MemoryBus, pc: u16) -> Result<Instruction, ExecError> {
    match spec_decode(bus.spec_read(pc)) {
        Some(instruction) => Ok(spec_materialize(instruction, bus, pc)),
        None => Err(
            ExecError::UnknownOpcode { opcode: bus.spec_read(pc), address: pc },
        ),
    }
}

/// Reads the opcode at `pc`, decodes it and fills in its operands from
/// memory. An unmapped byte is surfaced as a typed decode fault.
pub fn fetch_instruction(bus: &MemoryBus, pc: u16) -> (r: Result<Instruction, ExecError>)
    ensures
        r == spec_fetch(*bus, pc),
        r is Err <==> spec_decode(bus.spec_read(pc)) is None,
{
    let opcode = bus.read_byte(pc);
    match Instruction::from_byte(opcode) {
        None => Err(ExecError::UnknownOpcode { opcode, address: pc }),
        Some(instruction) => {
            let operand_pc: u16 = if pc == 0xFFFF {
                0
            } else {
                pc + 1
            };
            match instruction {
                Instruction::LD(target, LoadSource::Immediate(_)) => Ok(
                    Instruction::LD(target, LoadSource::Immediate(bus.read_byte(operand_pc))),
                ),
                Instruction::LD16(target, LoadSource16::Immediate(_)) => Ok(
                    Instruction::LD16(target, LoadSource16::Immediate(bus.read_word(operand_pc))),
                ),
                _ => Ok(instruction),
            }
        },
    }
}

/// Executes one materialised instruction against the register file, the
/// flags and the stack pointer, returning the next program-counter value and
/// the instruction's (cycle, size) cost. On a jump payload mismatch nothing
/// is changed and the internal-consistency fault is returned.
pub fn execute_instruction(
    instruction: Instruction,
    pc: u16,
    registers: &mut Registers,
    flags: &mut FlagsRegister,
    sp: &mut u16,
) -> (r: Result<(u16, u8, u16), ExecError>)
    ensures
        ({
            let outcome = spec_execute(instruction, pc, *old(registers), *old(flags), *old(sp));
            match outcome {
                Ok(o) => r == Ok::<(u16, u8, u16), ExecError>((o.next_pc, o.cycles, o.size))
                    && *final(registers) == o.registers && *final(flags) == o.flags && *final(sp)
                    == o.sp,
                Err(e) => r == Err::<(u16, u8, u16), ExecError>(e) && *final(registers) == *old(
                    registers,
                ) && *final(flags) == *old(flags) && *final(sp) == *old(sp),
            }
        }),
{
    let size = instruction.size();
    let cycles = instruction.cycles();
    let advanced = pc.wrapping_add(size);
    proof {
        assert(advanced == wrap_add16(pc, size));
    }
    match instruction {
        Instruction::ADD(target) => {
            let value = registers.get_register(arith_register(target));
            let a = registers.a;
            let result = a.wrapping_add(value);
            proof {
                assert(a & 0xF <= 0xF && value & 0xF <= 0xF) by (bit_vector);
            }
            flags.zero = result == 0;
            flags.subtract = false;
            flags.half_carry = (a & 0xF) + (value & 0xF) > 0xF;
            flags.carry = (a as u16) + (value as u16) > 255;
            registers.a = result;
            Ok((advanced, cycles, size))
        },
        Instruction::SUB(target) => {
            let value = registers.get_register(arith_register(target));
            let a = registers.a;
            let result = a.wrapping_sub(value);
            flags.zero = result == 0;
            flags.subtract = true;
            flags.half_carry = (a & 0xF) < (value & 0xF);
            flags.carry = a < value;
            registers.a = result;
            Ok((advanced, cycles, size))
        },
        Instruction::INC(target) => {
            let reg = arith_register(target);
            let value = registers.get_register(reg);
            let result = value.wrapping_add(1);
            flags.zero = result == 0;
            flags.subtract = false;
            flags.half_carry = value & 0xF == 0xF;
            registers.set_register(reg, result);
            Ok((advanced, cycles, size))
        },
        Instruction::DEC(target) => {
            let reg = arith_register(target);
            let value = registers.get_register(reg);
            let result = value.wrapping_sub(1);
            flags.zero = result == 0;
            flags.subtract = true;
            flags.half_carry = value & 0xF == 0;
            registers.set_register(reg, result);
            Ok((advanced, cycles, size))
        },
        Instruction::LD(target, source) => {
            let value = match source {
                LoadSource::A => registers.a,
                LoadSource::B => registers.b,
                LoadSource::C => registers.c,
                LoadSource::D => registers.d,
                LoadSource::E => registers.e,
                LoadSource::H => registers.h,
                LoadSource::L => registers.l,
                LoadSource::Immediate(v) => v,
            };
            registers.set_register(load_register(target), value);
            Ok((advanced, cycles, size))
        },
        Instruction::LD16(target, source) => {
            let value = match source {
                LoadSource16::BC => registers.get_bc(),
                LoadSource16::DE => registers.get_de(),
                LoadSource16::HL => registers.get_hl(),
                LoadSource16::SP => *sp,
                LoadSource16::Immediate(v) => v,
            };
            set_pair(target, value, registers, sp);
            Ok((advanced, cycles, size))
        },
        Instruction::INC16(target) => {
            let value = pair_value_of(target, registers, sp);
            set_pair(target, value.wrapping_add(1), registers, sp);
            Ok((advanced, cycles, size))
        },
        Instruction::DEC16(target) => {
            let value = pair_value_of(target, registers, sp);
            set_pair(target, value.wrapping_sub(1), registers, sp);
            Ok((advanced, cycles, size))
        },
        Instruction::JP(target) => match target {
            JumpTarget::Immediate(address) => Ok((address, cycles, size)),
            JumpTarget::Relative(_) => Err(ExecError::RelativePayloadInAbsoluteJump),
        },
        Instruction::JR(target) => match target {
            JumpTarget::Relative(offset) => {
                let next_pc = pc.wrapping_add_signed(offset as i16);
                Ok((next_pc, cycles, size))
            },
            JumpTarget::Immediate(_) => Err(ExecError::AbsolutePayloadInRelativeJump),
        },
        Instruction::NOP => Ok((advanced, cycles, size)),
    }
}

/// The register an arithmetic selector names; every selector is statically
/// valid by construction.
fn arith_register(target: ArithmeticTarget) -> (r: Register)
    ensures
        r == spec_arith_register(target),
{
    match target {
        ArithmeticTarget::A => Register::A,
        ArithmeticTarget::B => Register::B,
        ArithmeticTarget::C => Register::C,
        ArithmeticTarget::D => Register::D,
        ArithmeticTarget::E => Register::E,
        ArithmeticTarget::H => Register::H,
        ArithmeticTarget::L => Register::L,
    }
}

/// The register an 8-bit load target names.
fn load_register(target: LoadTarget) -> (r: Register)
    ensures
        r == spec_load_register(target),
{
    match target {
        LoadTarget::A => Register::A,
        LoadTarget::B => Register::B,
        LoadTarget::C => Register::C,
        LoadTarget::D => Register::D,
        LoadTarget::E => Register::E,
        LoadTarget::H => Register::H,
        LoadTarget::L => Register::L,
    }
}

/// The current value of a pair target.
fn pair_value_of(target: LoadTarget16, registers: &Registers, sp: &u16) -> (r: u16)
    ensures
        r == spec_pair_value(target, *registers, *sp),
{
    match target {
        LoadTarget16::BC => registers.get_bc(),
        LoadTarget16::DE => registers.get_de(),
        LoadTarget16::HL => registers.get_hl(),
        LoadTarget16::SP => *sp,
    }
}

/// Writes a 16-bit value to a pair target.
fn set_pair(target: LoadTarget16, value: u16, registers: &mut Registers, sp: &mut u16)
    ensures
        (*final(registers), *final(sp)) == spec_set_pair(target, value, *old(registers), *old(sp)),
{
    match target {
        LoadTarget16::BC => registers.set_bc(value),
        LoadTarget16::DE => registers.set_de(value),
        LoadTarget16::HL => registers.set_hl(value),
        LoadTarget16::SP => *sp = value,
    }
}

/// Writing a 16-bit value to any pair and reading that pair back yields
/// the value unchanged, for every register file, stack pointer, pair
/// selector and 16-bit value.
pub proof fn lemma_pair_round_trip(
    target: LoadTarget16,
    value: u16,
    regs: Registers,
    sp: u16,
)
    ensures
        ({
            let set = spec_set_pair(target, value, regs, sp);
            spec_pair_value(target, set.0, set.1) == value
        }),
{
    crate::registers::lemma_split_recompose(value);
}

/// The straightforward interpreter: a register file, the two pointers, the
/// flags, and the owned memory bus.
#[derive(Debug)]
pub struct CPU {
    pub registers: Registers,
    /// The program counter.
    pub pc: u16,
    /// The stack pointer.
    pub sp: u16,
    pub flags: FlagsRegister,
    pub bus: MemoryBus,
}

impl CPU {
    /// What one step leaves behind: the machine after the instruction at
    /// `pc`, or the fault that stopped it, with nothing changed.
    pub open spec fn spec_step(self) -> Result<CPU, ExecError> {
        match spec_fetch(self.bus, self.pc) {
            Err(e) => Err(e),
            Ok(instruction) => match spec_execute(
                instruction,
                self.pc,
                self.registers,
                self.flags,
                self.sp,
            ) {
                Err(e) => Err(e),
                Ok(o) => Ok(
                    CPU {
                        registers: o.registers,
                        pc: o.next_pc,
                        sp: o.sp,
                        flags: o.flags,
                        bus: self.bus,
                    },
                ),
            },
        }
    }

    /// A fresh machine around a bus: execution starts at 0x100 and the stack
    /// pointer at 0xFFFE.
    pub fn new(bus: MemoryBus) -> (r: CPU)
        ensures
            r.registers == (Registers { a: 0, b: 0, c: 0, d: 0, e: 0, f: 0, h: 0, l: 0 }),
            r.pc == 0x100,
            r.sp == 0xFFFE,
            r.flags == (FlagsRegister {
                zero: false,
                subtract: false,
                half_carry: false,
                carry: false,
            }),
            r.bus == bus,
    {
        CPU {
            registers: Registers::new(),
            pc: 0x100,
            sp: 0xFFFE,
            flags: FlagsRegister::new(),
            bus,
        }
    }

    /// Performs one full fetch-decode-execute step. On a fault nothing
    /// changes, the program counter included, and the typed error goes to
    /// the caller.
    pub fn step(&mut self) -> (r: Result<(), ExecError>)
        ensures
            old(self).spec_step() is Ok ==> r == Ok::<(), ExecError>(()) && *final(self) == old(
                self,
            ).spec_step()->Ok_0,
            old(self).spec_step() is Err ==> r == Err::<(), ExecError>(
                old(self).spec_step()->Err_0,
            ) && *final(self) == *old(self),
            final(self).bus == old(self).bus,
    {
        let instruction = match fetch_instruction(&self.bus, self.pc) {
            Ok(instruction) => instruction,
            Err(e) => {
                return Err(e);
            },
        };
        let outcome = execute_instruction(
            instruction,
            self.pc,
            &mut self.registers,
            &mut self.flags,
            &mut self.sp,
        );
        match outcome {
            Ok((next_pc, _cycles, _size)) => {
                self.pc = next_pc;
                Ok(())
            },
            Err(e) => Err(e),
        }
    }
}

} // verus!
