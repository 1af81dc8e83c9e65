//! The disassembler: renders decoded instructions, or a contiguous address
//! range, as mnemonic text for diagnostics. It never blocks or alters
//! execution; a byte with no mapped instruction renders as a placeholder
//! token and a range scan still advances one byte past it, so the scan never
//! stalls.

use vstd::prelude::*;

use crate::fmt::{append_dec, append_hex2, append_hex4, spec_dec, spec_hex2, spec_hex4};
use crate::cpu::{fetch_instruction, spec_materialize};
use crate::instructions::{
    ArithmeticTarget, Instruction, JumpTarget, LoadSource, LoadSource16, LoadTarget, LoadTarget16,
    spec_decode, spec_size,
};
use crate::memory::MemoryBus;

verus! {

/// The text of an arithmetic register selector.
pub open spec fn spec_arith_text(target: ArithmeticTarget) -> Seq<char> {
    match target {
        ArithmeticTarget::A => "A"@,
        ArithmeticTarget::B => "B"@,
        ArithmeticTarget::C => "C"@,
        ArithmeticTarget::D => "D"@,
        ArithmeticTarget::E => "E"@,
        ArithmeticTarget::H => "H"@,
        ArithmeticTarget::L => "L"@,
    }
}

/// The text of an 8-bit load target.
pub open spec fn spec_load_target_text(target: LoadTarget) -> Seq<char> {
    match target {
        LoadTarget::A => "A"@,
        LoadTarget::B => "B"@,
        LoadTarget::C => "C"@,
        LoadTarget::D => "D"@,
        LoadTarget::E => "E"@,
        LoadTarget::H => "H"@,
        LoadTarget::L => "L"@,
    }
}

/// The text of an 8-bit load source.
pub open spec fn spec_load_source_text(source: LoadSource) -> Seq<char> {
    match source {
        LoadSource::A => "A"@,
        LoadSource::B => "B"@,
        LoadSource::C => "C"@,
        LoadSource::D => "D"@,
        LoadSource::E => "E"@,
        LoadSource::H => "H"@,
        LoadSource::L => "L"@,
        LoadSource::Immediate(v) => "Immediate("@ + spec_dec(v as int) + ")"@,
    }
}

/// The text of a 16-bit pair target.
pub open spec fn spec_pair_text(target: LoadTarget16) -> Seq<char> {
    match target {
        LoadTarget16::BC => "BC"@,
        LoadTarget16::DE => "DE"@,
        LoadTarget16::HL => "HL"@,
        LoadTarget16::SP => "SP"@,
    }
}

/// The text of a 16-bit load source.
pub open spec fn spec_load_source16_text(source: LoadSource16) -> Seq<char> {
    match source {
        LoadSource16::BC => "BC"@,
        LoadSource16::DE => "DE"@,
        LoadSource16::HL => "HL"@,
        LoadSource16::SP => "SP"@,
        LoadSource16::Immediate(v) => "Immediate("@ + spec_dec(v as int) + ")"@,
    }
}

/// The text of a jump target; a relative offset keeps its sign.
pub open spec fn spec_jump_text(target: JumpTarget) -> Seq<char> {
    match target {
        JumpTarget::Immediate(address) => "Immediate("@ + spec_dec(address as int) + ")"@,
        JumpTarget::Relative(offset) => if offset < 0 {
            "Relative(-"@ + spec_dec(-(offset as int)) + ")"@
        } else {
            "Relative("@ + spec_dec(offset as int) + ")"@
        },
    }
}

/// The mnemonic line for one instruction.
pub open spec fn spec_instruction_text(instruction: Instruction) -> Seq<char> {
    match instruction {
        Instruction::NOP => "NOP"@,
        Instruction::ADD(target) => "ADD A, "@ + spec_arith_text(target),
        Instruction::SUB(target) => "SUB A, "@ + spec_arith_text(target),
        Instruction::INC(target) => "INC "@ + spec_arith_text(target),
        Instruction::DEC(target) => "DEC "@ + spec_arith_text(target),
        Instruction::LD(target, source) => "LD "@ + spec_load_target_text(target) + ", "@
            + spec_load_source_text(source),
        Instruction::LD16(target, source) => "LD "@ + spec_pair_text(target) + ", "@
            + spec_load_source16_text(source),
        Instruction::INC16(target) => "INC "@ + spec_pair_text(target),
        Instruction::DEC16(target) => "DEC "@ + spec_pair_text(target),
        Instruction::JP(target) => "JP "@ + spec_jump_text(target),
        Instruction::JR(target) => "JR "@ + spec_jump_text(target),
    }
}

/// One formatted line: the address and opcode byte prefixes come and go with
/// the two flags.
pub open spec fn spec_formatted(
    show_addresses: bool,
    show_bytes: bool,
    pc: u16,
    byte: u8,
    instruction: Instruction,
) -> Seq<char> {
    if show_addresses && show_bytes {
        "0x"@ + spec_hex4(pc) + ": 0x"@ + spec_hex2(byte) + " "@ + spec_instruction_text(
            instruction,
        )
    } else if show_addresses {
        "0x"@ + spec_hex4(pc) + ": "@ + spec_instruction_text(instruction)
    } else if show_bytes {
        "0x"@ + spec_hex2(byte) + " "@ + spec_instruction_text(instruction)
    } else {
        spec_instruction_text(instruction)
    }
}

/// The placeholder line for a byte with no mapped instruction.
pub open spec fn spec_unknown_line(pc: u16, byte: u8) -> Seq<char> {
    "0x"@ + spec_hex4(pc) + ": 0x"@ + spec_hex2(byte) + " ???"@
}

/// The line `disassemble_at` yields for one address.
pub open spec fn spec_line_at(
    show_addresses: bool,
    show_bytes: bool,
    bus: MemoryBus,
    pc: u16,
) -> Seq<char> {
    match spec_decode(bus.spec_read(pc)) {
        Some(instruction) => spec_formatted(
            show_addresses,
            show_bytes,
            pc,
            bus.spec_read(pc),
            spec_materialize(instruction, bus, pc),
        ),
        None => spec_unknown_line(pc, bus.spec_read(pc)),
    }
}

/// The lines a range scan from `pc` (inclusive) to `end` (exclusive)
/// yields: a decoded byte advances the scan by the instruction's size, an
/// unmapped byte by one, so the scan always moves forward.
pub open spec fn spec_range_lines(
    show_addresses: bool,
    show_bytes: bool,
    bus: MemoryBus,
    pc: int,
    end: int,
) -> Seq<Seq<char>>
    decreases end - pc,
{
    if pc >= end || pc > 0xFFFF || pc < 0 {
        Seq::empty()
    } else {
        match spec_decode(bus.spec_read(pc as u16)) {
            Some(instruction) => {
                let step = if spec_size(instruction) < 1 {
                    1int
                } else {
                    spec_size(instruction) as int
                };
                let next = if pc + step > end {
                    end
                } else {
                    pc + step
                };
                seq![
                    spec_formatted(show_addresses, show_bytes, pc as u16, bus.spec_read(pc as u16), spec_materialize(instruction, bus, pc as u16)),
                ] + spec_range_lines(show_addresses, show_bytes, bus, next, end)
            },
            None => seq![spec_unknown_line(pc as u16, bus.spec_read(pc as u16))]
                + spec_range_lines(show_addresses, show_bytes, bus, if pc + 1 > end {
                    end
                } else {
                    pc + 1
                }, end),
        }
    }
}

/// Formats decoded instructions as text; holds only the two display flags
/// and never changes machine state.
#[derive(Debug, Clone, Copy, PartialEq, Eq, Structural)]
pub struct Disassembler {
    pub show_addresses: bool,
    pub show_bytes: bool,
}

/// The text of an arithmetic register selector.
fn arith_text(target: ArithmeticTarget) -> (r: &'static str)
    ensures
        r@ == spec_arith_text(target),
{
    match target {
        ArithmeticTarget::A => "A",
        ArithmeticTarget::B => "B",
        ArithmeticTarget::C => "C",
        ArithmeticTarget::D => "D",
        ArithmeticTarget::E => "E",
        ArithmeticTarget::H => "H",
        ArithmeticTarget::L => "L",
    }
}

/// The text of an 8-bit load target.
fn load_target_text(target: LoadTarget) -> (r: &'static str)
    ensures
        r@ == spec_load_target_text(target),
{
    match target {
        LoadTarget::A => "A",
        LoadTarget::B => "B",
        LoadTarget::C => "C",
        LoadTarget::D => "D",
        LoadTarget::E => "E",
        LoadTarget::H => "H",
        LoadTarget::L => "L",
    }
}

/// The text of a 16-bit pair target.
fn pair_text(target: LoadTarget16) -> (r: &'static str)
    ensures
        r@ == spec_pair_text(target),
{
    match target {
        LoadTarget16::BC => "BC",
        LoadTarget16::DE => "DE",
        LoadTarget16::HL => "HL",
        LoadTarget16::SP => "SP",
    }
}

/// Appends the text of an 8-bit load source.
fn append_load_source(out: &mut String, source: LoadSource)
    ensures
        final(out)@ == old(out)@ + spec_load_source_text(source),
{
    match source {
        LoadSource::A => out.append("A"),
        LoadSource::B => out.append("B"),
        LoadSource::C => out.append("C"),
        LoadSource::D => out.append("D"),
        LoadSource::E => out.append("E"),
        LoadSource::H => out.append("H"),
        LoadSource::L => out.append("L"),
        LoadSource::Immediate(v) => {
            out.append("Immediate(");
            append_dec(out, v as u64);
            out.append(")");
            proof {
                assert(out@ =~= old(out)@ + spec_load_source_text(source));
            }
        },
    }
}

/// Appends the text of a 16-bit load source.
fn append_load_source16(out: &mut String, source: LoadSource16)
    ensures
        final(out)@ == old(out)@ + spec_load_source16_text(source),
{
    match source {
        LoadSource16::BC => out.append("BC"),
        LoadSource16::DE => out.append("DE"),
        LoadSource16::HL => out.append("HL"),
        LoadSource16::SP => out.append("SP"),
        LoadSource16::Immediate(v) => {
            out.append("Immediate(");
            append_dec(out, v as u64);
            out.append(")");
            proof {
                assert(out@ =~= old(out)@ + spec_load_source16_text(source));
            }
        },
    }
}

/// Appends the text of a jump target.
fn append_jump_target(out: &mut String, target: JumpTarget)
    ensures
        final(out)@ == old(out)@ + spec_jump_text(target),
{
    match target {
        JumpTarget::Immediate(address) => {
            out.append("Immediate(");
            append_dec(out, address as u64);
            out.append(")");
            proof {
                assert(out@ =~= old(out)@ + spec_jump_text(target));
            }
        },
        JumpTarget::Relative(offset) => {
            if offset < 0 {
                out.append("Relative(-");
                let magnitude: u64 = if offset == i8::MIN {
                    128
                } else {
                    (-offset) as u64
                };
                append_dec(out, magnitude);
                out.append(")");
            } else {
                out.append("Relative(");
                append_dec(out, offset as u64);
                out.append(")");
            }
            proof {
                assert(out@ =~= old(out)@ + spec_jump_text(target));
            }
        },
    }
}

impl Disassembler {
    /// A disassembler that shows both addresses and opcode bytes.
    pub fn new() -> (r: Disassembler)
        ensures
            r == (Disassembler { show_addresses: true, show_bytes: true }),
    {
        Disassembler { show_addresses: true, show_bytes: true }
    }

    /// The mnemonic line for one instruction.
    pub fn instruction_to_string(&self, instruction: Instruction) -> (r: String)
        ensures
            r@ == spec_instruction_text(instruction),
    {
        let mut out = String::new();
        match instruction {
            Instruction::NOP => out.append("NOP"),
            Instruction::ADD(target) => {
                out.append("ADD A, ");
                out.append(arith_text(target));
            },
            Instruction::SUB(target) => {
                out.append("SUB A, ");
                out.append(arith_text(target));
            },
            Instruction::INC(target) => {
                out.append("INC ");
                out.append(arith_text(target));
            },
            Instruction::DEC(target) => {
                out.append("DEC ");
                out.append(arith_text(target));
            },
            Instruction::LD(target, source) => {
                out.append("LD ");
                out.append(load_target_text(target));
                out.append(", ");
                append_load_source(&mut out, source);
            },
            Instruction::LD16(target, source) => {
                out.append("LD ");
                out.append(pair_text(target));
                out.append(", ");
                append_load_source16(&mut out, source);
            },
            Instruction::INC16(target) => {
                out.append("INC ");
                out.append(pair_text(target));
            },
            Instruction::DEC16(target) => {
                out.append("DEC ");
                out.append(pair_text(target));
            },
            Instruction::JP(target) => {
                out.append("JP ");
                append_jump_target(&mut out, target);
            },
            Instruction::JR(target) => {
                out.append("JR ");
                append_jump_target(&mut out, target);
            },
        }
        proof {
            assert(out@ =~= spec_instruction_text(instruction));
        }
        out
    }

    /// One formatted line, with the address and byte prefixes the two flags
    /// ask for.
    fn format_instruction(&self, pc: u16, byte: u8, instruction: Instruction) -> (r: String)
        ensures
            r@ == spec_formatted(self.show_addresses, self.show_bytes, pc, byte, instruction),
    {
        let mut out = String::new();
        if self.show_addresses && self.show_bytes {
            out.append("0x");
            append_hex4(&mut out, pc);
            out.append(": 0x");
            append_hex2(&mut out, byte);
            out.append(" ");
        } else if self.show_addresses {
            out.append("0x");
            append_hex4(&mut out, pc);
            out.append(": ");
        } else if self.show_bytes {
            out.append("0x");
            append_hex2(&mut out, byte);
            out.append(" ");
        }
        let text = self.instruction_to_string(instruction);
        out.append(text.as_str());
        proof {
            assert(out@ =~= spec_formatted(
                self.show_addresses,
                self.show_bytes,
                pc,
                byte,
                instruction,
            ));
        }
        out
    }

    /// The placeholder line for an unmapped byte.
    fn unknown_line(&self, pc: u16, byte: u8) -> (r: String)
        ensures
            r@ == spec_unknown_line(pc, byte),
    {
        let mut out = String::new();
        out.append("0x");
        append_hex4(&mut out, pc);
        out.append(": 0x");
        append_hex2(&mut out, byte);
        out.append(" ???");
        proof {
            assert(out@ =~= spec_unknown_line(pc, byte));
        }
        out
    }

    /// Renders the instruction at one address, or the placeholder token for
    /// a byte no instruction is mapped to.
    pub fn disassemble_at(&self, pc: u16, memory: &MemoryBus) -> (r: String)
        ensures
            r@ == spec_line_at(self.show_addresses, self.show_bytes, *memory, pc),
    {
        let byte = memory.read_byte(pc);
        match fetch_instruction(memory, pc) {
            Ok(instruction) => self.format_instruction(pc, byte, instruction),
            Err(_) => self.unknown_line(pc, byte),
        }
    }

    /// Renders every instruction from `start` (inclusive) to `end`
    /// (exclusive); an unmapped byte renders as the placeholder and the scan
    /// advances one byte, so it never stalls.
    pub fn disassemble_range(&self, start: u16, end: u16, memory: &MemoryBus) -> (r: Vec<String>)
        ensures
            r.deep_view() == spec_range_lines(
                self.show_addresses,
                self.show_bytes,
                *memory,
                start as int,
                end as int,
            ),
    {
        let ghost whole = spec_range_lines(
            self.show_addresses,
            self.show_bytes,
            *memory,
            start as int,
            end as int,
        );
        let mut result: Vec<String> = Vec::new();
        let mut pc: u32 = start as u32;
        while pc < end as u32
            invariant
                start <= pc,
                pc <= 0xFFFF + 3,
                whole == result.deep_view() + spec_range_lines(
                    self.show_addresses,
                    self.show_bytes,
                    *memory,
                    pc as int,
                    end as int,
                ),
            decreases end as int - pc as int + 3,
        {
            let ghost old_pc = pc as int;
            let address = pc as u16;
            let byte = memory.read_byte(address);
            let ghost before = result.deep_view();
            let ghost mut line_view: Seq<char> = Seq::empty();
            match fetch_instruction(memory, address) {
                Ok(instruction) => {
                    let line = self.format_instruction(address, byte, instruction);
                    proof {
                        line_view = line@;
                    }
                    result.push(line);
                    pc = pc + instruction.size() as u32;
                },
                Err(_) => {
                    let line = self.unknown_line(address, byte);
                    proof {
                        line_view = line@;
                    }
                    result.push(line);
                    pc = pc + 1;
                },
            }
            proof {
                let sa = self.show_addresses;
                let sb = self.show_bytes;
                let m = *memory;
                let endi = end as int;
                let rest = spec_range_lines(sa, sb, m, pc as int, endi);
                if pc as int >= endi {
                    assert(rest =~~= Seq::<Seq<char>>::empty());
                    assert(spec_range_lines(sa, sb, m, endi, endi) =~~= Seq::<Seq<char>>::empty());
                }
                assert(spec_range_lines(sa, sb, m, old_pc, endi) =~~= seq![line_view] + rest);
                assert(result.deep_view() =~~= before.push(line_view));
                assert(before.push(line_view) + rest =~~= before + (seq![line_view] + rest));
            }
        }
        proof {
            assert(spec_range_lines(
                self.show_addresses,
                self.show_bytes,
                *memory,
                pc as int,
                end as int,
            ) =~= Seq::<Seq<char>>::empty());
            assert(result.deep_view() =~= whole);
        }
        result
    }
}

impl Default for Disassembler {
    fn default() -> (r: Disassembler)
        ensures
            r == (Disassembler { show_addresses: true, show_bytes: true }),
    {
        Disassembler::new()
    }
}

} // verus!
