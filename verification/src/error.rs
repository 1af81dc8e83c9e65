//! The unified error taxonomy: one enum per subsystem, gathered under a
//! single top-level error, with a renderer that pins every message down to
//! its exact characters.

use vstd::prelude::*;

use crate::fmt::{append_dec, append_hex2, append_hex4, spec_dec, spec_hex2, spec_hex4};

verus! {

/// A CPU fault.
#[derive(Debug, Clone, PartialEq, Eq, Structural)]
pub enum CpuError {
    InvalidRegister,
    InvalidInstruction,
    StackOverflow,
    StackUnderflow,
    DivisionByZero,
    InvalidAddress(u16),
}

/// A memory fault.
#[derive(Debug, Clone, PartialEq, Eq, Structural)]
pub enum MemoryError {
    InvalidAddress(u16),
    ReadOnlyMemory(u16),
    OutOfBounds(u16),
    InvalidBank(u8),
}

/// A GPU fault.
#[derive(Debug, Clone, PartialEq, Eq, Structural)]
pub enum GpuError {
    InvalidMode(u8),
    InvalidTile(u8),
    InvalidPalette(u8),
    ScanlineError(u8),
}

/// An instruction-handling fault.
#[derive(Debug, Clone)]
pub enum InstructionError {
    UnknownOpcode(u8),
    InvalidOperand,
    UnimplementedInstruction(String),
}

/// An entropy-system fault.
#[derive(Debug, Clone)]
pub enum EntropyError {
    InsufficientEntropy,
    InvalidSource,
    PoolOverflow,
    DistributionError(String),
    QuantumError(String),
}

/// A game-layer fault.
#[derive(Debug, Clone)]
pub enum GameError {
    InvalidMove,
    GameOver,
    InvalidState,
    LoadError(String),
    SaveError(String),
}

/// A configuration fault; a failed file read carries the host's message.
#[derive(Debug, Clone)]
pub enum ConfigError {
    FileRead(String),
    ParseError(String),
    MissingKey(String),
}

/// The top-level error: one variant per subsystem, a host I/O message, and
/// a generic text.
#[derive(Debug, Clone)]
pub enum Error {
    Cpu(CpuError),
    Memory(MemoryError),
    Gpu(GpuError),
    Instruction(InstructionError),
    Entropy(EntropyError),
    Game(GameError),
    Config(ConfigError),
    Io(String),
    Generic(String),
}

/// The message of a CPU fault.
pub open spec fn spec_cpu_error_text(e: CpuError) -> Seq<char> {
    match e {
        CpuError::InvalidRegister => "Invalid register"@,
        CpuError::InvalidInstruction => "Invalid instruction"@,
        CpuError::StackOverflow => "Stack overflow"@,
        CpuError::StackUnderflow => "Stack underflow"@,
        CpuError::DivisionByZero => "Division by zero"@,
        CpuError::InvalidAddress(addr) => "Invalid address: 0x"@ + spec_hex4(addr),
    }
}

/// The message of a memory fault.
pub open spec fn spec_memory_error_text(e: MemoryError) -> Seq<char> {
    match e {
        MemoryError::InvalidAddress(addr) => "Invalid address: 0x"@ + spec_hex4(addr),
        MemoryError::ReadOnlyMemory(addr) => "Read-only memory at: 0x"@ + spec_hex4(addr),
        MemoryError::OutOfBounds(addr) => "Address out of bounds: 0x"@ + spec_hex4(addr),
        MemoryError::InvalidBank(bank) => "Invalid memory bank: "@ + spec_dec(bank as int),
    }
}

/// The message of a GPU fault.
pub open spec fn spec_gpu_error_text(e: GpuError) -> Seq<char> {
    match e {
        GpuError::InvalidMode(mode) => "Invalid GPU mode: "@ + spec_dec(mode as int),
        GpuError::InvalidTile(tile) => "Invalid tile: "@ + spec_dec(tile as int),
        GpuError::InvalidPalette(palette) => "Invalid palette: "@ + spec_dec(palette as int),
        GpuError::ScanlineError(line) => "Scanline error at line: "@ + spec_dec(line as int),
    }
}

/// The message of an instruction fault.
pub open spec fn spec_instruction_error_text(e: InstructionError) -> Seq<char> {
    match e {
        InstructionError::UnknownOpcode(opcode) => "Unknown opcode: 0x"@ + spec_hex2(opcode),
        InstructionError::InvalidOperand => "Invalid operand"@,
        InstructionError::UnimplementedInstruction(inst) => "Unimplemented instruction: "@
            + inst@,
    }
}

/// The message of an entropy fault.
pub open spec fn spec_entropy_error_text(e: EntropyError) -> Seq<char> {
    match e {
        EntropyError::InsufficientEntropy => "Insufficient entropy"@,
        EntropyError::InvalidSource => "Invalid entropy source"@,
        EntropyError::PoolOverflow => "Entropy pool overflow"@,
        EntropyError::DistributionError(msg) => "Distribution error: "@ + msg@,
        EntropyError::QuantumError(msg) => "Quantum error: "@ + msg@,
    }
}

/// The message of a game fault.
pub open spec fn spec_game_error_text(e: GameError) -> Seq<char> {
    match e {
        GameError::InvalidMove => "Invalid move"@,
        GameError::GameOver => "Game over"@,
        GameError::InvalidState => "Invalid game state"@,
        GameError::LoadError(msg) => "Load error: "@ + msg@,
        GameError::SaveError(msg) => "Save error: "@ + msg@,
    }
}

/// The message of a configuration fault.
pub open spec fn spec_config_error_text(e: ConfigError) -> Seq<char> {
    match e {
        ConfigError::FileRead(msg) => "Failed to read config file: "@ + msg@,
        ConfigError::ParseError(msg) => "Config parse error: "@ + msg@,
        ConfigError::MissingKey(key) => "Missing required config key: "@ + key@,
    }
}

/// The full message of a top-level error.
pub open spec fn spec_error_text(e: Error) -> Seq<char> {
    match e {
        Error::Cpu(inner) => "CPU Error: "@ + spec_cpu_error_text(inner),
        Error::Memory(inner) => "Memory Error: "@ + spec_memory_error_text(inner),
        Error::Gpu(inner) => "GPU Error: "@ + spec_gpu_error_text(inner),
        Error::Instruction(inner) => "Instruction Error: "@ + spec_instruction_error_text(inner),
        Error::Entropy(inner) => "Entropy Error: "@ + spec_entropy_error_text(inner),
        Error::Game(inner) => "Game Error: "@ + spec_game_error_text(inner),
        Error::Config(inner) => "Config Error: "@ + spec_config_error_text(inner),
        Error::Io(msg) => "IO Error: "@ + msg@,
        Error::Generic(msg) => "Error: "@ + msg@,
    }
}

/// Renders a top-level error as its exact message.
pub fn error_to_string(error: &Error) -> (r: String)
    ensures
        r@ == spec_error_text(*error),
{
    let mut out = String::new();
    match error {
        Error::Cpu(inner) => {
            out.append("CPU Error: ");
            append_cpu_error(&mut out, inner);
        },
        Error::Memory(inner) => {
            out.append("Memory Error: ");
            append_memory_error(&mut out, inner);
        },
        Error::Gpu(inner) => {
            out.append("GPU Error: ");
            append_gpu_error(&mut out, inner);
        },
        Error::Instruction(inner) => {
            out.append("Instruction Error: ");
            append_instruction_error(&mut out, inner);
        },
        Error::Entropy(inner) => {
            out.append("Entropy Error: ");
            append_entropy_error(&mut out, inner);
        },
        Error::Game(inner) => {
            out.append("Game Error: ");
            append_game_error(&mut out, inner);
        },
        Error::Config(inner) => {
            out.append("Config Error: ");
            append_config_error(&mut out, inner);
        },
        Error::Io(msg) => {
            out.append("IO Error: ");
            out.append(msg.as_str());
        },
        Error::Generic(msg) => {
            out.append("Error: ");
            out.append(msg.as_str());
        },
    }
    proof {
        assert(out@ =~= spec_error_text(*error));
    }
    out
}

/// Appends a CPU fault's message.
fn append_cpu_error(out: &mut String, e: &CpuError)
    ensures
        final(out)@ == old(out)@ + spec_cpu_error_text(*e),
{
    match e {
        CpuError::InvalidRegister => out.append("Invalid register"),
        CpuError::InvalidInstruction => out.append("Invalid instruction"),
        CpuError::StackOverflow => out.append("Stack overflow"),
        CpuError::StackUnderflow => out.append("Stack underflow"),
        CpuError::DivisionByZero => out.append("Division by zero"),
        CpuError::InvalidAddress(addr) => {
            out.append("Invalid address: 0x");
            append_hex4(out, *addr);
            proof {
                assert(out@ =~= old(out)@ + spec_cpu_error_text(*e));
            }
        },
    }
}

/// Appends a memory fault's message.
fn append_memory_error(out: &mut String, e: &MemoryError)
    ensures
        final(out)@ == old(out)@ + spec_memory_error_text(*e),
{
    match e {
        MemoryError::InvalidAddress(addr) => {
            out.append("Invalid address: 0x");
            append_hex4(out, *addr);
        },
        MemoryError::ReadOnlyMemory(addr) => {
            out.append("Read-only memory at: 0x");
            append_hex4(out, *addr);
        },
        MemoryError::OutOfBounds(addr) => {
            out.append("Address out of bounds: 0x");
            append_hex4(out, *addr);
        },
        MemoryError::InvalidBank(bank) => {
            out.append("Invalid memory bank: ");
            append_dec(out, *bank as u64);
        },
    }
    proof {
        assert(out@ =~= old(out)@ + spec_memory_error_text(*e));
    }
}

/// Appends a GPU fault's message.
fn append_gpu_error(out: &mut String, e: &GpuError)
    ensures
        final(out)@ == old(out)@ + spec_gpu_error_text(*e),
{
    match e {
        GpuError::InvalidMode(mode) => {
            out.append("Invalid GPU mode: ");
            append_dec(out, *mode as u64);
        },
        GpuError::InvalidTile(tile) => {
            out.append("Invalid tile: ");
            append_dec(out, *tile as u64);
        },
        GpuError::InvalidPalette(palette) => {
            out.append("Invalid palette: ");
            append_dec(out, *palette as u64);
        },
        GpuError::ScanlineError(line) => {
            out.append("Scanline error at line: ");
            append_dec(out, *line as u64);
        },
    }
    proof {
        assert(out@ =~= old(out)@ + spec_gpu_error_text(*e));
    }
}

/// Appends an instruction fault's message.
fn append_instruction_error(out: &mut String, e: &InstructionError)
    ensures
        final(out)@ == old(out)@ + spec_instruction_error_text(*e),
{
    match e {
        InstructionError::UnknownOpcode(opcode) => {
            out.append("Unknown opcode: 0x");
            append_hex2(out, *opcode);
        },
        InstructionError::InvalidOperand => out.append("Invalid operand"),
        InstructionError::UnimplementedInstruction(inst) => {
            out.append("Unimplemented instruction: ");
            out.append(inst.as_str());
        },
    }
    proof {
        assert(out@ =~= old(out)@ + spec_instruction_error_text(*e));
    }
}

/// Appends an entropy fault's message.
fn append_entropy_error(out: &mut String, e: &EntropyError)
    ensures
        final(out)@ == old(out)@ + spec_entropy_error_text(*e),
{
    match e {
        EntropyError::InsufficientEntropy => out.append("Insufficient entropy"),
        EntropyError::InvalidSource => out.append("Invalid entropy source"),
        EntropyError::PoolOverflow => out.append("Entropy pool overflow"),
        EntropyError::DistributionError(msg) => {
            out.append("Distribution error: ");
            out.append(msg.as_str());
        },
        EntropyError::QuantumError(msg) => {
            out.append("Quantum error: ");
            out.append(msg.as_str());
        },
    }
    proof {
        assert(out@ =~= old(out)@ + spec_entropy_error_text(*e));
    }
}

/// Appends a game fault's message.
fn append_game_error(out: &mut String, e: &GameError)
    ensures
        final(out)@ == old(out)@ + spec_game_error_text(*e),
{
    match e {
        GameError::InvalidMove => out.append("Invalid move"),
        GameError::GameOver => out.append("Game over"),
        GameError::InvalidState => out.append("Invalid game state"),
        GameError::LoadError(msg) => {
            out.append("Load error: ");
            out.append(msg.as_str());
        },
        GameError::SaveError(msg) => {
            out.append("Save error: ");
            out.append(msg.as_str());
        },
    }
    proof {
        assert(out@ =~= old(out)@ + spec_game_error_text(*e));
    }
}

/// Appends a configuration fault's message.
fn append_config_error(out: &mut String, e: &ConfigError)
    ensures
        final(out)@ == old(out)@ + spec_config_error_text(*e),
{
    match e {
        ConfigError::FileRead(msg) => {
            out.append("Failed to read config file: ");
            out.append(msg.as_str());
        },
        ConfigError::ParseError(msg) => {
            out.append("Config parse error: ");
            out.append(msg.as_str());
        },
        ConfigError::MissingKey(key) => {
            out.append("Missing required config key: ");
            out.append(key.as_str());
        },
    }
    proof {
        assert(out@ =~= old(out)@ + spec_config_error_text(*e));
    }
}

/// The error's message followed by the messages of its sources; none of the
/// plain-value variants carries a separate source, so the chain is the one
/// message.
pub fn error_chain(error: &Error) -> (r: Vec<String>)
    ensures
        r@.len() == 1,
        r@[0]@ == spec_error_text(*error),
{
    let mut chain: Vec<String> = Vec::new();
    chain.push(error_to_string(error));
    chain
}

/// Whether an error is fatal: memory and CPU faults are, everything else
/// is not.
pub fn is_fatal(error: &Error) -> (r: bool)
    ensures
        r == (*error is Memory || *error is Cpu),
{
    match error {
        Error::Memory(_) => true,
        Error::Cpu(_) => true,
        _ => false,
    }
}

} // verus!
