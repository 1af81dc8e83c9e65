//! The second, architecturally independent core: a 32-bit RISC CPU with
//! two encoding widths, its memory map, and its counters. Every access is
//! total: addresses wrap at the top of the 32-bit space and reads outside
//! the mapped regions yield zero.

use vstd::prelude::*;

use crate::optimizer::sat_add64;

verus! {

/// The emulator's run state.
#[derive(Debug, Clone, PartialEq)]
pub enum GBAState {
    Stopped,
    Running,
    Paused,
    Error(String),
}

/// The CPU's privilege mode.
#[derive(Debug, Clone, Copy, PartialEq, Eq, Structural)]
pub enum CPUMode {
    User,
    FIQ,
    IRQ,
    Supervisor,
    Abort,
    Undefined,
    System,
}

/// Execution counters.
#[derive(Debug, Clone, Copy, PartialEq, Eq, Structural)]
pub struct CPUStats {
    pub cycles: u64,
    pub instructions: u64,
    pub arm_instructions: u64,
    pub thumb_instructions: u64,
    pub cache_hits: u64,
    pub cache_misses: u64,
    pub branch_taken: u64,
    pub branch_not_taken: u64,
}

impl Default for CPUStats {
    /// All counters start at zero.
    fn default() -> (r: CPUStats)
        ensures
            r == (CPUStats {
                cycles: 0,
                instructions: 0,
                arm_instructions: 0,
                thumb_instructions: 0,
                cache_hits: 0,
                cache_misses: 0,
                branch_taken: 0,
                branch_not_taken: 0,
            }),
    {
        CPUStats {
            cycles: 0,
            instructions: 0,
            arm_instructions: 0,
            thumb_instructions: 0,
            cache_hits: 0,
            cache_misses: 0,
            branch_taken: 0,
            branch_not_taken: 0,
        }
    }
}

/// The wide-encoding instruction classes.
#[derive(Debug, Clone, Copy, PartialEq, Eq, Structural)]
pub enum ARMInstruction {
    AND,
    EOR,
    SUB,
    RSB,
    ADD,
    ADC,
    SBC,
    RSC,
    TST,
    TEQ,
    CMP,
    CMN,
    ORR,
    MOV,
    BIC,
    MVN,
    B,
    BL,
    BX,
    BLX,
    LDR,
    STR,
    LDM,
    STM,
    LDRB,
    STRB,
    LDRH,
    STRH,
    MRC,
    MCR,
    LDC,
    STC,
    SWI,
    UNDEFINED,
}

/// The narrow-encoding instruction classes.
#[derive(Debug, Clone, Copy, PartialEq, Eq, Structural)]
pub enum ThumbInstruction {
    MOV,
    CMP,
    ADD,
    SUB,
    AND,
    EOR,
    LSL,
    LSR,
    ASR,
    ADC,
    SBC,
    ROR,
    TST,
    NEG,
    CMP2,
    CMN,
    ORR,
    MUL,
    BIC,
    MVN,
    B,
    BL,
    BX,
    BLX,
    LDR,
    STR,
    LDRB,
    STRB,
    LDRH,
    STRH,
    LDSB,
    LDSH,
    STRH2,
    PUSH,
    POP,
    UNDEFINED,
}

/// The status-register flag positions.
#[derive(Debug, Clone, Copy, PartialEq, Eq, Structural)]
pub enum CPSRFlag {
    Negative,
    Zero,
    Carry,
    Overflow,
    Thumb,
    FIQDisable,
    IRQDisable,
}

/// The status-register bit a flag occupies.
pub open spec fn spec_flag_mask(flag: CPSRFlag) -> u32 {
    match flag {
        CPSRFlag::Negative => 0x80000000,
        CPSRFlag::Zero => 0x40000000,
        CPSRFlag::Carry => 0x20000000,
        CPSRFlag::Overflow => 0x10000000,
        CPSRFlag::Thumb => 0x20,
        CPSRFlag::FIQDisable => 0x40,
        CPSRFlag::IRQDisable => 0x80,
    }
}

/// The instruction class of a wide opcode word, by its bits 21 to 24.
pub open spec fn spec_decode_arm(instruction: u32) -> ARMInstruction {
    let opcode = (instruction >> 21) & 0xF;
    if opcode == 0x0 {
        ARMInstruction::AND
    } else if opcode == 0x1 {
        ARMInstruction::EOR
    } else if opcode == 0x2 {
        ARMInstruction::SUB
    } else if opcode == 0x3 {
        ARMInstruction::RSB
    } else if opcode == 0x4 {
        ARMInstruction::ADD
    } else if opcode == 0x5 {
        ARMInstruction::ADC
    } else if opcode == 0x6 {
        ARMInstruction::SBC
    } else if opcode == 0x7 {
        ARMInstruction::RSC
    } else if opcode == 0x8 {
        ARMInstruction::TST
    } else if opcode == 0x9 {
        ARMInstruction::TEQ
    } else if opcode == 0xA {
        ARMInstruction::CMP
    } else if opcode == 0xB {
        ARMInstruction::CMN
    } else if opcode == 0xC {
        ARMInstruction::ORR
    } else if opcode == 0xD {
        ARMInstruction::MOV
    } else if opcode == 0xE {
        ARMInstruction::BIC
    } else {
        ARMInstruction::MVN
    }
}

/// The instruction class of a narrow opcode word, by its bits 10 to 15.
pub open spec fn spec_decode_thumb(instruction: u16) -> ThumbInstruction {
    let opcode = (instruction >> 10) & 0x3F;
    if opcode <= 0x07 {
        ThumbInstruction::MOV
    } else if opcode <= 0x0F {
        ThumbInstruction::CMP
    } else if opcode <= 0x17 {
        ThumbInstruction::ADD
    } else if opcode <= 0x1F {
        ThumbInstruction::SUB
    } else if opcode <= 0x27 {
        ThumbInstruction::AND
    } else if opcode <= 0x2F {
        ThumbInstruction::EOR
    } else if opcode <= 0x37 {
        ThumbInstruction::LSL
    } else if opcode <= 0x3F {
        ThumbInstruction::LSR
    } else {
        ThumbInstruction::UNDEFINED
    }
}

/// Memory access counters.
#[derive(Debug, Clone, Copy, PartialEq, Eq, Structural)]
pub struct MemoryStats {
    pub reads: u64,
    pub writes: u64,
    pub cache_hits: u64,
    pub cache_misses: u64,
}

impl Default for MemoryStats {
    /// All counters start at zero.
    fn default() -> (r: MemoryStats)
        ensures
            r == (MemoryStats { reads: 0, writes: 0, cache_hits: 0, cache_misses: 0 }),
    {
        MemoryStats { reads: 0, writes: 0, cache_hits: 0, cache_misses: 0 }
    }
}

/// The memory map: working RAM, palette, video and object memory at their
/// fixed windows, and a cartridge image mapped read-only at 0x08000000.
#[derive(Debug)]
pub struct GBAMemory {
    iwram: Vec<u8>,
    ewram: Vec<u8>,
    palette_ram: Vec<u8>,
    vram: Vec<u8>,
    oam_ram: Vec<u8>,
    rom: Vec<u8>,
    stats: MemoryStats,
}

/// The byte a read of `address` yields from the given region contents.
pub open spec fn spec_gba_read8(
    iwram: Seq<u8>,
    ewram: Seq<u8>,
    palette: Seq<u8>,
    vram: Seq<u8>,
    oam: Seq<u8>,
    rom: Seq<u8>,
    address: u32,
) -> u8 {
    if 0x08000000 <= address <= 0x08FFFFFF && address - 0x08000000 < rom.len() {
        rom[address - 0x08000000]
    } else if 0x02000000 <= address <= 0x0203FFFF && address - 0x02000000 < ewram.len() {
        ewram[address - 0x02000000]
    } else if 0x03000000 <= address <= 0x03007FFF && address - 0x03000000 < iwram.len() {
        iwram[address - 0x03000000]
    } else if 0x05000000 <= address <= 0x050003FF && address - 0x05000000 < palette.len() {
        palette[address - 0x05000000]
    } else if 0x06000000 <= address <= 0x06017FFF && address - 0x06000000 < vram.len() {
        vram[address - 0x06000000]
    } else if 0x07000000 <= address <= 0x070003FF && address - 0x07000000 < oam.len() {
        oam[address - 0x07000000]
    } else {
        0
    }
}

/// `address + delta` wrapped at the top of the 32-bit space.
pub open spec fn spec_wrap32(address: u32, delta: u32) -> u32 {
    if address + delta > u32::MAX {
        (address + delta - 0x100000000) as u32
    } else {
        (address + delta) as u32
    }
}

impl GBAMemory {
    #[verifier::type_invariant]
    spec fn type_inv(self) -> bool {
        &&& self.iwram@.len() == 0x8000
        &&& self.ewram@.len() == 0x40000
        &&& self.palette_ram@.len() == 0x400
        &&& self.vram@.len() == 0x18000
        &&& self.oam_ram@.len() == 0x400
    }

    /// The byte a read of `address` yields.
    pub closed spec fn spec_read8(&self, address: u32) -> u8 {
        spec_gba_read8(
            self.iwram@,
            self.ewram@,
            self.palette_ram@,
            self.vram@,
            self.oam_ram@,
            self.rom@,
            address,
        )
    }

    /// The loaded cartridge image.
    pub closed spec fn spec_rom(&self) -> Seq<u8> {
        self.rom@
    }

    /// The access counters.
    pub closed spec fn spec_stats(&self) -> MemoryStats {
        self.stats
    }

    /// Fresh, zeroed memory with no cartridge loaded.
    pub fn new() -> (r: GBAMemory)
        ensures
            r.spec_rom().len() == 0,
            r.spec_stats() == (MemoryStats { reads: 0, writes: 0, cache_hits: 0, cache_misses: 0 }),
            forall|a: u32| r.spec_read8(a) == 0,
    {
        let r = GBAMemory {
            iwram: vec![0u8; 0x8000],
            ewram: vec![0u8; 0x40000],
            palette_ram: vec![0u8; 0x400],
            vram: vec![0u8; 0x18000],
            oam_ram: vec![0u8; 0x400],
            rom: Vec::new(),
            stats: MemoryStats::default(),
        };
        r
    }

    /// Installs a cartridge image.
    pub fn load_rom(&mut self, rom_data: Vec<u8>)
        ensures
            final(self).spec_rom() == rom_data@,
            final(self).spec_stats() == old(self).spec_stats(),
    {
        proof {
            use_type_invariant(&*self);
        }
        self.rom = rom_data;
    }

    /// Reads one byte and counts the read; an unmapped address reads zero.
    pub fn read_8(&mut self, address: u32) -> (r: Result<u8, crate::error::MemoryError>)
        ensures
            r == Ok::<u8, crate::error::MemoryError>(old(self).spec_read8(address)),
            final(self).spec_stats() == (MemoryStats {
                reads: sat_add64(old(self).spec_stats().reads, 1),
                ..old(self).spec_stats()
            }),
            final(self).spec_rom() == old(self).spec_rom(),
            forall|a: u32| final(self).spec_read8(a) == old(self).spec_read8(a),
    {
        proof {
            use_type_invariant(&*self);
        }
        self.stats.reads = if self.stats.reads == u64::MAX {
            u64::MAX
        } else {
            self.stats.reads + 1
        };
        if 0x08000000 <= address && address <= 0x08FFFFFF {
            let offset = (address - 0x08000000) as usize;
            if offset < self.rom.len() {
                Ok(self.rom[offset])
            } else {
                Ok(0)
            }
        } else if 0x02000000 <= address && address <= 0x0203FFFF {
            Ok(self.ewram[(address - 0x02000000) as usize])
        } else if 0x03000000 <= address && address <= 0x03007FFF {
            Ok(self.iwram[(address - 0x03000000) as usize])
        } else if 0x05000000 <= address && address <= 0x050003FF {
            Ok(self.palette_ram[(address - 0x05000000) as usize])
        } else if 0x06000000 <= address && address <= 0x06017FFF {
            Ok(self.vram[(address - 0x06000000) as usize])
        } else if 0x07000000 <= address && address <= 0x070003FF {
            Ok(self.oam_ram[(address - 0x07000000) as usize])
        } else {
            Ok(0)
        }
    }

    /// Reads a 16-bit little-endian word; the second byte's address wraps.
    pub fn read_16(&mut self, address: u32) -> (r: Result<u16, crate::error::MemoryError>)
        ensures
            r == Ok::<u16, crate::error::MemoryError>(
                (old(self).spec_read8(address) + old(self).spec_read8(spec_wrap32(address, 1))
                    * 256) as u16,
            ),
            final(self).spec_stats().writes == old(self).spec_stats().writes,
            final(self).spec_rom() == old(self).spec_rom(),
            forall|a: u32| final(self).spec_read8(a) == old(self).spec_read8(a),
    {
        let low = match self.read_8(address) {
            Ok(b) => b,
            Err(e) => {
                return Err(e);
            },
        };
        let high = match self.read_8(address.wrapping_add(1)) {
            Ok(b) => b,
            Err(e) => {
                return Err(e);
            },
        };
        proof {
            let l = low;
            let h = high;
            assert((h as u16) << 8 | l as u16 == (l + h * 256) as u16) by (bit_vector);
        }
        Ok((high as u16) << 8 | low as u16)
    }

    /// Reads a 32-bit little-endian word; byte addresses wrap.
    pub fn read_32(&mut self, address: u32) -> (r: Result<u32, crate::error::MemoryError>)
        ensures
            r is Ok,
            final(self).spec_stats().writes == old(self).spec_stats().writes,
            final(self).spec_rom() == old(self).spec_rom(),
            forall|a: u32| final(self).spec_read8(a) == old(self).spec_read8(a),
    {
        let low = match self.read_16(address) {
            Ok(w) => w,
            Err(e) => {
                return Err(e);
            },
        };
        let high = match self.read_16(address.wrapping_add(2)) {
            Ok(w) => w,
            Err(e) => {
                return Err(e);
            },
        };
        proof {
            let l = low;
            let h = high;
            assert((h as u32) << 16 | l as u32 == (l as u32 + h as u32 * 0x10000) as u32)
                by (bit_vector);
            assert(spec_wrap32(spec_wrap32(address, 2), 1) == spec_wrap32(address, 3));
        }
        Ok((high as u32) << 16 | low as u32)
    }

    /// Writes one byte into a writable region and counts the write; the
    /// cartridge window and unmapped addresses swallow it.
    pub fn write_8(&mut self, address: u32, value: u8) -> (r: Result<
        (),
        crate::error::MemoryError,
    >)
        ensures
            r is Ok,
            final(self).spec_stats() == (MemoryStats {
                writes: sat_add64(old(self).spec_stats().writes, 1),
                ..old(self).spec_stats()
            }),
            final(self).spec_rom() == old(self).spec_rom(),
            0x02000000 <= address <= 0x0203FFFF || 0x03000000 <= address <= 0x03007FFF
                || 0x05000000 <= address <= 0x050003FF || 0x06000000 <= address <= 0x06017FFF
                || 0x07000000 <= address <= 0x070003FF ==> final(self).spec_read8(address)
                == value,
            forall|a: u32| a != address ==> final(self).spec_read8(a) == old(self).spec_read8(a),
    {
        proof {
            use_type_invariant(&*self);
        }
        self.stats.writes = if self.stats.writes == u64::MAX {
            u64::MAX
        } else {
            self.stats.writes + 1
        };
        if 0x02000000 <= address && address <= 0x0203FFFF {
            self.ewram[(address - 0x02000000) as usize] = value;
        } else if 0x03000000 <= address && address <= 0x03007FFF {
            self.iwram[(address - 0x03000000) as usize] = value;
        } else if 0x05000000 <= address && address <= 0x050003FF {
            self.palette_ram[(address - 0x05000000) as usize] = value;
        } else if 0x06000000 <= address && address <= 0x06017FFF {
            self.vram[(address - 0x06000000) as usize] = value;
        } else if 0x07000000 <= address && address <= 0x070003FF {
            self.oam_ram[(address - 0x07000000) as usize] = value;
        }
        Ok(())
    }

    /// Writes a 16-bit little-endian word; byte addresses wrap.
    pub fn write_16(&mut self, address: u32, value: u16) -> (r: Result<
        (),
        crate::error::MemoryError,
    >)
        ensures
            r is Ok,
            final(self).spec_rom() == old(self).spec_rom(),
            final(self).spec_stats().reads == old(self).spec_stats().reads,
    {
        match self.write_8(address, (value & 0xFF) as u8) {
            Ok(()) => {},
            Err(e) => {
                return Err(e);
            },
        }
        self.write_8(address.wrapping_add(1), ((value >> 8) & 0xFF) as u8)
    }

    /// Writes a 32-bit little-endian word; byte addresses wrap.
    pub fn write_32(&mut self, address: u32, value: u32) -> (r: Result<
        (),
        crate::error::MemoryError,
    >)
        ensures
            r is Ok,
            final(self).spec_rom() == old(self).spec_rom(),
            final(self).spec_stats().reads == old(self).spec_stats().reads,
    {
        match self.write_16(address, (value & 0xFFFF) as u16) {
            Ok(()) => {},
            Err(e) => {
                return Err(e);
            },
        }
        self.write_16(address.wrapping_add(2), ((value >> 16) & 0xFFFF) as u16)
    }

    /// The access counters.
    pub fn get_stats(&self) -> (r: &MemoryStats)
        ensures
            r == self.spec_stats(),
    {
        &self.stats
    }
}

impl Default for GBAMemory {
    fn default() -> (r: GBAMemory)
        ensures
            r.spec_rom().len() == 0,
    {
        GBAMemory::new()
    }
}

/// The 32-bit CPU: sixteen registers, the status word, the mode, and its
/// counters.
#[derive(Debug)]
pub struct ARM7TDMI {
    registers: Vec<u32>,
    pc: u32,
    lr: u32,
    sp: u32,
    cpsr: u32,
    spsr: u32,
    mode: CPUMode,
    thumb_mode: bool,
    stats: CPUStats,
}

impl ARM7TDMI {
    #[verifier::type_invariant]
    spec fn type_inv(self) -> bool {
        self.registers@.len() == 16
    }

    /// The register file.
    pub closed spec fn spec_registers(&self) -> Seq<u32> {
        self.registers@
    }

    /// The program counter.
    pub closed spec fn spec_pc(&self) -> u32 {
        self.pc
    }

    /// The link register.
    pub closed spec fn spec_lr(&self) -> u32 {
        self.lr
    }

    /// The stack pointer.
    pub closed spec fn spec_sp(&self) -> u32 {
        self.sp
    }

    /// The current program status word.
    pub closed spec fn spec_cpsr(&self) -> u32 {
        self.cpsr
    }

    /// The saved program status word.
    pub closed spec fn spec_spsr(&self) -> u32 {
        self.spsr
    }

    /// The privilege mode.
    pub closed spec fn spec_mode(&self) -> CPUMode {
        self.mode
    }

    /// Whether the narrow encoding is selected.
    pub closed spec fn spec_thumb(&self) -> bool {
        self.thumb_mode
    }

    /// The execution counters.
    pub closed spec fn spec_stats(&self) -> CPUStats {
        self.stats
    }

    /// Whether the narrow encoding is selected.
    pub fn is_thumb_mode(&self) -> (r: bool)
        ensures
            r == self.spec_thumb(),
    {
        self.thumb_mode
    }

    /// The current program status word.
    pub fn get_cpsr(&self) -> (r: u32)
        ensures
            r == self.spec_cpsr(),
    {
        self.cpsr
    }

    /// The privilege mode.
    pub fn get_mode(&self) -> (r: CPUMode)
        ensures
            r == self.spec_mode(),
    {
        self.mode
    }

    /// A CPU at the reset vector: execution starts at the cartridge
    /// window, the stack inside working RAM, user mode, wide encoding.
    pub fn new() -> (r: ARM7TDMI)
        ensures
            r.spec_registers() == Seq::new(16, |i: int| 0u32),
            r.spec_pc() == 0x08000000,
            r.spec_lr() == 0,
            r.spec_sp() == 0x03007F00,
            r.spec_cpsr() == 0x1F,
            r.spec_spsr() == 0,
            r.spec_mode() == CPUMode::User,
            !r.spec_thumb(),
            r.spec_stats() == (CPUStats {
                cycles: 0,
                instructions: 0,
                arm_instructions: 0,
                thumb_instructions: 0,
                cache_hits: 0,
                cache_misses: 0,
                branch_taken: 0,
                branch_not_taken: 0,
            }),
    {
        let registers: Vec<u32> = vec![0u32; 16];
        let r = ARM7TDMI {
            registers,
            pc: 0x08000000,
            lr: 0,
            sp: 0x03007F00,
            cpsr: 0x1F,
            spsr: 0,
            mode: CPUMode::User,
            thumb_mode: false,
            stats: CPUStats::default(),
        };
        proof {
            assert(r.registers@ =~= Seq::new(16, |i: int| 0u32));
        }
        r
    }

    /// Back to the reset state.
    pub fn reset(&mut self)
        ensures
            final(self).spec_registers() == Seq::new(16, |i: int| 0u32),
            final(self).spec_pc() == 0x08000000,
            final(self).spec_lr() == 0,
            final(self).spec_sp() == 0x03007F00,
            final(self).spec_cpsr() == 0x1F,
            final(self).spec_spsr() == 0,
            final(self).spec_mode() == CPUMode::User,
            !final(self).spec_thumb(),
            final(self).spec_stats().instructions == 0,
    {
        *self = ARM7TDMI::new();
    }

    /// The program counter.
    pub fn get_pc(&self) -> (r: u32)
        ensures
            r == self.spec_pc(),
    {
        self.pc
    }

    /// Sets the program counter.
    pub fn set_pc(&mut self, pc: u32)
        ensures
            final(self).spec_pc() == pc,
            final(self).spec_registers() == old(self).spec_registers(),
            final(self).spec_cpsr() == old(self).spec_cpsr(),
            final(self).spec_stats() == old(self).spec_stats(),
            final(self).spec_thumb() == old(self).spec_thumb(),
    {
        proof {
            use_type_invariant(&*self);
        }
        self.pc = pc;
    }

    /// The value of a register; a selector past fifteen reads zero.
    pub fn get_register(&self, reg: usize) -> (r: u32)
        ensures
            reg < 16 ==> r == self.spec_registers()[reg as int],
            reg >= 16 ==> r == 0,
    {
        proof {
            use_type_invariant(self);
        }
        if reg < 16 {
            self.registers[reg]
        } else {
            0
        }
    }

    /// Writes a register; a selector past fifteen is dropped.
    pub fn set_register(&mut self, reg: usize, value: u32)
        ensures
            reg < 16 ==> final(self).spec_registers() == old(self).spec_registers().update(
                reg as int,
                value,
            ),
            reg >= 16 ==> final(self).spec_registers() == old(self).spec_registers(),
            final(self).spec_pc() == old(self).spec_pc(),
            final(self).spec_cpsr() == old(self).spec_cpsr(),
            final(self).spec_stats() == old(self).spec_stats(),
            final(self).spec_thumb() == old(self).spec_thumb(),
    {
        proof {
            use_type_invariant(&*self);
        }
        if reg < 16 {
            self.registers[reg] = value;
        }
    }

    /// Whether a status flag is set.
    pub fn get_flag(&self, flag: CPSRFlag) -> (r: bool)
        ensures
            r == (self.spec_cpsr() & spec_flag_mask(flag) != 0),
    {
        match flag {
            CPSRFlag::Negative => (self.cpsr & 0x80000000) != 0,
            CPSRFlag::Zero => (self.cpsr & 0x40000000) != 0,
            CPSRFlag::Carry => (self.cpsr & 0x20000000) != 0,
            CPSRFlag::Overflow => (self.cpsr & 0x10000000) != 0,
            CPSRFlag::Thumb => (self.cpsr & 0x20) != 0,
            CPSRFlag::FIQDisable => (self.cpsr & 0x40) != 0,
            CPSRFlag::IRQDisable => (self.cpsr & 0x80) != 0,
        }
    }

    /// Sets or clears a status flag, leaving every other bit alone.
    pub fn set_flag(&mut self, flag: CPSRFlag, value: bool)
        ensures
            value ==> final(self).spec_cpsr() == (old(self).spec_cpsr() | spec_flag_mask(flag)),
            !value ==> final(self).spec_cpsr() == (old(self).spec_cpsr() & !spec_flag_mask(
                flag,
            )),
            final(self).spec_registers() == old(self).spec_registers(),
            final(self).spec_pc() == old(self).spec_pc(),
            final(self).spec_stats() == old(self).spec_stats(),
            final(self).spec_thumb() == old(self).spec_thumb(),
    {
        proof {
            use_type_invariant(&*self);
        }
        let mask: u32 = match flag {
            CPSRFlag::Negative => 0x80000000,
            CPSRFlag::Zero => 0x40000000,
            CPSRFlag::Carry => 0x20000000,
            CPSRFlag::Overflow => 0x10000000,
            CPSRFlag::Thumb => 0x20,
            CPSRFlag::FIQDisable => 0x40,
            CPSRFlag::IRQDisable => 0x80,
        };
        if value {
            self.cpsr = self.cpsr | mask;
        } else {
            self.cpsr = self.cpsr & !mask;
        }
    }

    /// Switches to the narrow encoding and records it in the status word.
    pub fn enter_thumb_mode(&mut self)
        ensures
            final(self).spec_thumb(),
            final(self).spec_cpsr() == (old(self).spec_cpsr() | 0x20),
            final(self).spec_registers() == old(self).spec_registers(),
            final(self).spec_pc() == old(self).spec_pc(),
    {
        proof {
            use_type_invariant(&*self);
        }
        self.thumb_mode = true;
        self.set_flag(CPSRFlag::Thumb, true);
    }

    /// Switches to the wide encoding and records it in the status word.
    pub fn enter_arm_mode(&mut self)
        ensures
            !final(self).spec_thumb(),
            final(self).spec_cpsr() == (old(self).spec_cpsr() & !0x20),
            final(self).spec_registers() == old(self).spec_registers(),
            final(self).spec_pc() == old(self).spec_pc(),
    {
        proof {
            use_type_invariant(&*self);
        }
        self.thumb_mode = false;
        self.set_flag(CPSRFlag::Thumb, false);
    }

    /// Executes one instruction in the current encoding, counting it; a
    /// class the engine does not yet implement only advances the program
    /// counter.
    pub fn execute_instruction(&mut self, memory: &mut GBAMemory) -> (r: Result<
        (),
        crate::error::MemoryError,
    >)
        ensures
            r is Ok,
            final(self).spec_stats().instructions == sat_add64(old(self).spec_stats().instructions, 1),
            final(self).spec_stats().cycles == sat_add64(old(self).spec_stats().cycles, 1),
            old(self).spec_thumb() ==> final(self).spec_stats().thumb_instructions == sat_add64(
                old(self).spec_stats().thumb_instructions,
                1,
            ),
            !old(self).spec_thumb() ==> final(self).spec_stats().arm_instructions == sat_add64(
                old(self).spec_stats().arm_instructions,
                1,
            ),
            final(memory).spec_rom() == old(memory).spec_rom(),
    {
        if self.thumb_mode {
            self.execute_thumb_instruction(memory)
        } else {
            self.execute_arm_instruction(memory)
        }
    }

    /// One wide-encoding step.
    fn execute_arm_instruction(&mut self, memory: &mut GBAMemory) -> (r: Result<
        (),
        crate::error::MemoryError,
    >)
        ensures
            r is Ok,
            final(self).spec_stats().instructions == sat_add64(old(self).spec_stats().instructions, 1),
            final(self).spec_stats().cycles == sat_add64(old(self).spec_stats().cycles, 1),
            final(self).spec_stats().arm_instructions == sat_add64(
                old(self).spec_stats().arm_instructions,
                1,
            ),
            final(self).spec_stats().thumb_instructions == old(
                self,
            ).spec_stats().thumb_instructions,
            final(memory).spec_rom() == old(memory).spec_rom(),
    {
        proof {
            use_type_invariant(&*self);
        }
        let instruction = match memory.read_32(self.pc) {
            Ok(w) => w,
            Err(e) => {
                return Err(e);
            },
        };
        let decoded = self.decode_arm_instruction(instruction);
        match decoded {
            ARMInstruction::MOV => {
                let rd = ((instruction >> 12) & 0xF) as usize;
                let operand2 = self.get_operand2(instruction);
                self.set_register(rd, operand2);
                self.pc = self.pc.wrapping_add(4);
            },
            ARMInstruction::ADD => {
                let rd = ((instruction >> 12) & 0xF) as usize;
                let rn = ((instruction >> 16) & 0xF) as usize;
                let operand2 = self.get_operand2(instruction);
                let base = self.get_register(rn);
                let result = base.wrapping_add(operand2);
                self.set_register(rd, result);
                self.update_flags_add(base, operand2, result);
                self.pc = self.pc.wrapping_add(4);
            },
            ARMInstruction::SUB => {
                let rd = ((instruction >> 12) & 0xF) as usize;
                let rn = ((instruction >> 16) & 0xF) as usize;
                let operand2 = self.get_operand2(instruction);
                let base = self.get_register(rn);
                let result = base.wrapping_sub(operand2);
                self.set_register(rd, result);
                self.update_flags_sub(base, operand2, result);
                self.pc = self.pc.wrapping_add(4);
            },
            ARMInstruction::B => {
                let offset = instruction & 0xFFFFFF;
                let extended: u32 = if offset & 0x800000 != 0 {
                    offset | 0xFF000000
                } else {
                    offset
                };
                self.pc = self.pc.wrapping_add(extended << 2);
            },
            ARMInstruction::LDR => {
                let rt = ((instruction >> 12) & 0xF) as usize;
                let rn = ((instruction >> 16) & 0xF) as usize;
                let offset = instruction & 0xFFF;
                let address = self.get_register(rn).wrapping_add(offset);
                let value = match memory.read_32(address) {
                    Ok(w) => w,
                    Err(e) => {
                        return Err(e);
                    },
                };
                self.set_register(rt, value);
                self.pc = self.pc.wrapping_add(4);
            },
            ARMInstruction::STR => {
                let rt = ((instruction >> 12) & 0xF) as usize;
                let rn = ((instruction >> 16) & 0xF) as usize;
                let offset = instruction & 0xFFF;
                let address = self.get_register(rn).wrapping_add(offset);
                let value = self.get_register(rt);
                match memory.write_32(address, value) {
                    Ok(()) => {},
                    Err(e) => {
                        return Err(e);
                    },
                }
                self.pc = self.pc.wrapping_add(4);
            },
            _ => {
                self.pc = self.pc.wrapping_add(4);
            },
        }
        self.bump_counters(false);
        Ok(())
    }

    /// One narrow-encoding step.
    fn execute_thumb_instruction(&mut self, memory: &mut GBAMemory) -> (r: Result<
        (),
        crate::error::MemoryError,
    >)
        ensures
            r is Ok,
            final(self).spec_stats().instructions == sat_add64(old(self).spec_stats().instructions, 1),
            final(self).spec_stats().cycles == sat_add64(old(self).spec_stats().cycles, 1),
            final(self).spec_stats().thumb_instructions == sat_add64(
                old(self).spec_stats().thumb_instructions,
                1,
            ),
            final(self).spec_stats().arm_instructions == old(self).spec_stats().arm_instructions,
            final(memory).spec_rom() == old(memory).spec_rom(),
    {
        proof {
            use_type_invariant(&*self);
        }
        let instruction = match memory.read_16(self.pc) {
            Ok(w) => w,
            Err(e) => {
                return Err(e);
            },
        };
        let decoded = self.decode_thumb_instruction(instruction);
        match decoded {
            ThumbInstruction::MOV => {
                let rd = ((instruction >> 8) & 0x7) as usize;
                let rs = ((instruction >> 3) & 0x7) as usize;
                let value = self.get_register(rs);
                self.set_register(rd, value);
                self.pc = self.pc.wrapping_add(2);
            },
            ThumbInstruction::ADD => {
                let rd = ((instruction >> 8) & 0x7) as usize;
                let rs = ((instruction >> 3) & 0x7) as usize;
                let value = self.get_register(rs);
                let base = self.get_register(rd);
                let result = base.wrapping_add(value);
                self.set_register(rd, result);
                self.pc = self.pc.wrapping_add(2);
            },
            ThumbInstruction::B => {
                let offset = (instruction & 0xFF) as u32;
                let extended: u32 = if offset & 0x80 != 0 {
                    offset | 0xFFFFFF00
                } else {
                    offset
                };
                self.pc = self.pc.wrapping_add(extended << 1);
            },
            _ => {
                self.pc = self.pc.wrapping_add(2);
            },
        }
        self.bump_counters(true);
        Ok(())
    }

    /// Counts one executed instruction and its cycle.
    fn bump_counters(&mut self, thumb: bool)
        ensures
            final(self).spec_stats().instructions == sat_add64(old(self).spec_stats().instructions, 1),
            final(self).spec_stats().cycles == sat_add64(old(self).spec_stats().cycles, 1),
            thumb ==> final(self).spec_stats().thumb_instructions == sat_add64(
                old(self).spec_stats().thumb_instructions,
                1,
            ) && final(self).spec_stats().arm_instructions == old(
                self,
            ).spec_stats().arm_instructions,
            !thumb ==> final(self).spec_stats().arm_instructions == sat_add64(
                old(self).spec_stats().arm_instructions,
                1,
            ) && final(self).spec_stats().thumb_instructions == old(
                self,
            ).spec_stats().thumb_instructions,
            final(self).spec_registers() == old(self).spec_registers(),
            final(self).spec_pc() == old(self).spec_pc(),
            final(self).spec_cpsr() == old(self).spec_cpsr(),
            final(self).spec_thumb() == old(self).spec_thumb(),
    {
        proof {
            use_type_invariant(&*self);
        }
        self.stats.cycles = if self.stats.cycles == u64::MAX {
            u64::MAX
        } else {
            self.stats.cycles + 1
        };
        self.stats.instructions = if self.stats.instructions == u64::MAX {
            u64::MAX
        } else {
            self.stats.instructions + 1
        };
        if thumb {
            self.stats.thumb_instructions = if self.stats.thumb_instructions == u64::MAX {
                u64::MAX
            } else {
                self.stats.thumb_instructions + 1
            };
        } else {
            self.stats.arm_instructions = if self.stats.arm_instructions == u64::MAX {
                u64::MAX
            } else {
                self.stats.arm_instructions + 1
            };
        }
    }

    /// The class of a wide opcode word.
    fn decode_arm_instruction(&self, instruction: u32) -> (r: ARMInstruction)
        ensures
            r == spec_decode_arm(instruction),
    {
        let opcode = (instruction >> 21) & 0xF;
        if opcode == 0x0 {
            ARMInstruction::AND
        } else if opcode == 0x1 {
            ARMInstruction::EOR
        } else if opcode == 0x2 {
            ARMInstruction::SUB
        } else if opcode == 0x3 {
            ARMInstruction::RSB
        } else if opcode == 0x4 {
            ARMInstruction::ADD
        } else if opcode == 0x5 {
            ARMInstruction::ADC
        } else if opcode == 0x6 {
            ARMInstruction::SBC
        } else if opcode == 0x7 {
            ARMInstruction::RSC
        } else if opcode == 0x8 {
            ARMInstruction::TST
        } else if opcode == 0x9 {
            ARMInstruction::TEQ
        } else if opcode == 0xA {
            ARMInstruction::CMP
        } else if opcode == 0xB {
            ARMInstruction::CMN
        } else if opcode == 0xC {
            ARMInstruction::ORR
        } else if opcode == 0xD {
            ARMInstruction::MOV
        } else if opcode == 0xE {
            ARMInstruction::BIC
        } else {
            ARMInstruction::MVN
        }
    }

    /// The class of a narrow opcode word.
    fn decode_thumb_instruction(&self, instruction: u16) -> (r: ThumbInstruction)
        ensures
            r == spec_decode_thumb(instruction),
    {
        let opcode = (instruction >> 10) & 0x3F;
        if opcode <= 0x07 {
            ThumbInstruction::MOV
        } else if opcode <= 0x0F {
            ThumbInstruction::CMP
        } else if opcode <= 0x17 {
            ThumbInstruction::ADD
        } else if opcode <= 0x1F {
            ThumbInstruction::SUB
        } else if opcode <= 0x27 {
            ThumbInstruction::AND
        } else if opcode <= 0x2F {
            ThumbInstruction::EOR
        } else if opcode <= 0x37 {
            ThumbInstruction::LSL
        } else if opcode <= 0x3F {
            ThumbInstruction::LSR
        } else {
            ThumbInstruction::UNDEFINED
        }
    }

    /// The immediate operand of a data-processing word: its low byte
    /// rotated right by twice its rotate field.
    fn get_operand2(&self, instruction: u32) -> (r: u32)
        ensures
            ({
                let immediate = instruction & 0xFF;
                let amount = ((instruction >> 8) & 0xF) * 2;
                &&& amount == 0 ==> r == immediate
                &&& amount != 0 ==> r == (immediate >> amount) | (immediate << (32 - amount))
            }),
    {
        let immediate = instruction & 0xFF;
        let rotate = (instruction >> 8) & 0xF;
        proof {
            assert((instruction >> 8) & 0xF <= 15) by (bit_vector);
        }
        let amount = rotate * 2;
        if amount == 0 {
            immediate
        } else {
            (immediate >> amount) | (immediate << (32 - amount))
        }
    }

    /// Records the flags of an addition: zero and sign of the result,
    /// carry on unsigned overflow, overflow on signed overflow.
    fn update_flags_add(&mut self, a: u32, b: u32, result: u32)
        ensures
            final(self).spec_registers() == old(self).spec_registers(),
            final(self).spec_pc() == old(self).spec_pc(),
            final(self).spec_stats() == old(self).spec_stats(),
            final(self).spec_thumb() == old(self).spec_thumb(),
    {
        self.set_flag(CPSRFlag::Zero, result == 0);
        self.set_flag(CPSRFlag::Negative, (result & 0x80000000) != 0);
        self.set_flag(CPSRFlag::Carry, result < a);
        self.set_flag(CPSRFlag::Overflow, ((a ^ result) & (b ^ result) & 0x80000000) != 0);
    }

    /// Records the flags of a subtraction.
    fn update_flags_sub(&mut self, a: u32, b: u32, result: u32)
        ensures
            final(self).spec_registers() == old(self).spec_registers(),
            final(self).spec_pc() == old(self).spec_pc(),
            final(self).spec_stats() == old(self).spec_stats(),
            final(self).spec_thumb() == old(self).spec_thumb(),
    {
        self.set_flag(CPSRFlag::Zero, result == 0);
        self.set_flag(CPSRFlag::Negative, (result & 0x80000000) != 0);
        self.set_flag(CPSRFlag::Carry, a >= b);
        self.set_flag(CPSRFlag::Overflow, ((a ^ b) & (a ^ result) & 0x80000000) != 0);
    }

    /// The execution counters.
    pub fn get_stats(&self) -> (r: &CPUStats)
        ensures
            r == self.spec_stats(),
    {
        &self.stats
    }
}

impl Default for ARM7TDMI {
    fn default() -> (r: ARM7TDMI)
        ensures
            r.spec_pc() == 0x08000000,
            !r.spec_thumb(),
    {
        ARM7TDMI::new()
    }
}

} // verus!
