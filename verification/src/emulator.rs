//! The plain emulator: a CPU around a memory bus, stepped one instruction
//! at a time by the host.

use vstd::prelude::*;

use crate::cpu::{CPU, ExecError};
use crate::flags::FlagsRegister;
use crate::memory::{MEM_TOP, MemoryBus};
use crate::registers::Registers;

verus! {

/// A snapshot of the plain emulator's machine state.
#[derive(Debug, Clone, Copy, PartialEq, Eq, Structural)]
pub struct CPUState {
    pub registers: Registers,
    pub pc: u16,
    pub sp: u16,
    pub flags: FlagsRegister,
}

/// The machine the host state at the end of a bounded run: stepping stops
/// at the first fault, which leaves the machine as it stood before the
/// faulting instruction.
pub open spec fn spec_run_state(cpu: CPU, steps: nat) -> CPU
    decreases steps,
{
    if steps == 0 {
        cpu
    } else {
        match cpu.spec_step() {
            Err(_) => cpu,
            Ok(next) => spec_run_state(next, (steps - 1) as nat),
        }
    }
}

/// What a bounded run returns: the first fault, or nothing.
pub open spec fn spec_run_result(cpu: CPU, steps: nat) -> Result<(), ExecError>
    decreases steps,
{
    if steps == 0 {
        Ok(())
    } else {
        match cpu.spec_step() {
            Err(e) => Err(e),
            Ok(next) => spec_run_result(next, (steps - 1) as nat),
        }
    }
}

/// The plain emulator.
#[derive(Debug)]
pub struct GameBoy {
    cpu: CPU,
}

impl GameBoy {
    /// The machine inside.
    pub closed spec fn spec_cpu(&self) -> CPU {
        self.cpu
    }

    /// A fresh machine over zeroed memory, ready to execute at 0x100.
    pub fn new() -> (r: GameBoy)
        ensures
            r.spec_cpu().pc == 0x100,
            r.spec_cpu().sp == 0xFFFE,
            r.spec_cpu().registers == (Registers { a: 0, b: 0, c: 0, d: 0, e: 0, f: 0, h: 0, l: 0 }),
            r.spec_cpu().flags == (FlagsRegister {
                zero: false,
                subtract: false,
                half_carry: false,
                carry: false,
            }),
            r.spec_cpu().bus@ == Seq::new(MEM_TOP as nat, |i: int| 0u8),
    {
        let bus = MemoryBus::new();
        let cpu = CPU::new(bus);
        GameBoy { cpu }
    }

    /// Copies a program into memory; bytes past the top of the address
    /// space are silently dropped.
    pub fn load_program(&mut self, start_address: u16, program: &[u8])
        requires
            start_address + program@.len() <= 0x10000,
        ensures
            final(self).spec_cpu().bus@.len() == old(self).spec_cpu().bus@.len(),
            forall|i: int|
                0 <= i < program@.len() && start_address + i < MEM_TOP ==> final(self).spec_cpu().bus@[start_address + i] == program@[i],
            forall|a: int|
                0 <= a < MEM_TOP && !(start_address <= a < start_address + program@.len())
                    ==> final(self).spec_cpu().bus@[a] == old(self).spec_cpu().bus@[a],
            final(self).spec_cpu() == (CPU { bus: final(self).spec_cpu().bus, ..old(self).spec_cpu() }),
    {
        self.cpu.bus.load_program(start_address, program);
    }

    /// One fetch-decode-execute step; a fault leaves the machine unchanged,
    /// the program counter included.
    pub fn step(&mut self) -> (r: Result<(), ExecError>)
        ensures
            old(self).spec_cpu().spec_step() is Ok ==> r == Ok::<(), ExecError>(()) && final(self).spec_cpu() == old(self).spec_cpu().spec_step()->Ok_0,
            old(self).spec_cpu().spec_step() is Err ==> r == Err::<(), ExecError>(
                old(self).spec_cpu().spec_step()->Err_0,
            ) && final(self).spec_cpu() == old(self).spec_cpu(),
    {
        self.cpu.step()
    }

    /// Steps the machine `steps` times, stopping at the first fault.
    pub fn run_steps(&mut self, steps: usize) -> (r: Result<(), ExecError>)
        ensures
            final(self).spec_cpu() == spec_run_state(old(self).spec_cpu(), steps as nat),
            r == spec_run_result(old(self).spec_cpu(), steps as nat),
    {
        let mut i: usize = 0;
        while i < steps
            invariant
                i <= steps,
                spec_run_state(old(self).spec_cpu(), steps as nat) == spec_run_state(
                    self.spec_cpu(),
                    (steps - i) as nat,
                ),
                spec_run_result(old(self).spec_cpu(), steps as nat) == spec_run_result(
                    self.spec_cpu(),
                    (steps - i) as nat,
                ),
            decreases steps - i,
        {
            match self.step() {
                Ok(()) => {},
                Err(e) => {
                    return Err(e);
                },
            }
            i = i + 1;
        }
        Ok(())
    }

    /// A snapshot of the registers, pointers and flags.
    pub fn get_cpu_state(&self) -> (r: CPUState)
        ensures
            r == (CPUState {
                registers: self.spec_cpu().registers,
                pc: self.spec_cpu().pc,
                sp: self.spec_cpu().sp,
                flags: self.spec_cpu().flags,
            }),
    {
        CPUState {
            registers: self.cpu.registers,
            pc: self.cpu.pc,
            sp: self.cpu.sp,
            flags: self.cpu.flags,
        }
    }

    /// The whole memory, read-only.
    pub fn memory(&self) -> (r: &[u8])
        ensures
            r@ == self.spec_cpu().bus@,
    {
        self.cpu.bus.memory()
    }
}

impl Default for GameBoy {
    fn default() -> (r: GameBoy)
        ensures
            r.spec_cpu().pc == 0x100,
            r.spec_cpu().sp == 0xFFFE,
    {
        GameBoy::new()
    }
}

} // verus!
