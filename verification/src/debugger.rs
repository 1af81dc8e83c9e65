//! The debugger: a small state machine that gates whether the execution
//! engine runs. It holds the address-keyed breakpoints, a step counter with
//! an optional ceiling, a log-level filter, and a bounded history of
//! executed instructions.
//!
//! Breakpoint-hit and a reached step limit are ordinary control states, not
//! faults: the host reads them back by inspecting the state after a step.

use vstd::prelude::*;

use crate::breakpoint::Breakpoint;
use crate::cpu::CPU;
use crate::disassembler::{Disassembler, spec_line_at, spec_range_lines};
use crate::flags::FlagsRegister;
use crate::instructions::Instruction;
use crate::memory::MemoryBus;
use crate::optimizer::sat_add64;
use crate::registers::Registers;

verus! {

/// The debugger's control state.
#[derive(Debug, Clone, PartialEq, Eq, Structural)]
pub enum DebuggerState {
    Running,
    Paused,
    Stepping,
    BreakpointHit,
}

/// How much diagnostic output the host wants; `Off` silences everything.
#[derive(Debug, Clone, Copy, PartialEq, Eq, Structural)]
pub enum LogLevel {
    Off,
    Error,
    Warning,
    Info,
    Debug,
    Trace,
}

/// One executed instruction: where it ran, what it was, and snapshots of
/// the register file and flags after it, with its cycle index.
#[derive(Debug, Clone, Copy, PartialEq, Eq, Structural)]
pub struct InstructionRecord {
    pub pc: u16,
    pub instruction: Instruction,
    pub registers: Registers,
    pub flags: FlagsRegister,
    pub cycle: u64,
}

/// A snapshot of the machine for the host: the two pointers, the register
/// file, the flags and the debugger's step count.
#[derive(Debug, Clone, Copy, PartialEq, Eq, Structural)]
pub struct CPUState {
    pub pc: u16,
    pub sp: u16,
    pub registers: Registers,
    pub flags: FlagsRegister,
    pub cycle_count: u64,
}

/// The index of the earliest breakpoint listed for an address, if any.
pub open spec fn spec_bp_found(s: Seq<Breakpoint>, address: u16, i: int) -> bool {
    &&& 0 <= i < s.len()
    &&& s[i].address == address
    &&& forall|j: int| 0 <= j < i ==> s[j].address != address
}

/// Whether any listed breakpoint carries an address.
pub open spec fn spec_bp_exists(s: Seq<Breakpoint>, address: u16) -> bool {
    exists|i: int| 0 <= i < s.len() && s[i].address == address
}

/// The earliest index carrying `address`, as a function of the list.
pub open spec fn spec_first_bp(s: Seq<Breakpoint>, address: u16) -> Option<int>
    decreases s.len(),
{
    if s.len() == 0 {
        None
    } else if s[0].address == address {
        Some(0int)
    } else {
        match spec_first_bp(s.drop_first(), address) {
            Some(i) => Some(i + 1),
            None => None,
        }
    }
}

/// No two listed breakpoints carry the same address; `set_breakpoint`
/// replaces rather than duplicates, so every debugger built through this
/// interface keeps the shape.
pub open spec fn spec_bp_unique(s: Seq<Breakpoint>) -> bool {
    forall|i: int, j: int| 0 <= i < j < s.len() ==> s[i].address != s[j].address
}

/// Whether the earliest breakpoint for `pc` exists and is enabled.
pub open spec fn spec_bp_fires_at(s: Seq<Breakpoint>, pc: u16) -> bool {
    match spec_first_bp(s, pc) {
        Some(i) => s[i].enabled,
        None => false,
    }
}

/// The list after a breakpoint check at `pc`: a firing check raises the
/// fired entry's counter, anything else leaves the list alone.
pub open spec fn spec_bp_after_check(s: Seq<Breakpoint>, pc: u16) -> Seq<Breakpoint> {
    if spec_bp_fires_at(s, pc) {
        let i = spec_first_bp(s, pc)->0;
        s.update(
            i,
            Breakpoint {
                hit_count: crate::optimizer::sat_add64(s[i].hit_count, 1),
                ..s[i]
            },
        )
    } else {
        s
    }
}

/// The list after removing the breakpoint at `address`, if one is listed.
pub open spec fn spec_bp_removed(s: Seq<Breakpoint>, address: u16) -> Seq<Breakpoint> {
    match spec_first_bp(s, address) {
        Some(i) => s.remove(i),
        None => s,
    }
}

/// The list after setting a breakpoint: the earliest entry for the address
/// replaced, or a fresh entry appended.
pub open spec fn spec_bp_set(s: Seq<Breakpoint>, bp: Breakpoint) -> Seq<Breakpoint> {
    match spec_first_bp(s, bp.address) {
        Some(i) => s.update(i, bp),
        None => s.push(bp),
    }
}

/// The earliest-index function agrees with the earliest-index relation.
pub proof fn lemma_first_bp(s: Seq<Breakpoint>, address: u16)
    ensures
        match spec_first_bp(s, address) {
            Some(i) => spec_bp_found(s, address, i),
            None => forall|j: int| 0 <= j < s.len() ==> (#[trigger] s[j]).address != address,
        },
    decreases s.len(),
{
    if s.len() > 0 && s[0].address != address {
        lemma_first_bp(s.drop_first(), address);
        match spec_first_bp(s.drop_first(), address) {
            Some(i) => {
                assert(s.drop_first()[i] == s[i + 1]);
                assert forall|j: int| 0 <= j < i + 1 implies (#[trigger] s[j]).address
                    != address by {
                    if j > 0 {
                        assert(s.drop_first()[j - 1] == s[j]);
                    }
                }
            },
            None => {
                assert forall|j: int| 0 <= j < s.len() implies (#[trigger] s[j]).address
                    != address by {
                    if j > 0 {
                        assert(s.drop_first()[j - 1] == s[j]);
                    }
                }
            },
        }
    }
}

/// An earliest-index witness pins the earliest-index function.
pub proof fn lemma_first_bp_agrees(s: Seq<Breakpoint>, address: u16, i: int)
    requires
        spec_bp_found(s, address, i),
    ensures
        spec_first_bp(s, address) == Some(i),
{
    lemma_first_bp(s, address);
    match spec_first_bp(s, address) {
        Some(k) => {
            if k < i {
                assert(s[k].address != address);
            }
            if i < k {
                assert(s[i].address != address);
            }
        },
        None => {
            assert(s[i].address != address);
        },
    }
}

/// The debugger: control state, breakpoints, step accounting, log filter
/// and the bounded execution history.
#[derive(Debug)]
pub struct Debugger {
    pub state: DebuggerState,
    /// Address-keyed: `set_breakpoint` replaces the entry for an address
    /// rather than adding a second one.
    pub breakpoints: Vec<Breakpoint>,
    pub disassembler: Disassembler,
    pub step_count: u64,
    pub max_steps: Option<u64>,
    pub log_level: LogLevel,
    pub instruction_history: Vec<InstructionRecord>,
    pub max_history: usize,
}

/// The earliest index holding `address`, or `None` when no breakpoint
/// carries it.
fn find_breakpoint(breakpoints: &Vec<Breakpoint>, address: u16) -> (r: Option<usize>)
    ensures
        match r {
            Some(i) => spec_bp_found(breakpoints@, address, i as int),
            None => !spec_bp_exists(breakpoints@, address),
        },
{
    let mut i: usize = 0;
    while i < breakpoints.len()
        invariant
            i <= breakpoints@.len(),
            forall|j: int| 0 <= j < i ==> breakpoints@[j].address != address,
        decreases breakpoints@.len() - i,
    {
        if breakpoints[i].address == address {
            return Some(i);
        }
        i = i + 1;
    }
    None
}

impl Debugger {
    /// A fresh debugger: running, no breakpoints, no ceiling, log level
    /// `Info`, and room for 1000 history records.
    pub fn new() -> (r: Debugger)
        ensures
            r.state == DebuggerState::Running,
            r.breakpoints@.len() == 0,
            spec_bp_unique(r.breakpoints@),
            r.disassembler == (Disassembler { show_addresses: true, show_bytes: true }),
            r.step_count == 0,
            r.max_steps is None,
            r.log_level == LogLevel::Info,
            r.instruction_history@.len() == 0,
            r.max_history == 1000,
    {
        Debugger {
            state: DebuggerState::Running,
            breakpoints: Vec::new(),
            disassembler: Disassembler::new(),
            step_count: 0,
            max_steps: None,
            log_level: LogLevel::Info,
            instruction_history: Vec::new(),
            max_history: 1000,
        }
    }

    /// Sets a breakpoint at an address: the entry for that address is
    /// replaced when one exists, added otherwise; either way it comes out
    /// enabled with a zero hit counter.
    pub fn set_breakpoint(&mut self, address: u16, condition: Option<String>)
        ensures
            final(self).breakpoints@ == spec_bp_set(
                old(self).breakpoints@,
                Breakpoint { address, condition, enabled: true, hit_count: 0 },
            ),
            spec_bp_unique(old(self).breakpoints@) ==> spec_bp_unique(final(self).breakpoints@),
            *final(self) == (Debugger { breakpoints: final(self).breakpoints, ..*old(self) }),
    {
        let breakpoint = Breakpoint::new(address, condition);
        let ghost olds = self.breakpoints@;
        match find_breakpoint(&self.breakpoints, address) {
            Some(i) => {
                proof {
                    lemma_first_bp_agrees(olds, address, i as int);
                }
                self.breakpoints[i] = breakpoint;
                proof {
                    if spec_bp_unique(olds) {
                        assert forall|a: int, b: int|
                            0 <= a < b < self.breakpoints@.len() implies self.breakpoints@[
                        a].address != self.breakpoints@[b].address by {
                            assert(olds[a].address == self.breakpoints@[a].address);
                            assert(olds[b].address == self.breakpoints@[b].address);
                        }
                    }
                }
            },
            None => {
                proof {
                    lemma_first_bp(olds, address);
                    if spec_first_bp(olds, address) is Some {
                        let i = spec_first_bp(olds, address)->0;
                        assert(olds[i].address == address);
                    }
                }
                self.breakpoints.push(breakpoint);
                proof {
                    if spec_bp_unique(olds) {
                        assert forall|a: int, b: int|
                            0 <= a < b < self.breakpoints@.len() implies self.breakpoints@[
                        a].address != self.breakpoints@[b].address by {
                            if b < olds.len() {
                                assert(olds[a].address != olds[b].address);
                            } else {
                                assert(olds[a].address != address);
                            }
                        }
                    }
                }
            },
        }
    }

    /// Removes the breakpoint at an address; an address without one is left
    /// alone.
    pub fn remove_breakpoint(&mut self, address: u16)
        ensures
            final(self).breakpoints@ == spec_bp_removed(old(self).breakpoints@, address),
            spec_bp_unique(old(self).breakpoints@) ==> spec_bp_unique(final(self).breakpoints@),
            *final(self) == (Debugger { breakpoints: final(self).breakpoints, ..*old(self) }),
    {
        let ghost olds = self.breakpoints@;
        match find_breakpoint(&self.breakpoints, address) {
            Some(i) => {
                proof {
                    lemma_first_bp_agrees(olds, address, i as int);
                }
                self.breakpoints.remove(i);
                proof {
                    if spec_bp_unique(olds) {
                        assert forall|a: int, b: int|
                            0 <= a < b < self.breakpoints@.len() implies self.breakpoints@[
                        a].address != self.breakpoints@[b].address by {
                            let a0 = if a < i { a } else { a + 1 };
                            let b0 = if b < i { b } else { b + 1 };
                            assert(self.breakpoints@[a] == olds[a0]);
                            assert(self.breakpoints@[b] == olds[b0]);
                            assert(olds[a0].address != olds[b0].address);
                        }
                    }
                }
            },
            None => {
                proof {
                    lemma_first_bp(olds, address);
                    if spec_first_bp(olds, address) is Some {
                        let i = spec_first_bp(olds, address)->0;
                        assert(olds[i].address == address);
                    }
                }
            },
        }
    }

    /// Removes every breakpoint.
    pub fn clear_breakpoints(&mut self)
        ensures
            final(self).breakpoints@.len() == 0,
            spec_bp_unique(final(self).breakpoints@),
            *final(self) == (Debugger { breakpoints: final(self).breakpoints, ..*old(self) }),
    {
        self.breakpoints.clear();
    }

    /// Moves to `Paused`; while paused, stepping is a no-op.
    pub fn pause(&mut self)
        ensures
            *final(self) == (Debugger { state: DebuggerState::Paused, ..*old(self) }),
    {
        self.state = DebuggerState::Paused;
    }

    /// Moves back to `Running`, from `Paused` or from `BreakpointHit`.
    pub fn resume(&mut self)
        ensures
            *final(self) == (Debugger { state: DebuggerState::Running, ..*old(self) }),
    {
        self.state = DebuggerState::Running;
    }

    /// Moves to `Stepping`.
    pub fn step(&mut self)
        ensures
            *final(self) == (Debugger { state: DebuggerState::Stepping, ..*old(self) }),
    {
        self.state = DebuggerState::Stepping;
    }

    /// Checks the program counter against the breakpoints before the
    /// instruction there runs. It fires exactly when some breakpoint carries
    /// this address, the earliest such entry is enabled: then that entry's
    /// hit counter rises by one — exactly once per arrival — and the state
    /// becomes `BreakpointHit`. Otherwise nothing changes.
    pub fn check_breakpoint(
        &mut self,
        pc: u16,
        _registers: &Registers,
        _flags: &FlagsRegister,
    ) -> (r: bool)
        ensures
            r == (exists|i: int|
                spec_bp_found(old(self).breakpoints@, pc, i) && old(self).breakpoints@[i].enabled),
            r == spec_bp_fires_at(old(self).breakpoints@, pc),
            final(self).breakpoints@ == spec_bp_after_check(old(self).breakpoints@, pc),
            final(self).state == if r {
                DebuggerState::BreakpointHit
            } else {
                old(self).state
            },
            spec_bp_unique(old(self).breakpoints@) ==> spec_bp_unique(final(self).breakpoints@),
            r ==> *final(self) == (Debugger {
                state: DebuggerState::BreakpointHit,
                breakpoints: final(self).breakpoints,
                ..*old(self)
            }),
            !r ==> *final(self) == (Debugger { breakpoints: final(self).breakpoints, ..*old(self) }),
    {
        let ghost olds = self.breakpoints@;
        match find_breakpoint(&self.breakpoints, pc) {
            Some(i) => {
                proof {
                    lemma_first_bp_agrees(olds, pc, i as int);
                }
                let triggered = self.breakpoints[i].should_trigger_simple(pc);
                proof {
                    if spec_bp_unique(olds) {
                        assert forall|a: int, b: int|
                            0 <= a < b < self.breakpoints@.len() implies self.breakpoints@[
                        a].address != self.breakpoints@[b].address by {
                            assert(olds[a].address == self.breakpoints@[a].address);
                            assert(olds[b].address == self.breakpoints@[b].address);
                        }
                    }
                }
                if triggered {
                    self.state = DebuggerState::BreakpointHit;
                    true
                } else {
                    proof {
                        assert(self.breakpoints@ =~= olds);
                    }
                    false
                }
            },
            None => {
                proof {
                    lemma_first_bp(olds, pc);
                    if spec_first_bp(olds, pc) is Some {
                        let i = spec_first_bp(olds, pc)->0;
                        assert(olds[i].address == pc);
                    }
                }
                false
            },
        }
    }

    /// Appends one executed instruction to the history, with the register
    /// and flag snapshots it left behind; once the history outgrows its
    /// capacity the oldest record is evicted.
    pub fn record_instruction(
        &mut self,
        pc: u16,
        instruction: Instruction,
        registers: &Registers,
        flags: &FlagsRegister,
        cycle: u64,
    )
        ensures
            ({
                let pushed = old(self).instruction_history@.push(
                    InstructionRecord { pc, instruction, registers: *registers, flags: *flags, cycle },
                );
                &&& pushed.len() > old(self).max_history ==> final(self).instruction_history@
                    == pushed.subrange(1, pushed.len() as int)
                &&& pushed.len() <= old(self).max_history ==> final(self).instruction_history@
                    == pushed
            }),
            *final(self) == (Debugger {
                instruction_history: final(self).instruction_history,
                ..*old(self)
            }),
    {
        let record = InstructionRecord {
            pc,
            instruction,
            registers: *registers,
            flags: *flags,
            cycle,
        };
        self.instruction_history.push(record);
        if self.instruction_history.len() > self.max_history {
            self.instruction_history.remove(0);
            proof {
                assert(self.instruction_history@ =~= old(self).instruction_history@.push(
                    record,
                ).subrange(1, old(self).instruction_history@.push(record).len() as int));
            }
        }
    }

    /// A snapshot of the machine, with this debugger's step count as the
    /// cycle counter.
    pub fn get_cpu_state(&self, cpu: &CPU) -> (r: CPUState)
        ensures
            r == (CPUState {
                pc: cpu.pc,
                sp: cpu.sp,
                registers: cpu.registers,
                flags: cpu.flags,
                cycle_count: self.step_count,
            }),
    {
        CPUState {
            pc: cpu.pc,
            sp: cpu.sp,
            registers: cpu.registers,
            flags: cpu.flags,
            cycle_count: self.step_count,
        }
    }

    /// Renders the instruction at one address; never alters debugger state.
    pub fn disassemble_instruction(&self, pc: u16, memory: &MemoryBus) -> (r: String)
        ensures
            r@ == spec_line_at(
                self.disassembler.show_addresses,
                self.disassembler.show_bytes,
                *memory,
                pc,
            ),
    {
        self.disassembler.disassemble_at(pc, memory)
    }

    /// Renders an address range; never alters debugger state.
    pub fn disassemble_range(&self, start: u16, end: u16, memory: &MemoryBus) -> (r: Vec<String>)
        ensures
            r.deep_view() == spec_range_lines(
                self.disassembler.show_addresses,
                self.disassembler.show_bytes,
                *memory,
                start as int,
                end as int,
            ),
    {
        self.disassembler.disassemble_range(start, end, memory)
    }

    /// Sets the log-level filter.
    pub fn set_log_level(&mut self, level: LogLevel)
        ensures
            *final(self) == (Debugger { log_level: level, ..*old(self) }),
    {
        self.log_level = level;
    }

    /// The records of the executed instructions, oldest first.
    pub fn get_instruction_history(&self) -> (r: &[InstructionRecord])
        ensures
            r@ == self.instruction_history@,
    {
        self.instruction_history.as_slice()
    }

    /// Sets or clears the step ceiling.
    pub fn set_max_steps(&mut self, max_steps: Option<u64>)
        ensures
            *final(self) == (Debugger { max_steps, ..*old(self) }),
    {
        self.max_steps = max_steps;
    }

    /// Whether the configured step ceiling, if any, has been reached.
    pub fn check_max_steps(&self) -> (r: bool)
        ensures
            r == (self.max_steps is Some && self.step_count >= self.max_steps->0),
    {
        match self.max_steps {
            Some(max) => self.step_count >= max,
            None => false,
        }
    }

    /// Counts one successfully executed instruction.
    pub fn increment_step_count(&mut self)
        ensures
            *final(self) == (Debugger {
                step_count: sat_add64(old(self).step_count, 1),
                ..*old(self)
            }),
    {
        self.step_count = if self.step_count > u64::MAX - 1 {
            u64::MAX
        } else {
            self.step_count + 1
        };
    }
}

impl Default for Debugger {
    fn default() -> (r: Debugger)
        ensures
            r.state == DebuggerState::Running,
            r.breakpoints@.len() == 0,
            r.step_count == 0,
    {
        Debugger::new()
    }
}

} // verus!
