//! The full emulator: the instrumented CPU, the LCD, and the debugger that
//! gates every step. A step first asks the debugger whether execution is
//! permitted — not paused, not halted at a breakpoint, step limit not
//! reached — and only then runs one instruction, ticks the display and
//! books the step.

use vstd::prelude::*;

use crate::cpu::ExecError;
use crate::debugger::{CPUState, Debugger, DebuggerState, LogLevel, spec_bp_found};
use crate::disassembler::{spec_line_at, spec_range_lines};
use crate::fmt::{append_dec, append_hex2, append_hex4, spec_dec, spec_hex2, spec_hex4};
use crate::flags::FlagsRegister;
use crate::lcd::LCD;
use crate::memory::{MEM_TOP, MemoryBus};
use crate::optimizer::{OptimizedCPU, PerformanceStats, sat_add64};
use crate::registers::Registers;

verus! {

/// Whether some breakpoint fires for this program counter: the earliest
/// entry carrying the address exists and is enabled.
pub open spec fn spec_bp_fires(debugger: Debugger, pc: u16) -> bool {
    exists|i: int|
        spec_bp_found(debugger.breakpoints@, pc, i) && debugger.breakpoints@[i].enabled
}

/// The instruction a machine's next step runs, where one runs at all.
pub open spec fn outcome_instruction(cpu: OptimizedCPU) -> crate::instructions::Instruction {
    cpu.spec_current_instruction()->Ok_0
}

/// Everything one gated step reads or writes, apart from the display tick:
/// the machine state, the memory, the decode cache by contents, the
/// counters, and the debugger's control fields. The host-side fields the
/// step never touches — the display, the frame counters, the log level,
/// the disassembler flags — stay outside.
pub struct GatedObs {
    pub registers: Registers,
    pub flags: FlagsRegister,
    pub sp: u16,
    pub pc: u16,
    pub bus: MemoryBus,
    pub slots: Seq<Option<crate::optimizer::InstructionCacheEntry>>,
    pub capacity: nat,
    pub hits: u64,
    pub misses: u64,
    pub cycle_count: u64,
    pub instruction_count: u64,
    pub state: DebuggerState,
    pub breakpoints: Seq<crate::breakpoint::Breakpoint>,
    pub step_count: u64,
    pub max_steps: Option<u64>,
    pub history: Seq<crate::debugger::InstructionRecord>,
    pub max_history: nat,
    pub running: bool,
}

/// The observation of a machine.
pub open spec fn spec_obs(g: AdvancedGameBoy) -> GatedObs {
    GatedObs {
        registers: g.cpu.registers,
        flags: g.cpu.flags,
        sp: g.cpu.sp,
        pc: g.cpu.pc,
        bus: g.cpu.bus,
        slots: g.cpu.optimizer.spec_slots(),
        capacity: g.cpu.optimizer.spec_capacity() as nat,
        hits: g.cpu.optimizer.spec_hits(),
        misses: g.cpu.optimizer.spec_misses(),
        cycle_count: g.cpu.cycle_count,
        instruction_count: g.cpu.instruction_count,
        state: g.debugger.state,
        breakpoints: g.debugger.breakpoints@,
        step_count: g.debugger.step_count,
        max_steps: g.debugger.max_steps,
        history: g.debugger.instruction_history@,
        max_history: g.debugger.max_history as nat,
        running: g.running,
    }
}

/// The slot index the program counter maps to.
pub open spec fn obs_index(o: GatedObs) -> int {
    o.pc as int % o.capacity as int
}

/// Whether the cache hits for the current program counter.
pub open spec fn obs_hit(o: GatedObs) -> bool {
    match o.slots[obs_index(o)] {
        Some(entry) => entry.tag == o.pc,
        None => false,
    }
}

/// The instruction the next executing step runs: the tag-matching cached
/// entry, or a fresh fetch through the bus.
pub open spec fn obs_current_instruction(o: GatedObs) -> Result<
    crate::instructions::Instruction,
    ExecError,
> {
    if obs_hit(o) {
        Ok(o.slots[obs_index(o)]->Some_0.instruction)
    } else {
        crate::cpu::spec_fetch(o.bus, o.pc)
    }
}

/// The observation with the cache lookup counted.
pub open spec fn obs_counted(o: GatedObs) -> GatedObs {
    if obs_hit(o) {
        GatedObs { hits: sat_add64(o.hits, 1), ..o }
    } else {
        GatedObs { misses: sat_add64(o.misses, 1), ..o }
    }
}

/// One executing step, after the gates have let it through: the cache is
/// consulted and counted, the instruction runs, a successful miss inserts
/// the materialised instruction with its cost, the history takes its
/// record, the step counter rises, and reaching the ceiling clears the
/// running flag. A fault leaves everything but the lookup count alone.
pub open spec fn obs_machine_advance(o: GatedObs) -> (GatedObs, Result<(), ExecError>) {
    let counted = obs_counted(o);
    match obs_current_instruction(o) {
        Err(e) => (counted, Err(e)),
        Ok(i) => match crate::cpu::spec_execute(i, o.pc, o.registers, o.flags, o.sp) {
            Err(e) => (counted, Err(e)),
            Ok(out) => {
                let slots = if obs_hit(o) {
                    o.slots
                } else {
                    o.slots.update(
                        obs_index(o),
                        Some(
                            crate::optimizer::InstructionCacheEntry {
                                tag: o.pc,
                                instruction: i,
                                cycles: out.cycles,
                                size: out.size as u8,
                            },
                        ),
                    )
                };
                let steps = sat_add64(o.step_count, 1);
                let record = crate::debugger::InstructionRecord {
                    pc: o.pc,
                    instruction: i,
                    registers: out.registers,
                    flags: out.flags,
                    cycle: steps,
                };
                let pushed = o.history.push(record);
                let history = if pushed.len() > o.max_history {
                    pushed.subrange(1, pushed.len() as int)
                } else {
                    pushed
                };
                (
                    GatedObs {
                        registers: out.registers,
                        flags: out.flags,
                        sp: out.sp,
                        pc: out.next_pc,
                        slots,
                        cycle_count: sat_add64(o.cycle_count, out.cycles as u64),
                        instruction_count: sat_add64(o.instruction_count, 1),
                        step_count: steps,
                        history,
                        running: !(o.max_steps is Some && steps >= o.max_steps->0),
                        ..counted
                    },
                    Ok(()),
                )
            },
        },
    }
}

/// One ungated single step: only the running flag and the breakpoint gate
/// stand before the instruction.
pub open spec fn obs_single_step(o: GatedObs) -> (GatedObs, Result<(), ExecError>) {
    if !o.running {
        (o, Ok(()))
    } else if crate::debugger::spec_bp_fires_at(o.breakpoints, o.pc) {
        (
            GatedObs {
                state: DebuggerState::BreakpointHit,
                breakpoints: crate::debugger::spec_bp_after_check(o.breakpoints, o.pc),
                ..o
            },
            Ok(()),
        )
    } else {
        obs_machine_advance(o)
    }
}

/// One gated step: a paused or breakpoint-halted debugger also stops it.
pub open spec fn obs_gated_step(o: GatedObs) -> (GatedObs, Result<(), ExecError>) {
    if !o.running {
        (o, Ok(()))
    } else if o.state == DebuggerState::Paused || o.state == DebuggerState::BreakpointHit {
        (o, Ok(()))
    } else {
        obs_single_step(o)
    }
}

/// `n` gated steps, stopping at the first fault.
pub open spec fn obs_run_steps(o: GatedObs, n: nat) -> (GatedObs, Result<(), ExecError>)
    decreases n,
{
    if n == 0 {
        (o, Ok(()))
    } else {
        let stepped = obs_gated_step(o);
        match stepped.1 {
            Err(e) => stepped,
            Ok(()) => obs_run_steps(stepped.0, (n - 1) as nat),
        }
    }
}

/// Gated steps until the machine halts or leaves the plain running state,
/// for at most `fuel` steps, stopping at the first fault.
pub open spec fn obs_run_until_stopped(o: GatedObs, fuel: nat) -> (GatedObs, Result<
    (),
    ExecError,
>)
    decreases fuel,
{
    if fuel == 0 || !o.running || o.state != DebuggerState::Running {
        (o, Ok(()))
    } else {
        let stepped = obs_gated_step(o);
        match stepped.1 {
            Err(e) => stepped,
            Ok(()) => obs_run_until_stopped(stepped.0, (fuel - 1) as nat),
        }
    }
}

/// A run that ends in `BreakpointHit` without starting there has fired
/// exactly one breakpoint: the earliest enabled entry at the final program
/// counter, whose hit counter rose by one while every other entry stood
/// still; the firing gate ran before the instruction at that address, so
/// it did not execute.
pub proof fn lemma_run_stops_at_breakpoint(o: GatedObs, fuel: nat)
    ensures
        ({
            let run = obs_run_until_stopped(o, fuel);
            run.1 is Ok && run.0.state == DebuggerState::BreakpointHit && o.state
                != DebuggerState::BreakpointHit ==> exists|j: int|
                spec_bp_found(o.breakpoints, run.0.pc, j) && o.breakpoints[j].enabled && run.0.breakpoints == o.breakpoints.update(
                    j,
                    crate::breakpoint::Breakpoint {
                        hit_count: sat_add64(o.breakpoints[j].hit_count, 1),
                        ..o.breakpoints[j]
                    },
                )
        }),
    decreases fuel,
{
    if !(fuel == 0 || !o.running || o.state != DebuggerState::Running) {
        let stepped = obs_gated_step(o);
        if crate::debugger::spec_bp_fires_at(o.breakpoints, o.pc) {
            crate::debugger::lemma_first_bp(o.breakpoints, o.pc);
            let i = crate::debugger::spec_first_bp(o.breakpoints, o.pc)->0;
            assert(spec_bp_found(o.breakpoints, o.pc, i));
            assert(stepped.0.state == DebuggerState::BreakpointHit);
            assert(obs_run_until_stopped(stepped.0, (fuel - 1) as nat) == (
                stepped.0,
                Ok::<(), ExecError>(()),
            ));
            let run = obs_run_until_stopped(o, fuel);
            assert(run == (stepped.0, Ok::<(), ExecError>(())));
            assert(run.0.pc == o.pc);
            assert(spec_bp_found(o.breakpoints, run.0.pc, i) && o.breakpoints[i].enabled
                && run.0.breakpoints == o.breakpoints.update(
                i,
                crate::breakpoint::Breakpoint {
                    hit_count: sat_add64(o.breakpoints[i].hit_count, 1),
                    ..o.breakpoints[i]
                },
            ));
        } else {
            if stepped.1 is Ok {
                lemma_run_stops_at_breakpoint(stepped.0, (fuel - 1) as nat);
                let run = obs_run_until_stopped(o, fuel);
                assert(run == obs_run_until_stopped(stepped.0, (fuel - 1) as nat));
                assert(stepped.0.breakpoints == o.breakpoints);
                assert(stepped.0.state == o.state);
                if run.1 is Ok && run.0.state == DebuggerState::BreakpointHit {
                    let j = choose|j: int|
                        spec_bp_found(stepped.0.breakpoints, run.0.pc, j)
                            && stepped.0.breakpoints[j].enabled && run.0.breakpoints
                            == stepped.0.breakpoints.update(
                            j,
                            crate::breakpoint::Breakpoint {
                                hit_count: sat_add64(stepped.0.breakpoints[j].hit_count, 1),
                                ..stepped.0.breakpoints[j]
                            },
                        );
                    assert(spec_bp_found(o.breakpoints, run.0.pc, j) && o.breakpoints[j].enabled
                        && run.0.breakpoints == o.breakpoints.update(
                        j,
                        crate::breakpoint::Breakpoint {
                            hit_count: sat_add64(o.breakpoints[j].hit_count, 1),
                            ..o.breakpoints[j]
                        },
                    ));
                }
            }
        }
    }
}

/// The full emulator.
#[derive(Debug)]
pub struct AdvancedGameBoy {
    pub cpu: OptimizedCPU,
    pub lcd: LCD,
    pub debugger: Debugger,
    /// Cleared when the machine halts itself, by `stop` or by reaching the
    /// step ceiling; reaching the ceiling is a normal terminal condition,
    /// not an error.
    pub running: bool,
    pub frame_count: u64,
    pub target_fps: u32,
    /// The frame budget in milliseconds.
    pub frame_time_ms: u64,
}

impl AdvancedGameBoy {
    /// A fresh machine: not running, no frames, 60 frames per second.
    pub fn new() -> (r: AdvancedGameBoy)
        ensures
            !r.running,
            r.frame_count == 0,
            r.target_fps == 60,
            r.frame_time_ms == 16,
            r.cpu.pc == 0x100,
            r.cpu.sp == 0xFFFE,
            r.cpu.registers == (Registers { a: 0, b: 0, c: 0, d: 0, e: 0, f: 0, h: 0, l: 0 }),
            r.cpu.flags == (FlagsRegister {
                zero: false,
                subtract: false,
                half_carry: false,
                carry: false,
            }),
            r.cpu.bus@ == Seq::new(MEM_TOP as nat, |i: int| 0u8),
            r.cpu.cycle_count == 0,
            r.cpu.instruction_count == 0,
            r.cpu.optimizer.spec_hits() == 0,
            r.cpu.optimizer.spec_misses() == 0,
            forall|pc: u16| !r.cpu.optimizer.spec_hit(pc),
            r.debugger.state == DebuggerState::Running,
            r.debugger.breakpoints@.len() == 0,
            r.debugger.step_count == 0,
            r.debugger.max_steps is None,
            r.debugger.instruction_history@.len() == 0,
    {
        let bus = MemoryBus::new();
        AdvancedGameBoy {
            cpu: OptimizedCPU::new(bus),
            lcd: LCD::new(),
            debugger: Debugger::new(),
            running: false,
            frame_count: 0,
            target_fps: 60,
            frame_time_ms: 16,
        }
    }

    /// Starts the machine.
    pub fn start(&mut self)
        ensures
            *final(self) == (AdvancedGameBoy { running: true, ..*old(self) }),
    {
        self.running = true;
    }

    /// Halts the machine; stepping becomes a no-op until it is started
    /// again.
    pub fn stop(&mut self)
        ensures
            *final(self) == (AdvancedGameBoy { running: false, ..*old(self) }),
    {
        self.running = false;
    }

    /// Back to power-on state: fresh CPU over zeroed memory, fresh
    /// debugger, black screen, not running.
    pub fn reset(&mut self)
        ensures
            !final(self).running,
            final(self).frame_count == 0,
            final(self).cpu.pc == 0x100,
            final(self).cpu.sp == 0xFFFE,
            final(self).cpu.registers == (Registers {
                a: 0,
                b: 0,
                c: 0,
                d: 0,
                e: 0,
                f: 0,
                h: 0,
                l: 0,
            }),
            final(self).cpu.bus@ == Seq::new(MEM_TOP as nat, |i: int| 0u8),
            final(self).cpu.flags == (FlagsRegister {
                zero: false,
                subtract: false,
                half_carry: false,
                carry: false,
            }),
            final(self).cpu.cycle_count == 0,
            final(self).cpu.instruction_count == 0,
            final(self).cpu.optimizer.spec_hits() == 0,
            final(self).cpu.optimizer.spec_misses() == 0,
            final(self).cpu.optimizer.spec_capacity() == 1024,
            forall|pc: u16| !final(self).cpu.optimizer.spec_hit(pc),
            final(self).cpu.optimizer.spec_slots() == Seq::new(
                1024,
                |i: int| None::<crate::optimizer::InstructionCacheEntry>,
            ),
            final(self).debugger.state == DebuggerState::Running,
            final(self).debugger.breakpoints@.len() == 0,
            final(self).debugger.step_count == 0,
            final(self).debugger.max_steps is None,
            final(self).debugger.instruction_history@.len() == 0,
            final(self).debugger.log_level == crate::debugger::LogLevel::Info,
            final(self).debugger.max_history == 1000,
            final(self).lcd.mode == crate::lcd::LCDMode::HBlank,
            final(self).lcd.mode_clock == 0,
            final(self).lcd.line == 0,
            final(self).target_fps == old(self).target_fps,
            final(self).frame_time_ms == old(self).frame_time_ms,
    {
        let bus = MemoryBus::new();
        self.cpu = OptimizedCPU::new(bus);
        self.lcd.reset();
        self.debugger = Debugger::new();
        self.running = false;
        self.frame_count = 0;
    }

    /// One gated step. A machine that is not running, is paused, or stands
    /// at a breakpoint does nothing. Otherwise the breakpoint check runs
    /// first, before the instruction at the program counter: a firing
    /// breakpoint halts the step there. Only then does the instruction
    /// execute, the history take its record, the display tick once, the
    /// step counter rise — and, the moment the counter reaches a
    /// configured ceiling, the running flag clears, whatever breakpoints
    /// remain outstanding.
    pub fn step(&mut self) -> (r: Result<(), ExecError>)
        ensures
            !old(self).running ==> r == Ok::<(), ExecError>(()) && *final(self) == *old(self),
            old(self).running && (old(self).debugger.state == DebuggerState::Paused || old(self).debugger.state == DebuggerState::BreakpointHit) ==> r == Ok::<(), ExecError>(())
                && *final(self) == *old(self),
            old(self).running && old(self).debugger.state != DebuggerState::Paused && old(self).debugger.state != DebuggerState::BreakpointHit && spec_bp_fires(
                old(self).debugger,
                old(self).cpu.pc,
            ) ==> r == Ok::<(), ExecError>(()) && final(self).debugger.state
                == DebuggerState::BreakpointHit && final(self).cpu.pc == old(self).cpu.pc && final(self).cpu.registers == old(self).cpu.registers && final(self).cpu.instruction_count == old(self).cpu.instruction_count && final(self).running == old(self).running && final(self).debugger.step_count == old(self).debugger.step_count && final(self).debugger.max_steps == old(self).debugger.max_steps,
            old(self).running && old(self).debugger.state != DebuggerState::Paused && old(self).debugger.state != DebuggerState::BreakpointHit && !spec_bp_fires(
                old(self).debugger,
                old(self).cpu.pc,
            ) ==> ({
                let outcome = old(self).cpu.spec_step_outcome();
                match outcome {
                    Err(e) => r == Err::<(), ExecError>(e) && final(self).cpu.pc == old(self).cpu.pc && final(self).cpu.registers == old(self).cpu.registers && final(self).running == old(self).running && final(self).debugger.step_count == old(self).debugger.step_count && final(self).debugger.max_steps == old(self).debugger.max_steps,
                    Ok(o) => {
                        let steps = sat_add64(old(self).debugger.step_count, 1);
                        &&& r == Ok::<(), ExecError>(())
                        &&& final(self).cpu.registers == o.registers
                        &&& final(self).cpu.flags == o.flags
                        &&& final(self).cpu.sp == o.sp
                        &&& final(self).cpu.pc == o.next_pc
                        &&& final(self).cpu.bus == old(self).cpu.bus
                        &&& final(self).cpu.cycle_count == sat_add64(
                            old(self).cpu.cycle_count,
                            o.cycles as u64,
                        )
                        &&& final(self).cpu.instruction_count == sat_add64(
                            old(self).cpu.instruction_count,
                            1,
                        )
                        &&& final(self).debugger.step_count == steps
                        &&& final(self).debugger.breakpoints@ == old(self).debugger.breakpoints@
                        &&& final(self).debugger.max_steps == old(self).debugger.max_steps
                        &&& final(self).running == !(old(self).debugger.max_steps is Some
                            && steps >= old(self).debugger.max_steps->0)
                        &&& final(self).frame_count == old(self).frame_count
                        &&& ({
                            let record = crate::debugger::InstructionRecord {
                                pc: old(self).cpu.pc,
                                instruction: outcome_instruction(old(self).cpu),
                                registers: o.registers,
                                flags: o.flags,
                                cycle: steps,
                            };
                            let pushed = old(self).debugger.instruction_history@.push(record);
                            &&& pushed.len() > old(self).debugger.max_history ==> final(self).debugger.instruction_history@ == pushed.subrange(
                                1,
                                pushed.len() as int,
                            )
                            &&& pushed.len() <= old(self).debugger.max_history ==> final(self).debugger.instruction_history@ == pushed
                        })
                    },
                }
            }),
            spec_obs(*final(self)) == obs_gated_step(spec_obs(*old(self))).0,
            r == obs_gated_step(spec_obs(*old(self))).1,
    {
        if !self.running {
            proof {
                assert(spec_obs(*self) == obs_gated_step(spec_obs(*old(self))).0);
            }
            return Ok(());
        }
        match self.debugger.state {
            DebuggerState::Paused => {
                proof {
                    assert(spec_obs(*self) == obs_gated_step(spec_obs(*old(self))).0);
                }
                return Ok(());
            },
            DebuggerState::BreakpointHit => {
                proof {
                    assert(spec_obs(*self) == obs_gated_step(spec_obs(*old(self))).0);
                }
                return Ok(());
            },
            _ => {},
        }
        if self.debugger.check_breakpoint(self.cpu.pc, &self.cpu.registers, &self.cpu.flags) {
            proof {
                assert(spec_obs(*self) == obs_gated_step(spec_obs(*old(self))).0);
            }
            return Ok(());
        }
        let executed_pc = self.cpu.pc;
        let instruction = match self.cpu.step_optimized() {
            Ok(instruction) => instruction,
            Err(e) => {
                proof {
                    assert(spec_obs(*self) == obs_gated_step(spec_obs(*old(self))).0);
                }
                return Err(e);
            },
        };
        self.debugger.increment_step_count();
        self.debugger.record_instruction(
            executed_pc,
            instruction,
            &self.cpu.registers,
            &self.cpu.flags,
            self.debugger.step_count,
        );
        self.lcd.update(1);
        if self.debugger.check_max_steps() {
            self.stop();
        }
        proof {
            assert(spec_obs(*self) == obs_gated_step(spec_obs(*old(self))).0);
        }
        Ok(())
    }

    /// One ungated single step: only the running flag and the breakpoint
    /// check stand before the instruction; a paused debugger does not.
    pub fn step_once(&mut self) -> (r: Result<(), ExecError>)
        ensures
            !old(self).running ==> r == Ok::<(), ExecError>(()) && *final(self) == *old(self),
            old(self).running && spec_bp_fires(old(self).debugger, old(self).cpu.pc) ==> r == Ok::<
                (),
                ExecError,
            >(()) && final(self).debugger.state == DebuggerState::BreakpointHit && final(self).cpu.pc == old(self).cpu.pc && final(self).cpu.registers == old(self).cpu.registers,
            old(self).running && !spec_bp_fires(old(self).debugger, old(self).cpu.pc) ==> ({
                let outcome = old(self).cpu.spec_step_outcome();
                match outcome {
                    Err(e) => r == Err::<(), ExecError>(e) && final(self).cpu.pc == old(self).cpu.pc && final(self).cpu.registers == old(self).cpu.registers,
                    Ok(o) => {
                        let steps = sat_add64(old(self).debugger.step_count, 1);
                        &&& r == Ok::<(), ExecError>(())
                        &&& final(self).cpu.registers == o.registers
                        &&& final(self).cpu.flags == o.flags
                        &&& final(self).cpu.pc == o.next_pc
                        &&& final(self).debugger.step_count == steps
                        &&& final(self).running == !(old(self).debugger.max_steps is Some
                            && steps >= old(self).debugger.max_steps->0)
                    },
                }
            }),
            spec_obs(*final(self)) == obs_single_step(spec_obs(*old(self))).0,
            r == obs_single_step(spec_obs(*old(self))).1,
    {
        if !self.running {
            proof {
                assert(spec_obs(*self) == obs_single_step(spec_obs(*old(self))).0);
            }
            return Ok(());
        }
        if self.debugger.check_breakpoint(self.cpu.pc, &self.cpu.registers, &self.cpu.flags) {
            proof {
                assert(spec_obs(*self) == obs_single_step(spec_obs(*old(self))).0);
            }
            return Ok(());
        }
        let executed_pc = self.cpu.pc;
        let instruction = match self.cpu.step_optimized() {
            Ok(instruction) => instruction,
            Err(e) => {
                proof {
                    assert(spec_obs(*self) == obs_single_step(spec_obs(*old(self))).0);
                }
                return Err(e);
            },
        };
        self.debugger.increment_step_count();
        self.debugger.record_instruction(
            executed_pc,
            instruction,
            &self.cpu.registers,
            &self.cpu.flags,
            self.debugger.step_count,
        );
        self.lcd.update(1);
        if self.debugger.check_max_steps() {
            self.stop();
        }
        proof {
            assert(spec_obs(*self) == obs_single_step(spec_obs(*old(self))).0);
        }
        Ok(())
    }

    /// Raises the step ceiling to the current count plus `steps`, starts
    /// the machine and steps it that many times; the ceiling then halts
    /// it. The result is exactly `steps` gated steps from the prepared
    /// machine, stopping at the first fault.
    pub fn run_steps(&mut self, steps: u64) -> (r: Result<(), ExecError>)
        ensures
            ({
                let prepared = GatedObs {
                    max_steps: Some(sat_add64(old(self).debugger.step_count, steps)),
                    running: true,
                    ..spec_obs(*old(self))
                };
                &&& spec_obs(*final(self)) == obs_run_steps(prepared, steps as nat).0
                &&& r == obs_run_steps(prepared, steps as nat).1
            }),
            final(self).debugger.max_steps == Some(
                sat_add64(old(self).debugger.step_count, steps),
            ),
    {
        let ghost prepared = GatedObs {
            max_steps: Some(sat_add64(old(self).debugger.step_count, steps)),
            running: true,
            ..spec_obs(*old(self))
        };
        let ceiling = if self.debugger.step_count > u64::MAX - steps {
            u64::MAX
        } else {
            self.debugger.step_count + steps
        };
        self.debugger.set_max_steps(Some(ceiling));
        self.start();
        proof {
            assert(spec_obs(*self) == prepared);
        }
        let mut i: u64 = 0;
        while i < steps
            invariant
                i <= steps,
                prepared == (GatedObs {
                    max_steps: Some(sat_add64(old(self).debugger.step_count, steps)),
                    running: true,
                    ..spec_obs(*old(self))
                }),
                self.debugger.max_steps == Some(
                    sat_add64(old(self).debugger.step_count, steps),
                ),
                obs_run_steps(prepared, steps as nat) == obs_run_steps(
                    spec_obs(*self),
                    (steps - i) as nat,
                ),
            decreases steps - i,
        {
            let ghost before = spec_obs(*self);
            match self.step() {
                Ok(()) => {},
                Err(e) => {
                    proof {
                        assert(obs_run_steps(before, (steps - i) as nat) == (
                            spec_obs(*self),
                            Err::<(), ExecError>(e),
                        ));
                    }
                    return Err(e);
                },
            }
            i = i + 1;
        }
        proof {
            assert(obs_run_steps(spec_obs(*self), 0) == (spec_obs(*self), Ok::<(), ExecError>(())));
        }
        Ok(())
    }

    /// Starts the machine and steps until it halts or leaves the plain
    /// running state — in particular, until a breakpoint fires, which
    /// leaves the debugger in `BreakpointHit` at the breakpoint's address
    /// with that breakpoint's counter raised by one and the instruction
    /// there not yet executed (each step checks the breakpoint before the
    /// instruction runs). The result is exactly the gated run from the
    /// started machine; a run that outlives the step budget is stopped.
    pub fn run_to_breakpoint(&mut self) -> (r: Result<(), ExecError>)
        ensures
            ({
                let started = GatedObs { running: true, ..spec_obs(*old(self)) };
                let run = obs_run_until_stopped(started, u64::MAX as nat);
                &&& r == run.1
                &&& r is Ok ==> spec_obs(*final(self)) == if run.0.running && run.0.state
                    == DebuggerState::Running {
                    GatedObs { running: false, ..run.0 }
                } else {
                    run.0
                }
                &&& r is Err ==> spec_obs(*final(self)) == run.0
            }),
            r is Ok ==> !final(self).running || final(self).debugger.state
                != DebuggerState::Running,
            r is Ok && final(self).debugger.state == DebuggerState::BreakpointHit && old(
                self,
            ).debugger.state != DebuggerState::BreakpointHit ==> exists|j: int|
                spec_bp_found(old(self).debugger.breakpoints@, final(self).cpu.pc, j) && old(
                    self,
                ).debugger.breakpoints@[j].enabled && final(self).debugger.breakpoints@ == old(
                    self,
                ).debugger.breakpoints@.update(
                    j,
                    crate::breakpoint::Breakpoint {
                        hit_count: sat_add64(
                            old(self).debugger.breakpoints@[j].hit_count,
                            1,
                        ),
                        ..old(self).debugger.breakpoints@[j]
                    },
                ),
    {
        let ghost started = GatedObs { running: true, ..spec_obs(*old(self)) };
        self.start();
        proof {
            assert(spec_obs(*self) == started);
        }
        let mut fuel: u64 = u64::MAX;
        while self.running && self.debugger.state == DebuggerState::Running && fuel > 0
            invariant
                started == (GatedObs { running: true, ..spec_obs(*old(self)) }),
                obs_run_until_stopped(started, u64::MAX as nat) == obs_run_until_stopped(
                    spec_obs(*self),
                    fuel as nat,
                ),
            decreases fuel,
        {
            let ghost before = spec_obs(*self);
            match self.step() {
                Ok(()) => {},
                Err(e) => {
                    proof {
                        assert(obs_run_until_stopped(before, fuel as nat) == (
                            spec_obs(*self),
                            Err::<(), ExecError>(e),
                        ));
                    }
                    return Err(e);
                },
            }
            fuel = fuel - 1;
        }
        proof {
            assert(obs_run_until_stopped(spec_obs(*self), fuel as nat) == (
                spec_obs(*self),
                Ok::<(), ExecError>(()),
            ));
            lemma_run_stops_at_breakpoint(started, u64::MAX as nat);
        }
        if self.running && self.debugger.state == DebuggerState::Running {
            self.stop();
        }
        Ok(())
    }

    /// Sets a breakpoint; the entry for the address is replaced when one
    /// exists.
    pub fn set_breakpoint(&mut self, address: u16, condition: Option<String>)
        ensures
            final(self).debugger.breakpoints@ == crate::debugger::spec_bp_set(
                old(self).debugger.breakpoints@,
                crate::breakpoint::Breakpoint { address, condition, enabled: true, hit_count: 0 },
            ),
            spec_bp_fires(final(self).debugger, address),
            crate::debugger::spec_bp_unique(old(self).debugger.breakpoints@)
                ==> crate::debugger::spec_bp_unique(final(self).debugger.breakpoints@),
            final(self).debugger == (Debugger {
                breakpoints: final(self).debugger.breakpoints,
                ..old(self).debugger
            }),
            *final(self) == (AdvancedGameBoy { debugger: final(self).debugger, ..*old(self) }),
    {
        self.debugger.set_breakpoint(address, condition);
        proof {
            let s = self.debugger.breakpoints@;
            let olds = old(self).debugger.breakpoints@;
            crate::debugger::lemma_first_bp(olds, address);
            match crate::debugger::spec_first_bp(olds, address) {
                Some(i) => {
                    assert(spec_bp_found(olds, address, i));
                    assert(spec_bp_found(s, address, i) && s[i].enabled);
                },
                None => {
                    let i = olds.len() as int;
                    assert(spec_bp_found(s, address, i) && s[i].enabled);
                },
            }
        }
    }

    /// Removes the earliest breakpoint at an address, touching nothing
    /// else of the machine.
    pub fn remove_breakpoint(&mut self, address: u16)
        ensures
            final(self).debugger.breakpoints@ == crate::debugger::spec_bp_removed(
                old(self).debugger.breakpoints@,
                address,
            ),
            crate::debugger::spec_bp_unique(old(self).debugger.breakpoints@)
                ==> crate::debugger::spec_bp_unique(final(self).debugger.breakpoints@),
            final(self).debugger == (Debugger {
                breakpoints: final(self).debugger.breakpoints,
                ..old(self).debugger
            }),
            *final(self) == (AdvancedGameBoy { debugger: final(self).debugger, ..*old(self) }),
    {
        self.debugger.remove_breakpoint(address);
    }

    /// A snapshot of the counters.
    pub fn get_performance_stats(&self) -> (r: PerformanceStats)
        ensures
            r == (PerformanceStats {
                cycle_count: self.cpu.cycle_count,
                instruction_count: self.cpu.instruction_count,
                cache_hits: self.cpu.optimizer.spec_hits(),
                cache_misses: self.cpu.optimizer.spec_misses(),
            }),
    {
        self.cpu.get_performance_stats()
    }

    /// A snapshot of the machine, with the debugger's step count as the
    /// cycle counter.
    pub fn get_cpu_state(&self) -> (r: CPUState)
        ensures
            r == (CPUState {
                pc: self.cpu.pc,
                sp: self.cpu.sp,
                registers: self.cpu.registers,
                flags: self.cpu.flags,
                cycle_count: self.debugger.step_count,
            }),
    {
        CPUState {
            pc: self.cpu.pc,
            sp: self.cpu.sp,
            registers: self.cpu.registers,
            flags: self.cpu.flags,
            cycle_count: self.debugger.step_count,
        }
    }

    /// A human-readable snapshot of the machine, exactly as
    /// `spec_debug_info` lays it out.
    pub fn get_debug_info(&self) -> (r: String)
        ensures
            r@ == spec_debug_info(*self),
    {
        let mut out = String::new();
        out.append("=== Debug Info ===\nState: ");
        out.append(state_text(&self.debugger.state));
        out.append("\nPC: 0x");
        append_hex4(&mut out, self.cpu.pc);
        out.append("\nSP: 0x");
        append_hex4(&mut out, self.cpu.sp);
        out.append("\nRegisters: A=0x");
        append_hex2(&mut out, self.cpu.registers.a);
        out.append(", B=0x");
        append_hex2(&mut out, self.cpu.registers.b);
        out.append(", C=0x");
        append_hex2(&mut out, self.cpu.registers.c);
        out.append(", D=0x");
        append_hex2(&mut out, self.cpu.registers.d);
        out.append(", E=0x");
        append_hex2(&mut out, self.cpu.registers.e);
        out.append(", H=0x");
        append_hex2(&mut out, self.cpu.registers.h);
        out.append(", L=0x");
        append_hex2(&mut out, self.cpu.registers.l);
        out.append("\nFlags: Z=");
        out.append(bool_text(self.cpu.flags.zero));
        out.append(", N=");
        out.append(bool_text(self.cpu.flags.subtract));
        out.append(", H=");
        out.append(bool_text(self.cpu.flags.half_carry));
        out.append(", C=");
        out.append(bool_text(self.cpu.flags.carry));
        out.append("\nCycles: ");
        append_dec(&mut out, self.cpu.cycle_count);
        out.append("\nInstructions: ");
        append_dec(&mut out, self.cpu.instruction_count);
        out.append("\nCache hit rate: ");
        let stats = self.get_performance_stats();
        append_dec(&mut out, stats.hit_rate_permille());
        out.append("/1000\nFrames: ");
        append_dec(&mut out, self.frame_count);
        out.append("\n================");
        proof {
            assert(out@ =~= spec_debug_info(*self));
        }
        out
    }

    /// The LCD framebuffer, read-only.
    pub fn get_framebuffer(&self) -> (r: &[u8])
        ensures
            r@ == self.lcd.framebuffer@,
    {
        self.lcd.get_framebuffer()
    }

    /// Sets the frame-rate target and its per-frame millisecond budget.
    pub fn set_target_fps(&mut self, fps: u32)
        requires
            fps > 0,
        ensures
            *final(self) == (AdvancedGameBoy {
                target_fps: fps,
                frame_time_ms: (1000u32 / fps) as u64,
                ..*old(self)
            }),
    {
        self.target_fps = fps;
        self.frame_time_ms = (1000u32 / fps) as u64;
    }

    /// Sets the debugger's log-level filter.
    pub fn set_log_level(&mut self, level: LogLevel)
        ensures
            final(self).debugger == (Debugger { log_level: level, ..old(self).debugger }),
            *final(self) == (AdvancedGameBoy { debugger: final(self).debugger, ..*old(self) }),
    {
        self.debugger.set_log_level(level);
    }

    /// Copies a program into memory; bytes past the top of the address
    /// space are silently dropped.
    pub fn load_program(&mut self, start_address: u16, program: &[u8]) -> (r: Result<
        (),
        ExecError,
    >)
        requires
            start_address + program@.len() <= 0x10000,
        ensures
            r is Ok,
            final(self).cpu.bus@.len() == old(self).cpu.bus@.len(),
            forall|i: int|
                0 <= i < program@.len() && start_address + i < MEM_TOP ==> final(self).cpu.bus@[
                start_address + i] == program@[i],
            forall|a: int|
                0 <= a < MEM_TOP && !(start_address <= a < start_address + program@.len())
                    ==> final(self).cpu.bus@[a] == old(self).cpu.bus@[a],
            final(self).cpu.pc == old(self).cpu.pc,
            final(self).cpu.registers == old(self).cpu.registers,
            final(self).running == old(self).running,
    {
        self.cpu.bus.load_program(start_address, program);
        Ok(())
    }

    /// The whole memory, read-only.
    pub fn memory(&self) -> (r: &[u8])
        ensures
            r@ == self.cpu.bus@,
    {
        self.cpu.bus.memory()
    }

    /// Renders the instruction at one address.
    pub fn disassemble_instruction(&self, pc: u16) -> (r: String)
        ensures
            r@ == spec_line_at(
                self.debugger.disassembler.show_addresses,
                self.debugger.disassembler.show_bytes,
                self.cpu.bus,
                pc,
            ),
    {
        self.debugger.disassemble_instruction(pc, &self.cpu.bus)
    }

    /// Renders an address range.
    pub fn disassemble_range(&self, start: u16, end: u16) -> (r: Vec<String>)
        ensures
            r.deep_view() == spec_range_lines(
                self.debugger.disassembler.show_addresses,
                self.debugger.disassembler.show_bytes,
                self.cpu.bus,
                start as int,
                end as int,
            ),
    {
        self.debugger.disassemble_range(start, end, &self.cpu.bus)
    }
}

/// The textual name of a debugger state.
pub open spec fn spec_state_text(state: DebuggerState) -> Seq<char> {
    match state {
        DebuggerState::Running => "Running"@,
        DebuggerState::Paused => "Paused"@,
        DebuggerState::Stepping => "Stepping"@,
        DebuggerState::BreakpointHit => "BreakpointHit"@,
    }
}

/// The textual name of a debugger state.
fn state_text(state: &DebuggerState) -> (r: &'static str)
    ensures
        r@ == spec_state_text(*state),
{
    match state {
        DebuggerState::Running => "Running",
        DebuggerState::Paused => "Paused",
        DebuggerState::Stepping => "Stepping",
        DebuggerState::BreakpointHit => "BreakpointHit",
    }
}

/// "true" or "false".
pub open spec fn spec_bool_text(value: bool) -> Seq<char> {
    if value {
        "true"@
    } else {
        "false"@
    }
}

/// "true" or "false".
fn bool_text(value: bool) -> (r: &'static str)
    ensures
        r@ == spec_bool_text(value),
{
    if value {
        "true"
    } else {
        "false"
    }
}

/// The full debug snapshot: state, pointers, registers, flags, counters,
/// the cache hit rate in thousandths, and the frame count.
pub open spec fn spec_debug_info(g: AdvancedGameBoy) -> Seq<char> {
    "=== Debug Info ===\nState: "@ + spec_state_text(g.debugger.state) + "\nPC: 0x"@ + spec_hex4(
        g.cpu.pc,
    ) + "\nSP: 0x"@ + spec_hex4(g.cpu.sp) + "\nRegisters: A=0x"@ + spec_hex2(g.cpu.registers.a)
        + ", B=0x"@ + spec_hex2(g.cpu.registers.b) + ", C=0x"@ + spec_hex2(g.cpu.registers.c)
        + ", D=0x"@ + spec_hex2(g.cpu.registers.d) + ", E=0x"@ + spec_hex2(g.cpu.registers.e)
        + ", H=0x"@ + spec_hex2(g.cpu.registers.h) + ", L=0x"@ + spec_hex2(g.cpu.registers.l)
        + "\nFlags: Z="@ + spec_bool_text(g.cpu.flags.zero) + ", N="@ + spec_bool_text(
        g.cpu.flags.subtract,
    ) + ", H="@ + spec_bool_text(g.cpu.flags.half_carry) + ", C="@ + spec_bool_text(
        g.cpu.flags.carry,
    ) + "\nCycles: "@ + spec_dec(g.cpu.cycle_count as int) + "\nInstructions: "@ + spec_dec(
        g.cpu.instruction_count as int,
    ) + "\nCache hit rate: "@ + spec_dec(
        crate::optimizer::spec_hit_rate_permille(
            g.cpu.optimizer.spec_hits(),
            g.cpu.optimizer.spec_misses(),
        ) as int,
    ) + "/1000\nFrames: "@ + spec_dec(g.frame_count as int) + "\n================"@
}

impl Default for AdvancedGameBoy {
    fn default() -> (r: AdvancedGameBoy)
        ensures
            !r.running,
            r.frame_count == 0,
    {
        AdvancedGameBoy::new()
    }
}

} // verus!
