//! The decode cache and performance counters, and the instrumented CPU that
//! uses them.
//!
//! The cache is direct-mapped: a fixed table indexed by `address mod
//! capacity`. Every entry carries the address it was made for as an explicit
//! tag, and a lookup is a hit only when the stored tag equals the requested
//! address — indexing alone would silently return a stale entry for a
//! colliding address. Counters saturate instead of wrapping, so they are
//! monotone and never panic.

use vstd::prelude::*;

use crate::cpu::{ExecError, execute_instruction, fetch_instruction, spec_execute, spec_fetch};
use crate::flags::FlagsRegister;
use crate::instructions::Instruction;
use crate::memory::MemoryBus;
use crate::registers::Registers;

verus! {

/// One memoised decode result: the instruction found at `tag`, with its
/// cycle cost and byte size.
#[derive(Debug, Clone, Copy, PartialEq, Eq, Structural)]
pub struct InstructionCacheEntry {
    /// The address this entry was made for; a lookup must match it.
    pub tag: u16,
    pub instruction: Instruction,
    pub cycles: u8,
    pub size: u8,
}

/// The saturating sum of a counter and an increment.
pub open spec fn sat_add64(a: u64, b: u64) -> u64 {
    if a + b > u64::MAX {
        u64::MAX
    } else {
        (a + b) as u64
    }
}

/// Adds to a counter, holding at the maximum instead of wrapping.
fn counter_add(a: u64, b: u64) -> (r: u64)
    ensures
        r == sat_add64(a, b),
{
    if a > u64::MAX - b {
        u64::MAX
    } else {
        a + b
    }
}

/// A direct-mapped decode cache with hit/miss accounting.
#[derive(Debug)]
pub struct CPUOptimizer {
    instruction_cache: Vec<Option<InstructionCacheEntry>>,
    cache_size: usize,
    hit_count: u64,
    miss_count: u64,
}

impl CPUOptimizer {
    #[verifier::type_invariant]
    spec fn type_inv(self) -> bool {
        &&& self.instruction_cache@.len() == self.cache_size
        &&& self.cache_size > 0
    }

    /// The whole table, slot by slot.
    pub closed spec fn spec_slots(&self) -> Seq<Option<InstructionCacheEntry>> {
        self.instruction_cache@
    }

    /// The table slot an address maps to.
    pub open spec fn spec_index(&self, pc: u16) -> int {
        pc as int % self.spec_capacity() as int
    }

    /// The entry stored in the slot an address maps to.
    pub open spec fn spec_slot(&self, pc: u16) -> Option<InstructionCacheEntry> {
        self.spec_slots()[self.spec_index(pc)]
    }

    /// Whether a lookup of `pc` hits: the slot is filled and its tag equals
    /// the requested address.
    pub open spec fn spec_hit(&self, pc: u16) -> bool {
        match self.spec_slot(pc) {
            Some(entry) => entry.tag == pc,
            None => false,
        }
    }

    pub closed spec fn spec_hits(&self) -> u64 {
        self.hit_count
    }

    pub closed spec fn spec_misses(&self) -> u64 {
        self.miss_count
    }

    pub closed spec fn spec_capacity(&self) -> usize {
        self.cache_size
    }

    /// An empty cache of the given capacity, with both counters at zero.
    pub fn new(cache_size: usize) -> (r: CPUOptimizer)
        requires
            cache_size > 0,
        ensures
            r.spec_capacity() == cache_size,
            r.spec_hits() == 0,
            r.spec_misses() == 0,
            forall|pc: u16| !r.spec_hit(pc),
            r.spec_slots() == Seq::new(
                cache_size as nat,
                |i: int| None::<InstructionCacheEntry>,
            ),
    {
        let instruction_cache: Vec<Option<InstructionCacheEntry>> = vec![None; cache_size];
        let r = CPUOptimizer { instruction_cache, cache_size, hit_count: 0, miss_count: 0 };
        proof {
            assert(forall|pc: u16| r.spec_slot(pc) is None ==> !r.spec_hit(pc));
            assert forall|pc: u16| !r.spec_hit(pc) by {
                assert(0 <= r.spec_index(pc) < cache_size);
            }
            assert(r.spec_slots() =~= Seq::new(
                cache_size as nat,
                |i: int| None::<InstructionCacheEntry>,
            ));
        }
        r
    }

    /// The capacity the cache was created with.
    pub fn cache_size(&self) -> (r: usize)
        ensures
            r == self.spec_capacity(),
    {
        self.cache_size
    }

    /// Looks an address up. A hit — the slot holds an entry whose tag equals
    /// the address — returns the entry and counts one hit; anything else,
    /// an empty slot or a colliding address with a different tag, counts one
    /// miss and returns nothing.
    pub fn get_cached_instruction(&mut self, pc: u16) -> (r: Option<InstructionCacheEntry>)
        ensures
            old(self).spec_hit(pc) ==> r == old(self).spec_slot(pc) && final(self).spec_hits()
                == sat_add64(old(self).spec_hits(), 1) && final(self).spec_misses() == old(self).spec_misses(),
            !old(self).spec_hit(pc) ==> r is None && final(self).spec_misses() == sat_add64(
                old(self).spec_misses(),
                1,
            ) && final(self).spec_hits() == old(self).spec_hits(),
            r is Some ==> r->0.tag == pc,
            final(self).spec_slots() == old(self).spec_slots(),
            final(self).spec_capacity() == old(self).spec_capacity(),
    {
        proof {
            use_type_invariant(&*self);
        }
        let index = (pc as usize) % self.cache_size;
        match self.instruction_cache[index] {
            Some(entry) if entry.tag == pc => {
                self.hit_count = counter_add(self.hit_count, 1);
                Some(entry)
            },
            _ => {
                self.miss_count = counter_add(self.miss_count, 1);
                None
            },
        }
    }

    /// Stores a decode result for an address, evicting whatever occupied
    /// the slot the address maps to. The eviction can never create a hit
    /// for another address: a colliding address now meets this entry's
    /// foreign tag, and every other slot is untouched.
    pub fn cache_instruction(&mut self, pc: u16, instruction: Instruction, cycles: u8, size: u8)
        ensures
            final(self).spec_capacity() == old(self).spec_capacity(),
            final(self).spec_slots() == old(self).spec_slots().update(
                old(self).spec_index(pc),
                Some(InstructionCacheEntry { tag: pc, instruction, cycles, size }),
            ),
            final(self).spec_slot(pc) == Some(
                InstructionCacheEntry { tag: pc, instruction, cycles, size },
            ),
            final(self).spec_hit(pc),
            forall|a: u16|
                a != pc ==> final(self).spec_hit(a) == (old(self).spec_hit(a) && old(
                    self,
                ).spec_index(a) != old(self).spec_index(pc)),
            final(self).spec_hits() == old(self).spec_hits(),
            final(self).spec_misses() == old(self).spec_misses(),
    {
        proof {
            use_type_invariant(&*self);
        }
        let index = (pc as usize) % self.cache_size;
        self.instruction_cache[index] = Some(
            InstructionCacheEntry { tag: pc, instruction, cycles, size },
        );
    }

    /// The hit and miss counts so far.
    pub fn counts(&self) -> (r: (u64, u64))
        ensures
            r.0 == self.spec_hits(),
            r.1 == self.spec_misses(),
    {
        (self.hit_count, self.miss_count)
    }

    /// Empties every slot and resets both counters.
    pub fn clear_cache(&mut self)
        ensures
            final(self).spec_hits() == 0,
            final(self).spec_misses() == 0,
            forall|pc: u16| !final(self).spec_hit(pc),
            final(self).spec_capacity() == old(self).spec_capacity(),
            final(self).spec_slots() == Seq::new(
                old(self).spec_capacity() as nat,
                |i: int| None::<InstructionCacheEntry>,
            ),
    {
        proof {
            use_type_invariant(&*self);
        }
        let len = self.instruction_cache.len();
        let mut i: usize = 0;
        while i < len
            invariant
                len == self.instruction_cache@.len(),
                self.cache_size == old(self).spec_capacity(),
                self.instruction_cache@.len() == self.cache_size,
                self.cache_size > 0,
                i <= len,
                forall|j: int| 0 <= j < i ==> self.instruction_cache@[j] is None,
            decreases len - i,
        {
            self.instruction_cache[i] = None;
            i = i + 1;
        }
        self.hit_count = 0;
        self.miss_count = 0;
        proof {
            assert forall|pc: u16| !self.spec_hit(pc) by {
                assert(0 <= self.spec_index(pc) < self.cache_size);
            }
            assert(self.spec_slots() =~= Seq::new(
                old(self).spec_capacity() as nat,
                |i: int| None::<InstructionCacheEntry>,
            ));
        }
    }
}

/// The numerator of `hits / (hits + misses)` in thousandths; zero when there
/// have been no accesses at all.
pub open spec fn spec_hit_rate_permille(hits: u64, misses: u64) -> u64 {
    if hits + misses == 0 {
        0
    } else {
        ((hits * 1000) / (hits + misses)) as u64
    }
}

/// Monotone execution counters and the cache accounting, with the hit rate
/// derived rather than stored.
#[derive(Debug, Clone, Copy, PartialEq, Eq, Structural)]
pub struct PerformanceStats {
    pub cycle_count: u64,
    pub instruction_count: u64,
    pub cache_hits: u64,
    pub cache_misses: u64,
}

impl PerformanceStats {
    /// The cache hit rate as a fraction of one, in thousandths: always
    /// between 0 and 1000, and exactly 0 when no accesses have occurred.
    pub fn hit_rate_permille(&self) -> (r: u64)
        ensures
            r == spec_hit_rate_permille(self.cache_hits, self.cache_misses),
            r <= 1000,
            self.cache_hits + self.cache_misses == 0 ==> r == 0,
    {
        if self.cache_hits == 0 && self.cache_misses == 0 {
            return 0;
        }
        let total: u128 = self.cache_hits as u128 + self.cache_misses as u128;
        let rate: u128 = (self.cache_hits as u128) * 1000 / total;
        proof {
            let h = self.cache_hits as int;
            let m = self.cache_misses as int;
            assert(h * 1000 / (h + m) <= 1000) by (nonlinear_arith)
                requires
                    h >= 0,
                    m >= 0,
                    h + m >= 1,
            ;
            assert(h * 1000 / (h + m) >= 0) by (nonlinear_arith)
                requires
                    h >= 0,
                    m >= 0,
                    h + m >= 1,
            ;
        }
        rate as u64
    }

    /// The whole-number average cycle cost per executed instruction; zero
    /// when no instructions have executed.
    pub fn cycles_per_instruction(&self) -> (r: u64)
        ensures
            self.instruction_count == 0 ==> r == 0,
            self.instruction_count > 0 ==> r == self.cycle_count / self.instruction_count,
    {
        if self.instruction_count > 0 {
            self.cycle_count / self.instruction_count
        } else {
            0
        }
    }
}

/// The instrumented interpreter: the same register file and bus as the plain
/// one, plus the decode cache and the cycle and instruction counters. Both
/// interpreters run every instruction through the same fetch and execute
/// functions, so their register and flag outcomes agree by construction.
#[derive(Debug)]
pub struct OptimizedCPU {
    pub registers: Registers,
    /// The program counter.
    pub pc: u16,
    /// The stack pointer.
    pub sp: u16,
    pub flags: FlagsRegister,
    pub bus: MemoryBus,
    pub optimizer: CPUOptimizer,
    pub cycle_count: u64,
    pub instruction_count: u64,
}

impl OptimizedCPU {
    /// The instruction one step at the current program counter runs: the
    /// cached entry on a tag-matching hit, a fresh fetch through the bus
    /// otherwise.
    pub open spec fn spec_current_instruction(self) -> Result<Instruction, ExecError> {
        if self.optimizer.spec_hit(self.pc) {
            Ok(self.optimizer.spec_slot(self.pc)->Some_0.instruction)
        } else {
            spec_fetch(self.bus, self.pc)
        }
    }

    /// What executing the current instruction would leave behind, or the
    /// fault that stops the step.
    pub open spec fn spec_step_outcome(self) -> Result<crate::cpu::ExecOutcome, ExecError> {
        match self.spec_current_instruction() {
            Err(e) => Err(e),
            Ok(i) => spec_execute(i, self.pc, self.registers, self.flags, self.sp),
        }
    }

    /// A fresh instrumented machine around a bus, with a decode cache of
    /// 1024 slots.
    pub fn new(bus: MemoryBus) -> (r: OptimizedCPU)
        ensures
            r.registers == (Registers { a: 0, b: 0, c: 0, d: 0, e: 0, f: 0, h: 0, l: 0 }),
            r.pc == 0x100,
            r.sp == 0xFFFE,
            r.flags == (FlagsRegister {
                zero: false,
                subtract: false,
                half_carry: false,
                carry: false,
            }),
            r.bus == bus,
            r.cycle_count == 0,
            r.instruction_count == 0,
            r.optimizer.spec_hits() == 0,
            r.optimizer.spec_misses() == 0,
            r.optimizer.spec_capacity() == 1024,
            forall|pc: u16| !r.optimizer.spec_hit(pc),
            r.optimizer.spec_slots() == Seq::new(
                1024,
                |i: int| None::<InstructionCacheEntry>,
            ),
    {
        OptimizedCPU {
            registers: Registers::new(),
            pc: 0x100,
            sp: 0xFFFE,
            flags: FlagsRegister::new(),
            bus,
            optimizer: CPUOptimizer::new(1024),
            cycle_count: 0,
            instruction_count: 0,
        }
    }

    /// One instrumented step: consult the cache first, fetch on a miss,
    /// execute, and book the instruction's cycle cost; the executed
    /// instruction comes back for the caller's records. A decode fault
    /// counts the miss, changes nothing else and does not advance the
    /// program counter; a successful miss inserts the materialised
    /// instruction with its cost into the cache.
    pub fn step_optimized(&mut self) -> (r: Result<Instruction, ExecError>)
        ensures
            final(self).bus == old(self).bus,
            final(self).optimizer.spec_capacity() == old(self).optimizer.spec_capacity(),
            old(self).optimizer.spec_hit(old(self).pc) ==> final(self).optimizer.spec_hits()
                == sat_add64(old(self).optimizer.spec_hits(), 1) && final(self).optimizer.spec_misses() == old(self).optimizer.spec_misses(),
            !old(self).optimizer.spec_hit(old(self).pc) ==> final(self).optimizer.spec_misses()
                == sat_add64(old(self).optimizer.spec_misses(), 1) && final(self).optimizer.spec_hits() == old(self).optimizer.spec_hits(),
            ({
                let fetched = old(self).spec_current_instruction();
                match fetched {
                    Err(e) => r == Err::<Instruction, ExecError>(e) && final(self).registers == old(self).registers && final(self).flags == old(self).flags && final(self).sp == old(self).sp && final(self).pc == old(self).pc && final(self).cycle_count == old(self).cycle_count && final(self).instruction_count == old(self).instruction_count && final(self).optimizer.spec_slots() == old(self).optimizer.spec_slots(),
                    Ok(i) => match spec_execute(
                        i,
                        old(self).pc,
                        old(self).registers,
                        old(self).flags,
                        old(self).sp,
                    ) {
                        Err(e) => r == Err::<Instruction, ExecError>(e) && final(self).registers == old(self).registers && final(self).flags == old(self).flags && final(self).sp
                            == old(self).sp && final(self).pc == old(self).pc && final(self).cycle_count == old(self).cycle_count && final(self).instruction_count
                            == old(self).instruction_count && final(self).optimizer.spec_slots() == old(self).optimizer.spec_slots(),
                        Ok(o) => r == Ok::<Instruction, ExecError>(i) && final(self).registers
                            == o.registers && final(self).flags == o.flags && final(self).sp
                            == o.sp && final(self).pc == o.next_pc && final(self).cycle_count
                            == sat_add64(old(self).cycle_count, o.cycles as u64) && final(self).instruction_count == sat_add64(old(self).instruction_count, 1) && (old(self).optimizer.spec_hit(old(self).pc) ==> final(self).optimizer.spec_slots() == old(self).optimizer.spec_slots()) && (!old(self).optimizer.spec_hit(old(self).pc)
                            ==> final(self).optimizer.spec_slots() == old(self).optimizer.spec_slots().update(
                            old(self).optimizer.spec_index(old(self).pc),
                            Some(
                                InstructionCacheEntry {
                                    tag: old(self).pc,
                                    instruction: i,
                                    cycles: o.cycles,
                                    size: o.size as u8,
                                },
                            ),
                        )),
                    },
                }
            }),
    {
        let pc = self.pc;
        let cached = self.optimizer.get_cached_instruction(pc);
        let (instruction, was_hit) = match cached {
            Some(entry) => (entry.instruction, true),
            None => {
                match fetch_instruction(&self.bus, pc) {
                    Ok(instruction) => (instruction, false),
                    Err(e) => {
                        return Err(e);
                    },
                }
            },
        };
        let outcome = execute_instruction(
            instruction,
            pc,
            &mut self.registers,
            &mut self.flags,
            &mut self.sp,
        );
        let (next_pc, cycles, size) = match outcome {
            Ok(tuple) => tuple,
            Err(e) => {
                return Err(e);
            },
        };
        self.pc = next_pc;
        if !was_hit {
            proof {
                assert(crate::instructions::spec_size(instruction) <= 3);
            }
            self.optimizer.cache_instruction(pc, instruction, cycles, size as u8);
        }
        self.cycle_count = counter_add(self.cycle_count, cycles as u64);
        self.instruction_count = counter_add(self.instruction_count, 1);
        Ok(instruction)
    }

    /// A snapshot of the counters: total cycles, executed instructions, and
    /// the cache's hits and misses.
    ///
    /// (See `lemma_strategies_agree` below for the agreement of this
    /// machine with the plain interpreter.)
    pub fn get_performance_stats(&self) -> (r: PerformanceStats)
        ensures
            r == (PerformanceStats {
                cycle_count: self.cycle_count,
                instruction_count: self.instruction_count,
                cache_hits: self.optimizer.spec_hits(),
                cache_misses: self.optimizer.spec_misses(),
            }),
    {
        let (cache_hits, cache_misses) = self.optimizer.counts();
        PerformanceStats {
            cycle_count: self.cycle_count,
            instruction_count: self.instruction_count,
            cache_hits,
            cache_misses,
        }
    }
}

/// The plain interpreter and the instrumented one agree bit-for-bit on
/// register, flag, stack-pointer and program-counter outcomes, and on the
/// fault raised, whenever they stand on the same machine state and the
/// cache does not intervene: both run every instruction through the same
/// fetch and execute functions.
pub proof fn lemma_strategies_agree(plain: crate::cpu::CPU, instrumented: OptimizedCPU)
    requires
        plain.bus == instrumented.bus,
        plain.pc == instrumented.pc,
        plain.registers == instrumented.registers,
        plain.flags == instrumented.flags,
        plain.sp == instrumented.sp,
        !instrumented.optimizer.spec_hit(instrumented.pc),
    ensures
        match (plain.spec_step(), instrumented.spec_step_outcome()) {
            (Ok(stepped), Ok(outcome)) => stepped.registers == outcome.registers
                && stepped.flags == outcome.flags && stepped.sp == outcome.sp && stepped.pc
                == outcome.next_pc,
            (Err(plain_fault), Err(instrumented_fault)) => plain_fault == instrumented_fault,
            _ => false,
        },
{
}

} // verus!
