use gb_core::debugger::{Debugger, DebuggerState, LogLevel};
use gb_core::instructions::Instruction;
use gb_core::disassembler::Disassembler;
use gb_core::flags::FlagsRegister;
use gb_core::memory::MemoryBus;
use gb_core::optimizer::{CPUOptimizer, PerformanceStats};
use gb_core::registers::Registers;

#[test]
fn test_debugger_creation() {
    let debugger = Debugger::new();
    assert_eq!(debugger.state, DebuggerState::Running);
    assert_eq!(debugger.breakpoints.len(), 0);
}

#[test]
fn debugger_test_breakpoint_management() {
    let mut debugger = Debugger::new();
    debugger.set_breakpoint(0x100, None);
    assert_eq!(debugger.breakpoints.len(), 1);

    debugger.remove_breakpoint(0x100);
    assert_eq!(debugger.breakpoints.len(), 0);
}

#[test]
fn test_log_levels() {
    let mut debugger = Debugger::new();
    debugger.set_log_level(LogLevel::Debug);
    assert_eq!(debugger.log_level, LogLevel::Debug);
}

#[test]
fn breakpoint_fires_iff_enabled_and_address_matches() {
    let regs = Registers::new();
    let flags = FlagsRegister::new();
    let mut debugger = Debugger::new();
    debugger.set_breakpoint(0x150, None);

    assert!(!debugger.check_breakpoint(0x100, &regs, &flags));
    assert_eq!(debugger.breakpoints[0].hit_count, 0);
    assert_eq!(debugger.state, DebuggerState::Running);

    assert!(debugger.check_breakpoint(0x150, &regs, &flags));
    assert_eq!(debugger.breakpoints[0].hit_count, 1);
    assert_eq!(debugger.state, DebuggerState::BreakpointHit);

    debugger.resume();
    assert!(debugger.check_breakpoint(0x150, &regs, &flags));
    assert_eq!(debugger.breakpoints[0].hit_count, 2);

    debugger.resume();
    debugger.breakpoints[0].disable();
    assert!(!debugger.check_breakpoint(0x150, &regs, &flags));
    assert_eq!(debugger.breakpoints[0].hit_count, 2);
    assert_eq!(debugger.state, DebuggerState::Running);
}

#[test]
fn setting_a_breakpoint_twice_replaces_it() {
    let regs = Registers::new();
    let flags = FlagsRegister::new();
    let mut debugger = Debugger::new();
    debugger.set_breakpoint(0x150, None);
    assert!(debugger.check_breakpoint(0x150, &regs, &flags));
    assert_eq!(debugger.breakpoints[0].hit_count, 1);
    debugger.set_breakpoint(0x150, Some(String::from("a == 5")));
    assert_eq!(debugger.breakpoints.len(), 1);
    assert_eq!(debugger.breakpoints[0].hit_count, 0);
    assert_eq!(debugger.breakpoints[0].condition, Some(String::from("a == 5")));
}

#[test]
fn cache_aliasing_counts_misses_not_false_hits() {
    let mut cache = CPUOptimizer::new(4);
    cache.cache_instruction(0x0000, Instruction::NOP, 1, 1);

    // 0x0004 shares slot 0 with 0x0000 but carries a different tag.
    assert!(cache.get_cached_instruction(0x0004).is_none());
    assert!(cache.get_cached_instruction(0x0008).is_none());
    let hit = cache.get_cached_instruction(0x0000);
    assert!(hit.is_some());
    assert_eq!(hit.unwrap().tag, 0x0000);
    let (hits, misses) = cache.counts();
    assert_eq!(hits, 1);
    assert_eq!(misses, 2);
}

#[test]
fn colliding_insert_evicts_the_stale_entry() {
    let mut cache = CPUOptimizer::new(4);
    cache.cache_instruction(0x0000, Instruction::NOP, 1, 1);
    assert!(cache.get_cached_instruction(0x0000).is_some());
    // 0x0004 lands in the same slot and evicts the entry for 0x0000.
    cache.cache_instruction(0x0004, Instruction::NOP, 1, 1);
    assert!(cache.get_cached_instruction(0x0000).is_none());
    assert!(cache.get_cached_instruction(0x0004).is_some());
}

#[test]
fn test_optimizer_creation() {
    let optimizer = CPUOptimizer::new(1024);
    assert_eq!(optimizer.cache_size(), 1024);
}

#[test]
fn test_performance_stats() {
    let stats = PerformanceStats {
        cycle_count: 1000,
        instruction_count: 500,
        cache_hits: 300,
        cache_misses: 200,
    };

    assert_eq!(stats.cycles_per_instruction(), 2);
}

#[test]
fn hit_rate_is_a_fraction_of_one() {
    let empty = PerformanceStats {
        cycle_count: 0,
        instruction_count: 0,
        cache_hits: 0,
        cache_misses: 0,
    };
    assert_eq!(empty.hit_rate_permille(), 0);

    let even = PerformanceStats {
        cycle_count: 0,
        instruction_count: 0,
        cache_hits: 1,
        cache_misses: 1,
    };
    assert_eq!(even.hit_rate_permille(), 500);

    let all_hits = PerformanceStats {
        cycle_count: 0,
        instruction_count: 0,
        cache_hits: 7,
        cache_misses: 0,
    };
    assert_eq!(all_hits.hit_rate_permille(), 1000);
}

#[test]
fn disassembles_known_and_unknown_bytes() {
    let mut bus = MemoryBus::new();
    bus.write_byte(0x0000, 0x00);
    bus.write_byte(0x0001, 0xD3);
    bus.write_byte(0x0002, 0x80);
    let d = Disassembler::new();
    assert_eq!(d.disassemble_at(0x0000, &bus), "0x0000: 0x00 NOP");
    assert_eq!(d.disassemble_at(0x0001, &bus), "0x0001: 0xD3 ???");
    assert_eq!(d.disassemble_at(0x0002, &bus), "0x0002: 0x80 ADD A, B");
}

#[test]
fn range_scan_never_stalls_on_unknown_bytes() {
    let mut bus = MemoryBus::new();
    // NOP, unknown, LD A,d8 (two bytes), unknown.
    bus.load_program(0x0000, &[0x00, 0xD3, 0x3E, 0x07, 0xD3]);
    let d = Disassembler::new();
    let lines = d.disassemble_range(0x0000, 0x0005, &bus);
    assert_eq!(lines.len(), 4);
    assert_eq!(lines[0], "0x0000: 0x00 NOP");
    assert_eq!(lines[1], "0x0001: 0xD3 ???");
    assert_eq!(lines[2], "0x0002: 0x3E LD A, Immediate(7)");
    assert_eq!(lines[3], "0x0004: 0xD3 ???");
}

#[test]
fn hex_and_decimal_formatting() {
    assert_eq!(gb_core::fmt::hex_u8(0xAB), "AB");
    assert_eq!(gb_core::fmt::hex_u8(0x05), "05");
    assert_eq!(gb_core::fmt::hex_u16(0x0150), "0150");
    assert_eq!(gb_core::fmt::dec_u64(0), "0");
    assert_eq!(gb_core::fmt::dec_u64(1234), "1234");
    assert_eq!(gb_core::fmt::dec_u64(u64::MAX), "18446744073709551615");
}
