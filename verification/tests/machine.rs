use gb_core::advanced::AdvancedGameBoy;
use gb_core::cpu::CPU;
use gb_core::debugger::{Debugger, DebuggerState};
use gb_core::emulator::GameBoy;
use gb_core::instructions::Instruction;
use gb_core::memory::MemoryBus;

#[test]
fn test_advanced_gameboy_creation() {
    let gameboy = AdvancedGameBoy::new();
    assert!(!gameboy.running);
    assert_eq!(gameboy.frame_count, 0);
}

#[test]
fn advanced_gameboy_test_breakpoint_management() {
    let mut gameboy = AdvancedGameBoy::new();
    gameboy.set_breakpoint(0x100, None);
    assert_eq!(gameboy.debugger.breakpoints.len(), 1);

    gameboy.remove_breakpoint(0x100);
    assert_eq!(gameboy.debugger.breakpoints.len(), 0);
}

#[test]
fn test_reset() {
    let mut gameboy = AdvancedGameBoy::new();
    gameboy.start();
    gameboy.reset();
    assert!(!gameboy.running);
    assert_eq!(gameboy.frame_count, 0);
}

#[test]
fn load_add_program_leaves_eight_in_the_accumulator() {
    // LD A,5; LD B,3; ADD A,B.
    let program = [0x3E, 0x05, 0x06, 0x03, 0x80];

    let mut plain = GameBoy::new();
    plain.load_program(0x100, &program);
    assert!(plain.run_steps(3).is_ok());
    let state = plain.get_cpu_state();
    assert_eq!(state.registers.a, 8);
    assert!(!state.flags.zero);
    assert!(!state.flags.half_carry);
    assert!(!state.flags.carry);

    let mut advanced = AdvancedGameBoy::new();
    advanced.load_program(0x100, &program).unwrap();
    advanced.start();
    for _ in 0..3 {
        assert!(advanced.step().is_ok());
    }
    let state = advanced.get_cpu_state();
    assert_eq!(state.registers.a, 8);
    assert!(!state.flags.zero);
    assert!(!state.flags.half_carry);
    assert!(!state.flags.carry);
    assert_eq!(state.pc, 0x105);
}

#[test]
fn step_limit_clears_the_running_flag_after_exactly_max_steps() {
    let mut gameboy = AdvancedGameBoy::new();
    // NOPs from 0x100 on.
    gameboy.load_program(0x100, &[0x00; 32]).unwrap();
    gameboy.debugger.set_max_steps(Some(5));
    // An outstanding breakpoint does not keep the machine alive.
    gameboy.set_breakpoint(0x0110, None);
    gameboy.start();
    for executed in 1..=5u64 {
        assert!(gameboy.step().is_ok());
        assert_eq!(gameboy.debugger.step_count, executed);
        assert_eq!(gameboy.running, executed < 5);
    }
    // Once halted, further steps are no-ops.
    assert!(gameboy.step().is_ok());
    assert_eq!(gameboy.debugger.step_count, 5);
}

#[test]
fn run_to_breakpoint_halts_before_the_instruction_executes() {
    let mut gameboy = AdvancedGameBoy::new();
    gameboy.load_program(0x100, &[0x00; 0x60]).unwrap();
    gameboy.set_breakpoint(0x0150, None);
    assert!(gameboy.run_to_breakpoint().is_ok());

    assert_eq!(gameboy.debugger.state, DebuggerState::BreakpointHit);
    assert_eq!(gameboy.get_cpu_state().pc, 0x0150);
    // 0x100..0x150 is 80 one-byte instructions; the one at 0x150 did not run.
    assert_eq!(gameboy.cpu.instruction_count, 80);
    assert_eq!(gameboy.debugger.breakpoints[0].hit_count, 1);

    // A further step is a no-op until resumed.
    assert!(gameboy.step().is_ok());
    assert_eq!(gameboy.get_cpu_state().pc, 0x0150);
    assert_eq!(gameboy.cpu.instruction_count, 80);

    // After a resume, the still-armed breakpoint fires again; only
    // disabling it lets the instruction at its address run.
    gameboy.debugger.resume();
    gameboy.debugger.breakpoints[0].disable();
    assert!(gameboy.step().is_ok());
    assert_eq!(gameboy.get_cpu_state().pc, 0x0151);
    assert_eq!(gameboy.cpu.instruction_count, 81);
}

#[test]
fn run_steps_advances_the_gated_machine() {
    let mut gameboy = AdvancedGameBoy::new();
    gameboy.load_program(0x100, &[0x00; 8]).unwrap();
    assert!(gameboy.run_steps(3).is_ok());
    assert_eq!(gameboy.get_cpu_state().pc, 0x103);
    assert_eq!(gameboy.debugger.step_count, 3);
    assert_eq!(gameboy.cpu.instruction_count, 3);
    // The ceiling it set then halts the machine at the end of a full run.
    assert!(gameboy.run_steps(6).is_ok());
    assert_eq!(gameboy.debugger.step_count, 9);
    assert!(!gameboy.running);
}

#[test]
fn history_records_every_executed_instruction() {
    let mut gameboy = AdvancedGameBoy::new();
    gameboy.load_program(0x100, &[0x3E, 0x05, 0x80]).unwrap();
    gameboy.start();
    assert!(gameboy.step().is_ok());
    assert!(gameboy.step().is_ok());
    assert_eq!(gameboy.debugger.instruction_history.len(), 2);
    assert_eq!(gameboy.debugger.instruction_history[0].pc, 0x100);
    assert_eq!(gameboy.debugger.instruction_history[0].registers.a, 5);
    assert_eq!(gameboy.debugger.instruction_history[1].pc, 0x102);

    // The eviction policy, exercised directly on the recorder.
    let cpu = CPU::new(MemoryBus::new());
    let mut debugger = Debugger::new();
    debugger.max_history = 2;
    for cycle in 0..3u64 {
        debugger.record_instruction(0x100, Instruction::NOP, &cpu.registers, &cpu.flags, cycle);
    }
    assert_eq!(debugger.instruction_history.len(), 2);
    assert_eq!(debugger.instruction_history[0].cycle, 1);
    assert_eq!(debugger.instruction_history[1].cycle, 2);
}

#[test]
fn cache_hits_come_only_from_repeated_addresses() {
    let mut gameboy = AdvancedGameBoy::new();
    // A loop: JP 0x200 at 0x200 jumps to itself (the table's absolute
    // payload is 0x200).
    gameboy.load_program(0x200, &[0xC3, 0x00, 0x02]).unwrap();
    gameboy.cpu.pc = 0x200;
    gameboy.start();
    for _ in 0..4 {
        assert!(gameboy.step().is_ok());
    }
    let stats = gameboy.get_performance_stats();
    assert_eq!(stats.cache_misses, 1);
    assert_eq!(stats.cache_hits, 3);
    assert_eq!(stats.instruction_count, 4);
}

#[test]
fn debug_info_snapshot_is_exact() {
    let gameboy = AdvancedGameBoy::new();
    let expected = "=== Debug Info ===\n\
                    State: Running\n\
                    PC: 0x0100\n\
                    SP: 0xFFFE\n\
                    Registers: A=0x00, B=0x00, C=0x00, D=0x00, E=0x00, H=0x00, L=0x00\n\
                    Flags: Z=false, N=false, H=false, C=false\n\
                    Cycles: 0\n\
                    Instructions: 0\n\
                    Cache hit rate: 0/1000\n\
                    Frames: 0\n\
                    ================";
    assert_eq!(gameboy.get_debug_info(), expected);
}

#[test]
fn step_once_ignores_the_paused_state() {
    let mut gameboy = AdvancedGameBoy::new();
    gameboy.load_program(0x100, &[0x00; 4]).unwrap();
    gameboy.start();
    gameboy.debugger.pause();

    // A gated step does nothing while paused.
    assert!(gameboy.step().is_ok());
    assert_eq!(gameboy.get_cpu_state().pc, 0x100);

    // A single step still executes.
    assert!(gameboy.step_once().is_ok());
    assert_eq!(gameboy.get_cpu_state().pc, 0x101);
}
