use gb_core::cpu::{CPU, ExecError, execute_instruction, fetch_instruction};
use gb_core::flags::FlagsRegister;
use gb_core::instructions::{ArithmeticTarget, Instruction, JumpTarget, LoadSource, LoadTarget};
use gb_core::memory::MemoryBus;
use gb_core::registers::{Register, Registers};

#[test]
fn test_register_creation() {
    let regs = Registers::new();
    assert_eq!(regs.a, 0);
    assert_eq!(regs.b, 0);
    assert_eq!(regs.c, 0);
}

#[test]
fn test_bc_register_pair() {
    let mut regs = Registers::new();
    regs.set_bc(0x1234);
    assert_eq!(regs.get_bc(), 0x1234);
    assert_eq!(regs.b, 0x12);
    assert_eq!(regs.c, 0x34);
}

#[test]
fn test_de_register_pair() {
    let mut regs = Registers::new();
    regs.set_de(0x5678);
    assert_eq!(regs.get_de(), 0x5678);
    assert_eq!(regs.d, 0x56);
    assert_eq!(regs.e, 0x78);
}

#[test]
fn test_hl_register_pair() {
    let mut regs = Registers::new();
    regs.set_hl(0x9ABC);
    assert_eq!(regs.get_hl(), 0x9ABC);
    assert_eq!(regs.h, 0x9A);
    assert_eq!(regs.l, 0xBC);
}

#[test]
fn test_register_access() {
    let mut regs = Registers::new();
    regs.set_register(Register::A, 0x42);
    regs.set_register(Register::B, 0x84);
    assert_eq!(regs.get_register(Register::A), 0x42);
    assert_eq!(regs.get_register(Register::B), 0x84);
}

#[test]
fn pair_round_trip_samples() {
    let samples: Vec<u16> = vec![0x0000, 0x0001, 0x00FF, 0x0100, 0x1234, 0x8000, 0xFFFE, 0xFFFF];
    for &value in &samples {
        let mut regs = Registers::new();
        regs.set_bc(value);
        assert_eq!(regs.get_bc(), value);
        regs.set_de(value);
        assert_eq!(regs.get_de(), value);
        regs.set_hl(value);
        assert_eq!(regs.get_hl(), value);
    }
}

#[test]
fn flags_pack_unpack_identity() {
    for bits in 0..16u8 {
        let flags = FlagsRegister {
            zero: bits & 1 != 0,
            subtract: bits & 2 != 0,
            half_carry: bits & 4 != 0,
            carry: bits & 8 != 0,
        };
        assert_eq!(FlagsRegister::from_byte(flags.to_byte()), flags);
    }
    assert_eq!(
        FlagsRegister {
            zero: true,
            subtract: false,
            half_carry: false,
            carry: false
        }
        .to_byte(),
        0x80
    );
    assert_eq!(
        FlagsRegister {
            zero: false,
            subtract: true,
            half_carry: true,
            carry: true
        }
        .to_byte(),
        0x70
    );
}

#[test]
fn decode_is_deterministic_and_total() {
    for byte in 0..=255u8 {
        let first = Instruction::from_byte(byte);
        let second = Instruction::from_byte(byte);
        assert_eq!(first, second);
    }
    assert_eq!(Instruction::from_byte(0x00), Some(Instruction::NOP));
    assert_eq!(
        Instruction::from_byte(0x80),
        Some(Instruction::ADD(ArithmeticTarget::B))
    );
    assert_eq!(Instruction::from_byte(0xFD), None);
    assert_eq!(Instruction::from_byte(0xD3), None);
}

#[test]
fn unmapped_byte_is_a_typed_decode_fault() {
    let mut bus = MemoryBus::new();
    bus.write_byte(0x100, 0xD3);
    let mut cpu = CPU::new(bus);
    let result = cpu.step();
    assert_eq!(
        result,
        Err(ExecError::UnknownOpcode {
            opcode: 0xD3,
            address: 0x100
        })
    );
    assert_eq!(cpu.pc, 0x100);
}

#[test]
fn add_sets_flags_across_the_boundary() {
    let mut regs = Registers::new();
    regs.a = 0xFF;
    regs.b = 0x01;
    let mut flags = FlagsRegister::new();
    let mut sp: u16 = 0xFFFE;
    let r = execute_instruction(
        Instruction::ADD(ArithmeticTarget::B),
        0x100,
        &mut regs,
        &mut flags,
        &mut sp,
    );
    assert!(r.is_ok());
    assert_eq!(regs.a, 0x00);
    assert!(flags.zero);
    assert!(flags.carry);
    assert!(flags.half_carry);
    assert!(!flags.subtract);
}

#[test]
fn sub_with_borrow_sets_carry() {
    let mut regs = Registers::new();
    regs.a = 0x00;
    regs.c = 0x01;
    let mut flags = FlagsRegister::new();
    let mut sp: u16 = 0xFFFE;
    let r = execute_instruction(
        Instruction::SUB(ArithmeticTarget::C),
        0x100,
        &mut regs,
        &mut flags,
        &mut sp,
    );
    assert!(r.is_ok());
    assert_eq!(regs.a, 0xFF);
    assert!(flags.carry);
    assert!(flags.half_carry);
    assert!(flags.subtract);
    assert!(!flags.zero);
}

#[test]
fn inc_leaves_carry_untouched() {
    for &prior_carry in &[false, true] {
        let mut regs = Registers::new();
        regs.c = 0x0F;
        let mut flags = FlagsRegister::new();
        flags.carry = prior_carry;
        let mut sp: u16 = 0xFFFE;
        let r = execute_instruction(
            Instruction::INC(ArithmeticTarget::C),
            0x100,
            &mut regs,
            &mut flags,
            &mut sp,
        );
        assert!(r.is_ok());
        assert_eq!(regs.c, 0x10);
        assert!(flags.half_carry);
        assert_eq!(flags.carry, prior_carry);
    }
}

#[test]
fn dec_wraps_to_ff_with_half_carry() {
    for &prior_carry in &[false, true] {
        let mut regs = Registers::new();
        regs.c = 0x00;
        let mut flags = FlagsRegister::new();
        flags.carry = prior_carry;
        let mut sp: u16 = 0xFFFE;
        let r = execute_instruction(
            Instruction::DEC(ArithmeticTarget::C),
            0x100,
            &mut regs,
            &mut flags,
            &mut sp,
        );
        assert!(r.is_ok());
        assert_eq!(regs.c, 0xFF);
        assert!(flags.half_carry);
        assert!(flags.subtract);
        assert_eq!(flags.carry, prior_carry);
    }
}

#[test]
fn relative_jump_wraps_around_the_address_space() {
    let mut bus = MemoryBus::new();
    bus.write_byte(0xFFFE, 0x18);
    let mut cpu = CPU::new(bus);
    cpu.pc = 0xFFFE;
    let r = cpu.step();
    assert!(r.is_ok());
    assert_eq!(cpu.pc, 0x0003);
}

#[test]
fn jump_payload_mismatch_is_an_internal_fault() {
    let mut regs = Registers::new();
    let mut flags = FlagsRegister::new();
    let mut sp: u16 = 0xFFFE;
    let r = execute_instruction(
        Instruction::JP(JumpTarget::Relative(5)),
        0x100,
        &mut regs,
        &mut flags,
        &mut sp,
    );
    assert_eq!(r, Err(ExecError::RelativePayloadInAbsoluteJump));
    let r = execute_instruction(
        Instruction::JR(JumpTarget::Immediate(0x200)),
        0x100,
        &mut regs,
        &mut flags,
        &mut sp,
    );
    assert_eq!(r, Err(ExecError::AbsolutePayloadInRelativeJump));
}

#[test]
fn fetch_materialises_immediates_from_memory() {
    let mut bus = MemoryBus::new();
    bus.load_program(0x100, &[0x3E, 0x05]);
    let fetched = fetch_instruction(&bus, 0x100);
    assert_eq!(
        fetched,
        Ok(Instruction::LD(LoadTarget::A, LoadSource::Immediate(0x05)))
    );
}

#[test]
fn memory_word_access_is_little_endian() {
    let mut bus = MemoryBus::new();
    bus.write_word(0x200, 0xBEEF);
    assert_eq!(bus.read_byte(0x200), 0xEF);
    assert_eq!(bus.read_byte(0x201), 0xBE);
    assert_eq!(bus.read_word(0x200), 0xBEEF);
}

#[test]
fn memory_writes_are_truncated_at_the_top() {
    let mut bus = MemoryBus::new();
    bus.load_program(0xFFFE, &[0x22, 0x33]);
    assert_eq!(bus.read_byte(0xFFFE), 0x22);
    assert_eq!(bus.read_byte(0xFFFF), 0x00);
    bus.write_byte(0xFFFF, 0x44);
    assert_eq!(bus.read_byte(0xFFFF), 0x00);
}
