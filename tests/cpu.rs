use oxiboy::bus::{BusError, MemoryBus};
use oxiboy::cpu::{CpuError, LR35902};
use oxiboy::instructions::{Dst, Info, Instruction, JumpCondition, Src};
use oxiboy::interconnect::Interconnect;
use oxiboy::registers::{Flags, Reg16, Reg8, Registers};

fn machine(program: &[u8]) -> (LR35902, Interconnect) {
    (LR35902::new(), Interconnect::new(program.to_vec(), vec![]))
}

fn info(opcode: u8, byte_length: usize, cycle_duration: usize) -> Info {
    Info { opcode, byte_length, cycle_duration }
}

#[test]
fn nop_advances_pc_only() {
    let (mut cpu, mut bus) = machine(&[0x00]);
    cpu.registers.a = 0x12;
    cpu.registers.sp = 0xFFFE;
    cpu.registers.f = Flags { zero: true, add_sub: false, half_carry: true, carry: false };
    let before = cpu.registers;
    let r = cpu.step(&mut bus);
    assert_eq!(r, Ok(Instruction::Nop(info(0x00, 1, 4))));
    assert_eq!(cpu.registers, Registers { pc: 1, ..before });
}

#[test]
fn load_immediate_into_hl() {
    let (mut cpu, mut bus) = machine(&[0x21, 0x34, 0x12]);
    let r = cpu.step(&mut bus);
    assert_eq!(
        r,
        Ok(Instruction::Load(info(0x21, 3, 12), Dst::Reg16(Reg16::HL), Src::D16(0x1234)))
    );
    assert_eq!(cpu.registers.read16(Reg16::HL), 0x1234);
    assert_eq!(cpu.registers.pc, 3);
}

#[test]
fn load_immediate_into_hl_from_later_pc() {
    let mut program = vec![0u8; 0x10];
    program.extend_from_slice(&[0x21, 0xCD, 0xAB]);
    let (mut cpu, mut bus) = machine(&program);
    cpu.registers.pc = 0x10;
    cpu.step(&mut bus).unwrap();
    assert_eq!(cpu.registers.read16(Reg16::HL), 0xABCD);
    assert_eq!(cpu.registers.pc, 0x13);
}

#[test]
fn xor_a_clears_accumulator() {
    let (mut cpu, mut bus) = machine(&[0xAF]);
    cpu.registers.a = 0x5A;
    let r = cpu.step(&mut bus);
    assert_eq!(r, Ok(Instruction::Xor(info(0xAF, 1, 4), Reg8::A)));
    assert_eq!(cpu.registers.a, 0x00);
    assert!(cpu.registers.f.zero);
}

#[test]
fn xor_a_clears_from_any_start() {
    for a in [0x00u8, 0x01, 0x5A, 0x80, 0xFF] {
        for bits in [0x00u8, 0xF0, 0x70, 0x10] {
            let (mut cpu, mut bus) = machine(&[0xAF]);
            cpu.registers.a = a;
            cpu.registers.f = Flags::from_bits_truncate(bits);
            cpu.step(&mut bus).unwrap();
            assert_eq!(cpu.registers.a, 0);
            assert_eq!(
                cpu.registers.f,
                Flags { zero: true, add_sub: false, half_carry: false, carry: false }
            );
        }
    }
}

#[test]
fn inc_a_wraps_and_keeps_carry() {
    for carry in [false, true] {
        let (mut cpu, mut bus) = machine(&[0x3C]);
        cpu.registers.a = 0xFF;
        cpu.registers.f = Flags { zero: false, add_sub: true, half_carry: false, carry };
        cpu.step(&mut bus).unwrap();
        assert_eq!(cpu.registers.a, 0x00);
        assert!(cpu.registers.f.zero);
        assert!(cpu.registers.f.half_carry);
        assert!(!cpu.registers.f.add_sub);
        assert_eq!(cpu.registers.f.carry, carry);
    }
}

#[test]
fn dec_a_wraps_and_keeps_carry() {
    for carry in [false, true] {
        let (mut cpu, mut bus) = machine(&[0x3D]);
        cpu.registers.a = 0x00;
        cpu.registers.f = Flags { zero: true, add_sub: false, half_carry: false, carry };
        cpu.step(&mut bus).unwrap();
        assert_eq!(cpu.registers.a, 0xFF);
        assert!(cpu.registers.f.add_sub);
        assert!(cpu.registers.f.half_carry);
        assert!(!cpu.registers.f.zero);
        assert_eq!(cpu.registers.f.carry, carry);
    }
}

#[test]
fn inc_and_dec_half_carry_on_nibble_boundary() {
    let (mut cpu, mut bus) = machine(&[0x04, 0x05, 0x05]);
    cpu.registers.b = 0x0F;
    cpu.step(&mut bus).unwrap();
    assert_eq!(cpu.registers.b, 0x10);
    assert!(cpu.registers.f.half_carry && !cpu.registers.f.zero);
    cpu.step(&mut bus).unwrap();
    assert_eq!(cpu.registers.b, 0x0F);
    assert!(cpu.registers.f.half_carry && cpu.registers.f.add_sub);
    cpu.step(&mut bus).unwrap();
    assert_eq!(cpu.registers.b, 0x0E);
    assert!(!cpu.registers.f.half_carry);
}

#[test]
fn bit_7_of_h_set_clears_zero() {
    let (mut cpu, mut bus) = machine(&[0xCB, 0x7C]);
    cpu.registers.h = 0x80;
    cpu.registers.f = Flags { zero: true, add_sub: true, half_carry: false, carry: true };
    let r = cpu.step(&mut bus);
    assert_eq!(r, Ok(Instruction::Bit(info(0x7C, 2, 8), 7, Reg8::H)));
    assert_eq!(cpu.registers.h, 0x80);
    assert!(!cpu.registers.f.zero);
    assert!(cpu.registers.f.half_carry);
    assert!(!cpu.registers.f.add_sub);
    assert!(cpu.registers.f.carry);
    assert_eq!(cpu.registers.pc, 2);
}

#[test]
fn bit_7_of_h_clear_sets_zero() {
    let (mut cpu, mut bus) = machine(&[0xCB, 0x7C]);
    cpu.registers.h = 0x7F;
    cpu.step(&mut bus).unwrap();
    assert!(cpu.registers.f.zero);
    assert!(!cpu.registers.f.carry);
}

#[test]
fn call_then_ret_restores_pc_and_sp() {
    let mut program = vec![0u8; 0x11];
    program[0] = 0xCD;
    program[1] = 0x10;
    program[2] = 0x00;
    program[0x10] = 0xC9;
    let (mut cpu, mut bus) = machine(&program);
    cpu.registers.sp = 0xFFFE;
    let r = cpu.step(&mut bus);
    assert_eq!(r, Ok(Instruction::Call(info(0xCD, 3, 24), 0x0010)));
    assert_eq!(cpu.registers.pc, 0x0010);
    assert_eq!(cpu.registers.sp, 0xFFFC);
    assert_eq!(bus.read(0xFFFD), Ok(0x00));
    assert_eq!(bus.read(0xFFFC), Ok(0x03));
    let r = cpu.step(&mut bus);
    assert_eq!(r, Ok(Instruction::Ret(info(0xC9, 1, 16))));
    assert_eq!(cpu.registers.pc, 0x0003);
    assert_eq!(cpu.registers.sp, 0xFFFE);
}

#[test]
fn push_then_pop_moves_value_and_restores_sp() {
    let (mut cpu, mut bus) = machine(&[]);
    cpu.registers.sp = 0xD000;
    cpu.registers.write16(Reg16::DE, 0xBEEF);
    cpu.push16(&mut bus, Reg16::DE).unwrap();
    assert_eq!(cpu.registers.sp, 0xCFFE);
    assert_eq!(bus.read(0xCFFF), Ok(0xBE));
    assert_eq!(bus.read(0xCFFE), Ok(0xEF));
    cpu.pop16(&bus, Reg16::BC).unwrap();
    assert_eq!(cpu.registers.read16(Reg16::BC), 0xBEEF);
    assert_eq!(cpu.registers.sp, 0xD000);
}

#[test]
fn push_bc_pop_bc_through_decoder() {
    let (mut cpu, mut bus) = machine(&[0xC5, 0x01, 0xC1]);
    cpu.registers.sp = 0xFFFE;
    cpu.registers.write16(Reg16::BC, 0x1234);
    cpu.step(&mut bus).unwrap();
    cpu.registers.write16(Reg16::BC, 0);
    cpu.registers.pc = 2;
    cpu.step(&mut bus).unwrap();
    assert_eq!(cpu.registers.read16(Reg16::BC), 0x1234);
    assert_eq!(cpu.registers.sp, 0xFFFE);
}

#[test]
fn push_to_rom_fails() {
    let (mut cpu, mut bus) = machine(&[0xC5]);
    cpu.registers.sp = 0x0100;
    let r = cpu.step(&mut bus);
    assert_eq!(r, Err(CpuError::Bus(BusError::ReadOnly(0x00FF))));
}

#[test]
fn rotate_left_through_carry_cb_form_sets_zero() {
    let (mut cpu, mut bus) = machine(&[0xCB, 0x11]);
    cpu.registers.c = 0x80;
    let r = cpu.step(&mut bus);
    assert_eq!(r, Ok(Instruction::RotateLeft(info(0x11, 2, 8), Reg8::C, true)));
    assert_eq!(cpu.registers.c, 0x00);
    assert!(cpu.registers.f.carry);
    assert!(cpu.registers.f.zero);
}

#[test]
fn rotate_left_accumulator_never_sets_zero() {
    let (mut cpu, mut bus) = machine(&[0x17, 0x17]);
    cpu.registers.a = 0x80;
    cpu.step(&mut bus).unwrap();
    assert_eq!(cpu.registers.a, 0x00);
    assert!(cpu.registers.f.carry);
    assert!(!cpu.registers.f.zero);
    cpu.step(&mut bus).unwrap();
    assert_eq!(cpu.registers.a, 0x01);
    assert!(!cpu.registers.f.carry);
}

#[test]
fn compare_sets_flags_and_keeps_accumulator() {
    let (mut cpu, mut bus) = machine(&[0xFE, 0x10, 0xFE, 0x11, 0xFE, 0x30]);
    cpu.registers.a = 0x10;
    cpu.step(&mut bus).unwrap();
    assert_eq!(cpu.registers.a, 0x10);
    assert_eq!(cpu.registers.f, Flags { zero: true, add_sub: true, half_carry: false, carry: false });
    cpu.registers.a = 0x20;
    cpu.step(&mut bus).unwrap();
    assert_eq!(cpu.registers.f, Flags { zero: false, add_sub: true, half_carry: true, carry: false });
    cpu.step(&mut bus).unwrap();
    assert_eq!(cpu.registers.f, Flags { zero: false, add_sub: true, half_carry: false, carry: true });
}

#[test]
fn jump_relative_backwards() {
    let (mut cpu, mut bus) = machine(&[0x18, 0xFE]);
    let r = cpu.step(&mut bus);
    assert_eq!(r, Ok(Instruction::Jump(info(0x18, 2, 12), -2)));
    assert_eq!(cpu.registers.pc, 0);
}

#[test]
fn jump_relative_wraps_around_address_space() {
    let mut program = vec![0u8; 4];
    program[2] = 0x18;
    program[3] = 0xF0;
    let (mut cpu, mut bus) = machine(&program);
    cpu.registers.pc = 2;
    cpu.step(&mut bus).unwrap();
    assert_eq!(cpu.registers.pc, 0xFFF4);
}

#[test]
fn conditional_jumps_follow_zero_flag() {
    let (mut cpu, mut bus) = machine(&[0x20, 0x05]);
    let r = cpu.step(&mut bus);
    assert_eq!(r, Ok(Instruction::JumpOn(info(0x20, 2, 12), JumpCondition::NZ, 5)));
    assert_eq!(cpu.registers.pc, 7);

    let (mut cpu, mut bus) = machine(&[0x20, 0x05]);
    cpu.registers.f.zero = true;
    cpu.step(&mut bus).unwrap();
    assert_eq!(cpu.registers.pc, 2);

    let (mut cpu, mut bus) = machine(&[0x28, 0x05]);
    cpu.registers.f.zero = true;
    cpu.step(&mut bus).unwrap();
    assert_eq!(cpu.registers.pc, 7);

    let (mut cpu, mut bus) = machine(&[0x28, 0x05]);
    cpu.step(&mut bus).unwrap();
    assert_eq!(cpu.registers.pc, 2);
}

#[test]
fn jump_condition_check() {
    let set = Flags { zero: true, add_sub: false, half_carry: false, carry: false };
    assert!(JumpCondition::Z.check(set));
    assert!(!JumpCondition::NZ.check(set));
    assert!(JumpCondition::NZ.check(Flags::empty()));
}

#[test]
fn load_through_hl_with_post_increment_and_decrement() {
    let (mut cpu, mut bus) = machine(&[0x22, 0x32]);
    cpu.registers.write16(Reg16::HL, 0xC000);
    cpu.registers.a = 0x42;
    cpu.step(&mut bus).unwrap();
    assert_eq!(bus.read(0xC000), Ok(0x42));
    assert_eq!(cpu.registers.read16(Reg16::HL), 0xC001);
    cpu.registers.a = 0x43;
    cpu.step(&mut bus).unwrap();
    assert_eq!(bus.read(0xC001), Ok(0x43));
    assert_eq!(cpu.registers.read16(Reg16::HL), 0xC000);
}

#[test]
fn load_into_io_page() {
    let (mut cpu, mut bus) = machine(&[0xE0, 0x80, 0xE2, 0xF0, 0x81]);
    cpu.registers.a = 0x99;
    cpu.step(&mut bus).unwrap();
    assert_eq!(bus.read(0xFF80), Ok(0x99));
    cpu.registers.a = 0x77;
    cpu.registers.c = 0x81;
    cpu.step(&mut bus).unwrap();
    assert_eq!(bus.read(0xFF81), Ok(0x77));
    cpu.registers.a = 0;
    let r = cpu.step(&mut bus);
    assert_eq!(r, Ok(Instruction::Load(info(0xF0, 2, 12), Dst::Reg8(Reg8::A), Src::PagedA8(0x81))));
    assert_eq!(cpu.registers.a, 0x77);
}

#[test]
fn load_accumulator_from_address_in_de() {
    let (mut cpu, mut bus) = machine(&[0x1A]);
    bus.write(0xC123, 0x5C).unwrap();
    cpu.registers.write16(Reg16::DE, 0xC123);
    cpu.step(&mut bus).unwrap();
    assert_eq!(cpu.registers.a, 0x5C);
}

#[test]
fn load_accumulator_to_absolute_address() {
    let (mut cpu, mut bus) = machine(&[0xEA, 0x34, 0xC2]);
    cpu.registers.a = 0x21;
    cpu.step(&mut bus).unwrap();
    assert_eq!(bus.read(0xC234), Ok(0x21));
    assert_eq!(cpu.registers.pc, 3);
}

#[test]
fn load_immediates_and_registers() {
    let (mut cpu, mut bus) = machine(&[0x3E, 0x0A, 0x06, 0x0B, 0x57, 0x1E, 0x0E, 0x7B, 0x31, 0xFE, 0xFF]);
    for _ in 0..6 {
        cpu.step(&mut bus).unwrap();
    }
    assert_eq!(cpu.registers.b, 0x0B);
    assert_eq!(cpu.registers.d, 0x0A);
    assert_eq!(cpu.registers.e, 0x0E);
    assert_eq!(cpu.registers.a, 0x0E);
    assert_eq!(cpu.registers.sp, 0xFFFE);
    assert_eq!(cpu.registers.pc, 11);
}

#[test]
fn inc16_wraps() {
    let (mut cpu, mut bus) = machine(&[0x13]);
    cpu.registers.write16(Reg16::DE, 0xFFFF);
    cpu.registers.f.carry = true;
    cpu.step(&mut bus).unwrap();
    assert_eq!(cpu.registers.read16(Reg16::DE), 0);
    assert!(cpu.registers.f.carry && !cpu.registers.f.zero);
}

#[test]
fn store_to_read_only_register_fails() {
    let (mut cpu, mut bus) = machine(&[0xE0, 0x44]);
    let r = cpu.step(&mut bus);
    assert_eq!(r, Err(CpuError::Bus(BusError::ReadOnly(0xFF44))));
}

#[test]
fn unknown_opcode_fails() {
    let (mut cpu, mut bus) = machine(&[0xD3]);
    assert_eq!(cpu.step(&mut bus), Err(CpuError::UnknownOpcode(0xD3)));
}

#[test]
fn unknown_cb_opcode_fails() {
    let (mut cpu, mut bus) = machine(&[0xCB, 0x00]);
    assert_eq!(cpu.step(&mut bus), Err(CpuError::UnknownCbOpcode(0x00)));
}

#[test]
fn fetch_past_boot_rom_fails() {
    let (mut cpu, mut bus) = machine(&[]);
    assert_eq!(cpu.step(&mut bus), Err(CpuError::Bus(BusError::OutOfBounds(0))));
}

#[test]
fn decode_reads_immediates_low_byte_first() {
    let (mut cpu, bus) = machine(&[0x34, 0x12]);
    let r = cpu.decode(0xCD, &bus);
    assert_eq!(r, Ok(Instruction::Call(info(0xCD, 3, 24), 0x1234)));
    assert_eq!(cpu.registers.pc, 2);
    assert_eq!(LR35902::decode_cb(0x7C), Ok(Instruction::Bit(info(0x7C, 2, 8), 7, Reg8::H)));
}

#[test]
fn execute_returns_instruction() {
    let (mut cpu, mut bus) = machine(&[]);
    let i = Instruction::Inc(info(0x0C, 1, 4), Reg8::C);
    assert_eq!(i.execute(&mut cpu, &mut bus), Ok(i));
    assert_eq!(cpu.registers.c, 1);
}
