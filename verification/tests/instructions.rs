use nes_core::cpu::instructions::adc::ADC;
use nes_core::cpu::instructions::clf::CL;
use nes_core::cpu::instructions::ldr::LD;
use nes_core::cpu::instructions::ror::ROR;
use nes_core::cpu::instructions::sbc::SBC;
use nes_core::cpu::instructions::sef::SE;
use nes_core::cpu::variables::Flag;
use nes_core::cpu::variables::Register::{A, X, Y};
use nes_core::state::cpu::{Memory, Registers};
use nes_core::state::NES;

#[test]
fn test_adc() {
    let mut cpu = NES::mock();
    cpu.set_p(0b0010_0000);
    cpu.assign_flag(Flag::C, true);
    cpu.set_a(132);
    let addr: u16 = cpu.get_pc();
    cpu.set_mem(addr, 40);
    ADC.execute(&mut cpu, addr);
    assert_eq!(cpu.get_a(), 173);
}

#[test]
fn test_adc_n() {
    let mut cpu = NES::mock();
    cpu.assign_flag(Flag::N, false);
    cpu.set_a(0b0100_0000);
    let addr: u16 = cpu.get_pc();
    cpu.set_mem(addr, 0b1000_0000);
    ADC.execute(&mut cpu, addr);
    assert_eq!(cpu.is_flag_set(Flag::N), true);
    cpu.assign_flag(Flag::N, false);
    cpu.set_mem(addr, 0b0100_0000);
    cpu.set_a(0b0010_0000);
    ADC.execute(&mut cpu, addr);
    assert_eq!(cpu.is_flag_set(Flag::N), false);
}

#[test]
fn test_adc_z() {
    let mut cpu = NES::mock();
    cpu.assign_flag(Flag::Z, false);
    cpu.set_a(0b0100_0000);
    let addr: u16 = cpu.get_pc();
    cpu.set_mem(addr, 0b1000_0000);
    ADC.execute(&mut cpu, addr);
    assert_eq!(cpu.is_flag_set(Flag::Z), false);
    cpu.assign_flag(Flag::Z, false);
    cpu.set_mem(addr, 0);
    cpu.set_a(0);
    ADC.execute(&mut cpu, addr);
    assert_eq!(cpu.is_flag_set(Flag::Z), true);
}

#[test]
fn test_adc_c() {
    let mut cpu = NES::mock();
    cpu.assign_flag(Flag::C, false);
    cpu.set_p(0b0010_0000);
    cpu.set_a(0b1111_1111);
    let addr: u16 = cpu.get_pc();
    cpu.set_mem(addr, 0b1000_0000);
    ADC.execute(&mut cpu, addr);
    assert_eq!(cpu.is_flag_set(Flag::C), true);
    cpu.assign_flag(Flag::C, false);
    cpu.set_mem(addr, 0b0100_0000);
    cpu.set_a(0b0010_0000);
    ADC.execute(&mut cpu, addr);
    assert_eq!(cpu.is_flag_set(Flag::C), false);
}

#[test]
fn test_adc_v() {
    let mut cpu = NES::mock();
    cpu.assign_flag(Flag::V, false);
    cpu.set_a(64i8 as u8);
    let addr: u16 = cpu.get_pc();
    cpu.set_mem(addr, 72i8 as u8);
    ADC.execute(&mut cpu, addr);
    assert_eq!(cpu.is_flag_set(Flag::V), true);
    cpu.assign_flag(Flag::V, false);
    cpu.set_mem(addr, 4i8 as u8);
    cpu.set_a(43i8 as u8);
    ADC.execute(&mut cpu, addr);
    assert_eq!(cpu.is_flag_set(Flag::V), false);
}

#[test]
fn test_clc() {
    let mut cpu = NES::mock();
    cpu.assign_flag(Flag::C, false);
    CL(Flag::C).execute(&mut cpu);
    assert_eq!(cpu.is_flag_set(Flag::C), false);
    cpu.assign_flag(Flag::Z, true);
    CL(Flag::Z).execute(&mut cpu);
    assert_eq!(cpu.is_flag_set(Flag::C), false);
}

#[test]
fn test_ld() {
    let mut cpu = NES::mock();
    cpu.set_mem(0x31, 0b1001_0110);
    cpu.set_a(0b1000_0101);
    LD(A).execute(&mut cpu, 0x31);
    assert_eq!(cpu.get_a(), 0b1001_0110);
}

#[test]
fn test_ld_z() {
    let mut cpu = NES::mock();
    cpu.set_mem(0x31, 0b1001_0110);
    cpu.set_x(0b1000_0101);
    cpu.assign_flag(Flag::Z, false);
    LD(X).execute(&mut cpu, 0x31);
    assert_eq!(cpu.is_flag_set(Flag::Z), false);
    cpu.set_mem(0x31, 0);
    LD(X).execute(&mut cpu, 0x31);
    assert_eq!(cpu.is_flag_set(Flag::Z), true);
}

#[test]
fn test_ld_n() {
    let mut cpu = NES::mock();
    cpu.set_mem(0x31, 0b0101_0110);
    cpu.set_y(0b1000_0101);
    cpu.assign_flag(Flag::N, false);
    LD(Y).execute(&mut cpu, 0x31);
    assert_eq!(cpu.is_flag_set(Flag::N), false);
    cpu.set_a(0b1001_0010);
    cpu.set_mem(0x31, 0b1011_0001);
    LD(Y).execute(&mut cpu, 0x31);
    assert_eq!(cpu.is_flag_set(Flag::N), true);
}

#[test]
fn test_rol_c() {
    let mut cpu = NES::mock();
    cpu.assign_flag(Flag::C, false);
    ROR::set_flags_and_return(&mut cpu, 0b0100_0001);
    assert_eq!(cpu.is_flag_set(Flag::C), true);
    ROR::set_flags_and_return(&mut cpu, 0b1010_1010);
    assert_eq!(cpu.is_flag_set(Flag::C), false);
}

#[test]
fn test_rol_z() {
    let mut cpu = NES::mock();
    cpu.assign_flag(Flag::Z, false);
    ROR::set_flags_and_return(&mut cpu, 0b0000_0001);
    assert_eq!(cpu.is_flag_set(Flag::Z), true);
    cpu.assign_flag(Flag::Z, false);
    ROR::set_flags_and_return(&mut cpu, 0b0010_1011);
    assert_eq!(cpu.is_flag_set(Flag::Z), false);
}

#[test]
fn test_rol_n() {
    let mut cpu = NES::mock();
    cpu.assign_flag(Flag::N, false);
    cpu.assign_flag(Flag::C, true);
    ROR::set_flags_and_return(&mut cpu, 0b0100_0000);
    assert_eq!(cpu.is_flag_set(Flag::N), true);
    cpu.assign_flag(Flag::N, false);
    ROR::set_flags_and_return(&mut cpu, 0b1010_1011);
    assert_eq!(cpu.is_flag_set(Flag::N), false);
}

#[test]
fn test_rol_modify() {
    let mut cpu = NES::mock();
    cpu.assign_flag(Flag::C, true);
    ROR.execute(&mut cpu, 0x2013, 0b1001_1100);
    assert_eq!(cpu.get_mem(0x2013), 0b1100_1110);
}

#[test]
fn test_rol_implied() {
    let mut cpu = NES::mock();
    cpu.assign_flag(Flag::C, false);
    cpu.set_a(0b0110_0010);
    ROR.execute_accumulator(&mut cpu);
    assert_eq!(cpu.get_a(), 0b0011_0001);
}

#[test]
fn test_sec() {
    let mut cpu = NES::mock();
    cpu.clear_flag(Flag::C);
    SE(Flag::C).execute(&mut cpu);
    assert_eq!(cpu.is_flag_set(Flag::C), true);
    SE(Flag::Z).execute(&mut cpu);
    assert_eq!(cpu.is_flag_set(Flag::C), true);
}

#[test]
fn test_adc_signed_overflow_boundary() {
    // 0x7F + 0x01 with C clear crosses the positive boundary.
    let mut cpu = NES::mock();
    cpu.assign_flag(Flag::C, false);
    cpu.set_a(0x7F);
    cpu.set_mem(0x40, 0x01);
    ADC.execute(&mut cpu, 0x40);
    assert_eq!(cpu.get_a(), 0x80);
    assert_eq!(cpu.is_flag_set(Flag::N), true);
    assert_eq!(cpu.is_flag_set(Flag::V), true);
    assert_eq!(cpu.is_flag_set(Flag::Z), false);
    assert_eq!(cpu.is_flag_set(Flag::C), false);
}

#[test]
fn test_adc_carry_chain() {
    // 0x50 + 0x50 with C clear: result 0xA0, N and V set, Z and C clear.
    let mut cpu = NES::mock();
    cpu.assign_flag(Flag::C, false);
    cpu.set_a(0x50);
    cpu.set_mem(0x40, 0x50);
    ADC.execute(&mut cpu, 0x40);
    assert_eq!(cpu.get_a(), 0xA0);
    assert_eq!(cpu.is_flag_set(Flag::N), true);
    assert_eq!(cpu.is_flag_set(Flag::V), true);
    assert_eq!(cpu.is_flag_set(Flag::Z), false);
    assert_eq!(cpu.is_flag_set(Flag::C), false);
}

#[test]
fn test_sbc_borrow_boundary() {
    // 0x00 - 0x01 with C set: result 0xFF, N set, V, Z and C clear.
    let mut cpu = NES::mock();
    cpu.assign_flag(Flag::C, true);
    cpu.set_a(0x00);
    cpu.set_mem(0x40, 0x01);
    SBC.execute(&mut cpu, 0x40);
    assert_eq!(cpu.get_a(), 0xFF);
    assert_eq!(cpu.is_flag_set(Flag::N), true);
    assert_eq!(cpu.is_flag_set(Flag::V), false);
    assert_eq!(cpu.is_flag_set(Flag::Z), false);
    assert_eq!(cpu.is_flag_set(Flag::C), false);
}

#[test]
fn test_status_bit5_reads_one() {
    // Bit 5 of the status word survives every write and every instruction.
    let mut cpu = NES::mock();
    cpu.set_p(0);
    assert_eq!(cpu.get_p() & 0x20, 0x20);
    CL(Flag::C).execute(&mut cpu);
    assert_eq!(cpu.get_p() & 0x20, 0x20);
    SE(Flag::D).execute(&mut cpu);
    assert_eq!(cpu.get_p() & 0x20, 0x20);
    cpu.set_mem(0x40, 0x99);
    ADC.execute(&mut cpu, 0x40);
    assert_eq!(cpu.get_p() & 0x20, 0x20);
}
