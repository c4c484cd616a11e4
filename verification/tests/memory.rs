use nes_core::cpu::addressing::{
    absolute, absolute_indexed, branch_extra_cycles, branch_target, jmp_indirect_target,
    zero_page_x,
};
use nes_core::cpu::instructions::ldr::LD;
use nes_core::cpu::variables::Register::A;
use nes_core::state::cpu::{Memory, OAMDMA, Registers, Stack};
use nes_core::state::NES;

#[test]
fn test_set_get_memory() {
    let mut cpu = NES::mock();
    cpu.set_mem(0x0304, 12);
    assert_eq!(cpu.get_mem(0x0304), 12);
    assert_eq!(cpu.get_mem(0xB04), 12);
    cpu.set_mem(0x2033, 5);
    assert_eq!(cpu.get_mem(0x2033), 5);
    assert_eq!(cpu.get_mem(0x2003), 5);
    cpu.set_mem(0x4005, 8);
    assert_eq!(cpu.get_mem(0x4005), 8);
}

#[test]
fn test_get_and_increment_pc() {
    let mut cpu = NES::mock();
    cpu.set_pc(4);
    cpu.set_mem(4, 19);
    assert_eq!(cpu.get_and_increment_pc(), 19);
    assert_eq!(cpu.get_pc(), 5);
}

#[test]
fn test_ram_mirrors_every_2k() {
    // One RAM byte reads back through all four of its images.
    let mut cpu = NES::mock();
    cpu.set_mem(0x0304, 12);
    assert_eq!(cpu.get_mem(0x0304), 12);
    assert_eq!(cpu.get_mem(0x0B04), 12);
    assert_eq!(cpu.get_mem(0x1304), 12);
    assert_eq!(cpu.get_mem(0x1B04), 12);
    cpu.set_mem(0x1F00, 7);
    assert_eq!(cpu.get_mem(0x0700), 7);
}

#[test]
fn test_stack_push_pull_round_trip() {
    let mut cpu = NES::mock();
    let s0 = cpu.get_s();
    cpu.push_stack(0x5A);
    assert_eq!(cpu.get_s(), s0.wrapping_sub(1));
    assert_eq!(cpu.top_stack(), 0x5A);
    cpu.pop_stack();
    assert_eq!(cpu.get_s(), s0);
}

#[test]
fn test_stack_wraps_in_page() {
    let mut cpu = NES::mock();
    cpu.set_s(0x00);
    cpu.push_stack(0x77);
    assert_eq!(cpu.get_s(), 0xFF);
    assert_eq!(cpu.top_stack(), 0x77);
    cpu.pop_stack();
    assert_eq!(cpu.get_s(), 0x00);
}

#[test]
fn test_lda_zero_page_x_wraps() {
    // X=0xFF over operand 0x80 wraps inside the zero page to $7F.
    let mut cpu = NES::mock();
    cpu.set_x(0xFF);
    cpu.set_mem(0x7F, 0x42);
    let addr = zero_page_x(0x80, cpu.get_x());
    assert_eq!(addr, 0x7F);
    LD(A).execute(&mut cpu, addr);
    assert_eq!(cpu.get_a(), 0x42);
}

#[test]
fn test_absolute_indexed_page_cross() {
    assert_eq!(absolute(0x34, 0x12), 0x1234);
    let (addr, cross) = absolute_indexed(0xF0, 0x10, 0x20);
    assert_eq!(addr, 0x1110);
    assert!(cross);
    let (addr2, cross2) = absolute_indexed(0x10, 0x10, 0x20);
    assert_eq!(addr2, 0x1030);
    assert!(!cross2);
}

#[test]
fn test_branch_page_cross_costs_two_extra() {
    // A taken branch costs one extra cycle, and one more for the crossing.
    let (target, cross) = branch_target(0x10F0, 0x20);
    assert_eq!(target, 0x1110);
    assert!(cross);
    assert_eq!(branch_extra_cycles(true, cross), 2);
    assert_eq!(branch_extra_cycles(true, false), 1);
    assert_eq!(branch_extra_cycles(false, true), 0);
    let (back, _) = branch_target(0x1010, 0xF0);
    assert_eq!(back, 0x1000);
}

#[test]
fn test_jmp_indirect_wraps_in_page() {
    // A vector at $02FF takes its high byte from $0200.
    let mut cpu = NES::mock();
    cpu.set_mem(0x02FF, 0x34);
    cpu.set_mem(0x0200, 0x12);
    cpu.set_mem(0x0300, 0x99);
    assert_eq!(jmp_indirect_target(&mut cpu, 0x02FF), 0x1234);
}

#[test]
fn test_oam_dma_copies_a_page() {
    // A $4014 write of $02 on an even cycle copies $0200-$02FF into OAM
    // in 513 cycles.
    let mut cpu = NES::mock();
    for i in 0..256u16 {
        cpu.set_mem(0x0200 + i, i as u8);
    }
    cpu.set_mem(0x4014, 0x02);
    assert!(cpu.is_oam_dma_triggered());
    assert_eq!(cpu.get_oam_dma(), 0x02);
    let cycles = cpu.run_oam_dma();
    assert_eq!(cycles, 513);
    assert!(!cpu.is_oam_dma_triggered());
    for i in 0..256usize {
        assert_eq!(cpu.ppu.oam.memory[i], i as u8);
    }
}

#[test]
fn test_oam_dma_odd_cycle_costs_one_more() {
    let mut cpu = NES::mock();
    cpu.toggle_odd_even();
    cpu.set_mem(0x4014, 0x00);
    assert_eq!(cpu.run_oam_dma(), 514);
}

#[test]
fn test_cold_start_state() {
    // cold start: stack pointer at $FD, status at $34 (interrupt-disable
    // set, bit 5 reading 1), everything else clear
    let cpu = NES::mock();
    assert_eq!(cpu.get_p(), 0x34);
    assert_eq!(cpu.get_s(), 0xFD);
    assert_eq!(cpu.get_a(), 0);
    assert_eq!(cpu.get_x(), 0);
    assert_eq!(cpu.get_y(), 0);
    assert_eq!(cpu.get_pc(), 0);
    assert!(!cpu.is_odd_cycle());
    assert!(!cpu.is_oam_dma_triggered());
}
