use crate::state::cpu::Memory;
use crate::state::NES;
use vstd::prelude::*;

verus! {

/// A zero-page operand addresses the first page directly.
pub fn zero_page(operand: u8) -> (addr: u16)
    ensures
        addr == operand,
{
    operand as u16
}

/// The indexed zero-page modes wrap inside the zero page: the operand
/// plus the index, modulo 256.
pub open spec fn spec_zero_page_indexed(operand: u8, index: u8) -> u16 {
    ((operand + index) % 0x100) as u16
}

pub fn zero_page_x(operand: u8, x: u8) -> (addr: u16)
    ensures
        addr == spec_zero_page_indexed(operand, x),
        addr < 0x100,
{
    ((operand as u16 + x as u16) % 0x100) as u16
}

pub fn zero_page_y(operand: u8, y: u8) -> (addr: u16)
    ensures
        addr == spec_zero_page_indexed(operand, y),
        addr < 0x100,
{
    ((operand as u16 + y as u16) % 0x100) as u16
}

/// An absolute operand is its two bytes, low first.
pub open spec fn spec_absolute(lo: u8, hi: u8) -> u16 {
    (hi * 0x100 + lo) as u16
}

pub fn absolute(lo: u8, hi: u8) -> (addr: u16)
    ensures
        addr == spec_absolute(lo, hi),
{
    (hi as u16) * 0x100 + (lo as u16)
}

/// An indexed absolute address: the base plus the index, wrapping at the
/// top of the address space.
pub open spec fn spec_absolute_indexed(lo: u8, hi: u8, index: u8) -> u16 {
    ((spec_absolute(lo, hi) + index) % 0x10000) as u16
}

/// Whether adding the index leaves the operand's page; a crossing costs
/// read and branch instructions one extra cycle.
pub open spec fn spec_page_cross(lo: u8, index: u8) -> bool {
    lo + index > 0xFF
}

pub fn absolute_indexed(lo: u8, hi: u8, index: u8) -> (r: (u16, bool))
    ensures
        r.0 == spec_absolute_indexed(lo, hi, index),
        r.1 == spec_page_cross(lo, index),
{
    let base: u32 = (hi as u32) * 0x100 + (lo as u32);
    let addr: u16 = ((base + index as u32) % 0x10000) as u16;
    (addr, lo as u16 + index as u16 > 0xFF)
}

/// The two zero-page slots an (indirect,X) operand reads its pointer
/// from: operand plus X and its successor, both wrapping in page zero.
pub fn indexed_indirect_ptr(operand: u8, x: u8) -> (r: (u16, u16))
    ensures
        r.0 == spec_zero_page_indexed(operand, x),
        r.1 == spec_zero_page_indexed((operand + x) as u8, 1),
        r.0 < 0x100,
        r.1 < 0x100,
{
    let first: u16 = (operand as u16 + x as u16) % 0x100;
    let second: u16 = (first + 1) % 0x100;
    proof {
        assert((operand + x) as u8 == (operand + x) % 0x100) by (bit_vector);
    }
    (first, second)
}

/// The two zero-page slots an (indirect),Y operand reads its base pointer
/// from: the operand and its successor, wrapping in page zero.
pub fn indirect_indexed_ptr(operand: u8) -> (r: (u16, u16))
    ensures
        r.0 == operand,
        r.1 == spec_zero_page_indexed(operand, 1),
        r.0 < 0x100,
        r.1 < 0x100,
{
    (operand as u16, (operand as u16 + 1) % 0x100)
}

/// A branch target: the program counter plus the sign-extended offset,
/// wrapping at the ends of the address space.
pub open spec fn spec_branch_target(pc: u16, offset: u8) -> u16 {
    (((pc + offset) + (if offset < 0x80 {
        0int
    } else {
        0x10000 - 0x100
    })) % 0x10000) as u16
}

pub fn branch_target(pc: u16, offset: u8) -> (r: (u16, bool))
    ensures
        r.0 == spec_branch_target(pc, offset),
        r.1 == (r.0 / 0x100 != pc / 0x100),
{
    let target: u16 = if offset < 0x80 {
        (((pc as u32) + (offset as u32)) % 0x10000) as u16
    } else {
        (((pc as u32) + (offset as u32) + 0x10000 - 0x100) % 0x10000) as u16
    };
    (target, target / 0x100 != pc / 0x100)
}

/// What a branch adds to the base cycle count: one cycle when taken, and
/// one more when the taken branch crosses a page, so a taken crossing
/// branch costs two extra cycles.
pub open spec fn spec_branch_extra_cycles(taken: bool, page_cross: bool) -> u8 {
    if taken {
        if page_cross {
            2
        } else {
            1
        }
    } else {
        0
    }
}

pub fn branch_extra_cycles(taken: bool, page_cross: bool) -> (r: u8)
    ensures
        r == spec_branch_extra_cycles(taken, page_cross),
        (taken && page_cross) ==> r == 2,
{
    if taken {
        if page_cross {
            2
        } else {
            1
        }
    } else {
        0
    }
}

/// Where an indirect jump reads its vector's high byte: the successor of
/// the pointer within the pointer's own page. A pointer at $xxFF therefore
/// takes its high byte from $xx00, the documented hardware behaviour.
pub open spec fn spec_jmp_vector_high_addr(ptr: u16) -> u16 {
    ((ptr / 0x100) * 0x100 + (ptr % 0x100 + 1) % 0x100) as u16
}

/// Reads a 16-bit jump target through an indirect vector, with the
/// page-wrapping high-byte fetch.
pub fn jmp_indirect_target(nes: &mut NES, ptr: u16) -> (target: u16)
    requires
        old(nes).wf(),
    ensures
        ({
            let mid = old(nes).spec_read(ptr).0;
            &&& *final(nes) == mid.spec_read(spec_jmp_vector_high_addr(ptr)).0
            &&& target == mid.spec_read(spec_jmp_vector_high_addr(ptr)).1 * 0x100 + old(
                nes,
            ).spec_read(ptr).1
        }),
        final(nes).wf(),
{
    let lo: u8 = nes.get_mem(ptr);
    let high_addr: u16 = (ptr / 0x100) * 0x100 + (ptr % 0x100 + 1) % 0x100;
    let hi: u8 = nes.get_mem(high_addr);
    (hi as u16) * 0x100 + (lo as u16)
}

/// The indirect jump's page-wrapping bug, stated directly: a vector at the
/// end of a page takes its high byte from the start of the same page.
pub proof fn lemma_jmp_vector_wraps_in_page(ptr: u16)
    requires
        ptr % 0x100 == 0xFF,
    ensures
        spec_jmp_vector_high_addr(ptr) == (ptr / 0x100) * 0x100,
        spec_jmp_vector_high_addr(ptr) == ptr - 0xFF,
{
}

} // verus!
