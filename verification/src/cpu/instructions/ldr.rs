use crate::cpu::variables::{Flag, Register};
use crate::state::cpu::registers::spec_assign_flag;
use crate::state::cpu::{CPUState, Memory, Registers};
use crate::state::NES;
use vstd::prelude::*;

verus! {

/// The load instructions, one per target register (LDA, LDX, LDY).
#[derive(Debug, Copy, Clone, PartialEq, Eq, Structural)]
pub struct LD(pub Register);

/// The status word after a load: Z from the byte being zero, N from its
/// sign bit.
pub open spec fn spec_ld_p(p: u8, byte: u8) -> u8 {
    let p1 = spec_assign_flag(p, 0x02, byte == 0);
    spec_assign_flag(p1, 0x80, byte & 0x80 != 0)
}

/// The machine after a load from `addr`: first the bus read (with any
/// register side effects), then the target register takes the byte and the
/// status word its Z and N.
pub open spec fn spec_ld_post(pre: NES, addr: u16, target: Register) -> NES {
    let mid = pre.spec_read(addr).0;
    let byte = pre.spec_read(addr).1;
    NES {
        cpu: CPUState {
            a: if target == Register::A {
                byte
            } else {
                mid.cpu.a
            },
            x: if target == Register::X {
                byte
            } else {
                mid.cpu.x
            },
            y: if target == Register::Y {
                byte
            } else {
                mid.cpu.y
            },
            p: spec_ld_p(mid.cpu.p, byte),
            ..mid.cpu
        },
        ..mid
    }
}

impl LD {
    /// Loads the byte at `addr` into the instruction's register.
    pub fn execute(&self, cpu: &mut NES, addr: u16)
        requires
            old(cpu).wf(),
        ensures
            *final(cpu) == spec_ld_post(*old(cpu), addr, self.0),
            final(cpu).wf(),
    {
        let byte: u8 = cpu.get_mem(addr);
        match self.0 {
            Register::A => cpu.set_a(byte),
            Register::X => cpu.set_x(byte),
            Register::Y => cpu.set_y(byte),
        }
        cpu.assign_flag(Flag::Z, byte == 0);
        cpu.assign_flag(Flag::N, byte & 0x80 != 0);
    }
}

} // verus!
