use crate::cpu::variables::Flag;
use crate::state::cpu::registers::spec_assign_flag;
use crate::state::cpu::{CPUState, Memory, Registers};
use crate::state::NES;
use vstd::prelude::*;

verus! {

/// The rotate-right instruction: the byte shifts right one bit, the old
/// carry enters at the top, and the shifted-out bit becomes the new carry.
#[derive(Debug, Copy, Clone, PartialEq, Eq, Structural)]
pub struct ROR;

/// The rotated byte: the argument shifted right, with the old carry folded
/// into bit 7.
pub open spec fn spec_ror_result(arg: u8, c: bool) -> u8 {
    if c {
        (arg >> 1) | 0x80
    } else {
        (arg >> 1) & 0x7F
    }
}

/// The status word after a rotate: C takes the shifted-out bit, Z and N
/// come from the rotated byte.
pub open spec fn spec_ror_p(p: u8, arg: u8) -> u8 {
    let r = spec_ror_result(arg, p & 0x01 != 0);
    let p1 = spec_assign_flag(p, 0x01, arg & 0x01 != 0);
    let p2 = spec_assign_flag(p1, 0x02, r == 0);
    spec_assign_flag(p2, 0x80, r & 0x80 != 0)
}

impl ROR {
    /// Rotates `arg` right through the carry, updates C, Z and N, and
    /// hands the rotated byte back.
    pub fn set_flags_and_return(cpu: &mut NES, arg: u8) -> (r: u8)
        requires
            old(cpu).wf(),
        ensures
            r == spec_ror_result(arg, old(cpu).cpu.p & 0x01 != 0),
            *final(cpu) == (NES {
                cpu: CPUState { p: spec_ror_p(old(cpu).cpu.p, arg), ..old(cpu).cpu },
                ..*old(cpu)
            }),
            final(cpu).wf(),
    {
        let mut result: u8 = arg >> 1;
        if cpu.is_flag_set(Flag::C) {
            result = result | 0x80;
        } else {
            result = result & 0x7F;
        }
        cpu.assign_flag(Flag::C, arg & 0x01 != 0);
        cpu.assign_flag(Flag::Z, result == 0);
        cpu.assign_flag(Flag::N, result & 0x80 != 0);
        result
    }

    /// The read-modify-write form: rotates the byte that was read from
    /// `addr` and writes the rotated byte back through the bus.
    pub fn execute(&self, cpu: &mut NES, addr: u16, old_val: u8)
        requires
            old(cpu).wf(),
        ensures
            ({
                let mid = NES {
                    cpu: CPUState { p: spec_ror_p(old(cpu).cpu.p, old_val), ..old(cpu).cpu },
                    ..*old(cpu)
                };
                NES::cpu_write_rel(
                    mid,
                    *final(cpu),
                    addr,
                    spec_ror_result(old_val, old(cpu).cpu.p & 0x01 != 0),
                )
            }),
            final(cpu).wf(),
    {
        let new_val: u8 = Self::set_flags_and_return(cpu, old_val);
        cpu.set_mem(addr, new_val);
    }

    /// The accumulator form: rotates the accumulator in place.
    pub fn execute_accumulator(&self, cpu: &mut NES)
        requires
            old(cpu).wf(),
        ensures
            *final(cpu) == (NES {
                cpu: CPUState {
                    a: spec_ror_result(old(cpu).cpu.a, old(cpu).cpu.p & 0x01 != 0),
                    p: spec_ror_p(old(cpu).cpu.p, old(cpu).cpu.a),
                    ..old(cpu).cpu
                },
                ..*old(cpu)
            }),
            final(cpu).wf(),
    {
        let a_register: u8 = cpu.get_a();
        let new_val: u8 = Self::set_flags_and_return(cpu, a_register);
        cpu.set_a(new_val);
    }
}

} // verus!
