use crate::cpu::instructions::adc::spec_adc_p;
use crate::cpu::instructions::spec_adc_result;
use crate::cpu::variables::Flag;
use crate::state::cpu::{CPUState, Memory, Registers};
use crate::state::NES;
use vstd::prelude::*;

verus! {

/// The subtract-with-carry instruction: an add-with-carry of the
/// bitwise-complemented operand, the carry acting as "not borrow".
#[derive(Debug, Copy, Clone, PartialEq, Eq, Structural)]
pub struct SBC;

/// The machine after a subtract-with-carry on the byte at `addr`: exactly
/// the add-with-carry of the complemented byte.
pub open spec fn spec_sbc_post(pre: NES, addr: u16) -> NES {
    let mid = pre.spec_read(addr).0;
    let m = !pre.spec_read(addr).1;
    let c = mid.cpu.p & 0x01 != 0;
    NES {
        cpu: CPUState {
            a: spec_adc_result(mid.cpu.a, m, c),
            p: spec_adc_p(mid.cpu.p, mid.cpu.a, m),
            ..mid.cpu
        },
        ..mid
    }
}

impl SBC {
    /// Subtracts the byte at `addr` from the accumulator, borrowing when
    /// the carry is clear.
    pub fn execute(&self, cpu: &mut NES, addr: u16)
        requires
            old(cpu).wf(),
        ensures
            *final(cpu) == spec_sbc_post(*old(cpu), addr),
            final(cpu).wf(),
    {
        let byte: u8 = !cpu.get_mem(addr);
        let c: u16 = if cpu.is_flag_set(Flag::C) {
            1
        } else {
            0
        };
        let a: u8 = cpu.get_a();
        let sum: u16 = a as u16 + byte as u16 + c;
        let result: u8 = (sum % 256) as u8;
        cpu.assign_flag(Flag::N, result & 0x80 != 0);
        cpu.assign_flag(Flag::Z, result == 0);
        cpu.assign_flag(Flag::C, sum > 255);
        cpu.assign_flag(Flag::V, ((result ^ a) & !(byte ^ a)) & 0x80 != 0);
        cpu.set_a(result);
    }
}

} // verus!
