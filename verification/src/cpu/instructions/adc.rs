use crate::cpu::instructions::{spec_adc_carry, spec_adc_result, spec_overflow_bit};
use crate::cpu::variables::Flag;
use crate::state::cpu::registers::spec_assign_flag;
use crate::state::cpu::{CPUState, Memory, Registers};
use crate::state::NES;
use vstd::prelude::*;

verus! {

/// The add-with-carry instruction.
#[derive(Debug, Copy, Clone, PartialEq, Eq, Structural)]
pub struct ADC;

/// The status word after an add-with-carry: N from the result's sign, Z
/// from the result being zero, C from the unsigned sum leaving the byte,
/// V from signed overflow.
pub open spec fn spec_adc_p(p: u8, a: u8, m: u8) -> u8 {
    let c = p & 0x01 != 0;
    let r = spec_adc_result(a, m, c);
    let p1 = spec_assign_flag(p, 0x80, r & 0x80 != 0);
    let p2 = spec_assign_flag(p1, 0x02, r == 0);
    let p3 = spec_assign_flag(p2, 0x01, spec_adc_carry(a, m, c));
    spec_assign_flag(p3, 0x40, spec_overflow_bit(a, m, r))
}

/// The machine after an add-with-carry on the byte at `addr`: first the
/// bus read (with any register side effects), then the accumulator and
/// status update.
pub open spec fn spec_adc_post(pre: NES, addr: u16) -> NES {
    let mid = pre.spec_read(addr).0;
    let m = pre.spec_read(addr).1;
    let c = mid.cpu.p & 0x01 != 0;
    NES {
        cpu: CPUState {
            a: spec_adc_result(mid.cpu.a, m, c),
            p: spec_adc_p(mid.cpu.p, mid.cpu.a, m),
            ..mid.cpu
        },
        ..mid
    }
}

impl ADC {
    /// Adds the byte at `addr` and the carry into the accumulator.
    pub fn execute(&self, cpu: &mut NES, addr: u16)
        requires
            old(cpu).wf(),
        ensures
            *final(cpu) == spec_adc_post(*old(cpu), addr),
            final(cpu).wf(),
    {
        let byte: u8 = cpu.get_mem(addr);
        let c: u16 = if cpu.is_flag_set(Flag::C) {
            1
        } else {
            0
        };
        let a: u8 = cpu.get_a();
        let sum: u16 = a as u16 + byte as u16 + c;
        let result: u8 = (sum % 256) as u8;
        cpu.assign_flag(Flag::N, result & 0x80 != 0);
        cpu.assign_flag(Flag::Z, result == 0);
        cpu.assign_flag(Flag::C, sum > 255);
        cpu.assign_flag(Flag::V, ((result ^ a) & !(byte ^ a)) & 0x80 != 0);
        cpu.set_a(result);
    }
}

} // verus!
