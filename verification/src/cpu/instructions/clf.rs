use crate::cpu::variables::Flag;
use crate::state::cpu::registers::spec_assign_flag;
use crate::state::cpu::{CPUState, Registers};
use crate::state::NES;
use vstd::prelude::*;

verus! {

/// The flag-clearing instructions (carry, decimal, interrupt-disable,
/// overflow), one instruction per flag.
#[derive(Debug, Copy, Clone, PartialEq, Eq, Structural)]
pub struct CL(pub Flag);

impl CL {
    /// Clears the instruction's flag and touches nothing else.
    pub fn execute(&self, cpu: &mut NES)
        requires
            old(cpu).wf(),
        ensures
            *final(cpu) == (NES {
                cpu: CPUState {
                    p: spec_assign_flag(old(cpu).cpu.p, self.0.spec_mask(), false),
                    ..old(cpu).cpu
                },
                ..*old(cpu)
            }),
            final(cpu).wf(),
    {
        cpu.assign_flag(self.0, false);
    }
}

} // verus!
