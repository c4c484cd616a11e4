use crate::state::cpu::{CPUState, Stack};
use crate::state::NES;
use vstd::prelude::*;

verus! {

/// The RAM index of the stack slot for stack pointer `s`: the stack lives
/// in page $0100 and `s` wraps inside it.
pub open spec fn spec_stack_slot(s: u8) -> int {
    0x100 + s as int
}

/// The stack pointer after a push (it moves down, wrapping inside the page).
pub open spec fn spec_s_after_push(s: u8) -> u8 {
    ((s + 255) % 256) as u8
}

/// The stack pointer after a pull (it moves up, wrapping inside the page).
pub open spec fn spec_s_after_pop(s: u8) -> u8 {
    ((s + 1) % 256) as u8
}

impl Stack for NES {
    /// Every stack access leans on the machine's well-formedness.
    open spec fn stack_inv(&self) -> bool {
        self.wf()
    }

    /// Pushes a value onto the stack: the byte lands in the slot the stack
    /// pointer names, and the pointer moves down one, wrapping inside page
    /// $0100.
    fn push_stack(&mut self, val: u8)
        ensures
            final(self).cpu.internal_ram@ == old(self).cpu.internal_ram@.update(
                spec_stack_slot(old(self).cpu.s),
                val,
            ),
            *final(self) == (NES {
                cpu: CPUState {
                    s: spec_s_after_push(old(self).cpu.s),
                    internal_ram: final(self).cpu.internal_ram,
                    ..old(self).cpu
                },
                ..*old(self)
            }),
            final(self).wf(),
    {
        let slot: usize = 0x100 + self.cpu.s as usize;
        self.cpu.internal_ram.set(slot, val);
        if self.cpu.s == 0 {
            self.cpu.s = 255;
        } else {
            self.cpu.s = self.cpu.s - 1;
        }
    }

    /// Retrieves the top of the stack: the byte in the slot just above the
    /// stack pointer.
    fn top_stack(&self) -> (r: u8)
        ensures
            r == self.cpu.internal_ram@[spec_stack_slot(spec_s_after_pop(self.cpu.s))],
    {
        let up: usize = (self.cpu.s as usize + 1) % 256;
        self.cpu.internal_ram[0x100 + up]
    }

    /// Removes the top of the stack by moving the stack pointer up one,
    /// wrapping inside page $0100.
    fn pop_stack(&mut self)
        ensures
            *final(self) == (NES {
                cpu: CPUState { s: spec_s_after_pop(old(self).cpu.s), ..old(self).cpu },
                ..*old(self)
            }),
    {
        if self.cpu.s == 255 {
            self.cpu.s = 0;
        } else {
            self.cpu.s = self.cpu.s + 1;
        }
    }
}

/// Pushing a value and then pulling restores the stack pointer, and the
/// pushed value is what the pull reads back.
pub proof fn lemma_push_pull_restores(s0: NES, s1: NES, s2: NES, val: u8)
    requires
        s0.wf(),
        s1.cpu.internal_ram@ == s0.cpu.internal_ram@.update(spec_stack_slot(s0.cpu.s), val),
        s1 == (NES {
            cpu: CPUState {
                s: spec_s_after_push(s0.cpu.s),
                internal_ram: s1.cpu.internal_ram,
                ..s0.cpu
            },
            ..s0
        }),
        s2 == (NES { cpu: CPUState { s: spec_s_after_pop(s1.cpu.s), ..s1.cpu }, ..s1 }),
    ensures
        s2.cpu.s == s0.cpu.s,
        s1.cpu.internal_ram@[spec_stack_slot(spec_s_after_pop(s1.cpu.s))] == val,
        s2.cpu.internal_ram@[spec_stack_slot(s2.cpu.s)] == val,
{
    assert(spec_s_after_pop(spec_s_after_push(s0.cpu.s)) == s0.cpu.s);
}

} // verus!
