use crate::state::cpu::{CPUState, Interrupt, InterruptState};
use crate::state::NES;
use vstd::prelude::*;

verus! {

impl Interrupt for NES {
    fn get_pending_interrupt(&self) -> (r: InterruptState)
        ensures
            r == self.cpu.pending_interrupt,
    {
        self.cpu.pending_interrupt
    }

    /// Latches a non-maskable interrupt; it outranks any pending IRQ.
    fn trigger_nmi(&mut self)
        ensures
            *final(self) == (NES {
                cpu: CPUState { pending_interrupt: InterruptState::NMI, ..old(self).cpu },
                ..*old(self)
            }),
    {
        self.cpu.pending_interrupt = InterruptState::NMI;
    }

    /// Latches a maskable interrupt, unless a non-maskable one is already
    /// pending.
    fn trigger_irq(&mut self)
        ensures
            *final(self) == (NES {
                cpu: CPUState {
                    pending_interrupt: if old(self).cpu.pending_interrupt == InterruptState::NMI {
                        InterruptState::NMI
                    } else {
                        InterruptState::IRQ
                    },
                    ..old(self).cpu
                },
                ..*old(self)
            }),
    {
        match self.cpu.pending_interrupt {
            InterruptState::NMI => {},
            _ => {
                self.cpu.pending_interrupt = InterruptState::IRQ;
            },
        }
    }

    fn clear_interrupt(&mut self)
        ensures
            *final(self) == (NES {
                cpu: CPUState { pending_interrupt: InterruptState::Inactive, ..old(self).cpu },
                ..*old(self)
            }),
    {
        self.cpu.pending_interrupt = InterruptState::Inactive;
    }
}

} // verus!
