pub mod interrupt;
pub mod memory;
pub mod oamdma;
pub mod registers;
pub mod stack;

use crate::cpu::variables::Flag;
use vstd::prelude::*;

verus! {

/// The CPU's register file. Each method's exact contract stands on the
/// machine's implementation of this trait.
pub trait Registers {
    fn get_a(&self) -> u8;

    fn get_x(&self) -> u8;

    fn get_y(&self) -> u8;

    fn get_pc(&self) -> u16;

    fn get_pch(&self) -> u8;

    fn get_pcl(&self) -> u8;

    fn get_s(&self) -> u8;

    fn get_p(&self) -> u8;

    fn set_a(&mut self, val: u8);

    fn set_x(&mut self, val: u8);

    fn set_y(&mut self, val: u8);

    fn set_pc(&mut self, val: u16);

    fn set_pch(&mut self, val: u8);

    fn set_pcl(&mut self, val: u8);

    fn set_s(&mut self, val: u8);

    fn set_p(&mut self, val: u8);

    fn increment_pc(&mut self);

    fn is_flag_set(&self, flag: Flag) -> bool;

    /// If `val` is true, the flag is set. Otherwise, the flag is cleared.
    fn assign_flag(&mut self, flag: Flag, val: bool);

    fn set_flag(&mut self, flag: Flag);

    fn clear_flag(&mut self, flag: Flag);
}

/// The CPU's bus. Reads of the PPU registers carry that register's side
/// effects, so the bus read takes the machine mutably.
pub trait Memory {
    /// The well-formedness a bus access leans on.
    spec fn mem_inv(&self) -> bool;

    fn get_mem(&mut self, addr: u16) -> u8
        requires
            old(self).mem_inv(),
    ;

    fn set_mem(&mut self, addr: u16, val: u8)
        requires
            old(self).mem_inv(),
    ;

    /// Gets the byte at the address specified by the PC, then increments
    /// the PC.
    fn get_and_increment_pc(&mut self) -> u8
        requires
            old(self).mem_inv(),
    ;
}

/// The CPU's stack, a page of RAM walked by the stack pointer.
pub trait Stack {
    /// The well-formedness a stack access leans on.
    spec fn stack_inv(&self) -> bool;

    /// Pushes a value onto the stack.
    fn push_stack(&mut self, val: u8)
        requires
            old(self).stack_inv(),
    ;

    /// Retrieves the top of the stack.
    fn top_stack(&self) -> u8
        requires
            self.stack_inv(),
    ;

    /// Removes the top of the stack by moving the stack pointer back up.
    fn pop_stack(&mut self);
}

/// The CPU-side state of the OAM DMA protocol.
pub trait OAMDMA {
    /// The well-formedness an OAM write leans on.
    spec fn dma_inv(&self) -> bool;

    fn is_oam_dma_triggered(&self) -> bool;

    fn untrigger_oam_dma(&mut self);

    fn get_oam_dma(&self) -> u8;

    fn write_oam(&mut self, offset: usize, val: u8)
        requires
            old(self).dma_inv(),
            offset < 0x100,
    ;

    fn toggle_odd_even(&mut self);

    fn is_odd_cycle(&self) -> bool;
}

/// The CPU's interrupt lines.
pub trait Interrupt {
    fn get_pending_interrupt(&self) -> InterruptState;

    fn trigger_nmi(&mut self);

    fn trigger_irq(&mut self);

    fn clear_interrupt(&mut self);
}

/// Which interrupt, if any, is waiting to be serviced at the next
/// instruction boundary. A non-maskable interrupt outranks a maskable one.
#[derive(Debug, Copy, Clone, PartialEq, Eq, Structural)]
pub enum InterruptState {
    NMI,
    IRQ,
    Inactive,
}

/// The algebra of bit 5 of the status word: forcing it on works, and
/// neither setting nor clearing a flag bit outside it can turn it off.
pub proof fn lemma_p_bit5_ops(p: u8, mask: u8)
    by (bit_vector)
    ensures
        (p | 0x20) & 0x20 == 0x20,
        p == 0x34 ==> p & 0x20 == 0x20,
        (mask & 0x20 == 0 && p & 0x20 == 0x20) ==> (p & !mask) & 0x20 == 0x20,
        p & 0x20 == 0x20 ==> (p | mask) & 0x20 == 0x20,
{
}

/// The CPU's internal state: the register file, the 2 KiB of internal RAM,
/// the open-bus latch, and the sideband state used by OAM DMA and the
/// interrupt lines.
pub struct CPUState {
    pub a: u8,
    pub x: u8,
    pub y: u8,
    pub pc: u16,
    pub s: u8,
    pub p: u8,
    pub internal_ram: Vec<u8>,
    pub open_bus: u8,
    pub odd_cycle: bool,
    pub oam_dma: u8,
    pub oam_dma_triggered: bool,
    pub pending_interrupt: InterruptState,
}

impl CPUState {
    /// The internal RAM holds exactly 2 KiB, and bit 5 of the status word,
    /// which belongs to no flag, always reads 1.
    pub open spec fn wf(&self) -> bool {
        &&& self.internal_ram@.len() == 0x800
        &&& self.p & 0x20 == 0x20
    }

    pub fn mock() -> (r: Self)
        ensures
            r.wf(),
            r == Self::spec_new(r.internal_ram),
    {
        Self::new()
    }

    pub open spec fn spec_new(ram: Vec<u8>) -> Self {
        CPUState {
            a: 0,
            x: 0,
            y: 0,
            pc: 0,
            s: 0xFD,
            p: 0x34,
            internal_ram: ram,
            open_bus: 0,
            odd_cycle: false,
            oam_dma: 0,
            oam_dma_triggered: false,
            pending_interrupt: InterruptState::Inactive,
        }
    }

    /// The cold-start state: the stack pointer at $FD, the status word at
    /// $34 (interrupt-disable set, bit 5 reading 1), everything else zero.
    pub fn new() -> (r: Self)
        ensures
            r.wf(),
            r == Self::spec_new(r.internal_ram),
            r.internal_ram@ == Seq::<u8>::new(0x800, |i: int| 0u8),
    {
        let mut ram: Vec<u8> = Vec::new();
        let mut i: usize = 0;
        while i < 0x800
            invariant
                i <= 0x800,
                ram@.len() == i,
                forall|j: int| 0 <= j < i ==> ram@[j] == 0u8,
            decreases 0x800 - i,
        {
            ram.push(0);
            i = i + 1;
        }
        proof {
            assert(ram@ =~= Seq::<u8>::new(0x800, |i: int| 0u8));
            lemma_p_bit5_ops(0x34, 0);
        }
        CPUState {
            a: 0,
            x: 0,
            y: 0,
            pc: 0,
            s: 0xFD,
            p: 0x34,
            internal_ram: ram,
            open_bus: 0,
            odd_cycle: false,
            oam_dma: 0,
            oam_dma_triggered: false,
            pending_interrupt: InterruptState::Inactive,
        }
    }
}

} // verus!
