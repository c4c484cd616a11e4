use crate::state::cpu::{CPUState, Memory, OAMDMA};
use crate::state::ppu::oam::OAM;
use crate::state::ppu::PPUState;
use crate::state::NES;
use vstd::prelude::*;

verus! {

impl NES {
    /// The parts of the machine an OAM DMA transfer leaves alone: beyond
    /// OAM itself and the CPU's trigger flag, only the PPU's read-side
    /// latches (the vblank bit, the write toggle, `v`, the $2007 buffer
    /// and the open bus) may move, because the transfer's reads of
    /// register pages carry those registers' read side effects.
    pub open spec fn spec_dma_untouched(pre: NES, post: NES) -> bool {
        &&& post.apu == pre.apu
        &&& post.io == pre.io
        &&& post.cartridge == pre.cartridge
        &&& post.ppu.ram == pre.ppu.ram
        &&& post.ppu.oam.addr == pre.ppu.oam.addr
        &&& post.ppu.oam.secondary == pre.ppu.oam.secondary
        &&& post.ppu.oam.memory@.len() == pre.ppu.oam.memory@.len()
        &&& post.ppu.current_cycle == pre.ppu.current_cycle
        &&& post.ppu.ctrl == pre.ppu.ctrl
        &&& post.ppu.mask == pre.ppu.mask
        &&& post.ppu.background == pre.ppu.background
        &&& post.ppu.sprites == pre.ppu.sprites
        &&& post.ppu.status.sprite0_hit == pre.ppu.status.sprite0_hit
        &&& post.ppu.status.sprite_overflow == pre.ppu.status.sprite_overflow
        &&& post.ppu.internal_registers.t == pre.ppu.internal_registers.t
        &&& post.ppu.internal_registers.x == pre.ppu.internal_registers.x
    }
}

impl OAMDMA for NES {
    /// Every OAM write leans on the machine's well-formedness.
    open spec fn dma_inv(&self) -> bool {
        self.wf()
    }

    fn is_oam_dma_triggered(&self) -> (r: bool)
        ensures
            r == self.cpu.oam_dma_triggered,
    {
        self.cpu.oam_dma_triggered
    }

    fn untrigger_oam_dma(&mut self)
        ensures
            *final(self) == (NES {
                cpu: CPUState { oam_dma_triggered: false, ..old(self).cpu },
                ..*old(self)
            }),
    {
        self.cpu.oam_dma_triggered = false;
    }

    fn get_oam_dma(&self) -> (r: u8)
        ensures
            r == self.cpu.oam_dma,
    {
        self.cpu.oam_dma
    }

    /// Writes one transferred byte into OAM, `offset` slots past OAMADDR,
    /// wrapping inside the 256-byte table. A full transfer of 256 bytes
    /// leaves OAMADDR back where it started, so the address itself is not
    /// advanced.
    fn write_oam(&mut self, offset: usize, val: u8)
        ensures
            final(self).ppu.oam.memory@ == old(self).ppu.oam.memory@.update(
                (old(self).ppu.oam.addr + offset) % 0x100,
                val,
            ),
            *final(self) == (NES {
                ppu: PPUState {
                    oam: OAM { memory: final(self).ppu.oam.memory, ..old(self).ppu.oam },
                    ..old(self).ppu
                },
                ..*old(self)
            }),
            final(self).wf(),
    {
        let slot: usize = (self.ppu.oam.addr as usize + offset) % 0x100;
        self.ppu.oam.memory.set(slot, val);
    }

    /// Flips the even/odd CPU cycle parity.
    fn toggle_odd_even(&mut self)
        ensures
            *final(self) == (NES {
                cpu: CPUState { odd_cycle: !old(self).cpu.odd_cycle, ..old(self).cpu },
                ..*old(self)
            }),
    {
        self.cpu.odd_cycle = !self.cpu.odd_cycle;
    }

    fn is_odd_cycle(&self) -> (r: bool)
        ensures
            r == self.cpu.odd_cycle,
    {
        self.cpu.odd_cycle
    }
}

impl NES {
    /// Runs the OAM DMA transfer a $4014 write requested: 256 bus reads
    /// from page `oam_dma`, each followed by a write into OAM at OAMADDR
    /// plus the byte's offset. The machine is stalled for 513 cycles, 514
    /// when the CPU stood on an odd cycle. Whatever the source page, only
    /// OAM, the CPU's trigger flag and the PPU's read-side latches can
    /// move; when the page lies in internal RAM (the ordinary case), OAM
    /// receives exactly that page and nothing else moves at all.
    pub fn run_oam_dma(&mut self) -> (cycles: usize)
        requires
            old(self).wf(),
        ensures
            final(self).wf(),
            cycles == 513 + (if old(self).cpu.odd_cycle {
                1int
            } else {
                0int
            }),
            NES::spec_dma_untouched(*old(self), *final(self)),
            final(self).cpu == (CPUState { oam_dma_triggered: false, ..old(self).cpu }),
            old(self).cpu.oam_dma < 0x20 ==> {
                &&& forall|j: int|
                    0 <= j < 0x100 ==> #[trigger] final(self).ppu.oam.memory@[(old(
                        self,
                    ).ppu.oam.addr + j) % 0x100] == old(self).cpu.internal_ram@[(old(
                        self,
                    ).cpu.oam_dma * 0x100 + j) % 0x800]
                &&& *final(self) == (NES {
                    ppu: PPUState {
                        oam: OAM { memory: final(self).ppu.oam.memory, ..old(self).ppu.oam },
                        ..old(self).ppu
                    },
                    cpu: CPUState { oam_dma_triggered: false, ..old(self).cpu },
                    ..*old(self)
                })
            },
    {
        let odd: bool = self.is_odd_cycle();
        let page: u8 = self.get_oam_dma();
        let base: u16 = (page as u16) * 0x100;
        let mut i: usize = 0;
        while i < 0x100
            invariant
                i <= 0x100,
                self.wf(),
                NES::spec_dma_untouched(*old(self), *self),
                self.cpu == old(self).cpu,
                page == old(self).cpu.oam_dma,
                base == page as int * 0x100,
                old(self).cpu.oam_dma < 0x20 ==> {
                    &&& forall|j: int|
                        0 <= j < i ==> #[trigger] self.ppu.oam.memory@[(old(self).ppu.oam.addr + j)
                            % 0x100] == old(self).cpu.internal_ram@[(old(self).cpu.oam_dma * 0x100
                            + j) % 0x800]
                    &&& *self == (NES {
                        ppu: PPUState {
                            oam: OAM { memory: self.ppu.oam.memory, ..old(self).ppu.oam },
                            ..old(self).ppu
                        },
                        ..*old(self)
                    })
                },
            decreases 0x100 - i,
        {
            proof {
                crate::state::cpu::memory::lemma_read_untouched(*self, (base + i) as u16);
            }
            let val: u8 = self.get_mem(base + i as u16);
            self.write_oam(i, val);
            i = i + 1;
        }
        self.untrigger_oam_dma();
        if odd {
            514
        } else {
            513
        }
    }

}

} // verus!
