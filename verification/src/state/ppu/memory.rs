use crate::cartridge::{Cartridge, NametableMirroring, PPUMapper};
use crate::state::ppu::ram::RAM;
use crate::state::ppu::{Memory, PPUState};
use crate::state::NES;
use vstd::prelude::*;

verus! {

/// Where a nametable-space offset (the low 12 bits of a PPU address in
/// $2000-$3EFF) lands in the console's nametable RAM, under the
/// cartridge's mirroring policy. Two-screen policies fold the four 1 KiB
/// tables into the first 2 KiB.
pub open spec fn spec_nt_index(m: NametableMirroring, r: u16) -> int {
    match m {
        NametableMirroring::Horizontal => (((r & 0x800) >> 1) | (r & 0x3FF)) as int,
        NametableMirroring::Vertical => (r & 0x7FF) as int,
        NametableMirroring::FourScreen => (r & 0xFFF) as int,
    }
}

/// Where a palette-space address lands in the 32-byte palette RAM: the low
/// five bits, except that $3F10/$3F14/$3F18/$3F1C alias their background
/// counterparts $3F00/$3F04/$3F08/$3F0C.
pub open spec fn spec_palette_index(addr: u16) -> int {
    let i = addr & 0x1F;
    if i == 0x10 || i == 0x14 || i == 0x18 || i == 0x1C {
        i - 0x10
    } else {
        i as int
    }
}

/// The folded addresses stay inside the memories they index.
pub proof fn lemma_ppu_index_bounds(r: u16, addr: u16)
    by (bit_vector)
    ensures
        ((r & 0x800) >> 1) | (r & 0x3FF) < 0x800,
        r & 0x7FF < 0x800,
        r & 0xFFF < 0x1000,
        addr & 0x1F < 0x20,
        addr % 0x4000 < 0x4000,
        (addr % 0x4000) & 0x0FFF < 0x1000,
{
}

pub fn nt_index(m: NametableMirroring, r: u16) -> (i: usize)
    ensures
        i == spec_nt_index(m, r),
        i < 0x1000,
{
    proof {
        lemma_ppu_index_bounds(r, 0);
    }
    match m {
        NametableMirroring::Horizontal => (((r & 0x800) >> 1) | (r & 0x3FF)) as usize,
        NametableMirroring::Vertical => (r & 0x7FF) as usize,
        NametableMirroring::FourScreen => (r & 0xFFF) as usize,
    }
}

pub fn palette_index(addr: u16) -> (i: usize)
    ensures
        i == spec_palette_index(addr),
        i < 0x20,
{
    proof {
        lemma_ppu_index_bounds(0, addr);
    }
    let i: u16 = addr & 0x1F;
    if i == 0x10 || i == 0x14 || i == 0x18 || i == 0x1C {
        (i - 0x10) as usize
    } else {
        i as usize
    }
}

impl NES {
    /// The byte at a PPU-space address: pattern tables come from the
    /// cartridge, $2000-$3EFF from nametable RAM under the mirroring
    /// policy, and $3F00-$3FFF from palette RAM under its alias rules.
    /// Addresses fold into the 14-bit PPU space first.
    pub open spec fn spec_ppu_get(&self, addr: u16) -> u8 {
        let a = addr % 0x4000;
        if a < 0x2000 {
            self.cartridge.spec_ppu_get(a)
        } else if a < 0x3F00 {
            self.ppu.ram.vram@[spec_nt_index(self.cartridge.mirroring, a & 0x0FFF)]
        } else {
            self.ppu.ram.palette@[spec_palette_index(a)]
        }
    }

    /// What a PPU-space write does: pattern-table writes go to the
    /// cartridge (taking effect only on CHR RAM), nametable writes land in
    /// nametable RAM under the mirroring policy, and palette writes land in
    /// palette RAM under its alias rules.
    pub open spec fn ppu_set_rel(pre: NES, post: NES, addr: u16, val: u8) -> bool {
        let a = addr % 0x4000;
        if a < 0x2000 {
            &&& Cartridge::ppu_set_rel(pre.cartridge, post.cartridge, a, val)
            &&& post == (NES { cartridge: post.cartridge, ..pre })
        } else if a < 0x3F00 {
            &&& post.ppu.ram.vram@ == pre.ppu.ram.vram@.update(
                spec_nt_index(pre.cartridge.mirroring, a & 0x0FFF),
                val,
            )
            &&& post == (NES {
                ppu: PPUState {
                    ram: RAM { vram: post.ppu.ram.vram, ..pre.ppu.ram },
                    ..pre.ppu
                },
                ..pre
            })
        } else {
            &&& post.ppu.ram.palette@ == pre.ppu.ram.palette@.update(spec_palette_index(a), val)
            &&& post == (NES {
                ppu: PPUState {
                    ram: RAM { palette: post.ppu.ram.palette, ..pre.ppu.ram },
                    ..pre.ppu
                },
                ..pre
            })
        }
    }

}

impl Memory for NES {
    /// Every PPU-space access leans on the machine's well-formedness.
    open spec fn ppu_mem_inv(&self) -> bool {
        self.wf()
    }

    /// Reads one byte from PPU space; reads have no side effect at this
    /// level (the $2007 buffering lives in the register layer).
    fn get(&self, addr: u16) -> (r: u8)
        ensures
            r == self.spec_ppu_get(addr),
    {
        proof {
            lemma_ppu_index_bounds(addr % 0x4000, addr);
        }
        let a: u16 = addr % 0x4000;
        if a < 0x2000 {
            PPUMapper::get(&self.cartridge, a)
        } else if a < 0x3F00 {
            let i: usize = nt_index(self.cartridge.get_nametable_mirroring(), a & 0x0FFF);
            self.ppu.ram.vram[i]
        } else {
            let i: usize = palette_index(a);
            self.ppu.ram.palette[i]
        }
    }

    /// Writes one byte into PPU space.
    fn set(&mut self, addr: u16, val: u8)
        ensures
            Self::ppu_set_rel(*old(self), *final(self), addr, val),
            final(self).wf(),
    {
        proof {
            lemma_ppu_index_bounds(addr % 0x4000, addr);
        }
        let a: u16 = addr % 0x4000;
        if a < 0x2000 {
            PPUMapper::set(&mut self.cartridge, a, val);
        } else if a < 0x3F00 {
            let i: usize = nt_index(self.cartridge.get_nametable_mirroring(), a & 0x0FFF);
            self.ppu.ram.vram.set(i, val);
        } else {
            let i: usize = palette_index(a);
            self.ppu.ram.palette.set(i, val);
        }
    }
}

} // verus!
