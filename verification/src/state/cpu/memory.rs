use crate::cartridge::Cartridge;
use crate::cartridge::CPUMapper;
use crate::state::apu::APURegisters;
use crate::state::cpu::{CPUState, Memory, Registers};
use crate::state::ppu::MappedRegisters;
use crate::state::{IORegisters, NES};
use vstd::prelude::*;

verus! {

/// Which PPU register an address in $2000-$3FFF reaches: the eight
/// registers repeat through the whole window.
pub open spec fn spec_ppu_reg(addr: u16) -> u16 {
    (0x2000 + ((addr - 0x2000) % 8)) as u16
}

impl NES {
    /// The state and value of a read of one of the eight PPU registers.
    /// $2002, $2004 and $2007 have read semantics of their own; the
    /// write-only registers deliver the open-bus latch.
    pub open spec fn spec_ppu_reg_read(self, reg: u16) -> (NES, u8) {
        if reg == 0x2002 {
            (self.spec_read_status(), self.spec_status_byte())
        } else if reg == 0x2004 {
            self.spec_read_oam_data()
        } else if reg == 0x2007 {
            self.spec_read_ppu_data()
        } else {
            (self, self.ppu.open_bus)
        }
    }

    /// What a write to one of the eight PPU registers does.
    pub open spec fn ppu_reg_write_rel(pre: NES, post: NES, reg: u16, val: u8) -> bool {
        if reg == 0x2000 {
            post == pre.spec_write_ctrl(val)
        } else if reg == 0x2001 {
            post == pre.spec_write_mask(val)
        } else if reg == 0x2002 {
            post == pre
        } else if reg == 0x2003 {
            post == pre.spec_write_oam_addr(val)
        } else if reg == 0x2004 {
            NES::write_oam_data_rel(pre, post, val)
        } else if reg == 0x2005 {
            post == pre.spec_write_scroll(val)
        } else if reg == 0x2006 {
            post == pre.spec_write_addr(val)
        } else {
            NES::write_ppu_data_rel(pre, post, val)
        }
    }

    /// The state and value of a CPU-bus read, over the whole 16-bit
    /// address space: internal RAM (mirrored every $800), the PPU
    /// registers (mirrored every 8), the APU and I/O register file, and
    /// the cartridge above $4020.
    pub open spec fn spec_read(self, addr: u16) -> (NES, u8) {
        if addr < 0x2000 {
            (self, self.cpu.internal_ram@[addr as int % 0x800])
        } else if addr < 0x4000 {
            self.spec_ppu_reg_read(spec_ppu_reg(addr))
        } else if addr == 0x4014 {
            (self, self.ppu.open_bus)
        } else if addr == 0x4000 {
            (self, self.apu.sq1_vol)
        } else if addr == 0x4001 {
            (self, self.apu.sq1_sweep)
        } else if addr == 0x4002 {
            (self, self.apu.sq1_lo)
        } else if addr == 0x4003 {
            (self, self.apu.sq1_hi)
        } else if addr == 0x4004 {
            (self, self.apu.sq2_vol)
        } else if addr == 0x4005 {
            (self, self.apu.sq2_sweep)
        } else if addr == 0x4006 {
            (self, self.apu.sq2_lo)
        } else if addr == 0x4007 {
            (self, self.apu.sq2_hi)
        } else if addr == 0x4008 {
            (self, self.apu.tri_linear)
        } else if addr == 0x4009 {
            (self, self.io.unused1)
        } else if addr == 0x400A {
            (self, self.apu.tri_lo)
        } else if addr == 0x400B {
            (self, self.apu.tri_hi)
        } else if addr == 0x400C {
            (self, self.apu.noise_vol)
        } else if addr == 0x400D {
            (self, self.io.unused2)
        } else if addr == 0x400E {
            (self, self.apu.noise_lo)
        } else if addr == 0x400F {
            (self, self.apu.noise_hi)
        } else if addr == 0x4010 {
            (self, self.apu.dmc_freq)
        } else if addr == 0x4011 {
            (self, self.apu.dmc_raw)
        } else if addr == 0x4012 {
            (self, self.apu.dmc_start)
        } else if addr == 0x4013 {
            (self, self.apu.dmc_len)
        } else if addr == 0x4015 {
            (self, self.apu.snd_chn)
        } else if addr == 0x4016 {
            (self, self.io.joy1)
        } else if addr == 0x4017 {
            (self, self.io.joy2)
        } else if addr < 0x4020 {
            (self, self.io.test_data@[addr - 0x4018])
        } else {
            (self, self.cartridge.spec_cpu_get(addr))
        }
    }

    /// What a CPU-bus write does, over the whole 16-bit address space.
    pub open spec fn cpu_write_rel(pre: NES, post: NES, addr: u16, val: u8) -> bool {
        if addr < 0x2000 {
            &&& post.cpu.internal_ram@ == pre.cpu.internal_ram@.update(addr as int % 0x800, val)
            &&& post == (NES {
                cpu: CPUState { internal_ram: post.cpu.internal_ram, ..pre.cpu },
                ..pre
            })
        } else if addr < 0x4000 {
            NES::ppu_reg_write_rel(pre, post, spec_ppu_reg(addr), val)
        } else if addr == 0x4014 {
            post == (NES {
                cpu: CPUState { oam_dma: val, oam_dma_triggered: true, ..pre.cpu },
                ..pre
            })
        } else if addr == 0x4000 {
            post == (NES { apu: APURegisters { sq1_vol: val, ..pre.apu }, ..pre })
        } else if addr == 0x4001 {
            post == (NES { apu: APURegisters { sq1_sweep: val, ..pre.apu }, ..pre })
        } else if addr == 0x4002 {
            post == (NES { apu: APURegisters { sq1_lo: val, ..pre.apu }, ..pre })
        } else if addr == 0x4003 {
            post == (NES { apu: APURegisters { sq1_hi: val, ..pre.apu }, ..pre })
        } else if addr == 0x4004 {
            post == (NES { apu: APURegisters { sq2_vol: val, ..pre.apu }, ..pre })
        } else if addr == 0x4005 {
            post == (NES { apu: APURegisters { sq2_sweep: val, ..pre.apu }, ..pre })
        } else if addr == 0x4006 {
            post == (NES { apu: APURegisters { sq2_lo: val, ..pre.apu }, ..pre })
        } else if addr == 0x4007 {
            post == (NES { apu: APURegisters { sq2_hi: val, ..pre.apu }, ..pre })
        } else if addr == 0x4008 {
            post == (NES { apu: APURegisters { tri_linear: val, ..pre.apu }, ..pre })
        } else if addr == 0x4009 {
            post == (NES { io: IORegisters { unused1: val, ..pre.io }, ..pre })
        } else if addr == 0x400A {
            post == (NES { apu: APURegisters { tri_lo: val, ..pre.apu }, ..pre })
        } else if addr == 0x400B {
            post == (NES { apu: APURegisters { tri_hi: val, ..pre.apu }, ..pre })
        } else if addr == 0x400C {
            post == (NES { apu: APURegisters { noise_vol: val, ..pre.apu }, ..pre })
        } else if addr == 0x400D {
            post == (NES { io: IORegisters { unused2: val, ..pre.io }, ..pre })
        } else if addr == 0x400E {
            post == (NES { apu: APURegisters { noise_lo: val, ..pre.apu }, ..pre })
        } else if addr == 0x400F {
            post == (NES { apu: APURegisters { noise_hi: val, ..pre.apu }, ..pre })
        } else if addr == 0x4010 {
            post == (NES { apu: APURegisters { dmc_freq: val, ..pre.apu }, ..pre })
        } else if addr == 0x4011 {
            post == (NES { apu: APURegisters { dmc_raw: val, ..pre.apu }, ..pre })
        } else if addr == 0x4012 {
            post == (NES { apu: APURegisters { dmc_start: val, ..pre.apu }, ..pre })
        } else if addr == 0x4013 {
            post == (NES { apu: APURegisters { dmc_len: val, ..pre.apu }, ..pre })
        } else if addr == 0x4015 {
            post == (NES { apu: APURegisters { snd_chn: val, ..pre.apu }, ..pre })
        } else if addr == 0x4016 {
            post == (NES { io: IORegisters { joy1: val, ..pre.io }, ..pre })
        } else if addr == 0x4017 {
            post == (NES { io: IORegisters { joy2: val, ..pre.io }, ..pre })
        } else if addr < 0x4020 {
            &&& post.io.test_data@ == pre.io.test_data@.update(addr - 0x4018, val)
            &&& post == (NES {
                io: IORegisters { test_data: post.io.test_data, ..pre.io },
                ..pre
            })
        } else {
            &&& Cartridge::cpu_set_rel(pre.cartridge, post.cartridge, addr, val)
            &&& post == (NES { cartridge: post.cartridge, ..pre })
        }
    }

}

impl Memory for NES {
    /// Every bus access leans on the machine's well-formedness.
    open spec fn mem_inv(&self) -> bool {
        self.wf()
    }

    /// Reads one byte off the CPU bus. Reads of the PPU registers carry
    /// that register's side effects, which is why the bus read takes the
    /// machine mutably.
    fn get_mem(&mut self, addr: u16) -> (r: u8)
        ensures
            *final(self) == old(self).spec_read(addr).0,
            r == old(self).spec_read(addr).1,
            final(self).wf(),
    {
        if addr < 0x2000 {
            self.cpu.internal_ram[(addr % 0x800) as usize]
        } else if addr < 0x4000 {
            let reg: u16 = 0x2000 + ((addr - 0x2000) % 8);
            if reg == 0x2000 {
                self.get_ppu_ctrl()
            } else if reg == 0x2001 {
                self.get_ppu_mask()
            } else if reg == 0x2002 {
                self.get_ppu_status()
            } else if reg == 0x2003 {
                self.get_oam_addr()
            } else if reg == 0x2004 {
                self.get_oam_data()
            } else if reg == 0x2005 {
                self.get_ppu_scroll()
            } else if reg == 0x2006 {
                self.get_ppu_addr()
            } else {
                self.get_ppu_data()
            }
        } else if addr == 0x4014 {
            self.ppu.open_bus
        } else if addr == 0x4000 {
            self.apu.sq1_vol
        } else if addr == 0x4001 {
            self.apu.sq1_sweep
        } else if addr == 0x4002 {
            self.apu.sq1_lo
        } else if addr == 0x4003 {
            self.apu.sq1_hi
        } else if addr == 0x4004 {
            self.apu.sq2_vol
        } else if addr == 0x4005 {
            self.apu.sq2_sweep
        } else if addr == 0x4006 {
            self.apu.sq2_lo
        } else if addr == 0x4007 {
            self.apu.sq2_hi
        } else if addr == 0x4008 {
            self.apu.tri_linear
        } else if addr == 0x4009 {
            self.io.unused1
        } else if addr == 0x400A {
            self.apu.tri_lo
        } else if addr == 0x400B {
            self.apu.tri_hi
        } else if addr == 0x400C {
            self.apu.noise_vol
        } else if addr == 0x400D {
            self.io.unused2
        } else if addr == 0x400E {
            self.apu.noise_lo
        } else if addr == 0x400F {
            self.apu.noise_hi
        } else if addr == 0x4010 {
            self.apu.dmc_freq
        } else if addr == 0x4011 {
            self.apu.dmc_raw
        } else if addr == 0x4012 {
            self.apu.dmc_start
        } else if addr == 0x4013 {
            self.apu.dmc_len
        } else if addr == 0x4015 {
            self.apu.snd_chn
        } else if addr == 0x4016 {
            self.io.joy1
        } else if addr == 0x4017 {
            self.io.joy2
        } else if addr < 0x4020 {
            self.io.test_data[(addr - 0x4018) as usize]
        } else {
            CPUMapper::get(&self.cartridge, addr)
        }
    }

    /// Writes one byte onto the CPU bus.
    fn set_mem(&mut self, addr: u16, val: u8)
        ensures
            NES::cpu_write_rel(*old(self), *final(self), addr, val),
            final(self).wf(),
    {
        if addr < 0x2000 {
            let i: usize = (addr % 0x800) as usize;
            self.cpu.internal_ram.set(i, val);
        } else if addr < 0x4000 {
            let reg: u16 = 0x2000 + ((addr - 0x2000) % 8);
            if reg == 0x2000 {
                self.set_ppu_ctrl(val);
            } else if reg == 0x2001 {
                self.set_ppu_mask(val);
            } else if reg == 0x2002 {
                self.set_ppu_status(val);
            } else if reg == 0x2003 {
                self.set_oam_addr(val);
            } else if reg == 0x2004 {
                self.set_oam_data(val);
            } else if reg == 0x2005 {
                self.set_ppu_scroll(val);
            } else if reg == 0x2006 {
                self.set_ppu_addr(val);
            } else {
                self.set_ppu_data(val);
            }
        } else if addr == 0x4014 {
            self.cpu.oam_dma = val;
            self.cpu.oam_dma_triggered = true;
        } else if addr == 0x4000 {
            self.apu.sq1_vol = val;
        } else if addr == 0x4001 {
            self.apu.sq1_sweep = val;
        } else if addr == 0x4002 {
            self.apu.sq1_lo = val;
        } else if addr == 0x4003 {
            self.apu.sq1_hi = val;
        } else if addr == 0x4004 {
            self.apu.sq2_vol = val;
        } else if addr == 0x4005 {
            self.apu.sq2_sweep = val;
        } else if addr == 0x4006 {
            self.apu.sq2_lo = val;
        } else if addr == 0x4007 {
            self.apu.sq2_hi = val;
        } else if addr == 0x4008 {
            self.apu.tri_linear = val;
        } else if addr == 0x4009 {
            self.io.unused1 = val;
        } else if addr == 0x400A {
            self.apu.tri_lo = val;
        } else if addr == 0x400B {
            self.apu.tri_hi = val;
        } else if addr == 0x400C {
            self.apu.noise_vol = val;
        } else if addr == 0x400D {
            self.io.unused2 = val;
        } else if addr == 0x400E {
            self.apu.noise_lo = val;
        } else if addr == 0x400F {
            self.apu.noise_hi = val;
        } else if addr == 0x4010 {
            self.apu.dmc_freq = val;
        } else if addr == 0x4011 {
            self.apu.dmc_raw = val;
        } else if addr == 0x4012 {
            self.apu.dmc_start = val;
        } else if addr == 0x4013 {
            self.apu.dmc_len = val;
        } else if addr == 0x4015 {
            self.apu.snd_chn = val;
        } else if addr == 0x4016 {
            self.io.joy1 = val;
        } else if addr == 0x4017 {
            self.io.joy2 = val;
        } else if addr < 0x4020 {
            let i: usize = (addr - 0x4018) as usize;
            self.io.test_data.set(i, val);
        } else {
            CPUMapper::set(&mut self.cartridge, addr, val);
        }
    }

    /// Gets the byte at the address specified by the PC, then increments
    /// the PC (wrapping at the top of the address space).
    fn get_and_increment_pc(&mut self) -> (r: u8)
        ensures
            r == old(self).spec_read(old(self).cpu.pc).1,
            *final(self) == (NES {
                cpu: CPUState {
                    pc: ((old(self).spec_read(old(self).cpu.pc).0.cpu.pc + 1) % 0x10000) as u16,
                    ..old(self).spec_read(old(self).cpu.pc).0.cpu
                },
                ..old(self).spec_read(old(self).cpu.pc).0
            }),
            final(self).wf(),
    {
        let pc: u16 = self.get_pc();
        let result: u8 = self.get_mem(pc);
        self.increment_pc();
        result
    }
}

/// A bus read's only side effects sit in the PPU's read-side latches: it
/// moves nothing in the CPU, OAM, the memories, the registers or the
/// pipelines.
pub proof fn lemma_read_untouched(s: NES, addr: u16)
    ensures
        NES::spec_dma_untouched(s, s.spec_read(addr).0),
        s.spec_read(addr).0.cpu == s.cpu,
        s.spec_read(addr).0.ppu.oam.memory == s.ppu.oam.memory,
{
}

/// Internal RAM is mirrored through $1FFF: the four images of each RAM
/// byte read the same, and a read there moves nothing.
pub proof fn lemma_cpu_ram_mirroring(s: NES, a: u16, k: u16)
    requires
        a < 0x800,
        k < 4,
    ensures
        s.spec_read((a + 0x800 * k) as u16).1 == s.spec_read(a).1,
        s.spec_read((a + 0x800 * k) as u16).0 == s,
{
    assert((a + 0x800 * k) as int % 0x800 == a as int % 0x800);
    assert(a as int % 0x800 == a as int);
}

/// The PPU registers are mirrored every eight bytes through $3FFF: an
/// access anywhere in the window behaves exactly as the access to the
/// register it folds onto.
pub proof fn lemma_ppu_register_mirroring(pre: NES, post: NES, addr: u16, val: u8, r: u8)
    requires
        0x2000 <= addr < 0x4000,
    ensures
        spec_ppu_reg(addr) == 0x2000 + ((addr - 0x2000) % 8),
        0x2000 <= spec_ppu_reg(addr) < 0x2008,
        pre.spec_read(addr) == pre.spec_read(spec_ppu_reg(addr)),
        NES::cpu_write_rel(pre, post, addr, val) == NES::cpu_write_rel(
            pre,
            post,
            spec_ppu_reg(addr),
            val,
        ),
{
    let reg = spec_ppu_reg(addr);
    assert(0x2000 + ((addr - 0x2000) % 8) < 0x2008);
    assert((reg - 0x2000) % 8 == (addr - 0x2000) % 8);
}

} // verus!
