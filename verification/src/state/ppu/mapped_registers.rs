use crate::bitops::BitOps;
use crate::state::cpu::{CPUState, Interrupt, InterruptState};
use crate::state::ppu::internal_registers::InternalRegisters;
use crate::state::ppu::oam::OAM;
use crate::state::ppu::ram::RAM;
use crate::state::ppu::{MappedRegisters, Memory, PPUState};
use crate::state::NES;
use vstd::prelude::*;

verus! {

/// The $2000 control register, kept as the raw written byte; each reader
/// decodes the field it needs.
pub struct PPUCTRL {
    pub register: u8,
}

impl PPUCTRL {
    pub fn new() -> (r: Self)
        ensures
            r.register == 0,
    {
        PPUCTRL { register: 0 }
    }

    pub fn set(&mut self, val: u8)
        ensures
            final(self).register == val,
    {
        self.register = val;
    }

    /// How far a $2007 access moves the VRAM address: by 32 (one row) when
    /// bit 2 is set, else by 1.
    pub open spec fn spec_vram_increment(&self) -> u16 {
        if self.register & 0x04 != 0 {
            32
        } else {
            1
        }
    }

    pub fn get_vram_increment(&self) -> (r: u16)
        ensures
            r == self.spec_vram_increment(),
    {
        if self.register & 0x04 != 0 {
            32
        } else {
            1
        }
    }

    /// Pattern-table base for 8x8 sprites: $1000 when bit 3 is set, else $0000.
    pub open spec fn spec_sprite_pattern_table_addr(&self) -> u16 {
        if self.register & 0x08 != 0 {
            0x1000
        } else {
            0
        }
    }

    pub fn get_sprite_pattern_table_addr(&self) -> (r: u16)
        ensures
            r == self.spec_sprite_pattern_table_addr(),
    {
        if self.register & 0x08 != 0 {
            0x1000
        } else {
            0
        }
    }

    /// Pattern-table base for the background: $1000 when bit 4 is set.
    pub open spec fn spec_background_pattern_table_addr(&self) -> u16 {
        if self.register & 0x10 != 0 {
            0x1000
        } else {
            0
        }
    }

    pub fn get_background_pattern_table_addr(&self) -> (r: u16)
        ensures
            r == self.spec_background_pattern_table_addr(),
    {
        if self.register & 0x10 != 0 {
            0x1000
        } else {
            0
        }
    }

    /// Sprites are 8x16 pixels when bit 5 is set, else 8x8.
    pub open spec fn spec_sprite_height(&self) -> SpriteHeight {
        if self.register & 0x20 != 0 {
            SpriteHeight::Sixteen
        } else {
            SpriteHeight::Eight
        }
    }

    pub fn get_sprite_height(&self) -> (r: SpriteHeight)
        ensures
            r == self.spec_sprite_height(),
    {
        if self.register & 0x20 != 0 {
            SpriteHeight::Sixteen
        } else {
            SpriteHeight::Eight
        }
    }

    /// Bit 7: whether the PPU drives the NMI line during vertical blank.
    pub open spec fn spec_should_output_nmi(&self) -> bool {
        self.register & 0x80 != 0
    }

    pub fn should_output_nmi(&self) -> (r: bool)
        ensures
            r == self.spec_should_output_nmi(),
    {
        self.register & 0x80 != 0
    }
}

/// A sprite is 8 or 16 pixels tall, chosen by control-register bit 5.
#[derive(Debug, Copy, Clone, PartialEq, Eq, Structural)]
pub enum SpriteHeight {
    Eight,
    Sixteen,
}

impl SpriteHeight {
    pub open spec fn spec_pixels(self) -> u8 {
        match self {
            SpriteHeight::Eight => 8,
            SpriteHeight::Sixteen => 16,
        }
    }
}

impl From<SpriteHeight> for u8 {
    fn from(height: SpriteHeight) -> (r: u8)
        ensures
            r == height.spec_pixels(),
    {
        match height {
            SpriteHeight::Eight => 8,
            SpriteHeight::Sixteen => 16,
        }
    }
}

impl vstd::std_specs::convert::FromSpecImpl<SpriteHeight> for u8 {
    open spec fn obeys_from_spec() -> bool {
        true
    }

    open spec fn from_spec(height: SpriteHeight) -> u8 {
        height.spec_pixels()
    }
}

impl From<SpriteHeight> for usize {
    fn from(height: SpriteHeight) -> (r: usize)
        ensures
            r == height.spec_pixels(),
    {
        match height {
            SpriteHeight::Eight => 8,
            SpriteHeight::Sixteen => 16,
        }
    }
}

impl vstd::std_specs::convert::FromSpecImpl<SpriteHeight> for usize {
    open spec fn obeys_from_spec() -> bool {
        true
    }

    open spec fn from_spec(height: SpriteHeight) -> usize {
        height.spec_pixels() as usize
    }
}

/// The $2001 mask register, kept as the raw written byte.
pub struct PPUMASK {
    pub register: u8,
}

impl PPUMASK {
    pub fn new() -> (r: Self)
        ensures
            r.register == 0,
    {
        PPUMASK { register: 0 }
    }

    pub fn set(&mut self, val: u8)
        ensures
            final(self).register == val,
    {
        self.register = val;
    }

    /// Bit 3: background rendering enabled.
    pub open spec fn spec_should_render_background(&self) -> bool {
        self.register & 0x08 != 0
    }

    pub fn should_render_background(&self) -> (r: bool)
        ensures
            r == self.spec_should_render_background(),
    {
        self.register & 0x08 != 0
    }

    /// Bit 4: sprite rendering enabled.
    pub open spec fn spec_should_render_sprites(&self) -> bool {
        self.register & 0x10 != 0
    }

    pub fn should_render_sprites(&self) -> (r: bool)
        ensures
            r == self.spec_should_render_sprites(),
    {
        self.register & 0x10 != 0
    }
}

/// The three readable $2002 status bits; the rest of a status read comes
/// from the open bus.
pub struct PPUSTATUS {
    pub vblank: bool,
    pub sprite0_hit: bool,
    pub sprite_overflow: bool,
}

impl PPUSTATUS {
    pub fn new() -> (r: Self)
        ensures
            r == (PPUSTATUS { vblank: false, sprite0_hit: false, sprite_overflow: false }),
    {
        PPUSTATUS { vblank: false, sprite0_hit: false, sprite_overflow: false }
    }
}

/// A masked replacement with a 15-bit mask keeps a 15-bit word 15-bit, and
/// the low three bits of a byte stay under 8.
pub proof fn lemma_reg_write_bounds(t: u16, m: u16, nb: u16, val: u8)
    by (bit_vector)
    ensures
        (t < 0x8000 && m < 0x8000) ==> ((t & !m) | (m & nb)) < 0x8000,
        val & 7 < 8,
{
}

impl NES {
    /// The byte a $2002 read delivers: the three status bits on top of the
    /// low five open-bus bits.
    pub open spec fn spec_status_byte(self) -> u8 {
        (self.ppu.open_bus & 0x1F) | (if self.ppu.status.vblank {
            0x80u8
        } else {
            0
        }) | (if self.ppu.status.sprite0_hit {
            0x40u8
        } else {
            0
        }) | (if self.ppu.status.sprite_overflow {
            0x20u8
        } else {
            0
        })
    }

    /// The state after a $2002 read: vertical blank and the write toggle
    /// clear, and the delivered byte lands on the open bus.
    pub open spec fn spec_read_status(self) -> NES {
        NES {
            ppu: PPUState {
                status: PPUSTATUS { vblank: false, ..self.ppu.status },
                internal_registers: InternalRegisters { w: false, ..self.ppu.internal_registers },
                open_bus: self.spec_status_byte(),
                ..self.ppu
            },
            ..self
        }
    }

    /// Where the VRAM address moves after a $2007 access: during rendering
    /// the access triggers the rendering-time coarse-X and Y increments;
    /// otherwise it advances by the control register's step, inside the
    /// 14-bit space.
    pub open spec fn spec_v_after_access(self) -> u16 {
        let v = self.ppu.internal_registers.v;
        if self.ppu.current_cycle.spec_is_on_render_line() && self.spec_rendering_enabled() {
            InternalRegisters::spec_increment_x(InternalRegisters::spec_increment_y(v))
        } else {
            ((v + self.ppu.ctrl.spec_vram_increment()) % 0x4000) as u16
        }
    }

    /// The state after a $2000 write: the control register and the open
    /// bus take the byte, its nametable bits stage into `t`, and if the
    /// NMI output rises during vertical blank the CPU receives the edge.
    pub open spec fn spec_write_ctrl(self, val: u8) -> NES {
        let t2 = self.ppu.internal_registers.t.spec_replace_bits(0x0C00, (val as u16) << 10);
        let nmi_rises = !self.ppu.ctrl.spec_should_output_nmi() && (val & 0x80 != 0)
            && self.ppu.status.vblank;
        NES {
            ppu: PPUState {
                internal_registers: InternalRegisters { t: t2, ..self.ppu.internal_registers },
                ctrl: PPUCTRL { register: val },
                open_bus: val,
                ..self.ppu
            },
            cpu: CPUState {
                pending_interrupt: if nmi_rises {
                    InterruptState::NMI
                } else {
                    self.cpu.pending_interrupt
                },
                ..self.cpu
            },
            ..self
        }
    }

    /// The state after a $2001 write: the mask register and the open bus
    /// take the byte.
    pub open spec fn spec_write_mask(self, val: u8) -> NES {
        NES {
            ppu: PPUState { mask: PPUMASK { register: val }, open_bus: val, ..self.ppu },
            ..self
        }
    }

    /// The state after a $2003 write: OAMADDR and the open bus take the byte.
    pub open spec fn spec_write_oam_addr(self, val: u8) -> NES {
        NES {
            ppu: PPUState {
                oam: OAM { addr: val, ..self.ppu.oam },
                open_bus: val,
                ..self.ppu
            },
            ..self
        }
    }

    /// The state after a $2005 write. First write: coarse X stages into
    /// `t`, fine X is set, and the toggle rises. Second write: fine Y and
    /// coarse Y stage into `t`, and the toggle falls.
    pub open spec fn spec_write_scroll(self, val: u8) -> NES {
        let ir = self.ppu.internal_registers;
        let ir2 = if ir.w {
            InternalRegisters {
                t: ir.t.spec_replace_bits(
                    0x73E0,
                    ((((val & 7) as u16)) << 12) | (((val & 0xF8) as u16) << 2),
                ),
                w: false,
                ..ir
            }
        } else {
            InternalRegisters {
                t: ir.t.spec_replace_bits(0x001F, ((val & 0xF8) as u16) >> 3),
                x: val & 7,
                w: true,
                ..ir
            }
        };
        NES { ppu: PPUState { internal_registers: ir2, open_bus: val, ..self.ppu }, ..self }
    }

    /// The state after a $2006 write. First write: the six address bits
    /// stage into `t` bits 8-13 with bit 14 cleared, and the toggle rises.
    /// Second write: the low byte stages into `t`, `v` takes all of `t`,
    /// and the toggle falls.
    pub open spec fn spec_write_addr(self, val: u8) -> NES {
        let ir = self.ppu.internal_registers;
        let ir2 = if ir.w {
            let t2 = ir.t.spec_replace_bits(0x00FF, val as u16);
            InternalRegisters { t: t2, v: t2, w: false, ..ir }
        } else {
            InternalRegisters {
                t: ir.t.spec_replace_bits(0x7F00, ((val & 0x3F) as u16) << 8),
                w: true,
                ..ir
            }
        };
        NES { ppu: PPUState { internal_registers: ir2, open_bus: val, ..self.ppu }, ..self }
    }

    /// The state and value of a $2004 read: the byte OAMADDR points at,
    /// which also lands on the open bus.
    pub open spec fn spec_read_oam_data(self) -> (NES, u8) {
        let r = self.ppu.oam.memory@[self.ppu.oam.addr as int];
        (NES { ppu: PPUState { open_bus: r, ..self.ppu }, ..self }, r)
    }

    /// The state and value of a $2007 read. Below the palettes the read is
    /// buffered: the stale buffer comes back and the buffer refills from
    /// `v`. Palette reads come back directly while the buffer refills from
    /// the nametable shadowed $1000 below. Either way `v` advances and the
    /// value lands on the open bus.
    pub open spec fn spec_read_ppu_data(self) -> (NES, u8) {
        let v = self.ppu.internal_registers.v;
        let a = v % 0x4000;
        let buf2 = if a < 0x3F00 {
            self.spec_ppu_get(v)
        } else {
            self.spec_ppu_get((a - 0x1000) as u16)
        };
        let r = if a < 0x3F00 {
            self.ppu.data_buffer
        } else {
            self.spec_ppu_get(a)
        };
        (
            NES {
                ppu: PPUState {
                    data_buffer: buf2,
                    open_bus: r,
                    internal_registers: InternalRegisters {
                        v: self.spec_v_after_access(),
                        ..self.ppu.internal_registers
                    },
                    ..self.ppu
                },
                ..self
            },
            r,
        )
    }

    /// What a $2004 write does: outside the rendering lines the byte lands
    /// at OAMADDR, which then advances; during rendering the write is
    /// dropped.
    pub open spec fn write_oam_data_rel(pre: NES, post: NES, val: u8) -> bool {
        if pre.ppu.current_cycle.spec_is_on_render_line() {
            post == pre
        } else {
            &&& post.ppu.oam.memory@ == pre.ppu.oam.memory@.update(pre.ppu.oam.addr as int, val)
            &&& post == (NES {
                ppu: PPUState {
                    oam: OAM {
                        memory: post.ppu.oam.memory,
                        addr: ((pre.ppu.oam.addr + 1) % 0x100) as u8,
                        ..pre.ppu.oam
                    },
                    open_bus: val,
                    ..pre.ppu
                },
                ..pre
            })
        }
    }

    /// What a $2007 write does: the byte goes into PPU space at `v`, `v`
    /// advances, and the byte lands on the open bus.
    pub open spec fn write_ppu_data_rel(pre: NES, post: NES, val: u8) -> bool {
        let a = pre.ppu.internal_registers.v % 0x4000;
        let scal = NES {
            ppu: PPUState {
                internal_registers: InternalRegisters {
                    v: pre.spec_v_after_access(),
                    ..pre.ppu.internal_registers
                },
                open_bus: val,
                ..pre.ppu
            },
            ..pre
        };
        if a < 0x2000 {
            &&& crate::cartridge::Cartridge::ppu_set_rel(pre.cartridge, post.cartridge, a, val)
            &&& post == (NES { cartridge: post.cartridge, ..scal })
        } else if a < 0x3F00 {
            &&& post.ppu.ram.vram@ == pre.ppu.ram.vram@.update(
                crate::state::ppu::memory::spec_nt_index(pre.cartridge.mirroring, a & 0x0FFF),
                val,
            )
            &&& post == (NES {
                ppu: PPUState {
                    ram: RAM { vram: post.ppu.ram.vram, ..pre.ppu.ram },
                    ..scal.ppu
                },
                ..scal
            })
        } else {
            &&& post.ppu.ram.palette@ == pre.ppu.ram.palette@.update(
                crate::state::ppu::memory::spec_palette_index(a),
                val,
            )
            &&& post == (NES {
                ppu: PPUState {
                    ram: RAM { palette: post.ppu.ram.palette, ..pre.ppu.ram },
                    ..scal.ppu
                },
                ..scal
            })
        }
    }

}

impl MappedRegisters for NES {
    /// Every register access leans on the machine's well-formedness.
    open spec fn reg_inv(&self) -> bool {
        self.wf()
    }

    /// Reads of the write-only registers deliver the open-bus latch.
    fn get_ppu_ctrl(&self) -> (r: u8)
        ensures
            r == self.ppu.open_bus,
    {
        self.ppu.open_bus
    }

    fn set_ppu_ctrl(&mut self, val: u8)
        ensures
            *final(self) == old(self).spec_write_ctrl(val),
            final(self).wf(),
    {
        proof {
            lemma_reg_write_bounds(
                self.ppu.internal_registers.t,
                0x0C00,
                (val as u16) << 10,
                val,
            );
        }
        self.ppu.internal_registers.t = self.ppu.internal_registers.t.replace_bits(
            0x0C00,
            (val as u16) << 10,
        );
        let old_nmi_output: bool = self.ppu.ctrl.should_output_nmi();
        self.ppu.ctrl.set(val);
        self.ppu.open_bus = val;
        if !old_nmi_output && self.ppu.ctrl.should_output_nmi() && self.ppu.status.vblank {
            self.trigger_nmi();
        }
    }

    fn get_ppu_mask(&self) -> (r: u8)
        ensures
            r == self.ppu.open_bus,
    {
        self.ppu.open_bus
    }

    fn set_ppu_mask(&mut self, val: u8)
        ensures
            *final(self) == old(self).spec_write_mask(val),
            final(self).wf(),
    {
        self.ppu.open_bus = val;
        self.ppu.mask.set(val);
    }

    /// A $2002 read: the status byte comes back; vertical blank and the
    /// write toggle clear.
    fn get_ppu_status(&mut self) -> (r: u8)
        ensures
            r == old(self).spec_status_byte(),
            *final(self) == old(self).spec_read_status(),
            final(self).wf(),
    {
        let result: u8 = (self.ppu.open_bus & 0x1F) | (if self.ppu.status.vblank {
            0x80u8
        } else {
            0
        }) | (if self.ppu.status.sprite0_hit {
            0x40u8
        } else {
            0
        }) | (if self.ppu.status.sprite_overflow {
            0x20u8
        } else {
            0
        });
        self.ppu.status.vblank = false;
        self.ppu.internal_registers.w = false;
        self.ppu.open_bus = result;
        result
    }

    /// Writes to $2002 do nothing.
    fn set_ppu_status(&mut self, val: u8)
        ensures
            *final(self) == *old(self),
    {
        let _ = val;
    }

    fn get_oam_addr(&self) -> (r: u8)
        ensures
            r == self.ppu.open_bus,
    {
        self.ppu.open_bus
    }

    fn set_oam_addr(&mut self, val: u8)
        ensures
            *final(self) == old(self).spec_write_oam_addr(val),
            final(self).wf(),
    {
        self.ppu.oam.addr = val;
        self.ppu.open_bus = val;
    }

    fn get_oam_data(&mut self) -> (r: u8)
        ensures
            (*final(self), r) == old(self).spec_read_oam_data(),
            final(self).wf(),
    {
        let b: u8 = self.ppu.oam.memory[self.ppu.oam.addr as usize];
        self.ppu.open_bus = b;
        b
    }

    fn set_oam_data(&mut self, val: u8)
        ensures
            NES::write_oam_data_rel(*old(self), *final(self), val),
            final(self).wf(),
    {
        if self.ppu.current_cycle.is_on_render_line() {
            return ;
        }
        self.ppu.open_bus = val;
        let a: usize = self.ppu.oam.addr as usize;
        self.ppu.oam.memory.set(a, val);
        if self.ppu.oam.addr == 0xFF {
            self.ppu.oam.addr = 0;
        } else {
            self.ppu.oam.addr = self.ppu.oam.addr + 1;
        }
    }

    fn get_ppu_scroll(&self) -> (r: u8)
        ensures
            r == self.ppu.open_bus,
    {
        self.ppu.open_bus
    }

    fn set_ppu_scroll(&mut self, val: u8)
        ensures
            *final(self) == old(self).spec_write_scroll(val),
            final(self).wf(),
    {
        if self.ppu.internal_registers.w {
            proof {
                lemma_reg_write_bounds(
                    self.ppu.internal_registers.t,
                    0x73E0,
                    ((((val & 7) as u16)) << 12) | (((val & 0xF8) as u16) << 2),
                    val,
                );
            }
            self.ppu.internal_registers.t = self.ppu.internal_registers.t.replace_bits(
                0x73E0,
                (((val & 7) as u16) << 12) | (((val & 0xF8) as u16) << 2),
            );
            self.ppu.internal_registers.w = false;
        } else {
            proof {
                lemma_reg_write_bounds(
                    self.ppu.internal_registers.t,
                    0x001F,
                    ((val & 0xF8) as u16) >> 3,
                    val,
                );
            }
            self.ppu.internal_registers.t = self.ppu.internal_registers.t.replace_bits(
                0x001F,
                ((val & 0xF8) as u16) >> 3,
            );
            self.ppu.internal_registers.x = val & 7;
            self.ppu.internal_registers.w = true;
        }
        self.ppu.open_bus = val;
    }

    fn get_ppu_addr(&self) -> (r: u8)
        ensures
            r == self.ppu.open_bus,
    {
        self.ppu.open_bus
    }

    fn set_ppu_addr(&mut self, val: u8)
        ensures
            *final(self) == old(self).spec_write_addr(val),
            final(self).wf(),
    {
        if self.ppu.internal_registers.w {
            proof {
                lemma_reg_write_bounds(self.ppu.internal_registers.t, 0x00FF, val as u16, val);
            }
            let t2: u16 = self.ppu.internal_registers.t.replace_bits(0x00FF, val as u16);
            self.ppu.internal_registers.t = t2;
            self.ppu.internal_registers.v = t2;
            self.ppu.internal_registers.w = false;
        } else {
            proof {
                lemma_reg_write_bounds(
                    self.ppu.internal_registers.t,
                    0x7F00,
                    ((val & 0x3F) as u16) << 8,
                    val,
                );
            }
            self.ppu.internal_registers.t = self.ppu.internal_registers.t.replace_bits(
                0x7F00,
                ((val & 0x3F) as u16) << 8,
            );
            self.ppu.internal_registers.w = true;
        }
        self.ppu.open_bus = val;
    }

    fn get_ppu_data(&mut self) -> (r: u8)
        ensures
            (*final(self), r) == old(self).spec_read_ppu_data(),
            final(self).wf(),
    {
        let vaddr: u16 = self.ppu.internal_registers.v;
        let a: u16 = vaddr % 0x4000;
        let result: u8;
        if a < 0x3F00 {
            result = self.ppu.data_buffer;
            let refill: u8 = self.get(vaddr);
            self.ppu.data_buffer = refill;
        } else {
            let refill: u8 = self.get(a - 0x1000);
            self.ppu.data_buffer = refill;
            result = self.get(a);
        }
        self.step_v_after_access();
        self.ppu.open_bus = result;
        result
    }

    fn set_ppu_data(&mut self, val: u8)
        ensures
            NES::write_ppu_data_rel(*old(self), *final(self), val),
            final(self).wf(),
    {
        let vaddr: u16 = self.ppu.internal_registers.v;
        self.set(vaddr, val);
        self.step_v_after_access();
        self.ppu.open_bus = val;
    }

}

impl NES {
    /// Advances `v` after a $2007 access.
    fn step_v_after_access(&mut self)
        requires
            old(self).wf(),
        ensures
            *final(self) == (NES {
                ppu: PPUState {
                    internal_registers: InternalRegisters {
                        v: old(self).spec_v_after_access(),
                        ..old(self).ppu.internal_registers
                    },
                    ..old(self).ppu
                },
                ..*old(self)
            }),
            final(self).wf(),
    {
        let rendering: bool = self.should_render_background() || self.should_render_sprites();
        if self.ppu.current_cycle.is_on_render_line() && rendering {
            self.increment_y();
            self.increment_x();
        } else {
            let inc: u16 = self.ppu.ctrl.get_vram_increment();
            self.ppu.internal_registers.v = (self.ppu.internal_registers.v + inc) % 0x4000;
        }
    }

    /// Two $2006 writes compose the 14-bit VRAM address: with the toggle
    /// down, writing the high byte and then the low byte leaves `v` holding
    /// the address made of the six low bits of the first write over the
    /// whole second write, and the toggle down again.
    pub proof fn lemma_addr_writes_compose(self, hi: u8, lo: u8)
        requires
            self.wf(),
            !self.ppu.internal_registers.w,
        ensures
            ({
                let s2 = self.spec_write_addr(hi).spec_write_addr(lo);
                &&& s2.ppu.internal_registers.v == (((hi & 0x3F) as u16) << 8) | (lo as u16)
                &&& !s2.ppu.internal_registers.w
            }),
    {
        let t = self.ppu.internal_registers.t;
        assert(t < 0x8000 ==> ((((t & !0x7F00) | (0x7F00 & (((hi & 0x3F) as u16) << 8))) & !0x00FF)
            | (0x00FF & (lo as u16))) == ((((hi & 0x3F) as u16) << 8) | (lo as u16)))
            by (bit_vector);
    }

    /// The status byte as $2002 would deliver it, without the read's side
    /// effects.
    pub fn get_2002(&self) -> (r: u8)
        ensures
            r == self.spec_status_byte(),
    {
        (self.ppu.open_bus & 0x1F) | (if self.ppu.status.vblank {
            0x80u8
        } else {
            0
        }) | (if self.ppu.status.sprite0_hit {
            0x40u8
        } else {
            0
        }) | (if self.ppu.status.sprite_overflow {
            0x20u8
        } else {
            0
        })
    }

    /// The $2007 read buffer, without the read's side effects.
    pub fn get_2007(&self) -> (r: u8)
        ensures
            r == self.ppu.data_buffer,
    {
        self.ppu.data_buffer
    }

    pub fn get_v(&self) -> (r: u16)
        ensures
            r == self.ppu.internal_registers.v,
    {
        self.ppu.internal_registers.v
    }

    pub fn get_t(&self) -> (r: u16)
        ensures
            r == self.ppu.internal_registers.t,
    {
        self.ppu.internal_registers.t
    }
}

} // verus!
