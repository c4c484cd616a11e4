pub mod background;
pub mod cycle;
pub mod cycle_status;
pub mod internal_registers;
pub mod mapped_registers;
pub mod memory;
pub mod oam;
pub mod pipeline;
pub mod ram;

use cycle_status::CycleStatus;
use internal_registers::InternalRegisters;
use mapped_registers::{PPUCTRL, PPUMASK, PPUSTATUS};
use oam::OAM;
use pipeline::{BackgroundPipeline, SpritePipeline};
use ram::RAM;
use vstd::prelude::*;

verus! {

/// The eight CPU-visible PPU registers. Each method's exact contract
/// stands on the machine's implementation of this trait.
pub trait MappedRegisters {
    /// The well-formedness a register access leans on.
    spec fn reg_inv(&self) -> bool;

    fn get_ppu_ctrl(&self) -> u8;

    fn set_ppu_ctrl(&mut self, val: u8)
        requires
            old(self).reg_inv(),
    ;

    fn get_ppu_mask(&self) -> u8;

    fn set_ppu_mask(&mut self, val: u8)
        requires
            old(self).reg_inv(),
    ;

    fn get_ppu_status(&mut self) -> u8
        requires
            old(self).reg_inv(),
    ;

    fn set_ppu_status(&mut self, val: u8);

    fn get_oam_addr(&self) -> u8;

    fn set_oam_addr(&mut self, val: u8)
        requires
            old(self).reg_inv(),
    ;

    fn get_oam_data(&mut self) -> u8
        requires
            old(self).reg_inv(),
    ;

    fn set_oam_data(&mut self, val: u8)
        requires
            old(self).reg_inv(),
    ;

    fn get_ppu_scroll(&self) -> u8;

    fn set_ppu_scroll(&mut self, val: u8)
        requires
            old(self).reg_inv(),
    ;

    fn get_ppu_addr(&self) -> u8;

    fn set_ppu_addr(&mut self, val: u8)
        requires
            old(self).reg_inv(),
    ;

    fn get_ppu_data(&mut self) -> u8
        requires
            old(self).reg_inv(),
    ;

    fn set_ppu_data(&mut self, val: u8)
        requires
            old(self).reg_inv(),
    ;
}

/// The background fetch pipeline's address computations.
pub trait Background {
    fn get_nametable_addr(&self) -> u16;

    fn get_attribute_addr(&self) -> u16;

    fn get_background_tile_addr_low(&self, index: u8) -> u16;

    fn get_background_tile_addr_high(&self, index: u8) -> u16;
}

/// The PPU's own address space: pattern tables, nametables, palettes.
pub trait Memory {
    /// The well-formedness a PPU-space access leans on.
    spec fn ppu_mem_inv(&self) -> bool;

    fn get(&self, addr: u16) -> u8
        requires
            self.ppu_mem_inv(),
    ;

    fn set(&mut self, addr: u16, val: u8)
        requires
            old(self).ppu_mem_inv(),
    ;
}

/// The PPU's position on the timing grid.
pub trait Cycle {
    /// The well-formedness a timing step leans on.
    spec fn cycle_inv(&self) -> bool;

    fn update_cycle(&mut self)
        requires
            old(self).cycle_inv(),
    ;

    fn get_scanline(&self) -> usize;

    fn get_cycle(&self) -> usize;
}

/// The vertical-blank transitions.
pub trait VBlank {
    fn start_vblank(&mut self);

    fn end_vlbank(&mut self);
}

/// The PPU's state: its memories, the externally visible registers, the
/// internal scroll registers, the timing position, the $2007 read buffer,
/// the open-bus latch, and the rendering pipeline.
pub struct PPUState {
    pub ram: RAM,
    pub oam: OAM,
    pub current_cycle: CycleStatus,
    pub internal_registers: InternalRegisters,
    pub ctrl: PPUCTRL,
    pub mask: PPUMASK,
    pub status: PPUSTATUS,
    pub data_buffer: u8,
    pub open_bus: u8,
    pub background: BackgroundPipeline,
    pub sprites: SpritePipeline,
}

impl PPUState {
    pub open spec fn wf(&self) -> bool {
        &&& self.ram.wf()
        &&& self.oam.wf()
        &&& self.current_cycle.wf()
        &&& self.internal_registers.wf()
        &&& self.sprites.wf()
    }

    pub fn mock() -> (r: Self)
        ensures
            r.wf(),
            r.current_cycle == (CycleStatus { cycle: 0, scanline: 0, is_odd_frame: false }),
            r.internal_registers == (InternalRegisters { v: 0, t: 0, x: 0, w: false }),
            r.ctrl.register == 0,
            r.mask.register == 0,
            r.status == (PPUSTATUS { vblank: false, sprite0_hit: false, sprite_overflow: false }),
            r.data_buffer == 0,
            r.open_bus == 0,
            r.oam.addr == 0,
            r.oam.memory@ == Seq::<u8>::new(0x100, |i: int| 0u8),
            r.ram.vram@ == Seq::<u8>::new(0x1000, |i: int| 0u8),
            r.ram.palette@ == Seq::<u8>::new(0x20, |i: int| 0u8),
    {
        Self::new()
    }

    pub fn new() -> (r: Self)
        ensures
            r.wf(),
            r.current_cycle == (CycleStatus { cycle: 0, scanline: 0, is_odd_frame: false }),
            r.internal_registers == (InternalRegisters { v: 0, t: 0, x: 0, w: false }),
            r.ctrl.register == 0,
            r.mask.register == 0,
            r.status == (PPUSTATUS { vblank: false, sprite0_hit: false, sprite_overflow: false }),
            r.data_buffer == 0,
            r.open_bus == 0,
            r.oam.addr == 0,
            r.oam.memory@ == Seq::<u8>::new(0x100, |i: int| 0u8),
            r.ram.vram@ == Seq::<u8>::new(0x1000, |i: int| 0u8),
            r.ram.palette@ == Seq::<u8>::new(0x20, |i: int| 0u8),
    {
        PPUState {
            ram: RAM::new(),
            oam: OAM::new(),
            current_cycle: CycleStatus::new(),
            internal_registers: InternalRegisters::new(),
            ctrl: PPUCTRL::new(),
            mask: PPUMASK::new(),
            status: PPUSTATUS::new(),
            data_buffer: 0,
            open_bus: 0,
            background: BackgroundPipeline::new(),
            sprites: SpritePipeline::new(),
        }
    }
}

} // verus!
