//! A dot-stepped model of the NES console core: the 6502-derived CPU's
//! register file, bus and instruction semantics, the PPU's register,
//! scroll and rendering state, and the cartridge mapper layer.

pub mod bitops;
pub mod ppu;
pub mod cartridge;
pub mod cpu;
pub mod state;
