pub mod apu;
pub mod cpu;
pub mod ppu;

use crate::cartridge::Cartridge;
use apu::APURegisters;
use cpu::CPUState;
use ppu::PPUState;
use vstd::prelude::*;

verus! {

/// A vector of `n` zero bytes.
pub fn zeroed(n: usize) -> (r: Vec<u8>)
    ensures
        r@ == Seq::<u8>::new(n as nat, |i: int| 0u8),
{
    let mut v: Vec<u8> = Vec::new();
    let mut i: usize = 0;
    while i < n
        invariant
            i <= n,
            v@.len() == i,
            forall|j: int| 0 <= j < i ==> v@[j] == 0u8,
        decreases n - i,
    {
        v.push(0);
        i = i + 1;
    }
    proof {
        assert(v@ =~= Seq::<u8>::new(n as nat, |i: int| 0u8));
    }
    v
}

/// Miscellaneous CPU-visible I/O latches: the two controller ports, the
/// two unused APU slots, and the CPU test-mode bytes at $4018-$401F.
pub struct IORegisters {
    pub unused1: u8,
    pub unused2: u8,
    pub joy1: u8,
    pub joy2: u8,
    pub test_data: Vec<u8>,
}

impl IORegisters {
    pub open spec fn wf(&self) -> bool {
        self.test_data@.len() == 8
    }

    pub fn new() -> (r: Self)
        ensures
            r.wf(),
            r.unused1 == 0,
            r.unused2 == 0,
            r.joy1 == 0,
            r.joy2 == 0,
            r.test_data@ == Seq::<u8>::new(8, |i: int| 0u8),
    {
        IORegisters { unused1: 0, unused2: 0, joy1: 0, joy2: 0, test_data: zeroed(8) }
    }
}

/// The whole console: the CPU state, the PPU state, the APU and I/O
/// register files, and the inserted cartridge. Every bus access goes
/// through methods of this type.
pub struct NES {
    pub cpu: CPUState,
    pub ppu: PPUState,
    pub apu: APURegisters,
    pub io: IORegisters,
    pub cartridge: Cartridge,
}

impl NES {
    pub open spec fn wf(&self) -> bool {
        &&& self.cpu.wf()
        &&& self.ppu.wf()
        &&& self.io.wf()
        &&& self.cartridge.wf()
    }

    pub fn new(cartridge: Cartridge) -> (r: Self)
        requires
            cartridge.wf(),
        ensures
            r.wf(),
            r.cartridge == cartridge,
            r.cpu == CPUState::spec_new(r.cpu.internal_ram),
            r.cpu.internal_ram@ == Seq::<u8>::new(0x800, |i: int| 0u8),
            r.ppu.current_cycle == (ppu::cycle_status::CycleStatus {
                cycle: 0,
                scanline: 0,
                is_odd_frame: false,
            }),
            r.ppu.internal_registers == (ppu::internal_registers::InternalRegisters {
                v: 0,
                t: 0,
                x: 0,
                w: false,
            }),
            r.ppu.ctrl.register == 0,
            r.ppu.mask.register == 0,
            r.ppu.status == (ppu::mapped_registers::PPUSTATUS {
                vblank: false,
                sprite0_hit: false,
                sprite_overflow: false,
            }),
            r.ppu.data_buffer == 0,
            r.ppu.open_bus == 0,
            r.ppu.oam.addr == 0,
            r.ppu.oam.memory@ == Seq::<u8>::new(0x100, |i: int| 0u8),
            r.ppu.ram.vram@ == Seq::<u8>::new(0x1000, |i: int| 0u8),
            r.ppu.ram.palette@ == Seq::<u8>::new(0x20, |i: int| 0u8),
            r.apu == APURegisters::spec_new(),
            r.cpu.pending_interrupt == cpu::InterruptState::Inactive,
    {
        NES {
            cpu: CPUState::new(),
            ppu: PPUState::new(),
            apu: APURegisters::new(),
            io: IORegisters::new(),
            cartridge,
        }
    }

    /// A console with a minimal test cartridge inserted.
    pub fn mock() -> (r: Self)
        ensures
            r.wf(),
            r.cpu == CPUState::spec_new(r.cpu.internal_ram),
            r.cpu.internal_ram@ == Seq::<u8>::new(0x800, |i: int| 0u8),
            r.ppu.current_cycle == (ppu::cycle_status::CycleStatus {
                cycle: 0,
                scanline: 0,
                is_odd_frame: false,
            }),
            r.ppu.internal_registers == (ppu::internal_registers::InternalRegisters {
                v: 0,
                t: 0,
                x: 0,
                w: false,
            }),
            r.ppu.ctrl.register == 0,
            r.ppu.mask.register == 0,
            r.ppu.status == (ppu::mapped_registers::PPUSTATUS {
                vblank: false,
                sprite0_hit: false,
                sprite_overflow: false,
            }),
            r.ppu.data_buffer == 0,
            r.ppu.open_bus == 0,
            r.ppu.oam.addr == 0,
            r.ppu.oam.memory@ == Seq::<u8>::new(0x100, |i: int| 0u8),
            r.ppu.ram.vram@ == Seq::<u8>::new(0x1000, |i: int| 0u8),
            r.ppu.ram.palette@ == Seq::<u8>::new(0x20, |i: int| 0u8),
            r.cartridge.wf(),
            r.cpu.pending_interrupt == cpu::InterruptState::Inactive,
    {
        NES::new(Cartridge::mock())
    }
}

} // verus!
