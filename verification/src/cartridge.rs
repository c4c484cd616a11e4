use vstd::prelude::*;

verus! {

/// How the cartridge wires the two nametables into the PPU's four
/// addressable ones.
#[derive(Debug, Copy, Clone, PartialEq, Eq, Structural)]
pub enum NametableMirroring {
    Horizontal,
    Vertical,
    FourScreen,
}

/// Why a ROM image was rejected at load time.
#[derive(Debug, Copy, Clone, PartialEq, Eq, Structural)]
pub enum LoadError {
    BadMagic,
    Truncated,
    UnsupportedMapper,
}

/// The mapper as the CPU bus sees it: `get` and `set` take addresses in
/// $4020-$FFFF. Reads outside any mapped window return 0 and writes there
/// are discarded, so both are total over that range.
pub trait CPUMapper: Sized {
    spec fn cpu_wf(&self) -> bool;

    spec fn spec_cpu_get(&self, addr: u16) -> u8;

    spec fn cpu_set_rel(pre: Self, post: Self, addr: u16, val: u8) -> bool;

    fn get(&self, addr: u16) -> (r: u8)
        requires
            self.cpu_wf(),
            0x4020 <= addr,
        ensures
            r == self.spec_cpu_get(addr),
    ;

    fn set(&mut self, addr: u16, val: u8)
        requires
            old(self).cpu_wf(),
            0x4020 <= addr,
        ensures
            Self::cpu_set_rel(*old(self), *final(self), addr, val),
            final(self).cpu_wf(),
    ;
}

/// The mapper as the PPU bus sees it: pattern-table accesses below $2000,
/// plus the cartridge's nametable mirroring policy.
pub trait PPUMapper: Sized {
    spec fn ppu_wf(&self) -> bool;

    spec fn spec_ppu_get(&self, addr: u16) -> u8;

    spec fn ppu_set_rel(pre: Self, post: Self, addr: u16, val: u8) -> bool;

    spec fn spec_nametable_mirroring(&self) -> NametableMirroring;

    fn get(&self, addr: u16) -> (r: u8)
        requires
            self.ppu_wf(),
        ensures
            r == self.spec_ppu_get(addr),
    ;

    fn set(&mut self, addr: u16, val: u8)
        requires
            old(self).ppu_wf(),
        ensures
            Self::ppu_set_rel(*old(self), *final(self), addr, val),
            final(self).ppu_wf(),
    ;

    fn get_nametable_mirroring(&self) -> (r: NametableMirroring)
        ensures
            r == self.spec_nametable_mirroring(),
    ;
}

/// A full mapper presents both bus views.
pub trait Mapper: CPUMapper + PPUMapper {
}

impl<T: CPUMapper + PPUMapper> Mapper for T {
}

/// Which bank-switching scheme the cartridge uses.
#[derive(Debug, Copy, Clone, PartialEq, Eq, Structural)]
pub enum MapperKind {
    Nrom,
    Uxrom,
}

/// A loaded cartridge: its PRG ROM (16 KiB pages), its CHR storage (ROM,
/// or 8 KiB of RAM when the image carries none), 8 KiB of PRG RAM at
/// $6000-$7FFF, the nametable mirroring policy, and the PRG bank selector
/// (used by UxROM only; NROM's mapping is fixed).
pub struct Cartridge {
    pub kind: MapperKind,
    pub prg: Vec<u8>,
    pub chr: Vec<u8>,
    pub chr_writable: bool,
    pub prg_ram: Vec<u8>,
    pub mirroring: NametableMirroring,
    pub bank: u8,
}

impl Cartridge {
    /// PRG is a non-empty whole number of 16 KiB pages, CHR covers the
    /// whole 8 KiB pattern space, PRG RAM is 8 KiB, and the selected bank
    /// lies inside PRG.
    pub open spec fn wf(&self) -> bool {
        &&& self.prg@.len() >= 0x4000
        &&& self.prg@.len() % 0x4000 == 0
        &&& self.prg@.len() <= 0x400000
        &&& self.chr@.len() >= 0x2000
        &&& self.prg_ram@.len() == 0x2000
        &&& (self.bank as int) * 0x4000 + 0x4000 <= self.prg@.len()
    }

    /// The byte a CPU-side read returns: 0 below the PRG-RAM window
    /// (open-bus approximation), PRG RAM at $6000-$7FFF, and above $8000
    /// the mapped PRG ROM. NROM mirrors a single 16 KiB page across both
    /// windows; UxROM maps the selected bank at $8000-$BFFF and the last
    /// page at $C000-$FFFF.
    pub open spec fn spec_cpu_get(&self, addr: u16) -> u8 {
        if addr < 0x6000 {
            0
        } else if addr < 0x8000 {
            self.prg_ram@[addr - 0x6000]
        } else {
            match self.kind {
                MapperKind::Nrom => self.prg@[((addr - 0x8000) as int) % (self.prg@.len() as int)],
                MapperKind::Uxrom => if addr < 0xC000 {
                    self.prg@[(self.bank as int) * 0x4000 + (addr - 0x8000)]
                } else {
                    self.prg@[self.prg@.len() - 0x4000 + (addr - 0xC000)]
                },
            }
        }
    }

    /// What a CPU-side write does: writes below $6000 are discarded, the
    /// PRG-RAM window is written through, writes to ROM are discarded on
    /// NROM and select a PRG bank on UxROM: the low three bits of the
    /// written byte, folded into the page count.
    pub open spec fn cpu_set_rel(pre: Self, post: Self, addr: u16, val: u8) -> bool {
        if 0x6000 <= addr && addr < 0x8000 {
            &&& post.prg_ram@ == pre.prg_ram@.update((addr - 0x6000) as int, val)
            &&& post == (Cartridge { prg_ram: post.prg_ram, ..pre })
        } else if 0x8000 <= addr {
            match pre.kind {
                MapperKind::Nrom => post == pre,
                MapperKind::Uxrom => post == (Cartridge {
                    bank: (((val & 7) as int) % ((pre.prg@.len() as int) / 0x4000)) as u8,
                    ..pre
                }),
            }
        } else {
            post == pre
        }
    }

    /// The byte a PPU-side read returns: CHR below $2000, 0 elsewhere
    /// (the nametable space belongs to the console, not the mapper).
    pub open spec fn spec_ppu_get(&self, addr: u16) -> u8 {
        if addr < 0x2000 {
            self.chr@[addr as int]
        } else {
            0
        }
    }

    /// What a PPU-side write does: CHR RAM is written through; CHR ROM and
    /// out-of-window writes are discarded.
    pub open spec fn ppu_set_rel(pre: Self, post: Self, addr: u16, val: u8) -> bool {
        if addr < 0x2000 && pre.chr_writable {
            &&& post.chr@ == pre.chr@.update(addr as int, val)
            &&& post == (Cartridge { chr: post.chr, ..pre })
        } else {
            post == pre
        }
    }

    /// A minimal test cartridge: NROM, one zeroed 16 KiB PRG page, 8 KiB
    /// of CHR RAM, vertical mirroring.
    pub fn mock() -> (r: Self)
        ensures
            r.wf(),
            r.kind == MapperKind::Nrom,
            r.mirroring == NametableMirroring::Vertical,
            r.chr_writable,
            r.bank == 0,
            r.prg@ == Seq::<u8>::new(0x4000, |i: int| 0u8),
            r.chr@ == Seq::<u8>::new(0x2000, |i: int| 0u8),
            r.prg_ram@ == Seq::<u8>::new(0x2000, |i: int| 0u8),
    {
        Cartridge {
            kind: MapperKind::Nrom,
            prg: crate::state::zeroed(0x4000),
            chr: crate::state::zeroed(0x2000),
            chr_writable: true,
            prg_ram: crate::state::zeroed(0x2000),
            mirroring: NametableMirroring::Vertical,
            bank: 0,
        }
    }
}

/// Whether the image opens with the iNES magic, `NES` then $1A.
pub open spec fn spec_magic_ok(b: Seq<u8>) -> bool {
    &&& b.len() >= 16
    &&& b[0] == 0x4E
    &&& b[1] == 0x45
    &&& b[2] == 0x53
    &&& b[3] == 0x1A
}

/// The mapper number of an iNES header: high nibble of byte 7 over the
/// high nibble of byte 6.
pub open spec fn spec_ines_mapper(b: Seq<u8>) -> u8 {
    (b[7] & 0xF0) | (b[6] >> 4)
}

/// Whether the header announces a 512-byte trainer before the PRG data.
pub open spec fn spec_ines_trainer(b: Seq<u8>) -> bool {
    b[6] & 0x04 != 0
}

/// The byte count an iNES image of this header must have: the header, the
/// trainer if announced, the PRG pages, the CHR pages.
pub open spec fn spec_ines_expected_len(b: Seq<u8>) -> int {
    16 + (if spec_ines_trainer(b) {
        512int
    } else {
        0int
    }) + (b[4] as int) * 0x4000 + (b[5] as int) * 0x2000
}

/// The mirroring policy of an iNES header: four-screen when bit 3 of byte
/// 6 is set, else vertical or horizontal by bit 0.
pub open spec fn spec_ines_mirroring(b: Seq<u8>) -> NametableMirroring {
    if b[6] & 0x08 != 0 {
        NametableMirroring::FourScreen
    } else if b[6] & 0x01 != 0 {
        NametableMirroring::Vertical
    } else {
        NametableMirroring::Horizontal
    }
}

/// Whether the image parses: sound magic, a supported mapper, at least one
/// PRG page, and exactly the announced number of bytes.
pub open spec fn spec_ines_ok(b: Seq<u8>) -> bool {
    &&& spec_magic_ok(b)
    &&& (spec_ines_mapper(b) == 0 || spec_ines_mapper(b) == 2)
    &&& b[4] != 0
    &&& b.len() == spec_ines_expected_len(b)
}

/// Where the PRG data starts: after the header and any trainer.
pub open spec fn spec_ines_prg_start(b: Seq<u8>) -> int {
    16 + (if spec_ines_trainer(b) {
        512int
    } else {
        0int
    })
}

/// A copy of `src[start..start+len]`.
fn copy_range(src: &Vec<u8>, start: usize, len: usize) -> (r: Vec<u8>)
    requires
        start + len <= src@.len(),
    ensures
        r@ == src@.subrange(start as int, start as int + len),
{
    let total: usize = src.len();
    let mut out: Vec<u8> = Vec::new();
    let mut i: usize = 0;
    while i < len
        invariant
            i <= len,
            start + len <= total,
            total == src@.len(),
            out@.len() == i,
            forall|j: int| 0 <= j < i ==> out@[j] == src@[start + j],
        decreases len - i,
    {
        out.push(src[start + i]);
        i = i + 1;
    }
    proof {
        assert(out@ =~= src@.subrange(start as int, start as int + len));
    }
    out
}

/// Parses an iNES 1.0 image into a cartridge. A sound image of a supported
/// mapper (NROM or UxROM) loads, and nothing else does: a file shorter
/// than a header, without PRG data, or whose size disagrees with its
/// header is truncated; a wrong signature is bad magic; any other mapper
/// number is unsupported. An image without CHR pages gets 8 KiB of CHR
/// RAM. Any trainer is discarded.
pub fn parse_ines(bytes: &Vec<u8>) -> (r: Result<Cartridge, LoadError>)
    ensures
        r is Ok <==> spec_ines_ok(bytes@),
        r == Err::<Cartridge, LoadError>(LoadError::BadMagic) <==> (bytes@.len() >= 16
            && !spec_magic_ok(bytes@)),
        r == Err::<Cartridge, LoadError>(LoadError::UnsupportedMapper) <==> (spec_magic_ok(bytes@)
            && spec_ines_mapper(bytes@) != 0 && spec_ines_mapper(bytes@) != 2),
        r == Err::<Cartridge, LoadError>(LoadError::Truncated) <==> (bytes@.len() < 16 || (
        spec_magic_ok(bytes@) && (spec_ines_mapper(bytes@) == 0 || spec_ines_mapper(bytes@) == 2)
            && (bytes@[4] == 0 || bytes@.len() != spec_ines_expected_len(bytes@)))),
        r matches Ok(c) ==> {
            &&& c.wf()
            &&& c.kind == (if spec_ines_mapper(bytes@) == 0 {
                MapperKind::Nrom
            } else {
                MapperKind::Uxrom
            })
            &&& c.mirroring == spec_ines_mirroring(bytes@)
            &&& c.bank == 0
            &&& c.prg@ == bytes@.subrange(
                spec_ines_prg_start(bytes@),
                spec_ines_prg_start(bytes@) + (bytes@[4] as int) * 0x4000,
            )
            &&& c.chr_writable == (bytes@[5] == 0)
            &&& (bytes@[5] != 0 ==> c.chr@ == bytes@.subrange(
                spec_ines_prg_start(bytes@) + (bytes@[4] as int) * 0x4000,
                bytes@.len() as int,
            ))
            &&& (bytes@[5] == 0 ==> c.chr@ == Seq::<u8>::new(0x2000, |i: int| 0u8))
            &&& c.prg_ram@ == Seq::<u8>::new(0x2000, |i: int| 0u8)
        },
{
    if bytes.len() < 16 {
        return Err(LoadError::Truncated);
    }
    if !(bytes[0] == 0x4E && bytes[1] == 0x45 && bytes[2] == 0x53 && bytes[3] == 0x1A) {
        return Err(LoadError::BadMagic);
    }
    let mapper: u8 = (bytes[7] & 0xF0) | (bytes[6] >> 4);
    if !(mapper == 0 || mapper == 2) {
        return Err(LoadError::UnsupportedMapper);
    }
    let prg_pages: usize = bytes[4] as usize;
    let chr_pages: usize = bytes[5] as usize;
    let trainer: usize = if bytes[6] & 0x04 != 0 {
        512
    } else {
        0
    };
    let expected: usize = 16 + trainer + prg_pages * 0x4000 + chr_pages * 0x2000;
    if prg_pages == 0 || bytes.len() != expected {
        return Err(LoadError::Truncated);
    }
    let prg_start: usize = 16 + trainer;
    let prg: Vec<u8> = copy_range(bytes, prg_start, prg_pages * 0x4000);
    let chr_start: usize = prg_start + prg_pages * 0x4000;
    let chr: Vec<u8> = if chr_pages == 0 {
        crate::state::zeroed(0x2000)
    } else {
        copy_range(bytes, chr_start, chr_pages * 0x2000)
    };
    let mirroring: NametableMirroring = if bytes[6] & 0x08 != 0 {
        NametableMirroring::FourScreen
    } else if bytes[6] & 0x01 != 0 {
        NametableMirroring::Vertical
    } else {
        NametableMirroring::Horizontal
    };
    Ok(
        Cartridge {
            kind: if mapper == 0 {
                MapperKind::Nrom
            } else {
                MapperKind::Uxrom
            },
            prg,
            chr,
            chr_writable: chr_pages == 0,
            prg_ram: crate::state::zeroed(0x2000),
            mirroring,
            bank: 0,
        },
    )
}

impl CPUMapper for Cartridge {
    open spec fn cpu_wf(&self) -> bool {
        self.wf()
    }

    open spec fn spec_cpu_get(&self, addr: u16) -> u8 {
        Cartridge::spec_cpu_get(self, addr)
    }

    open spec fn cpu_set_rel(pre: Self, post: Self, addr: u16, val: u8) -> bool {
        Cartridge::cpu_set_rel(pre, post, addr, val)
    }

    fn get(&self, addr: u16) -> (r: u8) {
        if addr < 0x6000 {
            0
        } else if addr < 0x8000 {
            self.prg_ram[(addr - 0x6000) as usize]
        } else {
            match self.kind {
                MapperKind::Nrom => {
                    let offset: usize = (addr - 0x8000) as usize % self.prg.len();
                    self.prg[offset]
                },
                MapperKind::Uxrom => {
                    if addr < 0xC000 {
                        self.prg[(self.bank as usize) * 0x4000 + (addr - 0x8000) as usize]
                    } else {
                        self.prg[self.prg.len() - 0x4000 + (addr - 0xC000) as usize]
                    }
                },
            }
        }
    }

    fn set(&mut self, addr: u16, val: u8) {
        if 0x6000 <= addr && addr < 0x8000 {
            let i: usize = (addr - 0x6000) as usize;
            self.prg_ram.set(i, val);
        } else if 0x8000 <= addr {
            match self.kind {
                MapperKind::Nrom => {},
                MapperKind::Uxrom => {
                    let pages: usize = self.prg.len() / 0x4000;
                    self.bank = (((val & 7) as usize) % pages) as u8;
                },
            }
        }
    }
}

impl PPUMapper for Cartridge {
    open spec fn ppu_wf(&self) -> bool {
        self.wf()
    }

    open spec fn spec_ppu_get(&self, addr: u16) -> u8 {
        Cartridge::spec_ppu_get(self, addr)
    }

    open spec fn ppu_set_rel(pre: Self, post: Self, addr: u16, val: u8) -> bool {
        Cartridge::ppu_set_rel(pre, post, addr, val)
    }

    open spec fn spec_nametable_mirroring(&self) -> NametableMirroring {
        self.mirroring
    }

    fn get(&self, addr: u16) -> (r: u8) {
        if addr < 0x2000 {
            self.chr[addr as usize]
        } else {
            0
        }
    }

    fn set(&mut self, addr: u16, val: u8) {
        if addr < 0x2000 && self.chr_writable {
            self.chr.set(addr as usize, val);
        }
    }

    fn get_nametable_mirroring(&self) -> (r: NametableMirroring) {
        self.mirroring
    }
}

} // verus!
