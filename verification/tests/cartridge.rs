use nes_core::cartridge::{
    parse_ines, CPUMapper, LoadError, MapperKind, NametableMirroring, PPUMapper,
};

fn ines_image(prg_pages: u8, chr_pages: u8, flags6: u8, flags7: u8) -> Vec<u8> {
    let mut bytes = vec![0x4E, 0x45, 0x53, 0x1A, prg_pages, chr_pages, flags6, flags7];
    bytes.resize(16, 0);
    let body = (prg_pages as usize) * 0x4000 + (chr_pages as usize) * 0x2000;
    bytes.resize(16 + body, 0);
    bytes
}

#[test]
fn test_parse_ines_nrom() {
    let mut image = ines_image(1, 1, 0, 0);
    image[16] = 0xAB;  // first PRG byte
    image[16 + 0x4000] = 0xCD;  // first CHR byte
    let cart = parse_ines(&image).unwrap();
    assert_eq!(cart.kind, MapperKind::Nrom);
    assert_eq!(cart.mirroring, NametableMirroring::Horizontal);
    assert!(!cart.chr_writable);
    assert_eq!(cart.prg.len(), 0x4000);
    assert_eq!(cart.chr.len(), 0x2000);
    assert_eq!(CPUMapper::get(&cart, 0x8000), 0xAB);
    // a 16 KiB NROM mirrors its one page across both windows
    assert_eq!(CPUMapper::get(&cart, 0xC000), 0xAB);
    assert_eq!(PPUMapper::get(&cart, 0x0000), 0xCD);
}

#[test]
fn test_parse_ines_bad_magic() {
    let mut image = ines_image(1, 1, 0, 0);
    image[0] = 0x4D;
    assert!(matches!(parse_ines(&image), Err(LoadError::BadMagic)));
}

#[test]
fn test_parse_ines_truncated() {
    assert!(matches!(parse_ines(&vec![0x4E, 0x45, 0x53]), Err(LoadError::Truncated)));
    let mut image = ines_image(1, 1, 0, 0);
    image.pop();
    assert!(matches!(parse_ines(&image), Err(LoadError::Truncated)));
    // a header announcing no PRG at all is also rejected
    assert!(matches!(parse_ines(&ines_image(0, 0, 0, 0)), Err(LoadError::Truncated)));
}

#[test]
fn test_parse_ines_unsupported_mapper() {
    let image = ines_image(1, 1, 0x10, 0);
    assert!(matches!(parse_ines(&image), Err(LoadError::UnsupportedMapper)));
}

#[test]
fn test_parse_ines_chr_ram_and_mirroring() {
    let image = ines_image(1, 0, 0x01, 0);
    let cart = parse_ines(&image).unwrap();
    assert!(cart.chr_writable);
    assert_eq!(cart.chr.len(), 0x2000);
    assert_eq!(cart.mirroring, NametableMirroring::Vertical);
    let four = parse_ines(&ines_image(1, 0, 0x09, 0)).unwrap();
    assert_eq!(four.mirroring, NametableMirroring::FourScreen);
}

#[test]
fn test_parse_ines_trainer_skipped() {
    let mut image = vec![0x4E, 0x45, 0x53, 0x1A, 1, 0, 0x04, 0];
    image.resize(16, 0);
    image.resize(16 + 512 + 0x4000, 0);
    image[16 + 512] = 0x66;  // first PRG byte, after the trainer
    let cart = parse_ines(&image).unwrap();
    assert_eq!(CPUMapper::get(&cart, 0x8000), 0x66);
}

#[test]
fn test_uxrom_bank_switching() {
    // mapper 2: writes above $8000 pick the low window's bank; the top
    // window stays on the last page.
    let mut image = ines_image(2, 0, 0x20, 0);
    image[16] = 0x11;  // page 0 start
    image[16 + 0x4000] = 0x22;  // page 1 start
    let mut cart = parse_ines(&image).unwrap();
    assert_eq!(cart.kind, MapperKind::Uxrom);
    assert_eq!(CPUMapper::get(&cart, 0x8000), 0x11);
    assert_eq!(CPUMapper::get(&cart, 0xC000), 0x22);
    CPUMapper::set(&mut cart, 0x8000, 1);
    assert_eq!(cart.bank, 1);
    assert_eq!(CPUMapper::get(&cart, 0x8000), 0x22);
    assert_eq!(CPUMapper::get(&cart, 0xC000), 0x22);
    CPUMapper::set(&mut cart, 0xFFFF, 0);
    assert_eq!(CPUMapper::get(&cart, 0x8000), 0x11);
}

#[test]
fn test_prg_ram_window() {
    let mut cart = parse_ines(&ines_image(1, 0, 0, 0)).unwrap();
    CPUMapper::set(&mut cart, 0x6000, 0x42);
    assert_eq!(CPUMapper::get(&cart, 0x6000), 0x42);
    // writes to NROM PRG ROM are discarded
    CPUMapper::set(&mut cart, 0x8000, 0x99);
    assert_eq!(CPUMapper::get(&cart, 0x8000), 0x00);
    // reads below the PRG-RAM window see open bus, approximated as 0
    assert_eq!(CPUMapper::get(&cart, 0x4020), 0x00);
}

#[test]
fn test_chr_ram_writes() {
    let mut cart = parse_ines(&ines_image(1, 0, 0, 0)).unwrap();
    PPUMapper::set(&mut cart, 0x0010, 0xFF);
    assert_eq!(PPUMapper::get(&cart, 0x0010), 0xFF);
    let mut rom = parse_ines(&ines_image(1, 1, 0, 0)).unwrap();
    PPUMapper::set(&mut rom, 0x0010, 0xFF);
    assert_eq!(PPUMapper::get(&rom, 0x0010), 0x00);
}

#[test]
fn test_uxrom_bank_select_uses_low_bits() {
    // the selector is the low three bits of the written byte, folded into
    // the page count
    let image = ines_image(3, 0, 0x20, 0);
    let mut cart = parse_ines(&image).unwrap();
    CPUMapper::set(&mut cart, 0x8000, 0x08);
    assert_eq!(cart.bank, 0);
    CPUMapper::set(&mut cart, 0x8000, 0x0A);
    assert_eq!(cart.bank, 2);
}
