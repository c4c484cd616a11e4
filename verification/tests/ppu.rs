use nes_core::ppu::cycle;
use nes_core::ppu::palette::nes_color;
use nes_core::state::cpu::InterruptState;
use nes_core::state::cpu::{Interrupt, Memory};
use nes_core::state::ppu::Background;
use nes_core::state::NES;

#[test]
fn test_addr_writes_compose_v() {
    // two $2006 writes compose the 14-bit address into v
    let mut nes = NES::mock();
    nes.set_mem(0x2006, 0x21);
    nes.set_mem(0x2006, 0x08);
    assert_eq!(nes.get_v(), 0x2108);
    assert_eq!(nes.get_t(), 0x2108);
}

#[test]
fn test_ppu_registers_mirror_every_8() {
    // $2006 reached through its images at $200E and $3FFE behaves the same
    let mut nes = NES::mock();
    nes.set_mem(0x200E, 0x21);
    nes.set_mem(0x3FFE, 0x08);
    assert_eq!(nes.get_v(), 0x2108);
    nes.set_mem(0x2033, 5);
    assert_eq!(nes.ppu.oam.addr, 5);
    assert_eq!(nes.get_mem(0x2BFB), nes.get_mem(0x2003));
}

#[test]
fn test_2007_buffered_read() {
    // with v at $2000: the first read hands back the stale buffer, the
    // second the byte that was at $2000
    let mut nes = NES::mock();
    nes.ppu.ram.vram[0] = 0x42;  // $2000 under vertical mirroring
    nes.set_mem(0x2006, 0x20);
    nes.set_mem(0x2006, 0x00);
    let first = nes.get_mem(0x2007);
    let second = nes.get_mem(0x2007);
    assert_eq!(first, 0x00);
    assert_eq!(second, 0x42);
    assert_eq!(nes.get_v(), 0x2002);
}

#[test]
fn test_2007_write_and_increment_32() {
    let mut nes = NES::mock();
    nes.set_mem(0x2000, 0x04);  // vertical increment
    nes.set_mem(0x2006, 0x20);
    nes.set_mem(0x2006, 0x00);
    nes.set_mem(0x2007, 0x55);
    assert_eq!(nes.get_v(), 0x2020);
    assert_eq!(nes.ppu.ram.vram[0], 0x55);
}

#[test]
fn test_palette_alias_3f10() {
    // $3F10 aliases $3F00
    let mut nes = NES::mock();
    nes.set_mem(0x2006, 0x3F);
    nes.set_mem(0x2006, 0x10);
    nes.set_mem(0x2007, 0x2A);
    assert_eq!(nes.ppu.ram.palette[0], 0x2A);
    nes.set_mem(0x2006, 0x3F);
    nes.set_mem(0x2006, 0x00);
    // palette reads come back directly, not buffered
    assert_eq!(nes.get_mem(0x2007), 0x2A);
}

#[test]
fn test_scroll_writes_stage_t_and_x() {
    let mut nes = NES::mock();
    nes.set_mem(0x2005, 0b0111_1101);  // coarse X 0b01111, fine X 0b101
    assert_eq!(nes.get_t() & 0x1F, 0b01111);
    assert_eq!(nes.get_fine_x(), 0b101);
    nes.set_mem(0x2005, 0b0101_1110);  // coarse Y 0b01011, fine Y 0b110
    assert_eq!((nes.get_t() >> 5) & 0x1F, 0b01011);
    assert_eq!((nes.get_t() >> 12) & 0x7, 0b110);
}

#[test]
fn test_status_read_clears_vblank_and_toggle() {
    let mut nes = NES::mock();
    nes.ppu.status.vblank = true;
    nes.set_mem(0x2005, 0x11);  // raise the write toggle
    assert!(nes.ppu.internal_registers.w);
    let status = nes.get_mem(0x2002);
    assert_eq!(status & 0x80, 0x80);
    assert!(!nes.ppu.status.vblank);
    assert!(!nes.ppu.internal_registers.w);
    assert_eq!(nes.get_mem(0x2002) & 0x80, 0);
}

#[test]
fn test_vblank_nmi_at_241_1() {
    // at scanline 241 dot 1 with CTRL bit 7 set, the CPU receives the NMI
    // edge, and a $2002 read clears the level
    let mut nes = NES::mock();
    nes.set_mem(0x2000, 0x80);
    assert_eq!(nes.get_pending_interrupt(), InterruptState::Inactive);
    nes.ppu.current_cycle.scanline = 241;
    nes.ppu.current_cycle.cycle = 1;
    cycle(&mut nes);
    assert_eq!(nes.get_pending_interrupt(), InterruptState::NMI);
    assert_eq!(nes.get_2002() & 0x80, 0x80);
    let status = nes.get_mem(0x2002);
    assert_eq!(status & 0x80, 0x80);
    assert_eq!(nes.get_2002() & 0x80, 0);
}

#[test]
fn test_nmi_on_ctrl_rise_during_vblank() {
    let mut nes = NES::mock();
    nes.ppu.status.vblank = true;
    nes.set_mem(0x2000, 0x80);
    assert_eq!(nes.get_pending_interrupt(), InterruptState::NMI);
}

#[test]
fn test_flags_clear_on_prerender() {
    let mut nes = NES::mock();
    nes.ppu.status.vblank = true;
    nes.ppu.status.sprite0_hit = true;
    nes.ppu.status.sprite_overflow = true;
    nes.ppu.current_cycle.scanline = 261;
    nes.ppu.current_cycle.cycle = 1;
    cycle(&mut nes);
    assert!(!nes.ppu.status.vblank);
    assert!(!nes.ppu.status.sprite0_hit);
    assert!(!nes.ppu.status.sprite_overflow);
}

#[test]
fn test_frame_returns_to_start() {
    // a full frame is 262 * 341 dots with rendering off, one fewer on an
    // odd frame with rendering on
    let mut nes = NES::mock();
    for _ in 0..262 * 341 {
        cycle(&mut nes);
    }
    assert_eq!(nes.ppu.current_cycle.scanline, 0);
    assert_eq!(nes.ppu.current_cycle.cycle, 0);
    assert!(nes.ppu.current_cycle.is_odd_frame);
    nes.set_mem(0x2001, 0x18);
    for _ in 0..262 * 341 - 1 {
        cycle(&mut nes);
    }
    assert_eq!(nes.ppu.current_cycle.scanline, 0);
    assert_eq!(nes.ppu.current_cycle.cycle, 0);
    assert!(!nes.ppu.current_cycle.is_odd_frame);
}

#[test]
fn test_sprite0_hit() {
    // sprite 0 at (10, 20) over an opaque background raises STATUS bit 6
    // on the scanline where they overlap
    let mut nes = NES::mock();
    for i in 0..8 {
        nes.cartridge.chr[0x10 + i] = 0xFF;  // tile 1, low plane fully opaque
    }
    for i in 0..0x400 {
        nes.ppu.ram.vram[i] = 0x01;  // every background tile is tile 1
    }
    nes.ppu.oam.memory[0] = 20;  // sprite 0: Y
    nes.ppu.oam.memory[1] = 1;  //   tile
    nes.ppu.oam.memory[2] = 0;  //   attributes
    nes.ppu.oam.memory[3] = 10;  //   X
    nes.set_mem(0x2001, 0b0001_1110);
    while nes.ppu.current_cycle.scanline < 23 {
        cycle(&mut nes);
    }
    assert_eq!(nes.get_2002() & 0x40, 0x40);
}

#[test]
fn test_visible_dot_emits_pixel() {
    let mut nes = NES::mock();
    nes.set_mem(0x2001, 0x08);
    nes.ppu.ram.palette[0] = 0x01;
    // dot 0 is idle
    assert_eq!(cycle(&mut nes), None);
    let px = cycle(&mut nes).unwrap();
    assert_eq!(px.x, 0);
    assert_eq!(px.y, 0);
    // a transparent pixel shows the universal background colour
    assert_eq!(px.color, nes_color(0x01));
}

#[test]
fn test_rendering_disabled_emits_nothing() {
    let mut nes = NES::mock();
    for _ in 0..1000 {
        assert_eq!(cycle(&mut nes), None);
    }
}

#[test]
fn test_color_table_entries() {
    assert_eq!(nes_color(0x00).r, 84);
    assert_eq!(nes_color(0x01).g, 30);
    assert_eq!(nes_color(0x01).b, 116);
    assert_eq!(nes_color(0x21).r, 76);
    assert_eq!(nes_color(0x21).g, 154);
    assert_eq!(nes_color(0x21).b, 236);
    // the top two bits are ignored
    assert_eq!(nes_color(0x41), nes_color(0x01));
}

#[test]
fn test_sprite_overflow_on_ninth() {
    // nine sprites share a scanline: eight are kept, the ninth raises the
    // overflow flag
    let mut nes = NES::mock();
    for i in 0..9 {
        nes.ppu.oam.memory[4 * i] = 10;      // Y
        nes.ppu.oam.memory[4 * i + 1] = 1;   // tile
        nes.ppu.oam.memory[4 * i + 2] = 0;   // attributes
        nes.ppu.oam.memory[4 * i + 3] = (8 * i) as u8;  // X
    }
    nes.set_mem(0x2001, 0x18);
    while nes.ppu.current_cycle.scanline < 11 {
        cycle(&mut nes);
    }
    assert_eq!(nes.get_2002() & 0x20, 0x20);
    assert_eq!(nes.ppu.sprites.count, 8);
}

#[test]
fn test_sprite_priority_behind_background() {
    // an opaque sprite with attribute bit 5 set loses to an opaque
    // background pixel
    let mut nes = NES::mock();
    for i in 0..8 {
        nes.cartridge.chr[0x10 + i] = 0xFF;  // tile 1, low plane fully opaque
    }
    for i in 0..0x3C0 {
        nes.ppu.ram.vram[i] = 0x01;  // tiles only; attribute table stays 0
    }
    nes.ppu.ram.palette[1] = 0x15;  // background pattern 1, palette 0
    nes.ppu.ram.palette[0x11] = 0x2A;  // sprite pattern 1, palette 0
    nes.ppu.oam.memory[0] = 20;
    nes.ppu.oam.memory[1] = 1;
    nes.ppu.oam.memory[2] = 0x20;  // behind the background
    nes.ppu.oam.memory[3] = 10;
    nes.set_mem(0x2001, 0b0001_1110);
    let mut seen = None;
    while nes.ppu.current_cycle.scanline < 23 {
        let at_overlap = nes.ppu.current_cycle.scanline == 21 && nes.ppu.current_cycle.cycle == 13;
        let px = cycle(&mut nes);
        if at_overlap {
            seen = px;
        }
    }
    let px = seen.unwrap();
    assert_eq!(px.x, 12);
    assert_eq!(px.y, 21);
    assert_eq!(px.color, nes_color(0x15));
    // both pixels were opaque, so the hit flag still rises
    assert_eq!(nes.get_2002() & 0x40, 0x40);
}

#[test]
fn test_increment_y_wraps_nametable() {
    // fine Y 7 over coarse Y 29: both clear and the vertical nametable
    // bit flips
    let mut nes = NES::mock();
    nes.ppu.internal_registers.v = 0x73A0;
    nes.increment_y();
    assert_eq!(nes.ppu.internal_registers.v, 0x0800);
    // fine Y short of 7 only steps fine Y
    nes.ppu.internal_registers.v = 0x03A0;
    nes.increment_y();
    assert_eq!(nes.ppu.internal_registers.v, 0x13A0);
}

#[test]
fn test_background_fetch_addresses() {
    let mut nes = NES::mock();
    nes.ppu.internal_registers.v = 0x0155;
    assert_eq!(nes.get_nametable_addr(), 0x2155);
    assert_eq!(nes.get_attribute_addr(), 0x23D5);
    nes.ppu.internal_registers.v = 0x5000;  // fine Y 5
    nes.set_mem(0x2000, 0x10);  // background table at $1000
    assert_eq!(nes.get_background_tile_addr_low(3), 0x1000 + 3 * 16 + 5);
    assert_eq!(nes.get_background_tile_addr_high(3), 0x1000 + 3 * 16 + 8 + 5);
}

#[test]
fn test_oam_addr_data_round_trip() {
    let mut nes = NES::mock();
    nes.ppu.current_cycle.scanline = 245;  // writes land only off the render lines
    nes.set_mem(0x2003, 5);
    nes.set_mem(0x2004, 0x42);
    assert_eq!(nes.ppu.oam.memory[5], 0x42);
    assert_eq!(nes.ppu.oam.addr, 6);
    nes.set_mem(0x2003, 5);
    assert_eq!(nes.get_mem(0x2004), 0x42);
}

#[test]
fn test_write_only_registers_read_open_bus() {
    let mut nes = NES::mock();
    nes.set_mem(0x2001, 0x5D);
    assert_eq!(nes.get_mem(0x2000), 0x5D);
    assert_eq!(nes.get_mem(0x2005), 0x5D);
    assert_eq!(nes.get_mem(0x2006), 0x5D);
}

#[test]
fn test_frame_period_from_midframe() {
    // from any mid-frame position, one frame of dots leads back to the
    // same scanline and dot
    let mut nes = NES::mock();
    for _ in 0..1000 {
        cycle(&mut nes);
    }
    let s0 = nes.ppu.current_cycle.scanline;
    let d0 = nes.ppu.current_cycle.cycle;
    for _ in 0..262 * 341 {
        cycle(&mut nes);
    }
    assert_eq!(nes.ppu.current_cycle.scanline, s0);
    assert_eq!(nes.ppu.current_cycle.cycle, d0);
    // with rendering enabled the odd frame takes one dot fewer
    assert!(nes.ppu.current_cycle.is_odd_frame);
    nes.set_mem(0x2001, 0x18);
    for _ in 0..262 * 341 - 1 {
        cycle(&mut nes);
    }
    assert_eq!(nes.ppu.current_cycle.scanline, s0);
    assert_eq!(nes.ppu.current_cycle.cycle, d0);
}
