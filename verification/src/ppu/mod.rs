pub mod background_evaluation;
pub mod palette;
pub mod pipeline;
pub mod sprite_evaluation;

use crate::state::cpu::{CPUState, InterruptState};
use crate::state::ppu::cycle::spec_next_cycle;
use crate::state::ppu::internal_registers::InternalRegisters;
use crate::state::ppu::pipeline::BackgroundPipeline;
use crate::state::ppu::{Cycle, Memory, VBlank};
use crate::state::NES;
use background_evaluation::{spec_bg_reload, spec_bg_shift};
use pipeline::{bg_palette_index, spec_sprite0_hit_at, sprite_sample, SpritePixel};
use vstd::prelude::*;

verus! {

/// One emitted picture element: its screen position and colour.
#[derive(Copy, Clone, Debug, PartialEq, Eq, Structural)]
pub struct Pixel {
    pub x: usize,
    pub y: usize,
    pub color: Color,
}

/// A 24-bit RGB colour.
#[derive(Copy, Clone, Debug, PartialEq, Eq, Structural)]
pub struct Color {
    pub r: u8,
    pub g: u8,
    pub b: u8,
}

/// The scanlines on which the rendering pipeline works.
pub open spec fn spec_on_render_line(scanline: int) -> bool {
    scanline <= 239 || scanline == 261
}

pub fn on_render_line(scanline: usize) -> (r: bool)
    ensures
        r == spec_on_render_line(scanline as int),
{
    scanline <= 239 || scanline == 261
}

/// A pixel leaves the PPU on dots 1-256 of the visible scanlines.
pub open spec fn spec_should_output_pixel(scanline: int, tick: int) -> bool {
    1 <= tick <= 256 && scanline <= 239
}

pub fn should_output_pixel(scanline: usize, tick: usize) -> (r: bool)
    ensures
        r == spec_should_output_pixel(scanline as int, tick as int),
{
    1 <= tick && tick <= 256 && scanline <= 239
}

/// The background fetch pipeline works on dots 1-256 and the two-tile
/// prefetch window 321-336 of every rendering scanline.
pub open spec fn spec_should_run_background(scanline: int, tick: int) -> bool {
    (1 <= tick <= 256 || 321 <= tick <= 336) && spec_on_render_line(scanline)
}

pub fn should_run_background(scanline: usize, tick: usize) -> (r: bool)
    ensures
        r == spec_should_run_background(scanline as int, tick as int),
{
    ((1 <= tick && tick <= 256) || (321 <= tick && tick <= 336)) && on_render_line(scanline)
}

/// The background shift registers advance on the dot after each fetch dot:
/// dots 2-257 and 322-337 of every rendering scanline.
pub open spec fn spec_should_shift_background(scanline: int, tick: int) -> bool {
    (2 <= tick <= 257 || 322 <= tick <= 337) && spec_on_render_line(scanline)
}

pub fn should_shift_background(scanline: usize, tick: usize) -> (r: bool)
    ensures
        r == spec_should_shift_background(scanline as int, tick as int),
{
    ((2 <= tick && tick <= 257) || (322 <= tick && tick <= 337)) && on_render_line(scanline)
}

/// A freshly fetched tile loads into the shift registers on the first dot
/// after its fetch group: the shift dots whose dot number is 1 modulo 8.
pub open spec fn spec_should_reload_background(scanline: int, tick: int) -> bool {
    spec_should_shift_background(scanline, tick) && tick % 8 == 1
}

pub fn should_reload_background(scanline: usize, tick: usize) -> (r: bool)
    ensures
        r == spec_should_reload_background(scanline as int, tick as int),
{
    should_shift_background(scanline, tick) && tick % 8 == 1
}

/// The sprite pipeline works on every dot of the visible scanlines.
pub open spec fn spec_should_run_sprites(scanline: int, tick: int) -> bool {
    scanline <= 239 && tick != 0
}

pub fn should_run_sprites(scanline: usize, tick: usize) -> (r: bool)
    ensures
        r == spec_should_run_sprites(scanline as int, tick as int),
{
    scanline <= 239 && tick != 0
}

/// Sprite evaluation restarts (secondary OAM clears) at the first dot of
/// each visible scanline.
pub open spec fn spec_should_reload_sprites(scanline: int, tick: int) -> bool {
    spec_should_run_sprites(scanline, tick) && tick == 1
}

pub fn should_reload_sprites(scanline: usize, tick: usize) -> (r: bool)
    ensures
        r == spec_should_reload_sprites(scanline as int, tick as int),
{
    should_run_sprites(scanline, tick) && tick == 1
}

/// One primary sprite is considered every third dot of the evaluation
/// window (dots 65-254), covering all 64 sprites; this is that sprite's
/// index, meaningful on evaluation dots.
pub open spec fn spec_eval_index(tick: int) -> int {
    (tick - 65) / 3
}

/// Whether this dot evaluates a primary sprite.
pub open spec fn spec_is_eval_dot(scanline: int, tick: int) -> bool {
    spec_should_run_sprites(scanline, tick) && 65 <= tick <= 254 && (tick - 65) % 3 == 0
}

/// One rendering slot is filled every eighth dot of the sprite-fetch
/// window (dots 257-313); this is that slot's index.
pub open spec fn spec_fetch_index(tick: int) -> int {
    (tick - 257) / 8
}

/// Whether this dot fills a sprite rendering slot.
pub open spec fn spec_is_sprite_fetch_dot(scanline: int, tick: int) -> bool {
    spec_should_run_sprites(scanline, tick) && 257 <= tick <= 313 && (tick - 257) % 8 == 0
}

/// `v`'s Y component advances at dot 256 of every rendering scanline.
pub open spec fn spec_should_increment_y(scanline: int, tick: int) -> bool {
    tick == 256 && spec_on_render_line(scanline)
}

pub fn should_increment_y(scanline: usize, tick: usize) -> (r: bool)
    ensures
        r == spec_should_increment_y(scanline as int, tick as int),
{
    tick == 256 && on_render_line(scanline)
}

/// `v`'s horizontal bits reload from `t` at dot 257 of every rendering
/// scanline.
pub open spec fn spec_should_reset_x(scanline: int, tick: int) -> bool {
    tick == 257 && spec_on_render_line(scanline)
}

pub fn should_reset_x(scanline: usize, tick: usize) -> (r: bool)
    ensures
        r == spec_should_reset_x(scanline as int, tick as int),
{
    tick == 257 && on_render_line(scanline)
}

/// `v`'s vertical bits reload from `t` through dots 280-304 of the
/// pre-render scanline.
pub open spec fn spec_should_reset_y(scanline: int, tick: int) -> bool {
    280 <= tick <= 304 && scanline == 261
}

pub fn should_reset_y(scanline: usize, tick: usize) -> (r: bool)
    ensures
        r == spec_should_reset_y(scanline as int, tick as int),
{
    280 <= tick && tick <= 304 && scanline == 261
}

/// Vertical blank begins at dot 1 of scanline 241.
pub open spec fn spec_should_set_vblank(scanline: int, tick: int) -> bool {
    scanline == 241 && tick == 1
}

pub fn should_set_vblank(scanline: usize, tick: usize) -> (r: bool)
    ensures
        r == spec_should_set_vblank(scanline as int, tick as int),
{
    scanline == 241 && tick == 1
}

/// Vertical blank, sprite-0 hit and sprite overflow all clear at dot 1 of
/// the pre-render scanline.
pub open spec fn spec_should_clear_flags(scanline: int, tick: int) -> bool {
    scanline == 261 && tick == 1
}

pub fn should_clear_flags(scanline: usize, tick: usize) -> (r: bool)
    ensures
        r == spec_should_clear_flags(scanline as int, tick as int),
{
    scanline == 261 && tick == 1
}

/// The background shift registers as the pixel multiplexer sees them on
/// this dot: shifted, and reloaded where the dot calls for it.
pub open spec fn spec_bg_at_pixel(s: NES) -> BackgroundPipeline {
    let sl = s.ppu.current_cycle.scanline as int;
    let t = s.ppu.current_cycle.cycle as int;
    if s.spec_rendering_enabled() && spec_should_shift_background(sl, t) {
        if spec_should_reload_background(sl, t) {
            spec_bg_reload(spec_bg_shift(s.ppu.background))
        } else {
            spec_bg_shift(s.ppu.background)
        }
    } else {
        s.ppu.background
    }
}

/// The machine as the pixel multiplexer sees it on this dot.
pub open spec fn spec_at_pixel(s: NES) -> NES {
    NES {
        ppu: crate::state::ppu::PPUState { background: spec_bg_at_pixel(s), ..s.ppu },
        ..s
    }
}

/// The pixel this dot emits: on an output dot with rendering enabled, the
/// dot's column and scanline with the multiplexed colour; otherwise none.
pub open spec fn spec_cycle_pixel(s: NES) -> Option<Pixel> {
    let sl = s.ppu.current_cycle.scanline as int;
    let t = s.ppu.current_cycle.cycle as int;
    if spec_should_output_pixel(sl, t) && s.spec_rendering_enabled() {
        Option::Some(
            Pixel {
                x: (t - 1) as usize,
                y: sl as usize,
                color: pipeline::spec_pixel_color(spec_at_pixel(s), t - 1),
            },
        )
    } else {
        Option::None
    }
}

/// Whether this dot scores a sprite-0 hit.
pub open spec fn spec_hit_raised(s: NES) -> bool {
    let sl = s.ppu.current_cycle.scanline as int;
    let t = s.ppu.current_cycle.cycle as int;
    &&& spec_should_output_pixel(sl, t)
    &&& s.spec_rendering_enabled()
    &&& spec_sprite0_hit_at(spec_at_pixel(s), t - 1)
}

/// Whether this dot finds a ninth in-range sprite and raises the overflow
/// flag.
pub open spec fn spec_overflow_raised(s: NES) -> bool {
    let sl = s.ppu.current_cycle.scanline as int;
    let t = s.ppu.current_cycle.cycle as int;
    &&& s.spec_rendering_enabled()
    &&& spec_is_eval_dot(sl, t)
    &&& s.spec_sprite_in_range(spec_eval_index(t))
    &&& s.ppu.sprites.count >= 8
}

/// Where the VRAM address stands after this dot: the rendering-time
/// increments at their dots, when rendering is enabled.
pub open spec fn spec_v_after_cycle(s: NES) -> u16 {
    let sl = s.ppu.current_cycle.scanline as int;
    let t = s.ppu.current_cycle.cycle as int;
    let v = s.ppu.internal_registers.v;
    let treg = s.ppu.internal_registers.t;
    if !s.spec_rendering_enabled() || t == 0 {
        v
    } else {
        let v1 = if spec_should_run_background(sl, t) && t % 8 == 0 {
            InternalRegisters::spec_increment_x(v)
        } else {
            v
        };
        let v2 = if spec_should_increment_y(sl, t) {
            InternalRegisters::spec_increment_y(v1)
        } else {
            v1
        };
        let v3 = if spec_should_reset_x(sl, t) {
            InternalRegisters::spec_reset_x(v2, treg)
        } else {
            v2
        };
        if spec_should_reset_y(sl, t) {
            InternalRegisters::spec_reset_y(v3, treg)
        } else {
            v3
        }
    }
}

/// Computes and emits the pixel of the current dot, raising the sprite-0
/// hit flag when both pipelines contribute an opaque pixel from sprite 0.
fn render_pixel(nes: &mut NES) -> (p: Pixel)
    requires
        old(nes).wf(),
        spec_should_output_pixel(
            old(nes).ppu.current_cycle.scanline as int,
            old(nes).ppu.current_cycle.cycle as int,
        ),
        old(nes).spec_rendering_enabled(),
    ensures
        p == (Pixel {
            x: (old(nes).ppu.current_cycle.cycle - 1) as usize,
            y: old(nes).ppu.current_cycle.scanline,
            color: pipeline::spec_pixel_color(
                *old(nes),
                old(nes).ppu.current_cycle.cycle - 1,
            ),
        }),
        *final(nes) == (NES {
            ppu: crate::state::ppu::PPUState {
                status: crate::state::ppu::mapped_registers::PPUSTATUS {
                    sprite0_hit: old(nes).ppu.status.sprite0_hit || spec_sprite0_hit_at(
                        *old(nes),
                        old(nes).ppu.current_cycle.cycle - 1,
                    ),
                    ..old(nes).ppu.status
                },
                ..old(nes).ppu
            },
            ..*old(nes)
        }),
        final(nes).wf(),
{
    let tick: usize = nes.get_cycle();
    let scanline: usize = nes.get_scanline();
    let col: usize = tick - 1;
    let bg_on: bool = nes.should_render_background();
    let sp_on: bool = nes.should_render_sprites();
    let bg: u8 = if bg_on && (col >= 8 || nes.ppu.mask.register & 0x02 != 0) {
        bg_palette_index(&nes.ppu.background, nes.get_fine_x())
    } else {
        0
    };
    let sp: Option<SpritePixel> = if sp_on && (col >= 8 || nes.ppu.mask.register & 0x04 != 0) {
        sprite_sample(&nes.ppu.sprites.slots, nes.ppu.sprites.sprite0_line, col)
    } else {
        Option::None
    };
    let bg_opaque: bool = bg & 3 != 0;
    let idx: u8 = match sp {
        Option::None => {
            if bg_opaque {
                bg
            } else {
                0
            }
        },
        Option::Some(spx) => {
            if !bg_opaque {
                0x10 + spx.palette * 4 + spx.pattern
            } else if spx.behind {
                bg
            } else {
                0x10 + spx.palette * 4 + spx.pattern
            }
        },
    };
    let hit: bool = bg_on && sp_on && col != 255 && bg_opaque && (match sp {
        Option::Some(spx) => spx.sprite0,
        Option::None => false,
    });
    if hit {
        nes.trigger_sprite_zero();
    }
    let pbyte: u8 = nes.get(0x3F00 + idx as u16);
    Pixel { x: col, y: scanline, color: palette::nes_color(pbyte) }
}

/// The background fetch this dot performs, applied to the machine's
/// current latches: the nametable byte at phase 2 of the fetch group, the
/// attribute pair at phase 4, the pattern planes at phases 6 and 0;
/// nothing on other dots or while the pipeline is idle.
pub open spec fn spec_bg_fetch_step(s: NES) -> BackgroundPipeline {
    let sl = s.ppu.current_cycle.scanline as int;
    let t = s.ppu.current_cycle.cycle as int;
    let v = s.ppu.internal_registers.v;
    let bg = s.ppu.background;
    if !(s.spec_rendering_enabled() && spec_should_run_background(sl, t)) {
        bg
    } else if t % 8 == 2 {
        BackgroundPipeline { nt_latch: s.spec_ppu_get(0x2000 | (v & 0x0FFF)), ..bg }
    } else if t % 8 == 4 {
        BackgroundPipeline {
            at_latch: ({
                let byte = s.spec_ppu_get(
                    0x23C0 | (v & 0x0C00) | ((v >> 4) & 0x38) | ((v >> 2) & 0x07),
                );
                ((byte as u16) >> background_evaluation::spec_attr_shift(v)) as u8 & 3
            }),
            ..bg
        }
    } else if t % 8 == 6 {
        BackgroundPipeline {
            low_latch: s.spec_ppu_get(
                (s.ppu.ctrl.spec_background_pattern_table_addr() + bg.nt_latch * 16
                    + s.ppu.internal_registers.spec_fine_y()) as u16,
            ),
            ..bg
        }
    } else if t % 8 == 0 {
        BackgroundPipeline {
            high_latch: s.spec_ppu_get(
                (s.ppu.ctrl.spec_background_pattern_table_addr() + bg.nt_latch * 16 + 8
                    + s.ppu.internal_registers.spec_fine_y()) as u16,
            ),
            ..bg
        }
    } else {
        bg
    }
}

/// Secondary OAM after this dot's sprite step: cleared to $FF at the
/// evaluation restart, extended by one in-range sprite's four bytes on an
/// evaluation dot with a free slot, untouched otherwise.
pub open spec fn spec_secondary_step(s: NES) -> Seq<u8> {
    let sl = s.ppu.current_cycle.scanline as int;
    let t = s.ppu.current_cycle.cycle as int;
    if s.spec_rendering_enabled() && spec_should_reload_sprites(sl, t) {
        Seq::new(0x20, |i: int| 0xFFu8)
    } else if s.spec_rendering_enabled() && spec_is_eval_dot(sl, t) && s.spec_sprite_in_range(
        spec_eval_index(t),
    ) && s.ppu.sprites.count < 8 {
        let c = s.ppu.sprites.count as int;
        let n = spec_eval_index(t);
        s.ppu.oam.secondary@.update(4 * c, s.ppu.oam.memory@[4 * n]).update(
            4 * c + 1,
            s.ppu.oam.memory@[4 * n + 1],
        ).update(4 * c + 2, s.ppu.oam.memory@[4 * n + 2]).update(
            4 * c + 3,
            s.ppu.oam.memory@[4 * n + 3],
        )
    } else {
        s.ppu.oam.secondary@
    }
}

/// The sprite rendering slots after this dot's sprite step: one slot
/// filled on a fetch dot, untouched otherwise.
pub open spec fn spec_sprite_slots_step(s: NES) -> Seq<crate::state::ppu::pipeline::SpriteSlot> {
    let sl = s.ppu.current_cycle.scanline as int;
    let t = s.ppu.current_cycle.cycle as int;
    if s.spec_rendering_enabled() && spec_is_sprite_fetch_dot(sl, t) {
        s.ppu.sprites.slots@.update(spec_fetch_index(t), s.spec_slot_value(spec_fetch_index(t)))
    } else {
        s.ppu.sprites.slots@
    }
}

/// The evaluated-sprite count after this dot's sprite step.
pub open spec fn spec_sprite_count_step(s: NES) -> u8 {
    let sl = s.ppu.current_cycle.scanline as int;
    let t = s.ppu.current_cycle.cycle as int;
    if s.spec_rendering_enabled() && spec_should_reload_sprites(sl, t) {
        0
    } else if s.spec_rendering_enabled() && spec_is_eval_dot(sl, t) && s.spec_sprite_in_range(
        spec_eval_index(t),
    ) && s.ppu.sprites.count < 8 {
        (s.ppu.sprites.count + 1) as u8
    } else {
        s.ppu.sprites.count
    }
}

/// The evaluation-side sprite-0 mark after this dot's sprite step.
pub open spec fn spec_sprite0_next_step(s: NES) -> bool {
    let sl = s.ppu.current_cycle.scanline as int;
    let t = s.ppu.current_cycle.cycle as int;
    if s.spec_rendering_enabled() && spec_should_reload_sprites(sl, t) {
        false
    } else if s.spec_rendering_enabled() && spec_is_eval_dot(sl, t) && s.spec_sprite_in_range(
        spec_eval_index(t),
    ) && s.ppu.sprites.count < 8 {
        s.ppu.sprites.sprite0_next || spec_eval_index(t) == 0
    } else {
        s.ppu.sprites.sprite0_next
    }
}

/// The rendering-side sprite-0 mark after this dot's sprite step: it takes
/// the evaluation-side mark when the first slot is fetched.
pub open spec fn spec_sprite0_line_step(s: NES) -> bool {
    let sl = s.ppu.current_cycle.scanline as int;
    let t = s.ppu.current_cycle.cycle as int;
    if s.spec_rendering_enabled() && spec_is_sprite_fetch_dot(sl, t) && spec_fetch_index(t) == 0 {
        s.ppu.sprites.sprite0_next
    } else {
        s.ppu.sprites.sprite0_line
    }
}

/// The shift step of this dot: the background shift registers advance,
/// and on a reload dot the latched tile loads in behind them.
fn shift_phase(nes: &mut NES)
    requires
        old(nes).wf(),
    ensures
        *final(nes) == (NES {
            ppu: crate::state::ppu::PPUState {
                background: spec_bg_at_pixel(*old(nes)),
                ..old(nes).ppu
            },
            ..*old(nes)
        }),
        final(nes).wf(),
{
    let scanline: usize = nes.get_scanline();
    let tick: usize = nes.get_cycle();
    let rendering: bool = nes.should_render_background() || nes.should_render_sprites();
    if rendering && should_shift_background(scanline, tick) {
        nes.bg_shift();
        if tick % 8 == 1 {
            nes.bg_reload();
        }
    }
}

/// The fetch step of this dot: on fetch dots the pipeline's nametable,
/// attribute and pattern fetches run, and at each tile boundary coarse X
/// advances. Only the background latches and `v` move.
fn fetch_phase(nes: &mut NES)
    requires
        old(nes).wf(),
    ensures
        *final(nes) == (NES {
            ppu: crate::state::ppu::PPUState {
                background: spec_bg_fetch_step(*old(nes)),
                internal_registers: InternalRegisters {
                    v: ({
                        let sl = old(nes).ppu.current_cycle.scanline as int;
                        let t = old(nes).ppu.current_cycle.cycle as int;
                        if old(nes).spec_rendering_enabled() && spec_should_run_background(sl, t)
                            && t % 8 == 0 {
                            InternalRegisters::spec_increment_x(old(nes).ppu.internal_registers.v)
                        } else {
                            old(nes).ppu.internal_registers.v
                        }
                    }),
                    ..old(nes).ppu.internal_registers
                },
                ..old(nes).ppu
            },
            ..*old(nes)
        }),
        final(nes).wf(),
{
    let scanline: usize = nes.get_scanline();
    let tick: usize = nes.get_cycle();
    let rendering: bool = nes.should_render_background() || nes.should_render_sprites();
    if rendering && should_run_background(scanline, tick) {
        let phase: usize = tick % 8;
        if phase == 2 {
            nes.bg_fetch_nametable();
        } else if phase == 4 {
            nes.bg_fetch_attribute();
        } else if phase == 6 {
            nes.bg_fetch_pattern_low();
        } else if phase == 0 {
            nes.bg_fetch_pattern_high();
            nes.increment_x();
        }
    }
}

/// The sprite step of this dot: the evaluation restart, the per-sprite
/// evaluation and the per-slot fetches at their dots. Only secondary OAM,
/// the sprite pipeline and the overflow flag move, and each of them moves
/// exactly as the step functions say.
fn sprite_phase(nes: &mut NES)
    requires
        old(nes).wf(),
    ensures
        *final(nes) == (NES {
            ppu: crate::state::ppu::PPUState {
                oam: crate::state::ppu::oam::OAM {
                    secondary: final(nes).ppu.oam.secondary,
                    ..old(nes).ppu.oam
                },
                sprites: final(nes).ppu.sprites,
                status: crate::state::ppu::mapped_registers::PPUSTATUS {
                    sprite_overflow: old(nes).ppu.status.sprite_overflow || spec_overflow_raised(
                        *old(nes),
                    ),
                    ..old(nes).ppu.status
                },
                ..old(nes).ppu
            },
            ..*old(nes)
        }),
        final(nes).ppu.oam.secondary@ == spec_secondary_step(*old(nes)),
        final(nes).ppu.sprites.slots@ == spec_sprite_slots_step(*old(nes)),
        final(nes).ppu.sprites.count == spec_sprite_count_step(*old(nes)),
        final(nes).ppu.sprites.sprite0_next == spec_sprite0_next_step(*old(nes)),
        final(nes).ppu.sprites.sprite0_line == spec_sprite0_line_step(*old(nes)),
        final(nes).wf(),
{
    let scanline: usize = nes.get_scanline();
    let tick: usize = nes.get_cycle();
    let rendering: bool = nes.should_render_background() || nes.should_render_sprites();
    if rendering && should_run_sprites(scanline, tick) {
        if tick == 1 {
            nes.clear_secondary_oam();
        } else if 65 <= tick && tick <= 254 && (tick - 65) % 3 == 0 {
            nes.evaluate_sprite((tick - 65) / 3);
        } else if 257 <= tick && tick <= 313 && (tick - 257) % 8 == 0 {
            nes.load_sprite_slot((tick - 257) / 8);
        }
    }
}

/// The closing step of this dot: the Y increment and the scroll-bit
/// reloads at their dots, the vertical-blank transitions, the pre-render
/// flag clears, and the move to the next dot.
#[verifier::rlimit(50)]
fn tail_phase(nes: &mut NES)
    requires
        old(nes).wf(),
    ensures
        final(nes).wf(),
        final(nes).ppu.current_cycle == spec_next_cycle(
            old(nes).ppu.current_cycle,
            old(nes).spec_rendering_enabled(),
        ),
        final(nes).ppu.status.vblank == ({
            let sl = old(nes).ppu.current_cycle.scanline as int;
            let t = old(nes).ppu.current_cycle.cycle as int;
            if spec_should_clear_flags(sl, t) {
                false
            } else if spec_should_set_vblank(sl, t) {
                true
            } else {
                old(nes).ppu.status.vblank
            }
        }),
        final(nes).ppu.status.sprite0_hit == ({
            let sl = old(nes).ppu.current_cycle.scanline as int;
            let t = old(nes).ppu.current_cycle.cycle as int;
            if spec_should_clear_flags(sl, t) {
                false
            } else {
                old(nes).ppu.status.sprite0_hit
            }
        }),
        final(nes).ppu.status.sprite_overflow == ({
            let sl = old(nes).ppu.current_cycle.scanline as int;
            let t = old(nes).ppu.current_cycle.cycle as int;
            if spec_should_clear_flags(sl, t) {
                false
            } else {
                old(nes).ppu.status.sprite_overflow
            }
        }),
        final(nes).cpu == (CPUState {
            pending_interrupt: ({
                let sl = old(nes).ppu.current_cycle.scanline as int;
                let t = old(nes).ppu.current_cycle.cycle as int;
                if spec_should_set_vblank(sl, t) && old(nes).ppu.ctrl.spec_should_output_nmi() {
                    InterruptState::NMI
                } else {
                    old(nes).cpu.pending_interrupt
                }
            }),
            ..old(nes).cpu
        }),
        final(nes).ppu.internal_registers == (InternalRegisters {
            v: ({
                let sl = old(nes).ppu.current_cycle.scanline as int;
                let t = old(nes).ppu.current_cycle.cycle as int;
                let v = old(nes).ppu.internal_registers.v;
                let treg = old(nes).ppu.internal_registers.t;
                if !old(nes).spec_rendering_enabled() {
                    v
                } else {
                    let v2 = if spec_should_increment_y(sl, t) {
                        InternalRegisters::spec_increment_y(v)
                    } else {
                        v
                    };
                    let v3 = if spec_should_reset_x(sl, t) {
                        InternalRegisters::spec_reset_x(v2, treg)
                    } else {
                        v2
                    };
                    if spec_should_reset_y(sl, t) {
                        InternalRegisters::spec_reset_y(v3, treg)
                    } else {
                        v3
                    }
                }
            }),
            ..old(nes).ppu.internal_registers
        }),
        final(nes).ppu.ctrl == old(nes).ppu.ctrl,
        final(nes).ppu.mask == old(nes).ppu.mask,
        final(nes).ppu.ram == old(nes).ppu.ram,
        final(nes).ppu.oam.memory == old(nes).ppu.oam.memory,
        final(nes).ppu.oam.addr == old(nes).ppu.oam.addr,
        final(nes).ppu.oam.secondary == old(nes).ppu.oam.secondary,
        final(nes).ppu.background == old(nes).ppu.background,
        final(nes).ppu.data_buffer == old(nes).ppu.data_buffer,
        final(nes).ppu.open_bus == old(nes).ppu.open_bus,
        final(nes).cartridge == old(nes).cartridge,
        final(nes).apu == old(nes).apu,
        final(nes).io == old(nes).io,
        final(nes).ppu.sprites.slots@ == ({
            let sl = old(nes).ppu.current_cycle.scanline as int;
            let t = old(nes).ppu.current_cycle.cycle as int;
            if spec_should_clear_flags(sl, t) {
                Seq::new(8, |i: int| crate::state::ppu::pipeline::SpriteSlot::spec_empty())
            } else {
                old(nes).ppu.sprites.slots@
            }
        }),
        final(nes).ppu.sprites.count == ({
            let sl = old(nes).ppu.current_cycle.scanline as int;
            let t = old(nes).ppu.current_cycle.cycle as int;
            if spec_should_clear_flags(sl, t) {
                0u8
            } else {
                old(nes).ppu.sprites.count
            }
        }),
        final(nes).ppu.sprites.sprite0_next == ({
            let sl = old(nes).ppu.current_cycle.scanline as int;
            let t = old(nes).ppu.current_cycle.cycle as int;
            if spec_should_clear_flags(sl, t) {
                false
            } else {
                old(nes).ppu.sprites.sprite0_next
            }
        }),
        final(nes).ppu.sprites.sprite0_line == ({
            let sl = old(nes).ppu.current_cycle.scanline as int;
            let t = old(nes).ppu.current_cycle.cycle as int;
            if spec_should_clear_flags(sl, t) {
                false
            } else {
                old(nes).ppu.sprites.sprite0_line
            }
        }),
{
    let scanline: usize = nes.get_scanline();
    let tick: usize = nes.get_cycle();
    let rendering: bool = nes.should_render_background() || nes.should_render_sprites();
    if rendering && should_increment_y(scanline, tick) {
        nes.increment_y();
    }
    if rendering && should_reset_x(scanline, tick) {
        nes.reset_x();
    }
    if rendering && should_reset_y(scanline, tick) {
        nes.reset_y();
    }
    if should_set_vblank(scanline, tick) {
        nes.start_vblank();
    }
    if should_clear_flags(scanline, tick) {
        nes.end_vlbank();
        nes.clear_sprite_zero();
        nes.clear_sprite_overflow();
        nes.deactivate_sprite_slots();
    }
    nes.update_cycle();
}

/// One PPU dot. The dot may emit a pixel; the background and sprite
/// pipelines take their per-dot steps (each step's own contract pins the
/// pipeline state exactly); the scroll address takes its rendering-time
/// increments; vertical blank rises at (241, 1) — handing the CPU an NMI
/// edge when the control register drives the line — and the three status
/// bits clear at (261, 1); and the timing position moves one dot forward.
#[verifier::rlimit(100)]
pub fn cycle(nes: &mut NES) -> (pixel: Option<Pixel>)
    requires
        old(nes).wf(),
    ensures
        final(nes).wf(),
        pixel == spec_cycle_pixel(*old(nes)),
        final(nes).ppu.current_cycle == spec_next_cycle(
            old(nes).ppu.current_cycle,
            old(nes).spec_rendering_enabled(),
        ),
        final(nes).ppu.status.vblank == ({
            let sl = old(nes).ppu.current_cycle.scanline as int;
            let t = old(nes).ppu.current_cycle.cycle as int;
            if spec_should_clear_flags(sl, t) {
                false
            } else if spec_should_set_vblank(sl, t) {
                true
            } else {
                old(nes).ppu.status.vblank
            }
        }),
        final(nes).ppu.status.sprite0_hit == ({
            let sl = old(nes).ppu.current_cycle.scanline as int;
            let t = old(nes).ppu.current_cycle.cycle as int;
            if spec_should_clear_flags(sl, t) {
                false
            } else {
                old(nes).ppu.status.sprite0_hit || spec_hit_raised(*old(nes))
            }
        }),
        final(nes).ppu.status.sprite_overflow == ({
            let sl = old(nes).ppu.current_cycle.scanline as int;
            let t = old(nes).ppu.current_cycle.cycle as int;
            if spec_should_clear_flags(sl, t) {
                false
            } else {
                old(nes).ppu.status.sprite_overflow || spec_overflow_raised(*old(nes))
            }
        }),
        final(nes).cpu == (CPUState {
            pending_interrupt: ({
                let sl = old(nes).ppu.current_cycle.scanline as int;
                let t = old(nes).ppu.current_cycle.cycle as int;
                if spec_should_set_vblank(sl, t)
                    && old(nes).ppu.ctrl.spec_should_output_nmi() {
                    InterruptState::NMI
                } else {
                    old(nes).cpu.pending_interrupt
                }
            }),
            ..old(nes).cpu
        }),
        final(nes).ppu.internal_registers == (InternalRegisters {
            v: spec_v_after_cycle(*old(nes)),
            ..old(nes).ppu.internal_registers
        }),
        final(nes).ppu.ctrl == old(nes).ppu.ctrl,
        final(nes).ppu.mask == old(nes).ppu.mask,
        final(nes).ppu.ram == old(nes).ppu.ram,
        final(nes).ppu.oam.memory == old(nes).ppu.oam.memory,
        final(nes).ppu.oam.addr == old(nes).ppu.oam.addr,
        final(nes).ppu.data_buffer == old(nes).ppu.data_buffer,
        final(nes).ppu.open_bus == old(nes).ppu.open_bus,
        final(nes).cartridge == old(nes).cartridge,
        final(nes).apu == old(nes).apu,
        final(nes).io == old(nes).io,
        final(nes).ppu.background == spec_bg_fetch_step(spec_at_pixel(*old(nes))),
        final(nes).ppu.oam.secondary@ == spec_secondary_step(*old(nes)),
        final(nes).ppu.sprites.slots@ == ({
            let sl = old(nes).ppu.current_cycle.scanline as int;
            let t = old(nes).ppu.current_cycle.cycle as int;
            if spec_should_clear_flags(sl, t) {
                Seq::new(8, |i: int| crate::state::ppu::pipeline::SpriteSlot::spec_empty())
            } else {
                spec_sprite_slots_step(*old(nes))
            }
        }),
        final(nes).ppu.sprites.count == ({
            let sl = old(nes).ppu.current_cycle.scanline as int;
            let t = old(nes).ppu.current_cycle.cycle as int;
            if spec_should_clear_flags(sl, t) {
                0u8
            } else {
                spec_sprite_count_step(*old(nes))
            }
        }),
        final(nes).ppu.sprites.sprite0_next == ({
            let sl = old(nes).ppu.current_cycle.scanline as int;
            let t = old(nes).ppu.current_cycle.cycle as int;
            if spec_should_clear_flags(sl, t) {
                false
            } else {
                spec_sprite0_next_step(*old(nes))
            }
        }),
        final(nes).ppu.sprites.sprite0_line == ({
            let sl = old(nes).ppu.current_cycle.scanline as int;
            let t = old(nes).ppu.current_cycle.cycle as int;
            if spec_should_clear_flags(sl, t) {
                false
            } else {
                spec_sprite0_line_step(*old(nes))
            }
        }),
{
    let scanline: usize = nes.get_scanline();
    let tick: usize = nes.get_cycle();
    let rendering: bool = nes.should_render_background() || nes.should_render_sprites();

    if tick == 0 {
        nes.update_cycle();
        return Option::None;
    }
    shift_phase(nes);
    let mut pixel: Option<Pixel> = Option::None;
    if should_output_pixel(scanline, tick) && rendering {
        pixel = Option::Some(render_pixel(nes));
    }
    fetch_phase(nes);
    sprite_phase(nes);
    tail_phase(nes);
    pixel
}

} // verus!
