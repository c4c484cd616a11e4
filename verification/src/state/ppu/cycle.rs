use crate::state::cpu::{CPUState, Interrupt};
use crate::state::ppu::cycle_status::CycleStatus;
use crate::state::ppu::internal_registers::InternalRegisters;
use crate::state::ppu::mapped_registers::PPUSTATUS;
use crate::state::ppu::{Cycle, PPUState, VBlank};
use crate::state::NES;
use vstd::prelude::*;

verus! {

/// The timing position one dot later. A scanline has dots 0-340 and a
/// frame scanlines 0-261; finishing the last scanline flips the odd-frame
/// flag. On an odd frame with rendering enabled, the last dot of the
/// pre-render scanline is skipped: dot 339 of scanline 261 jumps straight
/// to dot 0 of scanline 0.
pub open spec fn spec_next_cycle(cs: CycleStatus, rendering: bool) -> CycleStatus {
    if rendering && cs.is_odd_frame && cs.scanline == 261 && cs.cycle == 339 {
        CycleStatus { cycle: 0, scanline: 0, is_odd_frame: !cs.is_odd_frame }
    } else if cs.cycle == 340 {
        if cs.scanline == 261 {
            CycleStatus { cycle: 0, scanline: 0, is_odd_frame: !cs.is_odd_frame }
        } else {
            CycleStatus { cycle: 0, scanline: (cs.scanline + 1) as usize, ..cs }
        }
    } else {
        CycleStatus { cycle: (cs.cycle + 1) as usize, ..cs }
    }
}

/// The timing position `n` dots later.
pub open spec fn spec_advance(cs: CycleStatus, rendering: bool, n: nat) -> CycleStatus
    decreases n,
{
    if n == 0 {
        cs
    } else {
        spec_advance(spec_next_cycle(cs, rendering), rendering, (n - 1) as nat)
    }
}

/// How many dots one frame takes: 262 scanlines of 341 dots, one fewer on
/// an odd frame with rendering enabled.
pub open spec fn spec_frame_dots(rendering: bool, odd: bool) -> nat {
    if rendering && odd {
        (262 * 341 - 1) as nat
    } else {
        (262 * 341) as nat
    }
}

/// Advancing one more dot is one step past the advance so far.
proof fn lemma_advance_snoc(cs: CycleStatus, rendering: bool, n: nat)
    ensures
        spec_advance(cs, rendering, n + 1) == spec_next_cycle(
            spec_advance(cs, rendering, n),
            rendering,
        ),
    decreases n,
{
    if n == 0 {
        assert(spec_advance(spec_next_cycle(cs, rendering), rendering, 0) == spec_next_cycle(
            cs,
            rendering,
        ));
        assert(spec_advance(cs, rendering, 1) == spec_next_cycle(cs, rendering));
    } else {
        lemma_advance_snoc(spec_next_cycle(cs, rendering), rendering, (n - 1) as nat);
        assert(spec_advance(cs, rendering, n + 1) == spec_advance(
            spec_next_cycle(cs, rendering),
            rendering,
            n,
        ));
        assert(spec_advance(cs, rendering, n) == spec_advance(
            spec_next_cycle(cs, rendering),
            rendering,
            (n - 1) as nat,
        ));
    }
}

/// Counting dots from the top of a frame: dot index `k` stands at scanline
/// `k / 341`, dot `k % 341`, until the frame's last index lands back on
/// (0, 0) with the odd-frame flag flipped.
proof fn lemma_frame_position(rendering: bool, odd: bool, k: nat)
    requires
        k <= spec_frame_dots(rendering, odd),
    ensures
        ({
            let start = CycleStatus { cycle: 0, scanline: 0, is_odd_frame: odd };
            &&& (k < spec_frame_dots(rendering, odd) ==> spec_advance(start, rendering, k)
                == CycleStatus {
                cycle: (k % 341) as usize,
                scanline: (k / 341) as usize,
                is_odd_frame: odd,
            })
            &&& (k == spec_frame_dots(rendering, odd) ==> spec_advance(start, rendering, k)
                == CycleStatus { cycle: 0, scanline: 0, is_odd_frame: !odd })
        }),
    decreases k,
{
    let start = CycleStatus { cycle: 0, scanline: 0, is_odd_frame: odd };
    if k > 0 {
        let j = (k - 1) as nat;
        lemma_frame_position(rendering, odd, j);
        lemma_advance_snoc(start, rendering, j);
        let c = j % 341;
        let sl = j / 341;
        vstd::arithmetic::div_mod::lemma_fundamental_div_mod(j as int, 341);
        if c == 340 {
            vstd::arithmetic::div_mod::lemma_fundamental_div_mod_converse(
                k as int,
                341,
                sl as int + 1,
                0,
            );
        } else {
            vstd::arithmetic::div_mod::lemma_fundamental_div_mod_converse(
                k as int,
                341,
                sl as int,
                c as int + 1,
            );
        }
    }
}

/// After one frame the timing position returns to where the frame began:
/// a frame of 262 * 341 dots, less the one dot an odd frame skips when
/// rendering is enabled, leads from (0, 0) back to (0, 0) with the
/// odd-frame flag flipped.
pub proof fn lemma_frame_period(rendering: bool, odd: bool)
    ensures
        spec_advance(
            CycleStatus { cycle: 0, scanline: 0, is_odd_frame: odd },
            rendering,
            spec_frame_dots(rendering, odd),
        ) == (CycleStatus { cycle: 0, scanline: 0, is_odd_frame: !odd }),
{
    lemma_frame_position(rendering, odd, spec_frame_dots(rendering, odd));
}

/// Advancing in two legs is advancing by the legs' sum.
proof fn lemma_advance_add(cs: CycleStatus, rendering: bool, m: nat, n: nat)
    ensures
        spec_advance(cs, rendering, m + n) == spec_advance(
            spec_advance(cs, rendering, m),
            rendering,
            n,
        ),
    decreases m,
{
    if m == 0 {
        assert(spec_advance(cs, rendering, 0) == cs);
    } else {
        lemma_advance_add(spec_next_cycle(cs, rendering), rendering, (m - 1) as nat, n);
        assert(spec_advance(cs, rendering, m + n) == spec_advance(
            spec_next_cycle(cs, rendering),
            rendering,
            (m + n - 1) as nat,
        ));
        assert(spec_advance(cs, rendering, m) == spec_advance(
            spec_next_cycle(cs, rendering),
            rendering,
            (m - 1) as nat,
        ));
    }
}

/// The frame period from any dot of the grid: one frame of dots — 262*341,
/// one fewer when rendering is enabled and the frame is odd — leads from
/// any (scanline, dot) back to the same (scanline, dot), with the
/// odd-frame flag flipped. The one spot this cannot hold of is dot 340 of
/// the pre-render line while rendering is enabled: odd frames skip that
/// dot, so it recurs only every other frame.
pub proof fn lemma_frame_period_any_start(rendering: bool, cs: CycleStatus)
    requires
        cs.wf(),
        !(rendering && cs.scanline == 261 && cs.cycle == 340),
    ensures
        spec_advance(cs, rendering, spec_frame_dots(rendering, cs.is_odd_frame))
            == (CycleStatus { is_odd_frame: !cs.is_odd_frame, ..cs }),
{
    let o = cs.is_odd_frame;
    let i = (cs.scanline * 341 + cs.cycle) as nat;
    let n = spec_frame_dots(rendering, o);
    let start = CycleStatus { cycle: 0, scanline: 0, is_odd_frame: o };
    let start2 = CycleStatus { cycle: 0, scanline: 0, is_odd_frame: !o };
    vstd::arithmetic::div_mod::lemma_fundamental_div_mod_converse(
        i as int,
        341,
        cs.scanline as int,
        cs.cycle as int,
    );
    lemma_frame_position(rendering, o, i);
    assert(spec_advance(start, rendering, i) == cs);
    lemma_frame_period(rendering, o);
    lemma_advance_add(start, rendering, i, n);
    lemma_advance_add(start, rendering, n, i);
    lemma_frame_position(rendering, !o, i);
    assert(spec_advance(cs, rendering, n) == spec_advance(start2, rendering, i));
}

impl NES {
    /// Whether either rendering bit of the mask register is on.
    pub open spec fn spec_rendering_enabled(&self) -> bool {
        self.ppu.mask.spec_should_render_background()
            || self.ppu.mask.spec_should_render_sprites()
    }

    pub fn should_render_background(&self) -> (r: bool)
        ensures
            r == self.ppu.mask.spec_should_render_background(),
    {
        self.ppu.mask.should_render_background()
    }

    pub fn should_render_sprites(&self) -> (r: bool)
        ensures
            r == self.ppu.mask.spec_should_render_sprites(),
    {
        self.ppu.mask.should_render_sprites()
    }

}

impl Cycle for NES {
    /// Every timing step leans on the machine's well-formedness.
    open spec fn cycle_inv(&self) -> bool {
        self.wf()
    }

    /// Moves the timing position one dot forward.
    fn update_cycle(&mut self)
        ensures
            *final(self) == (NES {
                ppu: PPUState {
                    current_cycle: spec_next_cycle(
                        old(self).ppu.current_cycle,
                        old(self).spec_rendering_enabled(),
                    ),
                    ..old(self).ppu
                },
                ..*old(self)
            }),
            final(self).wf(),
    {
        let rendering: bool = self.should_render_background() || self.should_render_sprites();
        let cs: CycleStatus = self.ppu.current_cycle;
        if rendering && cs.is_odd_frame && cs.scanline == 261 && cs.cycle == 339 {
            self.ppu.current_cycle = CycleStatus {
                cycle: 0,
                scanline: 0,
                is_odd_frame: !cs.is_odd_frame,
            };
        } else if cs.cycle == 340 {
            if cs.scanline == 261 {
                self.ppu.current_cycle = CycleStatus {
                    cycle: 0,
                    scanline: 0,
                    is_odd_frame: !cs.is_odd_frame,
                };
            } else {
                self.ppu.current_cycle = CycleStatus { cycle: 0, scanline: cs.scanline + 1, ..cs };
            }
        } else {
            self.ppu.current_cycle = CycleStatus { cycle: cs.cycle + 1, ..cs };
        }
    }

    fn get_scanline(&self) -> (r: usize)
        ensures
            r == self.ppu.current_cycle.scanline,
    {
        self.ppu.current_cycle.scanline
    }

    fn get_cycle(&self) -> (r: usize)
        ensures
            r == self.ppu.current_cycle.cycle,
    {
        self.ppu.current_cycle.cycle
    }

}

impl NES {
    /// The fine horizontal scroll (0..=7).
    pub fn get_fine_x(&self) -> (r: u8)
        requires
            self.wf(),
        ensures
            r == self.ppu.internal_registers.x,
            r < 8,
    {
        self.ppu.internal_registers.x
    }

    /// Rendering-time coarse-X advance of `v`.
    pub fn increment_x(&mut self)
        requires
            old(self).wf(),
        ensures
            *final(self) == (NES {
                ppu: PPUState {
                    internal_registers: InternalRegisters {
                        v: InternalRegisters::spec_increment_x(old(self).ppu.internal_registers.v),
                        ..old(self).ppu.internal_registers
                    },
                    ..old(self).ppu
                },
                ..*old(self)
            }),
            final(self).wf(),
    {
        self.ppu.internal_registers.increment_x();
    }

    /// Rendering-time Y advance of `v`.
    pub fn increment_y(&mut self)
        requires
            old(self).wf(),
        ensures
            *final(self) == (NES {
                ppu: PPUState {
                    internal_registers: InternalRegisters {
                        v: InternalRegisters::spec_increment_y(old(self).ppu.internal_registers.v),
                        ..old(self).ppu.internal_registers
                    },
                    ..old(self).ppu
                },
                ..*old(self)
            }),
            final(self).wf(),
    {
        self.ppu.internal_registers.increment_y();
    }

    /// Copies the horizontal scroll bits of `t` back into `v`.
    pub fn reset_x(&mut self)
        requires
            old(self).wf(),
        ensures
            *final(self) == (NES {
                ppu: PPUState {
                    internal_registers: InternalRegisters {
                        v: InternalRegisters::spec_reset_x(
                            old(self).ppu.internal_registers.v,
                            old(self).ppu.internal_registers.t,
                        ),
                        ..old(self).ppu.internal_registers
                    },
                    ..old(self).ppu
                },
                ..*old(self)
            }),
            final(self).wf(),
    {
        self.ppu.internal_registers.reset_x();
    }

    /// Copies the vertical scroll bits of `t` back into `v`.
    pub fn reset_y(&mut self)
        requires
            old(self).wf(),
        ensures
            *final(self) == (NES {
                ppu: PPUState {
                    internal_registers: InternalRegisters {
                        v: InternalRegisters::spec_reset_y(
                            old(self).ppu.internal_registers.v,
                            old(self).ppu.internal_registers.t,
                        ),
                        ..old(self).ppu.internal_registers
                    },
                    ..old(self).ppu
                },
                ..*old(self)
            }),
            final(self).wf(),
    {
        self.ppu.internal_registers.reset_y();
    }

}

impl VBlank for NES {
    /// Enters vertical blank: the status bit rises, and if the control
    /// register drives the NMI line, the CPU receives the edge.
    fn start_vblank(&mut self)
        ensures
            *final(self) == (NES {
                ppu: PPUState {
                    status: PPUSTATUS { vblank: true, ..old(self).ppu.status },
                    ..old(self).ppu
                },
                cpu: CPUState {
                    pending_interrupt: if old(self).ppu.ctrl.spec_should_output_nmi() {
                        crate::state::cpu::InterruptState::NMI
                    } else {
                        old(self).cpu.pending_interrupt
                    },
                    ..old(self).cpu
                },
                ..*old(self)
            }),
    {
        self.ppu.status.vblank = true;
        if self.ppu.ctrl.should_output_nmi() {
            self.trigger_nmi();
        }
    }

    /// Leaves vertical blank: the status bit falls.
    fn end_vlbank(&mut self)
        ensures
            *final(self) == (NES {
                ppu: PPUState {
                    status: PPUSTATUS { vblank: false, ..old(self).ppu.status },
                    ..old(self).ppu
                },
                ..*old(self)
            }),
    {
        self.ppu.status.vblank = false;
    }

}

impl NES {
    /// Raises the sprite-0 hit status bit.
    pub fn trigger_sprite_zero(&mut self)
        ensures
            *final(self) == (NES {
                ppu: PPUState {
                    status: PPUSTATUS { sprite0_hit: true, ..old(self).ppu.status },
                    ..old(self).ppu
                },
                ..*old(self)
            }),
    {
        self.ppu.status.sprite0_hit = true;
    }

    pub fn clear_sprite_zero(&mut self)
        ensures
            *final(self) == (NES {
                ppu: PPUState {
                    status: PPUSTATUS { sprite0_hit: false, ..old(self).ppu.status },
                    ..old(self).ppu
                },
                ..*old(self)
            }),
    {
        self.ppu.status.sprite0_hit = false;
    }

    /// Raises the sprite-overflow status bit.
    pub fn trigger_sprite_overflow(&mut self)
        ensures
            *final(self) == (NES {
                ppu: PPUState {
                    status: PPUSTATUS { sprite_overflow: true, ..old(self).ppu.status },
                    ..old(self).ppu
                },
                ..*old(self)
            }),
    {
        self.ppu.status.sprite_overflow = true;
    }

    pub fn clear_sprite_overflow(&mut self)
        ensures
            *final(self) == (NES {
                ppu: PPUState {
                    status: PPUSTATUS { sprite_overflow: false, ..old(self).ppu.status },
                    ..old(self).ppu
                },
                ..*old(self)
            }),
    {
        self.ppu.status.sprite_overflow = false;
    }
}

} // verus!
