use super::timer::Timer;
use vstd::prelude::*;

verus! {

/// The delta-modulation channel: a one-byte sample buffer feeds an 8-bit
/// shift register whose bits nudge a 7-bit output level up or down.
pub struct DMC {
    pub timer: Timer,
    pub irq_enable: bool,
    pub irq_pending: bool,
    pub irq_triggered: bool,
    pub loop_flag: bool,
    pub shift_register: u8,
    pub bits_remaining: usize,
    pub output_level: u8,
    pub silent: bool,
    pub sample_buffer: u8,
    pub sample_empty: bool,
    pub sample_addr: u16,
    pub cur_addr: u16,
    pub sample_length: u16,
    pub cur_length: u16,
}

/// The sample rates the four low bits of $4010 select, in CPU cycles per
/// output bit.
pub open spec fn spec_dmc_rate(idx: u8) -> u16 {
    if idx == 0 {
        428
    } else if idx == 1 {
        380
    } else if idx == 2 {
        340
    } else if idx == 3 {
        320
    } else if idx == 4 {
        286
    } else if idx == 5 {
        254
    } else if idx == 6 {
        226
    } else if idx == 7 {
        214
    } else if idx == 8 {
        190
    } else if idx == 9 {
        160
    } else if idx == 10 {
        142
    } else if idx == 11 {
        128
    } else if idx == 12 {
        106
    } else if idx == 13 {
        84
    } else if idx == 14 {
        72
    } else {
        54
    }
}

pub fn dmc_rate(idx: u8) -> (r: u16)
    requires
        idx < 16,
    ensures
        r == spec_dmc_rate(idx),
{
    if idx == 0 {
        428
    } else if idx == 1 {
        380
    } else if idx == 2 {
        340
    } else if idx == 3 {
        320
    } else if idx == 4 {
        286
    } else if idx == 5 {
        254
    } else if idx == 6 {
        226
    } else if idx == 7 {
        214
    } else if idx == 8 {
        190
    } else if idx == 9 {
        160
    } else if idx == 10 {
        142
    } else if idx == 11 {
        128
    } else if idx == 12 {
        106
    } else if idx == 13 {
        84
    } else if idx == 14 {
        72
    } else {
        54
    }
}

impl DMC {
    /// The shift register always has between 1 and 8 bits left to play,
    /// and the output level stays inside its 7 bits.
    pub open spec fn wf(&self) -> bool {
        &&& 1 <= self.bits_remaining <= 8
        &&& self.output_level <= 127
    }

    pub open spec fn spec_new() -> Self {
        DMC {
            timer: Timer { counter: 0 },
            irq_enable: false,
            irq_pending: false,
            irq_triggered: false,
            loop_flag: false,
            shift_register: 0,
            bits_remaining: 8,
            output_level: 0,
            silent: false,
            sample_buffer: 0,
            sample_empty: true,
            sample_addr: 0,
            cur_addr: 0,
            sample_length: 0,
            cur_length: 0,
        }
    }

    pub fn new() -> (r: Self)
        ensures
            r == Self::spec_new(),
            r.wf(),
    {
        DMC {
            timer: Timer::new(),
            irq_enable: false,
            irq_pending: false,
            irq_triggered: false,
            loop_flag: false,
            shift_register: 0,
            bits_remaining: 8,
            output_level: 0,
            silent: false,
            sample_buffer: 0,
            sample_empty: true,
            sample_addr: 0,
            cur_addr: 0,
            sample_length: 0,
            cur_length: 0,
        }
    }

    /// One timer tick while the counter still runs only counts down; at
    /// zero the channel plays one shift-register bit: the output level
    /// moves by 2 toward the bit (saturating inside 0..=127) unless the
    /// channel is silent, and after the eighth bit the buffer refills the
    /// shift register, going silent if the buffer was empty.
    pub open spec fn spec_clock(self) -> Self {
        if self.timer.counter != 0 {
            DMC { timer: Timer { counter: (self.timer.counter - 1) as u16 }, ..self }
        } else {
            let level = if !self.silent {
                if self.shift_register & 1 == 1 && self.output_level <= 125 {
                    (self.output_level + 2) as u8
                } else if self.shift_register & 1 == 0 && self.output_level >= 2 {
                    (self.output_level - 2) as u8
                } else {
                    self.output_level
                }
            } else {
                self.output_level
            };
            let shifted = DMC {
                output_level: level,
                shift_register: self.shift_register >> 1,
                bits_remaining: (self.bits_remaining - 1) as usize,
                ..self
            };
            if shifted.bits_remaining == 0 {
                DMC {
                    bits_remaining: 8,
                    shift_register: self.sample_buffer,
                    silent: self.sample_empty,
                    sample_empty: true,
                    ..shifted
                }
            } else {
                shifted
            }
        }
    }

    pub fn clock(&mut self)
        requires
            old(self).wf(),
        ensures
            *final(self) == old(self).spec_clock(),
            final(self).wf(),
    {
        if !self.timer.is_zero() {
            self.timer.decrement();
            return ;
        }
        if !self.silent {
            if self.shift_register & 1 == 1 && self.output_level <= 125 {
                self.output_level = self.output_level + 2;
            } else if self.shift_register & 1 == 0 && self.output_level >= 2 {
                self.output_level = self.output_level - 2;
            }
        }
        self.shift_register = self.shift_register >> 1;
        self.bits_remaining = self.bits_remaining - 1;
        if self.bits_remaining == 0 {
            self.bits_remaining = 8;
            self.shift_register = self.sample_buffer;
            self.silent = self.sample_empty;
            self.sample_empty = true;
        }
    }

    pub fn get_volume(&self) -> (r: u8)
        ensures
            r == self.output_level,
    {
        self.output_level
    }

    /// The channel wants a DMA fetch when bytes remain in the sample and
    /// the one-byte buffer is empty.
    pub fn is_dma_active(&self) -> (r: bool)
        ensures
            r == (self.cur_length > 0 && self.sample_empty),
    {
        self.cur_length > 0 && self.sample_empty
    }

    /// What accepting one fetched sample byte does: the buffer fills, the
    /// address advances (wrapping from $FFFF back to $8000, so it stays
    /// inside $8000-$FFFF) and the remaining length drops; on reaching
    /// zero a looping sample restarts, otherwise an enabled interrupt is
    /// raised.
    pub open spec fn spec_load_buffer(self, val: u8) -> Self {
        let stepped = DMC {
            sample_buffer: val,
            sample_empty: false,
            cur_addr: if self.cur_addr == 0xFFFF {
                0x8000
            } else {
                ((self.cur_addr + 1) as u16) | 0x8000
            },
            cur_length: (self.cur_length - 1) as u16,
            ..self
        };
        if stepped.cur_length == 0 && self.loop_flag {
            DMC { cur_length: self.sample_length, cur_addr: self.sample_addr, ..stepped }
        } else if stepped.cur_length == 0 && self.irq_enable {
            DMC { irq_pending: true, irq_triggered: true, ..stepped }
        } else {
            stepped
        }
    }

    pub fn load_buffer(&mut self, val: u8)
        requires
            old(self).cur_length >= 1,
        ensures
            *final(self) == old(self).spec_load_buffer(val),
    {
        self.sample_buffer = val;
        self.sample_empty = false;
        if self.cur_addr == 0xFFFF {
            self.cur_addr = 0x8000;
        } else {
            self.cur_addr = (self.cur_addr + 1) | 0x8000;
        }
        self.cur_length = self.cur_length - 1;
        if self.cur_length == 0 && self.loop_flag {
            self.cur_length = self.sample_length;
            self.cur_addr = self.sample_addr;
        } else if self.cur_length == 0 && self.irq_enable {
            self.irq_pending = true;
            self.irq_triggered = true;
        }
    }

    /// What a $4010 write does: bit 7 enables the end-of-sample interrupt
    /// (and clears a pending one when turned off), bit 6 sets looping, and
    /// the low four bits pick the timer rate.
    pub open spec fn spec_set_flags(self, val: u8) -> Self {
        DMC {
            irq_enable: val & 0x80 != 0,
            irq_pending: if val & 0x80 != 0 {
                self.irq_pending
            } else {
                false
            },
            loop_flag: val & 0x40 != 0,
            timer: Timer { counter: spec_dmc_rate(val & 0x0F) },
            ..self
        }
    }

    pub fn set_flags(&mut self, val: u8)
        ensures
            *final(self) == old(self).spec_set_flags(val),
    {
        self.irq_enable = val & 0x80 != 0;
        if !self.irq_enable {
            self.irq_pending = false;
        }
        self.loop_flag = val & 0x40 != 0;
        proof {
            assert(val & 0x0F < 16) by (bit_vector);
        }
        self.timer.set(dmc_rate(val & 0x0F));
    }

    /// A $4011 write sets the output level directly from the low 7 bits.
    pub fn set_output(&mut self, val: u8)
        ensures
            *final(self) == (DMC { output_level: val & 0x7F, ..*old(self) }),
            final(self).output_level <= 127,
    {
        proof {
            assert(val & 0x7F <= 127) by (bit_vector);
        }
        self.output_level = val & 0x7F;
    }

    /// A $4012 write places the sample start at $C000 + 64 times the
    /// written byte.
    pub fn set_addr(&mut self, val: u8)
        ensures
            *final(self) == (DMC { sample_addr: (0xC000 + (val as u16) * 64) as u16, ..*old(self) }),
    {
        self.sample_addr = 0xC000 + (val as u16) * 64;
    }

    /// A $4013 write sets the sample length to 16 times the written byte,
    /// plus one.
    pub fn set_length(&mut self, val: u8)
        ensures
            *final(self) == (DMC { sample_length: ((val as u16) * 16 + 1) as u16, ..*old(self) }),
    {
        self.sample_length = (val as u16) * 16 + 1;
    }
}

} // verus!
