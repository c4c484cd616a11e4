use crate::cpu::variables::{lemma_flag_mask_avoids_bit5, Flag};
use crate::state::cpu::{lemma_p_bit5_ops, CPUState, Registers};
use crate::state::NES;
use vstd::prelude::*;

verus! {

/// The status word after one flag assignment: the flag's bit takes `val`,
/// every other bit is untouched.
pub open spec fn spec_assign_flag(p: u8, mask: u8, val: bool) -> u8 {
    if val {
        p | mask
    } else {
        p & !mask
    }
}

impl NES {
    pub open spec fn spec_is_flag_set(&self, flag: Flag) -> bool {
        self.cpu.p & flag.spec_mask() != 0
    }
}

impl Registers for NES {
    fn get_a(&self) -> (r: u8)
        ensures
            r == self.cpu.a,
    {
        self.cpu.a
    }

    fn get_x(&self) -> (r: u8)
        ensures
            r == self.cpu.x,
    {
        self.cpu.x
    }

    fn get_y(&self) -> (r: u8)
        ensures
            r == self.cpu.y,
    {
        self.cpu.y
    }

    fn get_pc(&self) -> (r: u16)
        ensures
            r == self.cpu.pc,
    {
        self.cpu.pc
    }

    /// The high byte of the program counter.
    fn get_pch(&self) -> (r: u8)
        ensures
            r == self.cpu.pc >> 8,
    {
        proof {
            let pc = self.cpu.pc;
            assert(pc >> 8 < 256 && pc >> 8 == (pc >> 8) as u8) by (bit_vector);
        }
        (self.cpu.pc >> 8) as u8
    }

    /// The low byte of the program counter.
    fn get_pcl(&self) -> (r: u8)
        ensures
            r == self.cpu.pc & 0xFF,
    {
        proof {
            let pc = self.cpu.pc;
            assert(pc & 0xFF < 256 && pc & 0xFF == (pc & 0xFF) as u8) by (bit_vector);
        }
        (self.cpu.pc & 0xFF) as u8
    }

    fn get_s(&self) -> (r: u8)
        ensures
            r == self.cpu.s,
    {
        self.cpu.s
    }

    fn get_p(&self) -> (r: u8)
        ensures
            r == self.cpu.p,
    {
        self.cpu.p
    }

    fn set_a(&mut self, val: u8)
        ensures
            *final(self) == (NES { cpu: CPUState { a: val, ..old(self).cpu }, ..*old(self) }),
    {
        self.cpu.a = val;
    }

    fn set_x(&mut self, val: u8)
        ensures
            *final(self) == (NES { cpu: CPUState { x: val, ..old(self).cpu }, ..*old(self) }),
    {
        self.cpu.x = val;
    }

    fn set_y(&mut self, val: u8)
        ensures
            *final(self) == (NES { cpu: CPUState { y: val, ..old(self).cpu }, ..*old(self) }),
    {
        self.cpu.y = val;
    }

    fn set_pc(&mut self, val: u16)
        ensures
            *final(self) == (NES { cpu: CPUState { pc: val, ..old(self).cpu }, ..*old(self) }),
    {
        self.cpu.pc = val;
    }

    fn set_pch(&mut self, val: u8)
        ensures
            *final(self) == (NES {
                cpu: CPUState {
                    pc: (old(self).cpu.pc & 0x00FF) | ((val as u16) << 8),
                    ..old(self).cpu
                },
                ..*old(self)
            }),
    {
        self.cpu.pc = (self.cpu.pc & 0x00FF) | ((val as u16) << 8);
    }

    fn set_pcl(&mut self, val: u8)
        ensures
            *final(self) == (NES {
                cpu: CPUState { pc: (old(self).cpu.pc & 0xFF00) | (val as u16), ..old(self).cpu },
                ..*old(self)
            }),
    {
        self.cpu.pc = (self.cpu.pc & 0xFF00) | (val as u16);
    }

    fn set_s(&mut self, val: u8)
        ensures
            *final(self) == (NES { cpu: CPUState { s: val, ..old(self).cpu }, ..*old(self) }),
    {
        self.cpu.s = val;
    }

    /// Writes the status word. Bit 5 belongs to no flag and always reads 1,
    /// so it is forced on whatever was written.
    fn set_p(&mut self, val: u8)
        ensures
            *final(self) == (NES {
                cpu: CPUState { p: val | 0x20, ..old(self).cpu },
                ..*old(self)
            }),
            final(self).cpu.p & 0x20 == 0x20,
    {
        proof {
            lemma_p_bit5_ops(val, 0);
        }
        self.cpu.p = val | 0x20;
    }

    /// Advances the program counter by one, wrapping at the top of the
    /// address space.
    fn increment_pc(&mut self)
        ensures
            *final(self) == (NES {
                cpu: CPUState {
                    pc: ((old(self).cpu.pc + 1) % 0x10000) as u16,
                    ..old(self).cpu
                },
                ..*old(self)
            }),
    {
        if self.cpu.pc == 0xFFFF {
            self.cpu.pc = 0;
        } else {
            self.cpu.pc = self.cpu.pc + 1;
        }
    }

    fn is_flag_set(&self, flag: Flag) -> (r: bool)
        ensures
            r == self.spec_is_flag_set(flag),
    {
        self.cpu.p & flag.mask() != 0
    }

    /// If `val` is true, the flag is set. Otherwise, the flag is cleared.
    /// No flag owns bit 5 of the status word, so it keeps reading 1.
    fn assign_flag(&mut self, flag: Flag, val: bool)
        ensures
            *final(self) == (NES {
                cpu: CPUState {
                    p: spec_assign_flag(old(self).cpu.p, flag.spec_mask(), val),
                    ..old(self).cpu
                },
                ..*old(self)
            }),
            old(self).cpu.p & 0x20 == 0x20 ==> final(self).cpu.p & 0x20 == 0x20,
    {
        proof {
            lemma_flag_mask_avoids_bit5(flag);
            lemma_p_bit5_ops(self.cpu.p, flag.spec_mask());
        }
        let m: u8 = flag.mask();
        if val {
            self.cpu.p = self.cpu.p | m;
        } else {
            self.cpu.p = self.cpu.p & !m;
        }
    }

    fn set_flag(&mut self, flag: Flag)
        ensures
            *final(self) == (NES {
                cpu: CPUState {
                    p: spec_assign_flag(old(self).cpu.p, flag.spec_mask(), true),
                    ..old(self).cpu
                },
                ..*old(self)
            }),
            old(self).cpu.p & 0x20 == 0x20 ==> final(self).cpu.p & 0x20 == 0x20,
    {
        self.assign_flag(flag, true);
    }

    fn clear_flag(&mut self, flag: Flag)
        ensures
            *final(self) == (NES {
                cpu: CPUState {
                    p: spec_assign_flag(old(self).cpu.p, flag.spec_mask(), false),
                    ..old(self).cpu
                },
                ..*old(self)
            }),
            old(self).cpu.p & 0x20 == 0x20 ==> final(self).cpu.p & 0x20 == 0x20,
    {
        self.assign_flag(flag, false);
    }
}

} // verus!
