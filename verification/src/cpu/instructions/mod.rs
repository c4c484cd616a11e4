pub mod adc;
pub mod clf;
pub mod ldr;
pub mod ror;
pub mod sbc;
pub mod sef;

use crate::state::NES;
use vstd::prelude::*;

verus! {

/// The unsigned sum an add-with-carry forms: both operands plus the
/// incoming carry.
pub open spec fn spec_adc_sum(a: u8, m: u8, c: bool) -> int {
    a + m + (if c {
        1int
    } else {
        0int
    })
}

/// The accumulator after an add-with-carry: the sum, truncated to a byte.
pub open spec fn spec_adc_result(a: u8, m: u8, c: bool) -> u8 {
    (spec_adc_sum(a, m, c) % 256) as u8
}

/// The carry flag after an add-with-carry: the sum left the byte.
pub open spec fn spec_adc_carry(a: u8, m: u8, c: bool) -> bool {
    spec_adc_sum(a, m, c) > 255
}

/// The signed-overflow flag of an addition: the result's sign differs
/// from the accumulator's while the operand shares the accumulator's sign.
pub open spec fn spec_overflow_bit(a: u8, m: u8, r: u8) -> bool {
    ((r ^ a) & !(m ^ a)) & 0x80 != 0
}

/// After any instruction, bit 5 of the status word reads 1: every
/// instruction's contract keeps the machine well-formed, and a well-formed
/// machine has that bit set.
pub proof fn lemma_status_bit5_reads_one(s: NES)
    requires
        s.wf(),
    ensures
        s.cpu.p & 0x20 == 0x20,
{
}

} // verus!
