//! Proved laws of the instruction semantics: the flag discipline of loads
//! and increments, zero-page index wraparound, the page-crossing cycle
//! penalty, and the indirect-jump page-wrap fetch quirk.

use vstd::prelude::*;

use crate::cpu::CPU;
use crate::model::{
    effective_addr, indirect_target, load_base_cycles, page_of, reg_of, spec_decode, spec_step,
    word_at, wrap16, wrap8, AddrMode, Instr,
};

verus! {

/// For every load operation: the destination register receives the
/// operand byte unmodified (index registers offset only the address,
/// never the loaded value), Zero is true iff the stored value is 0,
/// Negative is true iff bit 7 of the stored value is set, and every
/// other flag keeps its value.
pub proof fn lemma_load_zero_negative(c: CPU, m: Seq<u8>)
    requires
        spec_decode(m[c.PC as int]) matches Some(Instr::Load(_, _)),
    ensures
        spec_decode(m[c.PC as int]) matches Some(Instr::Load(r, mode)) ==> {
            let c2 = spec_step(c, m).0;
            let v = m[effective_addr(mode, m, wrap16(c.PC + 1), c.X, c.Y)];
            &&& reg_of(c2, r) == v
            &&& (c2.Status.Zero <==> v == 0)
            &&& (c2.Status.Negative <==> v & 0x80 != 0)
            &&& c2.Status.Carry == c.Status.Carry
            &&& c2.Status.InterruptDisable == c.Status.InterruptDisable
            &&& c2.Status.DecimalMode == c.Status.DecimalMode
            &&& c2.Status.Break == c.Status.Break
            &&& c2.Status.Overflow == c.Status.Overflow
            &&& c2.SP == c.SP
        },
{
}

/// Zero-page indexed addressing wraps within the zero page: the
/// effective address is the base byte plus the index reduced modulo
/// 256, so it always stays in [0x00, 0xFF] and never carries into the
/// high byte.
pub proof fn lemma_zero_page_indexed_wraps(mode: AddrMode, m: Seq<u8>, pc: int, x: u8, y: u8)
    requires
        mode is ZeroPageX || mode is ZeroPageY,
    ensures
        effective_addr(mode, m, pc, x, y) == wrap8(
            m[pc] + if mode is ZeroPageX { x } else { y },
        ),
        0 <= effective_addr(mode, m, pc, x, y) < 0x100,
{
}

/// Absolute-indexed addressing charges one extra cycle exactly when
/// adding the index register changes the address's high byte.
pub proof fn lemma_absolute_indexed_extra_cycle(c: CPU, m: Seq<u8>)
    requires
        spec_decode(m[c.PC as int]) matches Some(Instr::Load(_, mode)) && (mode is AbsoluteX
            || mode is AbsoluteY),
    ensures
        spec_decode(m[c.PC as int]) matches Some(Instr::Load(_, mode)) ==> {
            let base = word_at(m, wrap16(c.PC + 1));
            let eff = wrap16(base + if mode is AbsoluteX { c.X } else { c.Y });
            spec_step(c, m).1 == load_base_cycles(mode) + if page_of(base) != page_of(eff) {
                1int
            } else {
                0int
            }
        },
{
}

/// The indirect-jump pointer fetch reproduces the hardware's page-wrap
/// quirk: whenever the pointer's low byte is 0xFF, the target's high
/// byte is read from the start of the pointer's own page, not from the
/// next page.
pub proof fn lemma_indirect_jump_page_wrap(m: Seq<u8>, ptr: int)
    requires
        0 <= ptr < 0x10000,
        ptr % 0x100 == 0xFF,
    ensures
        0x100 * page_of(ptr) == ptr - 0xFF,
        indirect_target(m, ptr) == m[ptr] + 0x100 * m[ptr - 0xFF],
{
}

/// Incrementing an index register wraps 0xFF to 0x00 and then sets Zero
/// true and Negative false; in general the new value is the old value
/// plus one modulo 256, Zero and Negative follow the stored value, and
/// every other flag keeps its value.
pub proof fn lemma_increment_wraps(c: CPU, m: Seq<u8>)
    requires
        spec_decode(m[c.PC as int]) matches Some(Instr::Increment(_)),
    ensures
        spec_decode(m[c.PC as int]) matches Some(Instr::Increment(r)) ==> {
            let c2 = spec_step(c, m).0;
            let v = wrap8(reg_of(c, r) + 1) as u8;
            &&& reg_of(c2, r) == v
            &&& (c2.Status.Zero <==> v == 0)
            &&& (c2.Status.Negative <==> v & 0x80 != 0)
            &&& c2.Status.Carry == c.Status.Carry
            &&& c2.Status.InterruptDisable == c.Status.InterruptDisable
            &&& c2.Status.DecimalMode == c.Status.DecimalMode
            &&& c2.Status.Break == c.Status.Break
            &&& c2.Status.Overflow == c.Status.Overflow
            &&& (reg_of(c, r) == 0xFF ==> reg_of(c2, r) == 0 && c2.Status.Zero
                && !c2.Status.Negative)
        },
{
    assert(0u8 & 0x80 == 0) by (bit_vector);
}

} // verus!
