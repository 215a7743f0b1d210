//! The mathematical model of the instruction set: decoding, addressing-mode
//! resolution, flag updates, cycle costs, and the per-instruction state
//! transition that `CPU::execute` is proved to implement.
//!
//! Addresses are modeled as mathematical integers in `[0, 0x10000)`;
//! register and address arithmetic wraps modulo 256 and modulo 65536,
//! matching the hardware's silent wraparound.

use vstd::prelude::*;

use crate::cpu::{CPU, Flags};

verus! {

/// A destination register of a load or increment operation.
pub enum Reg {
    A,
    X,
    Y,
}

/// How an instruction's trailing bytes are turned into an effective
/// address or operand value.
pub enum AddrMode {
    Immediate,
    ZeroPage,
    ZeroPageX,
    ZeroPageY,
    Absolute,
    AbsoluteX,
    AbsoluteY,
    IndirectX,
    IndirectY,
}

/// An operation paired with the addressing mode the opcode selects.
pub enum Instr {
    Load(Reg, AddrMode),
    JumpAbsolute,
    JumpIndirect,
    Increment(Reg),
}

/// 8-bit wraparound: reduces a value modulo 256.
pub open spec fn wrap8(v: int) -> int {
    v % 0x100
}

/// 16-bit wraparound: reduces a value modulo 65536.
pub open spec fn wrap16(a: int) -> int {
    a % 0x10000
}

/// The page an address lies in: its high byte.
pub open spec fn page_of(a: int) -> int {
    a / 0x100
}

/// The 16-bit little-endian word stored at `a` (low byte first); the
/// high-byte read wraps around the end of the address space.
pub open spec fn word_at(m: Seq<u8>, a: int) -> int {
    m[a] + 0x100 * m[wrap16(a + 1)]
}

/// Maps an opcode byte to its operation and addressing mode; an opcode
/// absent from the table decodes to `None` and is a fault.
pub open spec fn spec_decode(opcode: u8) -> Option<Instr> {
    if opcode == crate::instructions::LDA_IMM {
        Some(Instr::Load(Reg::A, AddrMode::Immediate))
    } else if opcode == crate::instructions::LDA_ZP {
        Some(Instr::Load(Reg::A, AddrMode::ZeroPage))
    } else if opcode == crate::instructions::LDA_ZPX {
        Some(Instr::Load(Reg::A, AddrMode::ZeroPageX))
    } else if opcode == crate::instructions::LDA_ABS {
        Some(Instr::Load(Reg::A, AddrMode::Absolute))
    } else if opcode == crate::instructions::LDA_ABSX {
        Some(Instr::Load(Reg::A, AddrMode::AbsoluteX))
    } else if opcode == crate::instructions::LDA_ABSY {
        Some(Instr::Load(Reg::A, AddrMode::AbsoluteY))
    } else if opcode == crate::instructions::LDA_INDX {
        Some(Instr::Load(Reg::A, AddrMode::IndirectX))
    } else if opcode == crate::instructions::LDA_INDY {
        Some(Instr::Load(Reg::A, AddrMode::IndirectY))
    } else if opcode == crate::instructions::LDX_IMM {
        Some(Instr::Load(Reg::X, AddrMode::Immediate))
    } else if opcode == crate::instructions::LDX_ZP {
        Some(Instr::Load(Reg::X, AddrMode::ZeroPage))
    } else if opcode == crate::instructions::LDX_ZPY {
        Some(Instr::Load(Reg::X, AddrMode::ZeroPageY))
    } else if opcode == crate::instructions::LDX_ABS {
        Some(Instr::Load(Reg::X, AddrMode::Absolute))
    } else if opcode == crate::instructions::LDX_ABSY {
        Some(Instr::Load(Reg::X, AddrMode::AbsoluteY))
    } else if opcode == crate::instructions::LDY_IMM {
        Some(Instr::Load(Reg::Y, AddrMode::Immediate))
    } else if opcode == crate::instructions::LDY_ZP {
        Some(Instr::Load(Reg::Y, AddrMode::ZeroPage))
    } else if opcode == crate::instructions::LDY_ZPX {
        Some(Instr::Load(Reg::Y, AddrMode::ZeroPageX))
    } else if opcode == crate::instructions::LDY_ABS {
        Some(Instr::Load(Reg::Y, AddrMode::Absolute))
    } else if opcode == crate::instructions::LDY_ABSX {
        Some(Instr::Load(Reg::Y, AddrMode::AbsoluteX))
    } else if opcode == crate::instructions::JMP_ABS {
        Some(Instr::JumpAbsolute)
    } else if opcode == crate::instructions::JMP_IND {
        Some(Instr::JumpIndirect)
    } else if opcode == crate::instructions::INX_IMP {
        Some(Instr::Increment(Reg::X))
    } else if opcode == crate::instructions::INY_IMP {
        Some(Instr::Increment(Reg::Y))
    } else {
        None
    }
}

/// How many operand bytes the mode consumes from the instruction stream.
pub open spec fn operand_len(mode: AddrMode) -> int {
    match mode {
        AddrMode::Immediate => 1,
        AddrMode::ZeroPage => 1,
        AddrMode::ZeroPageX => 1,
        AddrMode::ZeroPageY => 1,
        AddrMode::Absolute => 2,
        AddrMode::AbsoluteX => 2,
        AddrMode::AbsoluteY => 2,
        AddrMode::IndirectX => 1,
        AddrMode::IndirectY => 1,
    }
}

/// The effective address the mode resolves to, with `pc` at the first
/// operand byte. An immediate operand is read from the instruction
/// stream itself, so its "address" is `pc`. Zero-page indexing wraps
/// within `[0x00, 0xFF]`; absolute and post-indirect indexing wrap
/// within the 16-bit space.
pub open spec fn effective_addr(mode: AddrMode, m: Seq<u8>, pc: int, x: u8, y: u8) -> int {
    match mode {
        AddrMode::Immediate => pc,
        AddrMode::ZeroPage => m[pc] as int,
        AddrMode::ZeroPageX => wrap8(m[pc] + x),
        AddrMode::ZeroPageY => wrap8(m[pc] + y),
        AddrMode::Absolute => word_at(m, pc),
        AddrMode::AbsoluteX => wrap16(word_at(m, pc) + x),
        AddrMode::AbsoluteY => wrap16(word_at(m, pc) + y),
        AddrMode::IndirectX => word_at(m, wrap8(m[pc] + x)),
        AddrMode::IndirectY => wrap16(word_at(m, m[pc] as int) + y),
    }
}

/// Whether the mode's index addition crossed a page boundary, charging
/// one extra cycle: true exactly when adding the index register changed
/// the address's high byte.
pub open spec fn crossing_penalty(mode: AddrMode, m: Seq<u8>, pc: int, x: u8, y: u8) -> bool {
    match mode {
        AddrMode::AbsoluteX => page_of(word_at(m, pc)) != page_of(effective_addr(mode, m, pc, x, y)),
        AddrMode::AbsoluteY => page_of(word_at(m, pc)) != page_of(effective_addr(mode, m, pc, x, y)),
        AddrMode::IndirectY => page_of(word_at(m, m[pc] as int)) != page_of(
            effective_addr(mode, m, pc, x, y),
        ),
        _ => false,
    }
}

/// The base cycle cost of a load instruction with the given mode, before
/// any page-crossing penalty.
pub open spec fn load_base_cycles(mode: AddrMode) -> int {
    match mode {
        AddrMode::Immediate => 2,
        AddrMode::ZeroPage => 3,
        AddrMode::ZeroPageX => 4,
        AddrMode::ZeroPageY => 4,
        AddrMode::Absolute => 4,
        AddrMode::AbsoluteX => 4,
        AddrMode::AbsoluteY => 4,
        AddrMode::IndirectX => 6,
        AddrMode::IndirectY => 5,
    }
}

/// The named register's value.
pub open spec fn reg_of(c: CPU, r: Reg) -> u8 {
    match r {
        Reg::A => c.A,
        Reg::X => c.X,
        Reg::Y => c.Y,
    }
}

/// The CPU with the named register replaced and all else unchanged.
pub open spec fn set_reg(c: CPU, r: Reg, v: u8) -> CPU {
    match r {
        Reg::A => CPU { A: v, ..c },
        Reg::X => CPU { X: v, ..c },
        Reg::Y => CPU { Y: v, ..c },
    }
}

/// The status register after a load or increment stores `v`: Zero is
/// true iff `v` is 0, Negative is true iff bit 7 of `v` is set, and
/// every other flag keeps its value.
pub open spec fn flags_after_load(f: Flags, v: u8) -> Flags {
    Flags { Zero: v == 0, Negative: v & 0x80 != 0, ..f }
}

/// All seven status flags cleared.
pub open spec fn flags_cleared() -> Flags {
    Flags {
        Carry: false,
        Zero: false,
        InterruptDisable: false,
        DecimalMode: false,
        Break: false,
        Overflow: false,
        Negative: false,
    }
}

/// One load instruction, with `c.PC` at the opcode byte: skip the opcode,
/// resolve the mode's effective address, store the byte found there
/// unmodified into the destination register, set Zero/Negative from the
/// stored value, and charge the base cycles plus any crossing penalty.
pub open spec fn load_step(c: CPU, m: Seq<u8>, r: Reg, mode: AddrMode) -> (CPU, u8) {
    let pc1 = wrap16(c.PC + 1);
    let v = m[effective_addr(mode, m, pc1, c.X, c.Y)];
    let cycles = load_base_cycles(mode) + if crossing_penalty(mode, m, pc1, c.X, c.Y) {
        1int
    } else {
        0int
    };
    (
        CPU {
            PC: wrap16(pc1 + operand_len(mode)) as u16,
            Status: flags_after_load(c.Status, v),
            ..set_reg(c, r, v)
        },
        cycles as u8,
    )
}

/// The target of an indirect jump through the pointer stored at `ptr`,
/// reproducing the hardware's page-wrap fetch quirk: when the pointer's
/// low byte is 0xFF the target's high byte is read from the start of the
/// same page, not from the next page.
pub open spec fn indirect_target(m: Seq<u8>, ptr: int) -> int {
    let hi = if ptr % 0x100 == 0xFF {
        m[0x100 * page_of(ptr)]
    } else {
        m[ptr + 1]
    };
    m[ptr] + 0x100 * hi
}

/// One absolute jump, with `c.PC` at the opcode byte: PC becomes the
/// 16-bit little-endian operand; 3 cycles.
pub open spec fn jmp_abs_step(c: CPU, m: Seq<u8>) -> (CPU, u8) {
    (CPU { PC: word_at(m, wrap16(c.PC + 1)) as u16, ..c }, 3)
}

/// One indirect jump, with `c.PC` at the opcode byte: the operand word
/// locates a pointer, and PC becomes the word stored there (with the
/// page-wrap fetch quirk); 5 cycles.
pub open spec fn jmp_ind_step(c: CPU, m: Seq<u8>) -> (CPU, u8) {
    (CPU { PC: indirect_target(m, word_at(m, wrap16(c.PC + 1))) as u16, ..c }, 5)
}

/// One register increment, with `c.PC` at the opcode byte: the register
/// is incremented with 8-bit wraparound and Zero/Negative are set from
/// the new value; 2 cycles.
pub open spec fn increment_step(c: CPU, r: Reg) -> (CPU, u8) {
    let v = wrap8(reg_of(c, r) + 1) as u8;
    (
        CPU {
            PC: wrap16(c.PC + 1) as u16,
            Status: flags_after_load(c.Status, v),
            ..set_reg(c, r, v)
        },
        2,
    )
}

/// The full state transition of one decoded instruction, with `c.PC` at
/// the opcode byte: the next CPU state and the cycles consumed. Only
/// meaningful when the opcode at `c.PC` decodes; an undecodable opcode
/// leaves the state unchanged at the executable level and is reported
/// as a fault there.
pub open spec fn spec_step(c: CPU, m: Seq<u8>) -> (CPU, u8) {
    match spec_decode(m[c.PC as int]) {
        Some(Instr::Load(r, mode)) => load_step(c, m, r, mode),
        Some(Instr::JumpAbsolute) => jmp_abs_step(c, m),
        Some(Instr::JumpIndirect) => jmp_ind_step(c, m),
        Some(Instr::Increment(r)) => increment_step(c, r),
        None => (c, 0),
    }
}

} // verus!
